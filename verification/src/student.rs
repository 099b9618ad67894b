//! A student record and the sentence with which a student introduces
//! themselves.
use vstd::prelude::*;
use vstd::string::StringExecFns;

verus! {

/// The degree that a student works towards.
#[derive(Clone, Copy, Debug, PartialEq, Eq, Structural)]
pub enum GradeLevel {
    Bachelor,
    Master,
    PhD,
}

/// The field that a student studies.
#[derive(Clone, Copy, Debug, PartialEq, Eq, Structural)]
pub enum Major {
    ComputerScience,
    ElectricalEngineering,
}

/// A student.
#[derive(Debug)]
pub struct Student {
    pub name: String,
    pub grade: GradeLevel,
    pub major: Major,
}

/// How a degree is written.
pub open spec fn grade_name(grade: GradeLevel) -> Seq<char> {
    match grade {
        GradeLevel::Bachelor => "Bachelor"@,
        GradeLevel::Master => "Master"@,
        GradeLevel::PhD => "PhD"@,
    }
}

/// How a field is written.
pub open spec fn major_name(major: Major) -> Seq<char> {
    match major {
        Major::ComputerScience => "Computer Science"@,
        Major::ElectricalEngineering => "Electrical Engineering"@,
    }
}

/// The sentence of introduction.
pub open spec fn introduction(name: Seq<char>, grade: GradeLevel, major: Major) -> Seq<char> {
    "My name is "@ + name + ". I am a "@ + grade_name(grade) + " student, with a degree in "@
        + major_name(major) + "."@
}

impl Student {
    /// A student with the given name, degree and field.
    pub fn new(name: String, grade: GradeLevel, major: Major) -> (student: Student)
        ensures
            student.name == name,
            student.grade == grade,
            student.major == major,
    {
        Student { name: name, grade: grade, major: major }
    }

    /// The sentence with which the student introduces themselves.
    pub fn introduce_yourself(&self) -> (sentence: String)
        ensures
            sentence@ == introduction(self.name@, self.grade, self.major),
    {
        let grade = match &self.grade {
            GradeLevel::Bachelor => "Bachelor",
            GradeLevel::Master => "Master",
            GradeLevel::PhD => "PhD",
        };
        let major = match &self.major {
            Major::ComputerScience => "Computer Science",
            Major::ElectricalEngineering => "Electrical Engineering",
        };
        let mut sentence = String::from_str("My name is ");
        sentence.append(self.name.as_str());
        sentence.append(". I am a ");
        sentence.append(grade);
        sentence.append(" student, with a degree in ");
        sentence.append(major);
        sentence.append(".");
        sentence
    }
}

} // verus!
