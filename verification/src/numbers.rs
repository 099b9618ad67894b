//! Small exercises on whole numbers: parity, the Fizz-Buzz labels, sums and
//! maxima of lists.
use vstd::prelude::*;

verus! {

/// Whether `n` is divisible by `d`, for whole numbers of either sign.
pub open spec fn divides(d: int, n: int) -> bool {
    n % d == 0
}

/// Whether `n` is even.
pub fn is_even(n: i32) -> (even: bool)
    ensures
        even == divides(2, n as int),
{
    n % 2 == 0
}

/// The label that the Fizz-Buzz game gives a number.
#[derive(Clone, Copy, Debug, PartialEq, Eq, Structural)]
pub enum FizzBuzz {
    /// Divisible by three and by five.
    FizzBuzz,
    /// Divisible by three only.
    Fizz,
    /// Divisible by five only.
    Buzz,
    /// Divisible by neither.
    Plain,
}

/// The label of `n`, as mathematics.
pub open spec fn fizz_buzz_label(n: int) -> FizzBuzz {
    if divides(3, n) && divides(5, n) {
        FizzBuzz::FizzBuzz
    } else if divides(3, n) {
        FizzBuzz::Fizz
    } else if divides(5, n) {
        FizzBuzz::Buzz
    } else {
        FizzBuzz::Plain
    }
}

/// The Fizz-Buzz label of `n`.
pub fn fizz_buzz(n: i32) -> (label: FizzBuzz)
    ensures
        label == fizz_buzz_label(n as int),
{
    if n % 3 == 0 && n % 5 == 0 {
        FizzBuzz::FizzBuzz
    } else if n % 3 == 0 {
        FizzBuzz::Fizz
    } else if n % 5 == 0 {
        FizzBuzz::Buzz
    } else {
        FizzBuzz::Plain
    }
}

/// The sum of a list of numbers.
pub open spec fn sum_of(numbers: Seq<i32>) -> int
    decreases numbers.len(),
{
    if numbers.len() == 0 {
        0
    } else {
        sum_of(numbers.drop_last()) + numbers.last()
    }
}

/// Adds up `numbers` from the front.  `None` when a running sum leaves the
/// range of `i32` on the way; otherwise the sum.
pub fn sum(numbers: &[i32]) -> (sum: Option<i32>)
    ensures
        sum matches Some(s) ==> s == sum_of(numbers@),
        sum is None <==> exists|k: int|
            0 <= k <= numbers@.len() && !(i32::MIN <= #[trigger] sum_of(numbers@.take(k))
                <= i32::MAX),
{
    let mut sum: i32 = 0;
    let mut i: usize = 0;
    while i < numbers.len()
        invariant
            i <= numbers@.len(),
            sum == sum_of(numbers@.take(i as int)),
            forall|k: int|
                0 <= k <= i ==> i32::MIN <= #[trigger] sum_of(numbers@.take(k)) <= i32::MAX,
        decreases numbers@.len() - i,
    {
        proof {
            assert(numbers@.take(i + 1).drop_last() =~= numbers@.take(i as int));
        }
        match sum.checked_add(numbers[i]) {
            Some(next) => {
                sum = next;
            },
            None => {
                proof {
                    assert(!(i32::MIN <= sum_of(numbers@.take(i + 1)) <= i32::MAX));
                }
                return None;
            },
        }
        i = i + 1;
    }
    proof {
        assert(numbers@.take(i as int) =~= numbers@);
    }
    Some(sum)
}

/// The largest of `numbers`: one of them, and none is larger.  `None` for an
/// empty list.
pub fn largest(numbers: &[i32]) -> (largest: Option<i32>)
    ensures
        largest is None <==> numbers@.len() == 0,
        largest matches Some(top) ==> numbers@.contains(top) && forall|i: int|
            0 <= i < numbers@.len() ==> numbers@[i] <= top,
{
    if numbers.len() == 0 {
        return None;
    }
    let mut largest: i32 = numbers[0];
    let mut i: usize = 1;
    while i < numbers.len()
        invariant
            1 <= i <= numbers@.len(),
            numbers@.contains(largest),
            forall|k: int| 0 <= k < i ==> numbers@[k] <= largest,
        decreases numbers@.len() - i,
    {
        if numbers[i] > largest {
            largest = numbers[i];
        }
        i = i + 1;
    }
    Some(largest)
}

} // verus!
