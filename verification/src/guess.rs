//! A number-guessing game: judging one guess, and guessing by halving.
use vstd::prelude::*;

verus! {

/// The verdict on a guess, as mathematics: 0 when it is the secret, 1 when
/// it is too high, -1 when it is too low.
pub open spec fn guess_verdict(guess: int, secret: int) -> int {
    if guess == secret {
        0
    } else if guess > secret {
        1
    } else {
        -1
    }
}

/// Judges a guess: 0 when it is the secret, 1 when it is too high, -1 when
/// it is too low.
pub fn check_guess(guess: i32, secret: i32) -> (verdict: i32)
    ensures
        verdict == guess_verdict(guess as int, secret as int),
{
    if guess == secret {
        0
    } else if guess > secret {
        1
    } else {
        -1
    }
}

/// The guesses that halving makes to find `secret` between `low` and
/// `high`: the midpoint, and on from there in the half that the verdict
/// leaves.
pub open spec fn guesses(secret: int, low: int, high: int) -> Seq<int>
    decreases high - low,
{
    if low <= secret <= high {
        let guess = (low + high) / 2;
        if guess == secret {
            seq![guess]
        } else if guess > secret {
            seq![guess] + guesses(secret, low, guess - 1)
        } else {
            seq![guess] + guesses(secret, guess + 1, high)
        }
    } else {
        Seq::empty()
    }
}

/// Halving finds the secret, with its last guess, and never takes more
/// guesses than there are candidates.
pub proof fn lemma_guesses_end_at_secret(secret: int, low: int, high: int)
    requires
        low <= secret <= high,
    ensures
        1 <= guesses(secret, low, high).len() <= high - low + 1,
        guesses(secret, low, high).last() == secret,
    decreases high - low,
{
    let guess = (low + high) / 2;
    if guess > secret {
        lemma_guesses_end_at_secret(secret, low, guess - 1);
    } else if guess < secret {
        lemma_guesses_end_at_secret(secret, guess + 1, high);
    }
}

/// The mathematical value of a list of guesses.
pub open spec fn guess_views(made: Seq<i32>) -> Seq<int> {
    made.map_values(|guess: i32| guess as int)
}

/// Plays the game by halving and returns the guesses in the order made; the
/// last one is the secret.  The secret has to lie between the bounds, and
/// the bounds between 0 and a thousand million, so that midpoints can be
/// computed.
pub fn play(secret: i32, low: i32, high: i32) -> (made: Vec<i32>)
    requires
        0 <= low <= secret <= high <= 1_000_000_000,
    ensures
        guess_views(made@) == guesses(secret as int, low as int, high as int),
        1 <= made@.len() <= high - low + 1,
        made@.last() == secret,
{
    let mut low: i32 = low;
    let mut high: i32 = high;
    let mut made: Vec<i32> = Vec::new();
    let ghost whole = guesses(secret as int, low as int, high as int);
    proof {
        lemma_guesses_end_at_secret(secret as int, low as int, high as int);
    }
    loop
        invariant_except_break
            guess_views(made@) + guesses(secret as int, low as int, high as int) == whole,
        invariant
            0 <= low <= secret <= high <= 1_000_000_000,
        ensures
            guess_views(made@) == whole,
        decreases high - low,
    {
        let guess: i32 = (low + high) / 2;
        let ghost before = guess_views(made@);
        made.push(guess);
        proof {
            assert(guess_views(made@) =~= before + seq![guess as int]);
        }
        let verdict = check_guess(guess, secret);
        if verdict == 0 {
            proof {
                assert(before + seq![guess as int] =~= whole);
            }
            break ;
        } else if verdict == 1 {
            proof {
                assert((before + seq![guess as int]) + guesses(
                    secret as int,
                    low as int,
                    guess - 1,
                ) =~= before + (seq![guess as int] + guesses(
                    secret as int,
                    low as int,
                    guess - 1,
                )));
            }
            high = guess - 1;
        } else {
            proof {
                assert((before + seq![guess as int]) + guesses(
                    secret as int,
                    guess + 1,
                    high as int,
                ) =~= before + (seq![guess as int] + guesses(
                    secret as int,
                    guess + 1,
                    high as int,
                )));
            }
            low = guess + 1;
        }
    }
    proof {
        assert(made@.len() == guess_views(made@).len());
        assert(guess_views(made@).last() == made@.last());
    }
    made
}

} // verus!
