//! A number guessing game: a secret number is drawn, and each guess is
//! answered with a hint until the secret is found.

use vstd::prelude::*;

verus! {

/// The answer to a guess.
#[derive(Clone, Copy, Debug, PartialEq, Eq, Structural)]
pub enum Hint {
    /// The guess is below the secret.
    TooSmall,
    /// The guess is above the secret.
    TooBig,
    /// The guess is the secret.
    Win,
}

/// A game in progress.
#[derive(Clone, Copy, Debug, PartialEq, Eq, Structural)]
pub struct Game {
    /// The number to find.
    pub secret: u32,
    /// The number of guesses made so far.
    pub tries: u32,
}

/// Draws a number from `start` up to, but not including, `end`.
///
/// Trusted: the body calls `Rng::gen_range` of `rand` on the thread-local
/// generator with the half-open range `start..end`. That function returns
/// a value of the range and panics on an empty range, which `requires`
/// leaves out. Which value it returns is left open.
#[verifier::external_body]
fn draw(start: u32, end: u32) -> (n: u32)
    requires
        start < end,
    ensures
        start <= n < end,
{
    rand::Rng::gen_range(&mut rand::thread_rng(), start..end)
}

/// The hint that a guess earns.
pub open spec fn hint_for(guess: u32, secret: u32) -> Hint {
    if guess < secret {
        Hint::TooSmall
    } else if guess > secret {
        Hint::TooBig
    } else {
        Hint::Win
    }
}

impl Game {
    /// Starts a game whose secret is drawn from `start` up to, but not
    /// including, `end`.
    pub fn new(start: u32, end: u32) -> (game: Game)
        requires
            start < end,
        ensures
            start <= game.secret < end,
            game.tries == 0,
    {
        Game { secret: draw(start, end), tries: 0 }
    }

    /// Counts a try and answers it. What was entered is a guess if it
    /// is a number, and earns a hint; anything else is counted and earns
    /// none.
    pub fn guess(&mut self, entered: Option<u32>) -> (hint: Option<Hint>)
        requires
            old(self).tries < u32::MAX,
        ensures
            hint == match entered {
                Some(guess) => Some(hint_for(guess, old(self).secret)),
                None => None,
            },
            final(self).secret == old(self).secret,
            final(self).tries == old(self).tries + 1,
    {
        self.tries = self.tries + 1;
        match entered {
            None => None,
            Some(guess) => if guess < self.secret {
                Some(Hint::TooSmall)
            } else if guess > self.secret {
                Some(Hint::TooBig)
            } else {
                Some(Hint::Win)
            },
        }
    }
}

/// Halving finds the secret: a guess in the middle of the numbers that
/// are still possible either wins or leaves fewer of them, by what its
/// hint says.
pub proof fn law_hint_narrows(low: u32, high: u32, guess: u32, secret: u32)
    requires
        low <= secret < high,
        low <= guess < high,
    ensures
        hint_for(guess, secret) == Hint::Win <==> guess == secret,
        hint_for(guess, secret) == Hint::TooSmall ==> guess + 1 <= secret < high,
        hint_for(guess, secret) == Hint::TooBig ==> low <= secret < guess,
{
}

} // verus!
