//! A number-guessing session: a target drawn from 1..=100, guesses parsed
//! from text lines, ordering feedback, and termination on an exact match.

use vstd::prelude::*;

verus! {

use crate::parse::parse_guess;
use crate::parse::parse_guess_spec;
use vstd::string::StringSliceAdditionalSpecFns;

/// Feedback for one successfully parsed guess: how it compares to the target.
#[derive(Debug, Clone, Copy, PartialEq, Eq, Structural)]
pub enum Feedback {
    TooSmall,
    TooBig,
    Win,
}

/// The feedback a guess earns against a target: its place in the ordering.
pub open spec fn feedback_for(guess: u32, target: u32) -> Feedback {
    if guess < target {
        Feedback::TooSmall
    } else if guess > target {
        Feedback::TooBig
    } else {
        Feedback::Win
    }
}

/// Relies on rand::random_range: a value sampled uniformly from the given
/// range, here the non-empty range 1..=100, so the result lies within it.
#[verifier::external_body]
fn draw_target() -> (r: u32)
    ensures
        1 <= r <= 100,
{
    rand::random_range(1u32..=100u32)
}

/// One guessing session. It owns a target value, fixed for its whole
/// lifetime, and records whether a guess has matched it yet.
pub struct Session {
    target: u32,
    won: bool,
}

impl Session {
    /// The target value the session requires the caller to guess.
    pub closed spec fn target_spec(self) -> u32 {
        self.target
    }

    /// Whether a guess equal to the target has been submitted.
    pub closed spec fn won_spec(self) -> bool {
        self.won
    }

    /// The session invariant: the target lies in the inclusive range 1..=100.
    pub open spec fn wf(self) -> bool {
        1 <= self.target_spec() <= 100
    }

    /// Starts a session with a target drawn uniformly from 1..=100.
    pub fn start() -> (s: Session)
        ensures
            s.wf(),
            !s.won_spec(),
    {
        let target = draw_target();
        Session { target, won: false }
    }

    /// Starts a session with a caller-chosen target.
    pub fn with_target(target: u32) -> (s: Session)
        requires
            1 <= target <= 100,
        ensures
            s.target_spec() == target,
            !s.won_spec(),
            s.wf(),
    {
        Session { target, won: false }
    }

    /// The target value, so a caller may display it.
    pub fn target_value(&self) -> (t: u32)
        ensures
            t == self.target_spec(),
    {
        self.target
    }

    /// Whether the session has terminated with a win.
    pub fn is_over(&self) -> (r: bool)
        ensures
            r == self.won_spec(),
    {
        self.won
    }

    /// Submits one parsed guess. The feedback orders the guess against the
    /// target; the session terminates exactly when the guess equals it.
    pub fn submit(&mut self, guess: u32) -> (f: Feedback)
        requires
            !old(self).won_spec(),
        ensures
            final(self).target_spec() == old(self).target_spec(),
            f == feedback_for(guess, old(self).target_spec()),
            f == Feedback::TooSmall <==> guess < old(self).target_spec(),
            f == Feedback::TooBig <==> guess > old(self).target_spec(),
            f == Feedback::Win <==> guess == old(self).target_spec(),
            final(self).won_spec() <==> guess == old(self).target_spec(),
    {
        if guess < self.target {
            Feedback::TooSmall
        } else if guess > self.target {
            Feedback::TooBig
        } else {
            self.won = true;
            Feedback::Win
        }
    }

    /// Submits one raw line of input. A line that does not parse as a guess
    /// is ignored: no feedback, and the session is left exactly as it was.
    /// A line that parses is submitted as a guess.
    pub fn submit_line(&mut self, line: &str) -> (f: Option<Feedback>)
        requires
            !old(self).won_spec(),
        ensures
            final(self).target_spec() == old(self).target_spec(),
            f == (match parse_guess_spec(line.spec_bytes()) {
                None => None::<Feedback>,
                Some(g) => Some(feedback_for(g, old(self).target_spec())),
            }),
            parse_guess_spec(line.spec_bytes()) is None ==> *final(self) == *old(self),
            final(self).won_spec() <==> parse_guess_spec(line.spec_bytes()) == Some(
                old(self).target_spec(),
            ),
    {
        match parse_guess(line) {
            None => None,
            Some(guess) => Some(self.submit(guess)),
        }
    }
}

} // verus!
