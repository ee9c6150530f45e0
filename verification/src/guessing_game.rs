//! A game of guessing a secret number from 1 to 100.
//!
//! The game holds the secret and answers each line that the player types. Whoever
//! runs the game reads the lines and shows the answers; the game itself decides what
//! each answer is and when the game is over.

use vstd::prelude::*;
use rand::Rng;
use crate::numbers::{number_on_line, read_number};

verus! {

/// The smallest number that can be the secret.
pub const LOWEST: u32 = 1;

/// The largest number that can be the secret.
pub const HIGHEST: u32 = 100;

/// Draws a number by `rand::thread_rng().gen_range(low..high)`. Which number comes is
/// left to chance, so nothing is claimed of it but what holds of every draw: `rand`
/// returns a number that is at least `low` and below `high`. `gen_range` panics on an
/// empty range, which `low < high` rules out. The generator is the thread's own; `rand`
/// stops the program if the operating system cannot seed it.
#[verifier::external_body]
fn random_in_range(low: u32, high: u32) -> (drawn: u32)
    requires
        low < high,
    ensures
        low <= drawn < high,
{
    rand::thread_rng().gen_range(low..high)
}

/// How the answer to a line is to be shown.
#[derive(Clone, Copy, Debug, PartialEq, Eq, Structural)]
pub enum Tone {
    /// The guess was wrong.
    Alert,
    /// The guess was right.
    Success,
}

/// The game's answer to one line from the player.
#[derive(Clone, Copy, Debug, PartialEq, Eq, Structural)]
pub enum Reply {
    /// The line holds no number: it is passed over without a word.
    NotANumber,
    /// The number guessed is below the secret.
    TooSmall,
    /// The number guessed is above the secret.
    TooBig,
    /// The number guessed is the secret.
    Won,
}

/// The answer to the guess `guess` when the secret is `secret`.
pub open spec fn verdict(guess: u32, secret: u32) -> Reply {
    if guess < secret {
        Reply::TooSmall
    } else if guess > secret {
        Reply::TooBig
    } else {
        Reply::Won
    }
}

/// The answer to a line when the secret is `secret`.
pub open spec fn reply_to(line: Seq<char>, secret: u32) -> Reply {
    match number_on_line(line) {
        Some(guess) => verdict(guess, secret),
        None => Reply::NotANumber,
    }
}

/// What the player is told for an answer, if anything.
pub open spec fn message_text(reply: Reply) -> Option<Seq<char>> {
    match reply {
        Reply::NotANumber => None,
        Reply::TooSmall => Some("Too small! Try again."@),
        Reply::TooBig => Some("Too big! Try again."@),
        Reply::Won => Some("You won!"@),
    }
}

impl Reply {
    /// What to tell the player, if anything.
    pub fn message(self) -> (text: Option<&'static str>)
        ensures
            text is Some <==> message_text(self) is Some,
            text matches Some(t) ==> Some(t@) == message_text(self),
    {
        match self {
            Reply::NotANumber => None,
            Reply::TooSmall => Some("Too small! Try again."),
            Reply::TooBig => Some("Too big! Try again."),
            Reply::Won => Some("You won!"),
        }
    }

    /// How to show the message: the winning one as a success, the others as an alert.
    pub fn tone(self) -> (tone: Tone)
        ensures
            tone == Tone::Success <==> self == Reply::Won,
    {
        match self {
            Reply::Won => Tone::Success,
            _ => Tone::Alert,
        }
    }

    /// Whether the game is over with this answer: it is once the secret is guessed.
    pub fn ends_game(self) -> (over: bool)
        ensures
            over <==> self == Reply::Won,
    {
        match self {
            Reply::Won => true,
            _ => false,
        }
    }
}

/// A game with its secret.
pub struct Game {
    secret: u32,
}

impl Game {
    /// The number to guess.
    pub closed spec fn secret(&self) -> u32 {
        self.secret
    }

    #[verifier::type_invariant]
    closed spec fn secret_in_range(&self) -> bool {
        LOWEST <= self.secret <= HIGHEST
    }

    /// A game with a secret drawn at random from `LOWEST` to `HIGHEST`.
    pub fn new() -> (game: Game)
        ensures
            LOWEST <= game.secret() <= HIGHEST,
    {
        Game { secret: random_in_range(LOWEST, HIGHEST + 1) }
    }

    /// A game with the given secret, or none where the secret is not from `LOWEST` to
    /// `HIGHEST`.
    pub fn with_secret(secret: u32) -> (game: Option<Game>)
        ensures
            game is Some <==> LOWEST <= secret <= HIGHEST,
            game matches Some(g) ==> g.secret() == secret,
    {
        if LOWEST <= secret && secret <= HIGHEST {
            Some(Game { secret })
        } else {
            None
        }
    }

    /// Answers the guess `guess`.
    pub fn judge(&self, guess: u32) -> (reply: Reply)
        ensures
            reply == verdict(guess, self.secret()),
    {
        if guess < self.secret {
            Reply::TooSmall
        } else if guess > self.secret {
            Reply::TooBig
        } else {
            Reply::Won
        }
    }

    /// Answers a line as the player typed it.
    pub fn answer(&self, line: &str) -> (reply: Reply)
        ensures
            reply == reply_to(line@, self.secret()),
    {
        match read_number(line) {
            Some(guess) => self.judge(guess),
            None => Reply::NotANumber,
        }
    }
}

/// Between two wrong guesses, one too small and one too big, lies the secret: guesses
/// that halve what is left find it.
pub proof fn law_wrong_guesses_bracket_the_secret(low: u32, high: u32, secret: u32)
    requires
        verdict(low, secret) == Reply::TooSmall,
        verdict(high, secret) == Reply::TooBig,
    ensures
        low < secret < high,
{
}

/// A guess wins exactly when it is the secret.
pub proof fn law_only_the_secret_wins(guess: u32, secret: u32)
    ensures
        verdict(guess, secret) == Reply::Won <==> guess == secret,
{
}

} // verus!
