use vstd::prelude::*;

verus! {

/// The smallest secret a game can have.
pub const SECRET_MIN: u32 = 1;

/// The largest secret a game can have.
pub const SECRET_MAX: u32 = 100;

/// How a guess compares with the secret.
#[derive(Clone, Copy, Debug, PartialEq, Eq, Structural)]
pub enum Verdict {
    TooSmall,
    TooBig,
    Win,
}

/// Relies on rand::thread_rng and rand::Rng::gen_range: a value drawn from
/// the inclusive range `low..=high`, which must not be empty.
#[verifier::external_body]
fn draw_between(low: u32, high: u32) -> (r: u32)
    requires
        low <= high,
    ensures
        low <= r <= high,
{
    rand::Rng::gen_range(&mut rand::thread_rng(), low..=high)
}

/// A fresh secret between `SECRET_MIN` and `SECRET_MAX`.
pub fn secret_number() -> (r: u32)
    ensures
        SECRET_MIN <= r <= SECRET_MAX,
{
    draw_between(SECRET_MIN, SECRET_MAX)
}

/// Compares a guess with the secret; the game ends on `Win`.
pub fn judge(guess: u32, secret: u32) -> (r: Verdict)
    ensures
        r == (if guess < secret {
            Verdict::TooSmall
        } else if guess > secret {
            Verdict::TooBig
        } else {
            Verdict::Win
        }),
{
    if guess < secret {
        Verdict::TooSmall
    } else if guess > secret {
        Verdict::TooBig
    } else {
        Verdict::Win
    }
}

} // verus!
