//! The source of randomness that strategies and player sampling draw from.

use vstd::prelude::*;
use crate::game::RpsChoice;

verus! {

/// Declares rand's thread-local generator so that it can cross the verified
/// functions' signatures; its value stays opaque to the proofs.
#[verifier::external_type_specification]
#[verifier::external_body]
pub struct ExThreadRng(rand::rngs::ThreadRng);

/// Draws a uniformly distributed index below `n`.
///
/// Relies on rand's `Rng::random_range` over the range `0..n`: it returns a
/// value inside the range and panics only when the range is empty, which the
/// precondition rules out. Nothing more can be promised of a random draw.
#[verifier::external_body]
pub(crate) fn random_below(rng: &mut rand::rngs::ThreadRng, n: usize) -> (r: usize)
    requires
        n > 0,
    ensures
        r < n,
{
    rand::Rng::random_range(rng, 0..n)
}

/// The uniformly random move a strategy falls back on: each index below three
/// stands for one of the three choices.
pub fn choice_from_index(i: usize) -> (c: RpsChoice)
    requires
        i < 3,
    ensures
        c == (if i == 0 {
            RpsChoice::Rock
        } else if i == 1 {
            RpsChoice::Paper
        } else {
            RpsChoice::Scissors
        }),
{
    if i == 0 {
        RpsChoice::Rock
    } else if i == 1 {
        RpsChoice::Paper
    } else {
        RpsChoice::Scissors
    }
}

/// Draws a uniformly random move among the three choices.
pub fn random_choice(rng: &mut rand::rngs::ThreadRng) -> RpsChoice {
    let i = random_below(rng, 3);
    choice_from_index(i)
}

} // verus!
