use vstd::prelude::*;

use rand::rngs::SmallRng;
use rand::Rng;

verus! {

#[verifier::external_type_specification]
#[verifier::external_body]
pub struct ExSmallRng(SmallRng);

/// Relies on rand::Rng::random_range: a sample from `0..high`, which it
/// refuses (panics on) only when the range is empty.
#[verifier::external_body]
fn random_below(rng: &mut SmallRng, high: u8) -> (r: u8)
    requires
        0 < high,
    ensures
        r < high,
{
    rng.random_range(0..high)
}

/// A particle colour: three channels drawn independently from `0..255`, red
/// first.
pub fn random_color(rng: &mut SmallRng) -> (r: (u8, u8, u8))
    ensures
        r.0 < 255,
        r.1 < 255,
        r.2 < 255,
{
    let red = random_below(rng, 255);
    let green = random_below(rng, 255);
    let blue = random_below(rng, 255);
    (red, green, blue)
}

} // verus!
