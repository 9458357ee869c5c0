//! The one random input navigation needs: fresh avoidance-bias bytes.
//!
//! Steering ties are broken by a per-hero random byte, rerolled when the hero
//! walks far from every hazard.  The byte is drawn here and injected into the
//! navigation update, which is verified for every value it may take.

use vstd::prelude::*;

verus! {

/// Relies on rand::random: one byte from the thread-local generator.  Nothing
/// is assumed about the value; every caller is verified for all 256 outcomes.
#[verifier::external_body]
pub(crate) fn random_byte() -> u8 {
    rand::random::<u8>()
}

/// One fresh avoidance-bias byte per hero.
pub fn roll_biases(n: usize) -> (v: Vec<u8>)
    ensures
        v@.len() == n,
{
    let mut v: Vec<u8> = Vec::new();
    for i in 0..n
        invariant
            v@.len() == i,
    {
        v.push(random_byte());
    }
    v
}

}
