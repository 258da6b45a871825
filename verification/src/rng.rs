use vstd::prelude::*;

verus! {

/// Declares rand's standard generator so that its values can flow through
/// verified code; Verus treats the type as opaque.
#[verifier::external_type_specification]
#[verifier::external_body]
pub struct ExStdRng(rand::rngs::StdRng);

/// Relies on rand's `Rng::gen_range(0..n)`: a uniform draw below `n`,
/// which panics only on an empty range.
#[verifier::external_body]
pub(crate) fn rng_below(rng: &mut rand::rngs::StdRng, n: u64) -> (r: u64)
    requires
        n >= 1,
    ensures
        r < n,
{
    rand::Rng::gen_range(rng, 0..n)
}

/// Relies on rand's `Rng::gen_range(lo..=hi)`: a uniform draw from the
/// inclusive range, which panics only on an empty range.
#[verifier::external_body]
pub(crate) fn rng_range_i64(rng: &mut rand::rngs::StdRng, lo: i64, hi: i64) -> (r: i64)
    requires
        lo <= hi,
    ensures
        lo <= r <= hi,
{
    rand::Rng::gen_range(rng, lo..=hi)
}

/// Relies on rand's `Rng::gen_range(lo..=hi)`: a uniform draw from the
/// inclusive range, which panics only on an empty range.
#[verifier::external_body]
pub(crate) fn rng_range_u64(rng: &mut rand::rngs::StdRng, lo: u64, hi: u64) -> (r: u64)
    requires
        lo <= hi,
    ensures
        lo <= r <= hi,
{
    rand::Rng::gen_range(rng, lo..=hi)
}

/// Relies on rand's `SeedableRng::from_rng`: seeds a fresh generator from the
/// given one; on the unreachable seeding failure a fixed seed is used instead.
#[verifier::external_body]
pub(crate) fn split_rng(rng: &mut rand::rngs::StdRng) -> (r: rand::rngs::StdRng)
{
    match <rand::rngs::StdRng as rand::SeedableRng>::from_rng(&mut *rng) {
        Ok(fresh) => fresh,
        Err(_) => <rand::rngs::StdRng as rand::SeedableRng>::seed_from_u64(0),
    }
}

} // verus!
