use vstd::prelude::*;

verus! {

/// Relies on uuid's `Uuid::new_v4`: a fresh random identifier. Its version bits
/// are set, so it is never zero; nothing more is promised about its value.
#[verifier::external_body]
pub(crate) fn fresh_uuid() -> (r: u128)
    ensures
        r != 0,
{
    uuid::Uuid::new_v4().as_u128()
}

/// Relies on uuid's `Display` impl for `Uuid`, which writes the hyphenated
/// form: 36 characters.
#[verifier::external_body]
pub(crate) fn uuid_text(id: u128) -> (r: String)
    ensures
        r@.len() == 36,
{
    uuid::Uuid::from_u128(id).to_string()
}

/// Relies on rand's `Rng::gen_range` over the inclusive range `lo..=hi`, drawn
/// from the thread-local generator: a value in the range (it panics on an empty
/// range, which the precondition excludes).
#[verifier::external_body]
pub(crate) fn random_between(lo: u64, hi: u64) -> (r: u64)
    requires
        lo <= hi,
    ensures
        lo <= r <= hi,
{
    rand::Rng::gen_range(&mut rand::thread_rng(), lo..=hi)
}

} // verus!
