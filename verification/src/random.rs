use vstd::prelude::*;

verus! {

/// Draws a whole number from `low..=high` with `Rng::gen_range` of the `rand`
/// crate, on the thread's own generator.
///
/// Trusted: the draw lies within the bounds it was given, both included.
/// Nothing more is known of it; two draws from the same bounds may differ.
/// The generator refuses an empty range, so `low` is at most `high`.
#[verifier::external_body]
pub(crate) fn draw_between(low: i32, high: i32) -> (drawn: i32)
    requires
        low <= high,
    ensures
        low <= drawn <= high,
{
    rand::Rng::gen_range(&mut rand::thread_rng(), low..=high)
}

} // verus!
