use vstd::prelude::*;

verus! {

/// Relies on `chrono::Utc::now` for the current wall-clock time, as seconds
/// since the unix epoch. Nothing is assumed of the value: every caller must
/// hold for whatever time comes back.
#[verifier::external_body]
pub fn current_timestamp() -> i64 {
    chrono::Utc::now().timestamp()
}

} // verus!
