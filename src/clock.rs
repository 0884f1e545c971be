use vstd::prelude::*;

verus! {

/// Relies on chrono's `Utc::now` and the `Display` of `DateTime<Utc>`: the
/// current UTC time as text. Nothing is promised of its value.
#[verifier::external_body]
pub(crate) fn utc_now_text() -> (r: String) {
    chrono::Utc::now().to_string()
}

} // verus!
