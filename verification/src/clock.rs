use vstd::prelude::*;

verus! {

/// Relies on `std::time::SystemTime::now`, chrono's `From<SystemTime>` impl
/// for `DateTime<Utc>` and `DateTime::to_rfc3339`: the moment of the call
/// rendered as an RFC 3339 timestamp string. The `From` conversion handles a
/// clock set before the Unix epoch, so the call returns on every host. The
/// result depends on the system clock, so nothing is promised of the text.
#[verifier::external_body]
pub(crate) fn now_rfc3339() -> String {
    chrono::DateTime::<chrono::Utc>::from(std::time::SystemTime::now()).to_rfc3339()
}

} // verus!
