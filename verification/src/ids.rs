use vstd::prelude::*;

verus! {

/// The canonical form of a product/order/user identifier: `Some(t)` when the
/// text is a well-formed UUID whose canonical hyphenated lowercase rendering
/// is `t`, `None` when the text is not a UUID at all.
pub uninterp spec fn uuid_canon(s: Seq<char>) -> Option<Seq<char>>;

/// Relies on `uuid::Uuid::parse_str` (accepts hyphenated, simple, braced and
/// urn forms) and on `Uuid`'s `Display` impl, which renders the hyphenated
/// lowercase form; both depend on the input characters alone. Re-parsing a
/// rendered identifier and rendering it again yields the same text, so the
/// canonical form is a fixed point.
#[verifier::external_body]
pub(crate) fn canonical_uuid(s: &str) -> (r: Option<String>)
    ensures
        (match r {
            Option::Some(t) => uuid_canon(s@) == Option::Some(t@),
            Option::None => uuid_canon(s@) is None,
        }),
        r matches Option::Some(t) ==> uuid_canon(t@) == Option::Some(t@),
{
    match uuid::Uuid::parse_str(s) {
        Ok(u) => Some(u.to_string()),
        Err(_) => None,
    }
}

/// An identifier already in canonical form: canonicalizing it changes nothing.
pub open spec fn is_canonical_id(s: Seq<char>) -> bool {
    uuid_canon(s) == Option::Some(s)
}

} // verus!
