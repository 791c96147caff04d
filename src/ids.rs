use vstd::prelude::*;

verus! {

/// The hyphenated lower-case text of the UUID that `s` spells, or `None`
/// when `s` spells none.
pub uninterp spec fn uuid_text(s: Seq<char>) -> Option<Seq<char>>;

/// Relies on uuid::Uuid::parse_str, which accepts a UUID in simple,
/// hyphenated, URN or braced form, and on the UUID's Display, which writes
/// it hyphenated in lower case.
#[verifier::external_body]
pub(crate) fn canonical_uuid(s: &str) -> (r: Option<String>)
    ensures
        match r {
            Some(t) => uuid_text(s@) == Some(t@),
            None => uuid_text(s@) is None,
        },
{
    match uuid::Uuid::parse_str(s) {
        Ok(u) => Some(u.to_string()),
        Err(_) => None,
    }
}

} // verus!
