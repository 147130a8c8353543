use vstd::prelude::*;

verus! {

/// What `uuid::Uuid::parse_str` makes of a text: the identifier's 128 bits,
/// most significant byte first, or nothing where the text is no identifier.
pub uninterp spec fn uuid_parse(s: Seq<char>) -> Option<u128>;

/// Relies on uuid's `Uuid::new_v4` (random bytes, with the version set to 4
/// and the variant to RFC 4122) and `Uuid::as_bytes`. The identifier comes back
/// as 128 bits, most significant byte first.
#[verifier::external_body]
pub(crate) fn new_id() -> (r: u128)
    ensures
        (r >> 76u128) & 0xfu128 == 4,
        (r >> 62u128) & 0x3u128 == 2,
{
    u128::from_be_bytes(*uuid::Uuid::new_v4().as_bytes())
}

/// Relies on uuid's `Uuid::parse_str` (simple, hyphenated or `urn:uuid:`
/// form) and `Uuid::as_bytes`.
#[verifier::external_body]
pub(crate) fn parse_id(s: &str) -> (r: Option<u128>)
    ensures
        r == uuid_parse(s@),
        s@.len() == 0 ==> r is None,
{
    match uuid::Uuid::parse_str(s) {
        Ok(u) => Some(u128::from_be_bytes(*u.as_bytes())),
        Err(_) => None,
    }
}

} // verus!
