use vstd::prelude::*;

verus! {

/// A lower-case hexadecimal digit.
pub open spec fn is_lower_hex(c: char) -> bool {
    ('0' <= c && c <= '9') || ('a' <= c && c <= 'f')
}

/// A UUID in hyphenated lower-case form: 8-4-4-4-12 hexadecimal digits.
pub open spec fn is_hyphenated_uuid(s: Seq<char>) -> bool {
    &&& s.len() == 36
    &&& forall|i: int| 0 <= i < 36 ==> if i == 8 || i == 13 || i == 18 || i == 23 {
        #[trigger] s[i] == '-'
    } else {
        is_lower_hex(s[i])
    }
}

/// A fresh random identifier: `uuid::Uuid::new_v4`, written out by its `Display`
/// (hyphenated, lower case). Which identifier comes out is left open: it is random.
#[verifier::external_body]
pub(crate) fn random_uuid() -> (r: String)
    ensures
        is_hyphenated_uuid(r@),
{
    uuid::Uuid::new_v4().to_string()
}

/// A lock held in Redis under a key, with a token that proves ownership.
pub struct DistributedLock;

impl DistributedLock {
    /// A fresh ownership token.
    pub fn new_token() -> (r: String)
        ensures
            is_hyphenated_uuid(r@),
    {
        random_uuid()
    }

    /// The token that the caller holds after `SET key token NX PX ttl`: the
    /// token when Redis answered (the key was free), none otherwise.
    pub fn acquired(reply: Option<String>, token: String) -> (r: Option<String>)
        ensures
            reply is Some ==> r == Some(token),
            reply is None ==> r is None,
    {
        match reply {
            Some(_) => Some(token),
            None => None,
        }
    }

    /// Whether the release script deleted the key (it deletes only when the key
    /// still holds the caller's token).
    pub fn released(deleted: i64) -> (r: bool)
        ensures
            r == (deleted == 1),
    {
        deleted == 1
    }
}

/// A fixed-window counter in Redis: each call counts one hit, and the window
/// starts with the first hit.
pub struct RateLimiter;

/// Guild state kept in Redis as JSON with an expiry.
pub struct GuildStateCache {}

} // verus!
