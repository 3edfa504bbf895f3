//! Authorisation of the cache-invalidation endpoint.

use vstd::prelude::*;

verus! {

/// Byte-wise comparison that inspects every byte of equal-length inputs,
/// so the time taken does not reveal where the first difference lies.
pub fn constant_time_eq(a: &str, b: &str) -> (eq: bool)
    ensures
        eq == (a@ == b@),
{
    let x = a.as_bytes();
    let y = b.as_bytes();
    proof {
        vstd::utf8::encode_utf8_decode_utf8(a@);
        vstd::utf8::encode_utf8_decode_utf8(b@);
    }
    if x.len() != y.len() {
        return false;
    }
    let mut diff: u8 = 0;
    let mut i: usize = 0;
    while i < x.len()
        invariant
            x.len() == y.len(),
            i <= x.len(),
            diff == 0 <==> (forall|j: int| 0 <= j < i ==> x@[j] == y@[j]),
        decreases x.len() - i,
    {
        let p = x[i];
        let q = y[i];
        let old_diff = diff;
        diff = diff | (p ^ q);
        assert((old_diff | (p ^ q)) == 0 <==> (old_diff == 0 && p == q)) by (bit_vector);
        i = i + 1;
    }
    proof {
        if diff == 0 {
            assert(x@ =~= y@);
        }
    }
    diff == 0
}


/// Request body for cache invalidation
pub struct InvalidateBody {
    pub key: String,
}

/// What the invalidation endpoint does with a request
pub enum InvalidateOutcome {
    /// The gateway secret was missing or wrong: nothing is invalidated
    Unauthorized,
    /// The caller is authorised: the cached resolution of `key` is dropped
    Invalidate { key: String },
}

/// HTTP status `401 Unauthorized`
pub const STATUS_UNAUTHORIZED: u16 = 401;

/// HTTP status `204 No Content`
pub const STATUS_NO_CONTENT: u16 = 204;

/// The caller presented a header and it equals the configured gateway secret
pub open spec fn secret_matches(presented: Option<Seq<char>>, expected: Seq<char>) -> bool {
    match presented {
        Some(s) => s == expected,
        None => false,
    }
}

/// The text of a presented header, if any
pub open spec fn presented_view(presented: Option<&str>) -> Option<Seq<char>> {
    match presented {
        Some(s) => Some(s@),
        None => None,
    }
}

/// A presented secret matches exactly when it is there and equals the
/// configured one, whatever their length
pub proof fn lemma_secret_matches_is_equality(presented: Option<Seq<char>>, expected: Seq<char>)
    ensures
        secret_matches(presented, expected) == (presented == Some(expected)),
{
}

impl InvalidateOutcome {
    /// The HTTP status with which the endpoint answers
    pub fn status_code(&self) -> (code: u16)
        ensures
            code == (match self {
                InvalidateOutcome::Unauthorized => STATUS_UNAUTHORIZED,
                InvalidateOutcome::Invalidate { .. } => STATUS_NO_CONTENT,
            }),
    {
        match self {
            InvalidateOutcome::Unauthorized => STATUS_UNAUTHORIZED,
            InvalidateOutcome::Invalidate { .. } => STATUS_NO_CONTENT,
        }
    }
}

/// Decide a cache-invalidation request.
///
/// `presented_secret` is the `x-gateway-secret` header as text (absent when the
/// header is missing or not valid text); `gateway_secret` is the configured
/// secret. Only an exact match invalidates, and then exactly the requested key.
pub fn invalidate_key_handler(
    presented_secret: Option<&str>,
    gateway_secret: &str,
    body: InvalidateBody,
) -> (outcome: InvalidateOutcome)
    ensures
        presented_view(presented_secret) == Some(gateway_secret@) ==> outcome
            == (InvalidateOutcome::Invalidate { key: body.key }),
        presented_view(presented_secret) != Some(gateway_secret@) ==> outcome
            == InvalidateOutcome::Unauthorized,
        secret_matches(presented_view(presented_secret), gateway_secret@) ==> outcome
            == (InvalidateOutcome::Invalidate { key: body.key }),
        !secret_matches(presented_view(presented_secret), gateway_secret@) ==> outcome
            == InvalidateOutcome::Unauthorized,
{
    let authorized = match presented_secret {
        Some(s) => constant_time_eq(s, gateway_secret),
        None => false,
    };
    if !authorized {
        return InvalidateOutcome::Unauthorized;
    }
    InvalidateOutcome::Invalidate { key: body.key }
}

} // verus!
