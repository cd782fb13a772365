//! Bearer-token authentication of API requests.
use crate::api::errors::ApiError;
use crate::domain::api_token::ApiToken;
use subtle::ConstantTimeEq;
use vstd::prelude::*;

verus! {

/// A byte that a header value may hold to be read as text: visible ASCII,
/// space or tab, as `HeaderValue::to_str` accepts.
pub open spec fn is_visible_ascii(b: u8) -> bool {
    (32 <= b && b < 127) || b == 9
}

/// The bytes of `Bearer `.
pub open spec fn bearer_prefix() -> Seq<u8> {
    seq![66u8, 101u8, 97u8, 114u8, 101u8, 114u8, 32u8]
}

/// Whether a request may proceed: always when no token is configured;
/// otherwise its `Authorization` header is text, starts with `Bearer `, and
/// the rest is exactly the token's bytes.
pub open spec fn authorized(expected: Option<Seq<u8>>, header: Option<Seq<u8>>) -> bool {
    match expected {
        None => true,
        Some(token) => match header {
            None => false,
            Some(h) => {
                &&& forall|i: int| 0 <= i < h.len() ==> is_visible_ascii(#[trigger] h[i])
                &&& h.len() >= 7
                &&& h.take(7) == bearer_prefix()
                &&& h.skip(7) == token
            },
        },
    }
}

/// `subtle::ConstantTimeEq::ct_eq` on byte slices, read as a `bool`: true
/// exactly when both slices have the same length and the same bytes. Only
/// the comparison's result is stated here, not that it takes constant time.
#[verifier::external_body]
fn ct_eq_bytes(a: &[u8], b: &[u8]) -> (r: bool)
    ensures
        r == (a@ == b@),
{
    a.ct_eq(b).into()
}

fn all_visible_ascii(h: &[u8]) -> (r: bool)
    ensures
        r == forall|i: int| 0 <= i < h@.len() ==> is_visible_ascii(#[trigger] h@[i]),
{
    let mut i: usize = 0;
    while i < h.len()
        invariant
            0 <= i <= h@.len(),
            forall|j: int| 0 <= j < i ==> is_visible_ascii(#[trigger] h@[j]),
        decreases h.len() - i,
    {
        let b = h[i];
        if !((32 <= b && b < 127) || b == 9) {
            return false;
        }
        i += 1;
    }
    true
}

fn starts_with_bearer(h: &[u8]) -> (r: bool)
    ensures
        r == (h@.len() >= 7 && h@.take(7) == bearer_prefix()),
{
    if h.len() < 7 {
        return false;
    }
    let r = h[0] == 66 && h[1] == 101 && h[2] == 97 && h[3] == 114 && h[4] == 101 && h[5] == 114 && h[6] == 32;
    proof {
        if r {
            assert(h@.take(7) =~= bearer_prefix());
        } else {
            if h@.take(7) == bearer_prefix() {
                assert(h@.take(7)[0] == h@[0]);
                assert(h@.take(7)[1] == h@[1]);
                assert(h@.take(7)[2] == h@[2]);
                assert(h@.take(7)[3] == h@[3]);
                assert(h@.take(7)[4] == h@[4]);
                assert(h@.take(7)[5] == h@[5]);
                assert(h@.take(7)[6] == h@[6]);
            }
        }
    }
    r
}

/// Checks a request's `Authorization` header (its raw bytes, if present)
/// against the configured token, comparing in constant time.
pub fn authorize(expected: Option<&ApiToken>, header: Option<&[u8]>) -> (r: Result<(), ApiError>)
    ensures
        r is Ok <==> authorized(
            match expected {
                Some(t) => Some(vstd::utf8::encode_utf8(t@)),
                None => None,
            },
            match header {
                Some(h) => Some(h@),
                None => None,
            },
        ),
        r matches Err(e) ==> e is Unauthorized,
{
    let expected = match expected {
        None => {
            return Ok(());
        },
        Some(t) => t,
    };
    let value = match header {
        None => {
            return Err(ApiError::Unauthorized);
        },
        Some(h) => h,
    };
    if !all_visible_ascii(value) {
        return Err(ApiError::Unauthorized);
    }
    if !starts_with_bearer(value) {
        return Err(ApiError::Unauthorized);
    }
    let (_, presented) = value.split_at(7);
    assert(presented@ =~= value@.skip(7));
    if ct_eq_bytes(presented, expected.expose_bytes()) {
        Ok(())
    } else {
        Err(ApiError::Unauthorized)
    }
}

} // verus!
