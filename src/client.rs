//! The decisions of the authenticated transport: the bearer header, how a
//! response is judged, and the diagnostic line of a request.
use vstd::prelude::*;

use crate::error::ClientError;
use crate::oauth::OToken;
use vstd::utf8::{decode_utf8, valid_utf8};

verus! {

/// The start of a `WWW-Authenticate` value that reports an invalid token.
pub const INVALID_TOKEN_MARKER: &'static str = "Bearer error=\"invalid_token\"";

/// A byte that a header value may hold to be read as text: visible ASCII
/// or tab.
pub open spec fn visible_ascii(b: u8) -> bool {
    (32 <= b && b < 127) || b == 9
}

/// Whether a header value reads as text.
pub open spec fn header_is_text(h: Seq<u8>) -> bool {
    forall|i: int| 0 <= i < h.len() ==> visible_ascii(#[trigger] h[i])
}

/// Whether the bytes `h` start with the ASCII text `m`.
pub open spec fn starts_with_text(h: Seq<u8>, m: Seq<char>) -> bool {
    m.len() <= h.len() && forall|i: int| 0 <= i < m.len() ==> (#[trigger] h[i]) as int == m[i] as int
}

/// The bytes of an optional header value.
pub open spec fn header_view(h: Option<&[u8]>) -> Option<Seq<u8>> {
    match h {
        Some(b) => Some(b@),
        None => None,
    }
}

/// Whether a response reports an invalid token: its status is not 200 and
/// its `WWW-Authenticate` value reads as text and starts with the marker.
pub open spec fn reports_invalid_token(status: u16, h: Option<Seq<u8>>) -> bool {
    match h {
        Some(b) => status != 200 && header_is_text(b) && starts_with_text(b, INVALID_TOKEN_MARKER@),
        None => false,
    }
}

/// Whether a response has a status other than 200 and a
/// `WWW-Authenticate` value that does not read as text.
pub open spec fn header_unreadable(status: u16, h: Option<Seq<u8>>) -> bool {
    match h {
        Some(b) => status != 200 && !header_is_text(b),
        None => false,
    }
}

/// The value of the `Authorization` header for `token`.
pub fn bearer_value(token: &OToken) -> (r: String)
    ensures
        r@ == "Bearer "@ + token.access@,
{
    String::from_str("Bearer ").concat(token.access.as_str())
}

/// Judges a response by its status and its `WWW-Authenticate` header.
/// Status 200 passes. Otherwise a header that does not read as text fails
/// with `UnknownError`, one that starts with the invalid-token marker fails
/// with `InvalidToken`, and anything else (no header included) passes: the
/// caller reads the response.
pub fn check_response(status: u16, www_authenticate: Option<&[u8]>) -> (r: Result<(), ClientError>)
    ensures
        reports_invalid_token(status, header_view(www_authenticate)) ==> r == Err::<(), ClientError>(
            ClientError::InvalidToken,
        ),
        header_unreadable(status, header_view(www_authenticate)) ==> (r matches Err(
            ClientError::UnknownError(_),
        )),
        !reports_invalid_token(status, header_view(www_authenticate)) && !header_unreadable(
            status,
            header_view(www_authenticate),
        ) ==> r is Ok,
{
    if status == 200 {
        return Ok(());
    }
    match www_authenticate {
        None => Ok(()),
        Some(h) => {
            assert(header_view(www_authenticate) == Some(h@));
            let n = h.len();
            let mut i: usize = 0;
            while i < n
                invariant
                    n == h@.len(),
                    i <= n,
                    status != 200,
                    header_view(www_authenticate) == Some(h@),
                    forall|j: int| 0 <= j < i ==> visible_ascii(#[trigger] h@[j]),
                decreases n - i,
            {
                let b = h[i];
                if !((32 <= b && b < 127) || b == 9) {
                    assert(!visible_ascii(h@[i as int]));
                    assert(!header_is_text(h@));
                    return Err(ClientError::UnknownError(String::from_str("failed to convert header to a str")));
                }
                i = i + 1;
            }
            let m = INVALID_TOKEN_MARKER;
            let mlen = m.unicode_len();
            assert(header_is_text(h@));
            if mlen > n {
                return Ok(());
            }
            let mut k: usize = 0;
            while k < mlen
                invariant
                    status != 200,
                    header_view(www_authenticate) == Some(h@),
                    header_is_text(h@),
                    m@ == INVALID_TOKEN_MARKER@,
                    mlen == m@.len(),
                    mlen <= n,
                    n == h@.len(),
                    k <= mlen,
                    forall|j: int| 0 <= j < k ==> (#[trigger] h@[j]) as int == m@[j] as int,
                decreases mlen - k,
            {
                if h[k] as u32 != m.get_char(k) as u32 {
                    assert(h@[k as int] as int != m@[k as int] as int);
                    assert(!starts_with_text(h@, INVALID_TOKEN_MARKER@));
                    return Ok(());
                }
                k = k + 1;
            }
            Err(ClientError::InvalidToken)
        },
    }
}

/// Relies on std's `String::from_utf8`: the text that `b` encodes, none
/// exactly when `b` is not valid UTF-8.
#[verifier::external_body]
fn utf8_text(b: &[u8]) -> (r: Option<String>)
    ensures
        r is Some <==> valid_utf8(b@),
        r matches Some(s) ==> s@ == decode_utf8(b@),
{
    String::from_utf8(b.to_vec()).ok()
}

/// The diagnostic line of a request: `[METHOD] url | body`, with an empty
/// body when the body is not UTF-8.
pub fn debug_line(method: &str, url: &str, body: &[u8]) -> (r: String)
    ensures
        r@ == "["@ + method@ + "] "@ + url@ + " | "@ + (if valid_utf8(body@) {
            decode_utf8(body@)
        } else {
            Seq::empty()
        }),
{
    let text = match utf8_text(body) {
        Some(s) => s,
        None => String::new(),
    };
    let r = String::from_str("[").concat(method).concat("] ").concat(url).concat(" | ").concat(
        text.as_str(),
    );
    r
}

} // verus!
