//! HTTP/1.0 request construction and response framing.
//!
//! A response is delimited only by the peer closing the connection; the
//! accumulated bytes are split at the first blank-line separator (two
//! consecutive CRLF pairs) into a header block and a body.

use vstd::prelude::*;
use vstd::slice::slice_subrange;
use vstd::slice::slice_to_vec;
use vstd::string::StringExecFns;

use crate::error::ErrorKind;

verus! {

/// Carriage return.
pub const CR: u8 = 13;
/// Line feed.
pub const LF: u8 = 10;

/// True when the four bytes starting at `i` are CRLF CRLF.
pub open spec fn separator_at(s: Seq<u8>, i: int) -> bool {
    &&& 0 <= i
    &&& i + 4 <= s.len()
    &&& s[i] == CR
    &&& s[i + 1] == LF
    &&& s[i + 2] == CR
    &&& s[i + 3] == LF
}

/// Index of the first blank-line separator at or after `i`, or -1 when
/// none occurs there.
pub open spec fn first_separator_from(s: Seq<u8>, i: int) -> int
    decreases s.len() - i,
{
    if i < 0 || i + 4 > s.len() {
        -1
    } else if separator_at(s, i) {
        i
    } else {
        first_separator_from(s, i + 1)
    }
}

/// Index of the first blank-line separator in `s`, or -1 when `s` has none.
pub open spec fn first_separator(s: Seq<u8>) -> int {
    first_separator_from(s, 0)
}

/// The first separator at or after `i` is a separator position, is at or
/// after `i`, and no separator occurs between `i` and it.
proof fn lemma_first_separator_from(s: Seq<u8>, i: int)
    requires
        0 <= i,
    ensures
        first_separator_from(s, i) >= 0 ==> {
            &&& i <= first_separator_from(s, i)
            &&& separator_at(s, first_separator_from(s, i))
            &&& forall|j: int| i <= j < first_separator_from(s, i) ==> !separator_at(s, j)
        },
        first_separator_from(s, i) < 0 ==> forall|j: int| i <= j ==> !separator_at(s, j),
    decreases s.len() - i,
{
    if i + 4 > s.len() {
    } else if separator_at(s, i) {
    } else {
        lemma_first_separator_from(s, i + 1);
    }
}

/// The first separator of `s` is the first one: it is a separator position
/// and nothing before it is one; when it is -1, `s` holds none.
pub proof fn lemma_first_separator(s: Seq<u8>)
    ensures
        first_separator(s) >= 0 ==> {
            &&& separator_at(s, first_separator(s))
            &&& forall|j: int| 0 <= j < first_separator(s) ==> !separator_at(s, j)
        },
        first_separator(s) < 0 ==> forall|j: int| !separator_at(s, j),
{
    lemma_first_separator_from(s, 0);
}

/// When no separator occurs before `i`, the first separator of `s` is the
/// first one at or after `i`.
proof fn lemma_first_separator_skip(s: Seq<u8>, i: int)
    requires
        0 <= i,
        forall|j: int| 0 <= j < i ==> !separator_at(s, j),
    ensures
        first_separator(s) == first_separator_from(s, i),
    decreases i,
{
    if i > 0 {
        lemma_first_separator_skip(s, i - 1);
        assert(!separator_at(s, i - 1));
    }
}

/// A stream with the separator at exactly one position splits exactly at
/// that boundary: the header is everything through the first CRLF of the
/// separator, the body everything after the second.
pub proof fn lemma_split_at_unique_separator(s: Seq<u8>, i: int)
    requires
        separator_at(s, i),
        forall|j: int| j != i ==> !separator_at(s, j),
    ensures
        first_separator(s) == i,
{
    lemma_first_separator(s);
    if first_separator(s) < 0 {
        assert(!separator_at(s, i));
    }
}

/// Splits accumulated response bytes at the first blank-line separator:
/// the header block keeps the CRLF that ends its final line, the body is
/// everything after the full CRLF CRLF. A stream in which the separator
/// never appears is a malformed response.
pub fn split_response(data: &Vec<u8>) -> (r: Result<(Vec<u8>, Vec<u8>), ErrorKind>)
    ensures
        r is Ok <==> first_separator(data@) >= 0,
        r matches Err(k) ==> k == ErrorKind::MalformedResponse,
        r matches Ok(p) ==> {
            &&& p.0@ == data@.subrange(0, first_separator(data@) + 2)
            &&& p.1@ == data@.subrange(first_separator(data@) + 4, data@.len() as int)
        },
{
    let n = data.len();
    let mut i: usize = 0;
    while n >= 4 && i <= n - 4
        invariant
            n == data@.len(),
            0 <= i <= n,
            forall|j: int| 0 <= j < i ==> !separator_at(data@, j),
        decreases n - i,
    {
        if data[i] == CR && data[i + 1] == LF && data[i + 2] == CR && data[i + 3] == LF {
            proof {
                lemma_first_separator_skip(data@, i as int);
                assert(separator_at(data@, i as int));
            }
            let header = slice_to_vec(slice_subrange(data.as_slice(), 0, i + 2));
            let body = slice_to_vec(slice_subrange(data.as_slice(), i + 4, n));
            return Ok((header, body));
        }
        i += 1;
    }
    proof {
        lemma_first_separator_skip(data@, i as int);
    }
    Err(ErrorKind::MalformedResponse)
}

/// The minimal request sent to the peer: an HTTP/1.0 GET of `/` with the
/// target hostname as `Host` and `Connection: close`, ended by a blank line.
pub fn http_request_for_host(host: &str) -> (r: String)
    ensures
        r@ == "GET / HTTP/1.0\r\nHost: "@ + host@ + "\r\nConnection: close\r\n\r\n"@,
{
    let mut s = String::from_str("GET / HTTP/1.0\r\nHost: ");
    s.append(host);
    s.append("\r\nConnection: close\r\n\r\n");
    s
}

} // verus!
