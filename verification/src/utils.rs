//! Bounded text and header representations used by the diagnostic events.
//!
//! A request or response body is rendered for tracing by stripping a
//! leading UTF-8 byte-order mark, truncating to a fixed maximum, and
//! decoding best-effort (invalid sequences replaced, never failing).
//! Headers are rendered one per line as `name: value`, with values flagged
//! sensitive replaced by a fixed redaction marker.

use vstd::prelude::*;
use vstd::string::StrSliceExecFns;
use vstd::string::StringExecFns;
use vstd::utf8::encode_utf8;
use vstd::utf8::valid_utf8;

verus! {

/// `b` without its leading UTF-8 byte-order mark, if it has one.
pub open spec fn spec_strip_utf8_bom(b: Seq<u8>) -> Seq<u8> {
    if b.len() >= 3 && b[0] == 0xEF && b[1] == 0xBB && b[2] == 0xBF {
        b.skip(3)
    } else {
        b
    }
}

/// Strips a leading UTF-8 byte-order mark, if present.
pub fn strip_utf8_bom(b: &[u8]) -> (r: &[u8])
    ensures
        r@ == spec_strip_utf8_bom(b@),
{
    if b.len() >= 3 && b[0] == 0xEF && b[1] == 0xBB && b[2] == 0xBF {
        let r = &b[3..b.len()];
        assert(r@ =~= b@.skip(3));
        r
    } else {
        b
    }
}

/// The first `count` bytes of `b`, or all of `b` if it is shorter.
pub open spec fn spec_take_only_n_bytes(b: Seq<u8>, count: nat) -> Seq<u8> {
    if b.len() > count {
        b.take(count as int)
    } else {
        b
    }
}

/// Truncates `b` to at most `count` bytes.
pub fn take_only_n_bytes(b: &[u8], count: usize) -> (r: &[u8])
    ensures
        r@ == spec_take_only_n_bytes(b@, count as nat),
{
    if b.len() > count {
        let r = &b[0..count];
        assert(r@ =~= b@.take(count as int));
        r
    } else {
        b
    }
}

pub uninterp spec fn utf8_lossy_of(b: Seq<u8>) -> Seq<char>;

/// Relies on std's `String::from_utf8_lossy`: the result is a function of
/// the bytes alone; it never fails, replacing invalid sequences; and, as
/// its documentation promises, a valid UTF-8 input decodes losslessly, so
/// the result re-encodes to the input. Each decoded character and each
/// replacement consumes at least one input byte, so the result holds at
/// most as many characters as the input holds bytes; in particular an
/// empty input gives an empty result.
#[verifier::external_body]
fn from_utf8_lossy(b: &[u8]) -> (r: String)
    ensures
        r@ == utf8_lossy_of(b@),
        valid_utf8(b@) ==> encode_utf8(r@) == b@,
        r@.len() <= b@.len(),
{
    String::from_utf8_lossy(b).into_owned()
}

/// What the bounded text representation of `b` is: the best-effort
/// decoding of `b` with a leading byte-order mark stripped and the rest
/// truncated to 30 KiB.
pub open spec fn spec_text_repr(b: Seq<u8>) -> Seq<char> {
    utf8_lossy_of(spec_take_only_n_bytes(spec_strip_utf8_bom(b), 30 * 1024))
}

/// Converts a buffer to a bounded string representation for tracing:
/// strips a leading byte-order mark, truncates to 30 KiB, then decodes
/// best-effort, never failing on invalid sequences.
pub fn text_repr(bytes: &[u8]) -> (r: String)
    ensures
        r@ == spec_text_repr(bytes@),
        valid_utf8(spec_take_only_n_bytes(spec_strip_utf8_bom(bytes@), 30 * 1024))
            ==> encode_utf8(r@) == spec_take_only_n_bytes(spec_strip_utf8_bom(bytes@), 30 * 1024),
        r@.len() <= 30 * 1024,
{
    from_utf8_lossy(take_only_n_bytes(strip_utf8_bom(bytes), 30 * 1024))
}

/// One header of a request or response, as the library models it: its
/// name, its value rendered as text where it is printable, and whether it
/// was flagged sensitive.
#[derive(Clone, PartialEq, Eq, Debug)]
pub struct Header {
    /// The header's name.
    pub name: String,
    /// The header's value as text, or `None` where it is not printable.
    pub value: Option<String>,
    /// Whether the value was explicitly flagged sensitive (an auth token,
    /// say) and must never be rendered.
    pub sensitive: bool,
}

/// How one header is rendered: `name: value`, with a sensitive value
/// replaced by a fixed redaction marker whatever it holds, and an
/// unprintable one by a fixed placeholder.
pub open spec fn spec_header_line(h: Header) -> Seq<char> {
    h.name@ + ": "@ + if h.sensitive {
        "<sensitive>"@
    } else {
        match h.value {
            Some(v) => v@,
            None => "<n/a>"@,
        }
    }
}

/// How a header sequence is rendered: one line per header, in order,
/// joined by newlines.
pub open spec fn spec_headers_repr(hs: Seq<Header>) -> Seq<char>
    decreases hs.len(),
{
    if hs.len() == 0 {
        Seq::empty()
    } else if hs.len() == 1 {
        spec_header_line(hs[0])
    } else {
        spec_headers_repr(hs.drop_last()) + "\n"@ + spec_header_line(hs.last())
    }
}

/// Renders headers one per line as `name: value`, preserving their order,
/// with every value flagged sensitive replaced by a redaction marker
/// regardless of its content.
pub fn headers_repr(headers: &Vec<Header>) -> (r: String)
    ensures
        r@ == spec_headers_repr(headers@),
{
    let mut out = String::new();
    let mut i: usize = 0;
    while i < headers.len()
        invariant
            i <= headers.len(),
            out@ == spec_headers_repr(headers@.take(i as int)),
        decreases headers.len() - i,
    {
        if i > 0 {
            out.append("\n");
        }
        let h = &headers[i];
        out.append(h.name.as_str());
        out.append(": ");
        if h.sensitive {
            out.append("<sensitive>");
        } else {
            match &h.value {
                Some(v) => out.append(v.as_str()),
                None => out.append("<n/a>"),
            }
        }
        proof {
            let pre = headers@.take(i as int);
            let now = headers@.take(i + 1 as int);
            assert(now.drop_last() =~= pre);
            assert(now.last() == headers@[i as int]);
            if i == 0 {
                assert(out@ =~= spec_header_line(headers@[0]));
                assert(now.len() == 1);
                assert(now[0] == headers@[0]);
            } else {
                assert(out@ =~= spec_headers_repr(pre) + "\n"@ + spec_header_line(
                    headers@[i as int],
                ));
            }
        }
        i = i + 1;
    }
    proof {
        assert(headers@.take(headers@.len() as int) =~= headers@);
    }
    out
}

/// A header flagged sensitive is rendered the same whatever its value:
/// the rendering depends on its name alone.
pub proof fn lemma_sensitive_header_redacted(a: Header, b: Header)
    requires
        a.sensitive,
        b.sensitive,
        a.name@ == b.name@,
    ensures
        spec_header_line(a) == spec_header_line(b),
{
}

/// The first `max` characters of `s`, or all of `s` if it is shorter.
pub open spec fn spec_truncate_chars(s: Seq<char>, max: nat) -> Seq<char> {
    if s.len() <= max {
        s
    } else {
        s.take(max as int)
    }
}

/// Truncates a string to at most `max` characters.
pub fn truncate_chars(s: &str, max: usize) -> (r: String)
    ensures
        r@ == spec_truncate_chars(s@, max as nat),
{
    let n = s.unicode_len();
    if n <= max {
        String::from_str(s)
    } else {
        String::from_str(s.substring_char(0, max))
    }
}

} // verus!
