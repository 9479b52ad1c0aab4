//! Building the provider call from a validated request.
//!
//! The body is a JSON object with exactly the keys `source`, `target` and
//! `q`; string values are escaped the standard JSON way: quote, backslash
//! and the named control characters by a two-character escape, any other
//! control character as `\u00XX`, everything else verbatim.

use vstd::prelude::*;
use vstd::string::*;
use crate::resolve::RequestDescriptor;
use crate::text::push_char;

verus! {

/// The lowercase hexadecimal digit for `n`.
pub open spec fn hex_digit(n: int) -> char {
    if n == 0 { '0' } else if n == 1 { '1' } else if n == 2 { '2' } else if n == 3 { '3' }
    else if n == 4 { '4' } else if n == 5 { '5' } else if n == 6 { '6' } else if n == 7 { '7' }
    else if n == 8 { '8' } else if n == 9 { '9' } else if n == 10 { 'a' } else if n == 11 { 'b' }
    else if n == 12 { 'c' } else if n == 13 { 'd' } else if n == 14 { 'e' } else { 'f' }
}

/// Executable hexadecimal digit, matching [`hex_digit`].
fn hex_char(n: u32) -> (c: char)
    requires
        n < 16,
    ensures
        c == hex_digit(n as int),
{
    if n == 0 { '0' } else if n == 1 { '1' } else if n == 2 { '2' } else if n == 3 { '3' }
    else if n == 4 { '4' } else if n == 5 { '5' } else if n == 6 { '6' } else if n == 7 { '7' }
    else if n == 8 { '8' } else if n == 9 { '9' } else if n == 10 { 'a' } else if n == 11 { 'b' }
    else if n == 12 { 'c' } else if n == 13 { 'd' } else if n == 14 { 'e' } else { 'f' }
}

/// The JSON escape of one character.
pub open spec fn escape_char(c: char) -> Seq<char> {
    if c == '"' {
        seq!['\\', '"']
    } else if c == '\\' {
        seq!['\\', '\\']
    } else if c == '\u{8}' {
        seq!['\\', 'b']
    } else if c == '\u{9}' {
        seq!['\\', 't']
    } else if c == '\u{a}' {
        seq!['\\', 'n']
    } else if c == '\u{c}' {
        seq!['\\', 'f']
    } else if c == '\u{d}' {
        seq!['\\', 'r']
    } else if (c as u32) < 0x20 {
        seq!['\\', 'u', '0', '0', hex_digit((c as u32 / 16) as int), hex_digit((c as u32 % 16) as int)]
    } else {
        seq![c]
    }
}

/// The JSON escape of a whole string.
pub open spec fn escaped(s: Seq<char>) -> Seq<char>
    decreases s.len(),
{
    if s.len() == 0 {
        Seq::empty()
    } else {
        escaped(s.drop_last()) + escape_char(s.last())
    }
}

/// A JSON string literal holding `s`.
pub open spec fn quoted(s: Seq<char>) -> Seq<char> {
    seq!['"'] + escaped(s) + seq!['"']
}

/// The request body: `{"source":...,"target":...,"q":...}`.
pub open spec fn body_json(src: Seq<char>, tgt: Seq<char>, q: Seq<char>) -> Seq<char> {
    "{\"source\":"@ + quoted(src) + ",\"target\":"@ + quoted(tgt) + ",\"q\":"@ + quoted(q) + "}"@
}

/// Appends the escaped form of `s` to `out`.
fn append_escaped(out: &mut String, s: &str)
    ensures
        final(out)@ == old(out)@ + escaped(s@),
{
    let n = s.unicode_len();
    let mut i: usize = 0;
    proof {
        assert(out@ =~= old(out)@ + escaped(s@.subrange(0, 0)));
    }
    while i < n
        invariant
            n == s@.len(),
            i <= n,
            out@ == old(out)@ + escaped(s@.subrange(0, i as int)),
        decreases n - i,
    {
        let c = s.get_char(i);
        if c == '"' {
            push_char(out, '\\');
            push_char(out, '"');
        } else if c == '\\' {
            push_char(out, '\\');
            push_char(out, '\\');
        } else if c == '\u{8}' {
            push_char(out, '\\');
            push_char(out, 'b');
        } else if c == '\u{9}' {
            push_char(out, '\\');
            push_char(out, 't');
        } else if c == '\u{a}' {
            push_char(out, '\\');
            push_char(out, 'n');
        } else if c == '\u{c}' {
            push_char(out, '\\');
            push_char(out, 'f');
        } else if c == '\u{d}' {
            push_char(out, '\\');
            push_char(out, 'r');
        } else if (c as u32) < 0x20 {
            push_char(out, '\\');
            push_char(out, 'u');
            push_char(out, '0');
            push_char(out, '0');
            push_char(out, hex_char((c as u32) / 16));
            push_char(out, hex_char((c as u32) % 16));
        } else {
            push_char(out, c);
        }
        proof {
            let ext = s@.subrange(0, i + 1 as int);
            assert(ext.drop_last() =~= s@.subrange(0, i as int));
            assert(ext.last() == c);
            assert(out@ =~= old(out)@ + escaped(ext));
        }
        i += 1;
    }
    proof {
        assert(s@.subrange(0, n as int) =~= s@);
    }
}

/// Appends `"` escaped(s) `"` to `out`.
fn append_quoted(out: &mut String, s: &str)
    ensures
        final(out)@ == old(out)@ + quoted(s@),
{
    push_char(out, '"');
    append_escaped(out, s);
    push_char(out, '"');
    proof {
        assert(out@ =~= old(out)@ + quoted(s@));
    }
}

/// Builds the JSON request body for `req`.
pub fn build_body(req: &RequestDescriptor) -> (r: String)
    ensures
        r@ == body_json(req.input_language@, req.output_language@, req.text@),
{
    let mut out = String::new();
    out.append("{\"source\":");
    append_quoted(&mut out, req.input_language.as_str());
    out.append(",\"target\":");
    append_quoted(&mut out, req.output_language.as_str());
    out.append(",\"q\":");
    append_quoted(&mut out, req.text.as_str());
    out.append("}");
    proof {
        assert(out@ =~= body_json(req.input_language@, req.output_language@, req.text@));
    }
    out
}

/// The provider's translation endpoint.
pub open spec fn endpoint() -> Seq<char> {
    "https://translation.googleapis.com/language/translate/v2"@
}

/// The value of the `Authorization` header for a given access key.
pub open spec fn bearer(key: Seq<char>) -> Seq<char> {
    "Bearer "@ + key
}

/// Everything the HTTP caller needs: where to post, with which
/// authorization, and what body.
pub struct HttpPlan {
    pub url: String,
    pub authorization: String,
    pub body: String,
}

/// Plans the provider call.  `None` exactly when the access key is empty;
/// otherwise the plan carries the fixed endpoint, the bearer header and the
/// JSON body for `req`.
pub fn plan_request(req: &RequestDescriptor, access_key: &str) -> (r: Option<HttpPlan>)
    ensures
        (access_key@.len() == 0) == (r is None),
        r matches Some(p) ==> p.url@ == endpoint() && p.authorization@ == bearer(access_key@)
            && p.body@ == body_json(req.input_language@, req.output_language@, req.text@),
{
    if access_key.is_empty() {
        None
    } else {
        let mut auth = String::from_str("Bearer ");
        auth.append(access_key);
        Some(
            HttpPlan {
                url: String::from_str("https://translation.googleapis.com/language/translate/v2"),
                authorization: auth,
                body: build_body(req),
            },
        )
    }
}

} // verus!
