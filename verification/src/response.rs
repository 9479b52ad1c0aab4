//! Parsing the provider's JSON response envelope.
//!
//! A successful response has the shape
//! `{"data":{"translations":[{"translatedText":"..."},...]}}`: an object
//! with the single key `data`, holding an object with the single key
//! `translations`, holding a non-empty array of objects each with the
//! single key `translatedText` and a JSON string value.  The first
//! element's text is the translation.  JSON whitespace is allowed between
//! tokens, and string values may use the standard escapes, including
//! `\uXXXX` with surrogate pairs for supplementary characters.  Anything
//! else — an error envelope, extra keys, an empty array — is rejected as
//! a whole, and the caller reports it.

use vstd::prelude::*;
use vstd::string::*;
use crate::text::push_char;

verus! {

/// JSON inter-token whitespace.
pub open spec fn json_ws(c: char) -> bool {
    c == ' ' || c == '\t' || c == '\n' || c == '\r'
}

/// Executable check matching [`json_ws`].
fn json_ws_char(c: char) -> (r: bool)
    ensures
        r == json_ws(c),
{
    c == ' ' || c == '\t' || c == '\n' || c == '\r'
}

/// The first position at or after `i` that holds no JSON whitespace.
pub open spec fn ws_end(s: Seq<char>, i: int) -> int
    decreases s.len() - i,
{
    if 0 <= i < s.len() && json_ws(s[i]) {
        ws_end(s, i + 1)
    } else {
        i
    }
}

/// The value of a hexadecimal digit, or -1.
pub open spec fn hex_val(c: char) -> int {
    let u = (c as u32) as int;
    if 48 <= u && u <= 57 {
        u - 48
    } else if 97 <= u && u <= 102 {
        u - 87
    } else if 65 <= u && u <= 70 {
        u - 55
    } else {
        -1
    }
}

/// The character named by a single-character escape, if any (`\u` escapes
/// are handled separately).
pub open spec fn unescape_one(c: char) -> Option<char> {
    if c == '"' {
        Some('"')
    } else if c == '\\' {
        Some('\\')
    } else if c == '/' {
        Some('/')
    } else if c == 'b' {
        Some('\u{8}')
    } else if c == 'f' {
        Some('\u{c}')
    } else if c == 'n' {
        Some('\n')
    } else if c == 'r' {
        Some('\r')
    } else if c == 't' {
        Some('\t')
    } else {
        None
    }
}

/// Parses the remainder of a JSON string literal, starting inside the
/// quotes at `i`: the decoded content and the position just past the
/// closing quote, or `None` when the literal is malformed.
pub open spec fn str_tail(s: Seq<char>, i: int) -> Option<(Seq<char>, int)>
    decreases s.len() - i,
{
    if i < 0 || i >= s.len() {
        None
    } else if s[i] == '"' {
        Some((Seq::empty(), i + 1))
    } else if s[i] == '\\' {
        if i + 1 >= s.len() {
            None
        } else if s[i + 1] == 'u' {
            if i + 6 > s.len() {
                None
            } else if hex_val(s[i + 2]) < 0 || hex_val(s[i + 3]) < 0 || hex_val(s[i + 4]) < 0
                || hex_val(s[i + 5]) < 0 {
                None
            } else {
                let h = hex_val(s[i + 2]) * 4096 + hex_val(s[i + 3]) * 256 + hex_val(s[i + 4]) * 16
                    + hex_val(s[i + 5]);
                if 0xDC00 <= h && h < 0xE000 {
                    None
                } else if 0xD800 <= h && h < 0xDC00 {
                    // A high surrogate must pair with a following `\u` low
                    // surrogate; the pair names one supplementary character.
                    if i + 12 > s.len() {
                        None
                    } else if s[i + 6] != '\\' || s[i + 7] != 'u' {
                        None
                    } else if hex_val(s[i + 8]) < 0 || hex_val(s[i + 9]) < 0 || hex_val(
                        s[i + 10],
                    ) < 0 || hex_val(s[i + 11]) < 0 {
                        None
                    } else {
                        let lo = hex_val(s[i + 8]) * 4096 + hex_val(s[i + 9]) * 256 + hex_val(
                            s[i + 10],
                        ) * 16 + hex_val(s[i + 11]);
                        if !(0xDC00 <= lo && lo < 0xE000) {
                            None
                        } else {
                            let code = 0x10000 + (h - 0xD800) * 0x400 + (lo - 0xDC00);
                            match str_tail(s, i + 12) {
                                Some(p) => Some((seq![(code as u32) as char] + p.0, p.1)),
                                None => None,
                            }
                        }
                    }
                } else {
                    match str_tail(s, i + 6) {
                        Some(p) => Some((seq![(h as u32) as char] + p.0, p.1)),
                        None => None,
                    }
                }
            }
        } else {
            match unescape_one(s[i + 1]) {
                Some(c) => match str_tail(s, i + 2) {
                    Some(p) => Some((seq![c] + p.0, p.1)),
                    None => None,
                },
                None => None,
            }
        }
    } else if (s[i] as u32) < 0x20 {
        None
    } else {
        match str_tail(s, i + 1) {
            Some(p) => Some((seq![s[i]] + p.0, p.1)),
            None => None,
        }
    }
}

/// The literal `lit` stands at position `i` of `s`.
pub open spec fn lit_at(s: Seq<char>, i: int, lit: Seq<char>) -> bool {
    0 <= i && i + lit.len() <= s.len() && s.subrange(i, i + lit.len() as int) == lit
}

/// One translation element: `{ "translatedText" : <string> }`, preceded by
/// optional whitespace.  Yields the decoded text and the position just past
/// the closing brace.
pub open spec fn elem(s: Seq<char>, i: int) -> Option<(Seq<char>, int)> {
    let j = ws_end(s, i);
    if j >= s.len() || s[j] != '{' {
        None
    } else {
        let k = ws_end(s, j + 1);
        if !lit_at(s, k, "\"translatedText\""@) {
            None
        } else {
            let l = ws_end(s, k + "\"translatedText\""@.len());
            if l >= s.len() || s[l] != ':' {
                None
            } else {
                let m = ws_end(s, l + 1);
                if m >= s.len() || s[m] != '"' {
                    None
                } else {
                    match str_tail(s, m + 1) {
                        None => None,
                        Some(p) => {
                            let f = ws_end(s, p.1);
                            if f >= s.len() || s[f] != '}' {
                                None
                            } else {
                                Some((p.0, f + 1))
                            }
                        },
                    }
                }
            }
        }
    }
}

/// After one element: either the closing `]`, or `,` and a further
/// element, repeated.  Yields the position just past the `]`.
pub open spec fn elems_end(s: Seq<char>, i: int) -> Option<int>
    decreases s.len() - i,
{
    let j = ws_end(s, i);
    if j >= s.len() {
        None
    } else if s[j] == ']' {
        Some(j + 1)
    } else if s[j] == ',' {
        match elem(s, j + 1) {
            Some(p) => if i < p.1 <= s.len() {
                elems_end(s, p.1)
            } else {
                None
            },
            None => None,
        }
    } else {
        None
    }
}

/// The decoded text of the first translation of a well-formed response
/// envelope, or `None` when the body has any other shape.
pub open spec fn response_text(s: Seq<char>) -> Option<Seq<char>> {
    let i0 = ws_end(s, 0);
    if i0 >= s.len() || s[i0] != '{' {
        None
    } else {
        let i1 = ws_end(s, i0 + 1);
        if !lit_at(s, i1, "\"data\""@) {
            None
        } else {
            let i2 = ws_end(s, i1 + "\"data\""@.len());
            if i2 >= s.len() || s[i2] != ':' {
                None
            } else {
                let i3 = ws_end(s, i2 + 1);
                if i3 >= s.len() || s[i3] != '{' {
                    None
                } else {
                    let i4 = ws_end(s, i3 + 1);
                    if !lit_at(s, i4, "\"translations\""@) {
                        None
                    } else {
                        let i5 = ws_end(s, i4 + "\"translations\""@.len());
                        if i5 >= s.len() || s[i5] != ':' {
                            None
                        } else {
                            let i6 = ws_end(s, i5 + 1);
                            if i6 >= s.len() || s[i6] != '[' {
                                None
                            } else {
                                match elem(s, i6 + 1) {
                                    None => None,
                                    Some(p) => match elems_end(s, p.1) {
                                        None => None,
                                        Some(q) => {
                                            let r1 = ws_end(s, q);
                                            if r1 >= s.len() || s[r1] != '}' {
                                                None
                                            } else {
                                                let r2 = ws_end(s, r1 + 1);
                                                if r2 >= s.len() || s[r2] != '}' {
                                                    None
                                                } else if ws_end(s, r2 + 1) == s.len() {
                                                    Some(p.0)
                                                } else {
                                                    None
                                                }
                                            }
                                        },
                                    },
                                }
                            }
                        }
                    }
                }
            }
        }
    }
}

/// Relies on `char::from_u32`: `Some` exactly for Unicode scalar values
/// (below the surrogate range, or above it and at most 0x10FFFF), and the
/// returned character has the given value.
#[verifier::external_body]
fn char_of_code(u: u32) -> (r: Option<char>)
    ensures
        (r is Some) == (u < 0xD800 || (0xE000 <= u && u <= 0x10FFFF)),
        r matches Some(c) ==> c as u32 == u,
{
    char::from_u32(u)
}

/// Skips JSON whitespace.
fn skip_ws(v: &Vec<char>, start: usize) -> (r: usize)
    requires
        start <= v@.len(),
    ensures
        r == ws_end(v@, start as int),
        start <= r <= v@.len(),
{
    let mut i = start;
    while i < v.len() && json_ws_char(v[i])
        invariant
            start <= i <= v@.len(),
            ws_end(v@, start as int) == ws_end(v@, i as int),
        decreases v@.len() - i,
    {
        i += 1;
    }
    i
}

/// Whether the characters of `pat` stand at position `i` of `v`.
fn lit_match(v: &Vec<char>, i: usize, pat: &str) -> (r: bool)
    requires
        i <= v@.len(),
    ensures
        r == lit_at(v@, i as int, pat@),
{
    let m = pat.unicode_len();
    let n = v.len();
    if n - i < m {
        return false;
    }
    let mut j: usize = 0;
    while j < m
        invariant
            i + m <= n,
            n == v@.len(),
            m == pat@.len(),
            j <= m,
            forall|k: int| 0 <= k < j ==> v@[i + k] == pat@[k],
        decreases m - j,
    {
        if v[i + j] != pat.get_char(j) {
            assert(v@.subrange(i as int, i + m as int)[j as int] == v@[i + j]);
            return false;
        }
        j += 1;
    }
    proof {
        assert(v@.subrange(i as int, i + m as int) =~= pat@);
    }
    true
}

/// The value of a hexadecimal digit character.
fn hexv(c: char) -> (r: Option<u8>)
    ensures
        (r is Some) == (hex_val(c) >= 0),
        r matches Some(x) ==> x as int == hex_val(c) && x < 16,
{
    let u = c as u32;
    if 48 <= u && u <= 57 {
        Some((u - 48) as u8)
    } else if 97 <= u && u <= 102 {
        Some((u - 87) as u8)
    } else if 65 <= u && u <= 70 {
        Some((u - 55) as u8)
    } else {
        None
    }
}

/// Decodes a JSON string literal from just inside its quotes, per
/// [`str_tail`].
fn parse_string_tail(v: &Vec<char>, start: usize) -> (r: Option<(String, usize)>)
    requires
        start <= v@.len(),
    ensures
        match r {
            Some(p) => str_tail(v@, start as int) == Some((p.0@, p.1 as int)) && start < p.1
                <= v@.len(),
            None => str_tail(v@, start as int) is None,
        },
{
    let mut acc = String::new();
    let mut i = start;
    loop
        invariant
            start <= i <= v@.len(),
            (match str_tail(v@, i as int) {
                Some(p) => str_tail(v@, start as int) == Some((acc@ + p.0, p.1)),
                None => str_tail(v@, start as int) is None,
            }),
        decreases v@.len() - i,
    {
        if i == v.len() {
            return None;
        }
        let c = v[i];
        if c == '"' {
            proof {
                assert(acc@ + Seq::<char>::empty() =~= acc@);
            }
            return Some((acc, i + 1));
        }
        if c == '\\' {
            if i + 1 == v.len() {
                return None;
            }
            let d = v[i + 1];
            if d == 'u' {
                if v.len() - i < 6 {
                    return None;
                }
                let h0 = hexv(v[i + 2]);
                let h1 = hexv(v[i + 3]);
                let h2 = hexv(v[i + 4]);
                let h3 = hexv(v[i + 5]);
                match (h0, h1, h2, h3) {
                    (Some(a), Some(b), Some(cc), Some(dd)) => {
                        let h: u32 = (a as u32) * 4096 + (b as u32) * 256 + (cc as u32) * 16
                            + (dd as u32);
                        proof {
                            let s = v@;
                            assert(hex_val(s[i + 2]) * 4096 + hex_val(s[i + 3]) * 256 + hex_val(
                                s[i + 4],
                            ) * 16 + hex_val(s[i + 5]) == h as int);
                        }
                        if 0xDC00 <= h && h < 0xE000 {
                            return None;
                        }
                        if 0xD800 <= h && h < 0xDC00 {
                            if v.len() - i < 12 {
                                return None;
                            }
                            if v[i + 6] != '\\' || v[i + 7] != 'u' {
                                return None;
                            }
                            match (hexv(v[i + 8]), hexv(v[i + 9]), hexv(v[i + 10]), hexv(
                                v[i + 11],
                            )) {
                                (Some(a2), Some(b2), Some(c2), Some(d2)) => {
                                    let lo: u32 = (a2 as u32) * 4096 + (b2 as u32) * 256 + (
                                    c2 as u32) * 16 + (d2 as u32);
                                    proof {
                                        let s = v@;
                                        assert(hex_val(s[i + 8]) * 4096 + hex_val(s[i + 9]) * 256
                                            + hex_val(s[i + 10]) * 16 + hex_val(s[i + 11])
                                            == lo as int);
                                    }
                                    if !(0xDC00 <= lo && lo < 0xE000) {
                                        return None;
                                    }
                                    let code: u32 = 0x10000 + (h - 0xD800) * 0x400 + (lo - 0xDC00);
                                    match char_of_code(code) {
                                        Some(ch) => {
                                            proof {
                                                vstd::utf8::char_u32_cast(ch, code);
                                                let s = v@;
                                                match str_tail(s, i + 12 as int) {
                                                    Some(p) => {
                                                        assert(str_tail(s, i as int) == Some(
                                                            (seq![ch] + p.0, p.1),
                                                        ));
                                                        assert(acc@ + (seq![ch] + p.0)
                                                            =~= acc@.push(ch) + p.0);
                                                    },
                                                    None => {
                                                        assert(str_tail(s, i as int) is None);
                                                    },
                                                }
                                            }
                                            push_char(&mut acc, ch);
                                            i = i + 12;
                                        },
                                        None => {
                                            proof {
                                                assert(false);
                                            }
                                            return None;
                                        },
                                    }
                                },
                                _ => {
                                    return None;
                                },
                            }
                        } else {
                            match char_of_code(h) {
                                Some(ch) => {
                                    proof {
                                        vstd::utf8::char_u32_cast(ch, h);
                                        let s = v@;
                                        match str_tail(s, i + 6 as int) {
                                            Some(p) => {
                                                assert(str_tail(s, i as int) == Some(
                                                    (seq![ch] + p.0, p.1),
                                                ));
                                                assert(acc@ + (seq![ch] + p.0) =~= acc@.push(ch)
                                                    + p.0);
                                            },
                                            None => {
                                                assert(str_tail(s, i as int) is None);
                                            },
                                        }
                                    }
                                    push_char(&mut acc, ch);
                                    i = i + 6;
                                },
                                None => {
                                    proof {
                                        assert(false);
                                    }
                                    return None;
                                },
                            }
                        }
                    },
                    _ => {
                        return None;
                    },
                }
            } else {
                let one = if d == '"' {
                    Some('"')
                } else if d == '\\' {
                    Some('\\')
                } else if d == '/' {
                    Some('/')
                } else if d == 'b' {
                    Some('\u{8}')
                } else if d == 'f' {
                    Some('\u{c}')
                } else if d == 'n' {
                    Some('\n')
                } else if d == 'r' {
                    Some('\r')
                } else if d == 't' {
                    Some('\t')
                } else {
                    None
                };
                assert(one == unescape_one(d));
                match one {
                    Some(ch) => {
                        proof {
                            let s = v@;
                            match str_tail(s, i + 2 as int) {
                                Some(p) => {
                                    assert(str_tail(s, i as int) == Some((seq![ch] + p.0, p.1)));
                                    assert(acc@ + (seq![ch] + p.0) =~= acc@.push(ch) + p.0);
                                },
                                None => {
                                    assert(str_tail(s, i as int) is None);
                                },
                            }
                        }
                        push_char(&mut acc, ch);
                        i = i + 2;
                    },
                    None => {
                        return None;
                    },
                }
            }
        } else if (c as u32) < 0x20 {
            return None;
        } else {
            proof {
                let s = v@;
                match str_tail(s, i + 1 as int) {
                    Some(p) => {
                        assert(str_tail(s, i as int) == Some((seq![c] + p.0, p.1)));
                        assert(acc@ + (seq![c] + p.0) =~= acc@.push(c) + p.0);
                    },
                    None => {
                        assert(str_tail(s, i as int) is None);
                    },
                }
            }
            push_char(&mut acc, c);
            i = i + 1;
        }
    }
}

/// Parses one translation element, per [`elem`].
fn parse_elem(v: &Vec<char>, start: usize) -> (r: Option<(String, usize)>)
    requires
        start <= v@.len(),
    ensures
        match r {
            Some(p) => elem(v@, start as int) == Some((p.0@, p.1 as int)) && start < p.1
                <= v@.len(),
            None => elem(v@, start as int) is None,
        },
{
    let j = skip_ws(v, start);
    if j >= v.len() {
        return None;
    }
    if v[j] != '{' {
        return None;
    }
    let k = skip_ws(v, j + 1);
    if !lit_match(v, k, "\"translatedText\"") {
        return None;
    }
    let klen = "\"translatedText\"".unicode_len();
    let l = skip_ws(v, k + klen);
    if l >= v.len() {
        return None;
    }
    if v[l] != ':' {
        return None;
    }
    let m = skip_ws(v, l + 1);
    if m >= v.len() {
        return None;
    }
    if v[m] != '"' {
        return None;
    }
    match parse_string_tail(v, m + 1) {
        None => None,
        Some((txt, e)) => {
            let f = skip_ws(v, e);
            if f >= v.len() {
                return None;
            }
            if v[f] != '}' {
                return None;
            }
            Some((txt, f + 1))
        },
    }
}

/// Consumes `, <element>` repetitions and the closing `]`, per
/// [`elems_end`].
fn parse_rest(v: &Vec<char>, start: usize) -> (r: Option<usize>)
    requires
        start <= v@.len(),
    ensures
        match r {
            Some(e) => elems_end(v@, start as int) == Some(e as int) && e <= v@.len(),
            None => elems_end(v@, start as int) is None,
        },
{
    let mut pos = start;
    loop
        invariant
            start <= pos <= v@.len(),
            elems_end(v@, start as int) == elems_end(v@, pos as int),
        decreases v@.len() - pos,
    {
        let j = skip_ws(v, pos);
        if j >= v.len() {
            return None;
        }
        let c = v[j];
        if c == ']' {
            return Some(j + 1);
        }
        if c != ',' {
            return None;
        }
        match parse_elem(v, j + 1) {
            Some((_t, e)) => {
                proof {
                    assert(elems_end(v@, pos as int) == elems_end(v@, e as int));
                }
                pos = e;
            },
            None => {
                return None;
            },
        }
    }
}

/// Extracts the first translation's text from a response body, or `None`
/// when the body does not have the expected envelope shape.  The result is
/// exactly [`response_text`] of the body.
pub fn translated_text(body: &str) -> (r: Option<String>)
    ensures
        match r {
            Some(t) => response_text(body@) == Some(t@),
            None => response_text(body@) is None,
        },
{
    let v = crate::text::chars_of(body);
    let n = v.len();
    let i0 = skip_ws(&v, 0);
    if i0 >= n {
        return None;
    }
    if v[i0] != '{' {
        return None;
    }
    let i1 = skip_ws(&v, i0 + 1);
    if !lit_match(&v, i1, "\"data\"") {
        return None;
    }
    let i2 = skip_ws(&v, i1 + "\"data\"".unicode_len());
    if i2 >= n {
        return None;
    }
    if v[i2] != ':' {
        return None;
    }
    let i3 = skip_ws(&v, i2 + 1);
    if i3 >= n {
        return None;
    }
    if v[i3] != '{' {
        return None;
    }
    let i4 = skip_ws(&v, i3 + 1);
    if !lit_match(&v, i4, "\"translations\"") {
        return None;
    }
    let i5 = skip_ws(&v, i4 + "\"translations\"".unicode_len());
    if i5 >= n {
        return None;
    }
    if v[i5] != ':' {
        return None;
    }
    let i6 = skip_ws(&v, i5 + 1);
    if i6 >= n {
        return None;
    }
    if v[i6] != '[' {
        return None;
    }
    match parse_elem(&v, i6 + 1) {
        None => None,
        Some((txt, e)) => {
            match parse_rest(&v, e) {
                None => None,
                Some(q) => {
                    let r1 = skip_ws(&v, q);
                    if r1 >= n {
                        return None;
                    }
                    if v[r1] != '}' {
                        return None;
                    }
                    let r2 = skip_ws(&v, r1 + 1);
                    if r2 >= n {
                        return None;
                    }
                    if v[r2] != '}' {
                        return None;
                    }
                    if skip_ws(&v, r2 + 1) != n {
                        return None;
                    }
                    Some(txt)
                },
            }
        },
    }
}

/// The line printed when the response cannot be read as a translation.
pub open spec fn api_error_line() -> Seq<char> {
    "There was the following error with the API call: the response body does not match the expected translation envelope"@
}

/// The line to print for a parsed response: the translated text itself, or
/// the error report when the body was not a translation envelope.
pub fn render_outcome(parsed: Option<String>) -> (r: String)
    ensures
        match parsed {
            Some(t) => r@ == t@,
            None => r@ == api_error_line(),
        },
{
    match parsed {
        Some(t) => t,
        None => String::from_str(
            "There was the following error with the API call: the response body does not match the expected translation envelope",
        ),
    }
}

} // verus!
