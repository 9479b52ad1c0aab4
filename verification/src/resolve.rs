//! Resolving command-line arguments and environment defaults into a request.
//!
//! The arguments are handed in as one whitespace-joined string.  The grammar
//! recognizes an optional `-i <code>` at the very start, an optional
//! `-o <code>` after it (separated by whitespace), and takes everything that
//! remains, trimmed, as the text to translate.  Codes on the command line
//! are runs of lowercase ASCII letters only; hyphenated or digit-bearing
//! codes can be supplied through the environment defaults instead.  A
//! newline anywhere in the trailing text makes the whole pattern fail, in
//! which case both codes fall back to the environment and the text is empty.

use vstd::prelude::*;
use vstd::string::*;
use crate::languages::{is_allowed, is_allowed_code};
use crate::text::{chars_of, is_lower, is_space, lower_char, space_char, substring_of};

verus! {

/// A fully resolved, validated translation request.
#[derive(Debug, PartialEq, Eq)]
pub struct RequestDescriptor {
    pub input_language: String,
    pub output_language: String,
    pub text: String,
}

/// The outcome of resolving the command line and the environment.
#[derive(Debug, PartialEq, Eq)]
pub enum Resolution {
    /// Help was requested; nothing else is looked at.
    Help,
    /// No input language from either source.
    MissingInput,
    /// No output language from either source.
    MissingOutput,
    /// The resolved input language is not on the allow-list.
    InputNotAllowed,
    /// The resolved output language is not on the allow-list.
    OutputNotAllowed,
    /// Both codes resolved and allow-listed.
    Request(RequestDescriptor),
}

/// The mathematical model of a [`Resolution`].
pub enum ResolutionModel {
    Help,
    MissingInput,
    MissingOutput,
    InputNotAllowed,
    OutputNotAllowed,
    Request { input: Seq<char>, output: Seq<char>, text: Seq<char> },
}

impl View for Resolution {
    type V = ResolutionModel;

    open spec fn view(&self) -> ResolutionModel {
        match self {
            Resolution::Help => ResolutionModel::Help,
            Resolution::MissingInput => ResolutionModel::MissingInput,
            Resolution::MissingOutput => ResolutionModel::MissingOutput,
            Resolution::InputNotAllowed => ResolutionModel::InputNotAllowed,
            Resolution::OutputNotAllowed => ResolutionModel::OutputNotAllowed,
            Resolution::Request(r) => ResolutionModel::Request {
                input: r.input_language@,
                output: r.output_language@,
                text: r.text@,
            },
        }
    }
}

/// The first position at or after `i` whose character is not a lowercase
/// ASCII letter (the end of a greedy letter run).
pub open spec fn lower_end(s: Seq<char>, i: int) -> int
    decreases s.len() - i,
{
    if 0 <= i < s.len() && is_lower(s[i]) {
        lower_end(s, i + 1)
    } else {
        i
    }
}

/// The first position at or after `i` whose character is not whitespace.
pub open spec fn space_end(s: Seq<char>, i: int) -> int
    decreases s.len() - i,
{
    if 0 <= i < s.len() && is_space(s[i]) {
        space_end(s, i + 1)
    } else {
        i
    }
}

/// The end of the trailing whitespace run that finishes at `j`.
pub open spec fn trim_end_from(s: Seq<char>, j: int) -> int
    decreases j,
{
    if 0 < j <= s.len() && is_space(s[j - 1]) {
        trim_end_from(s, j - 1)
    } else {
        j
    }
}

/// The arguments begin with `-i ` followed by at least one lowercase letter.
pub open spec fn flag_i_present(s: Seq<char>) -> bool {
    s.len() >= 4 && s[0] == '-' && s[1] == 'i' && s[2] == ' ' && is_lower(s[3])
}

/// Position just past the `-i <code>` group, or 0 when it is absent.
pub open spec fn flag_i_end(s: Seq<char>) -> int {
    if flag_i_present(s) {
        lower_end(s, 3)
    } else {
        0
    }
}

/// The code captured by the `-i` group (meaningful only when present).
pub open spec fn flag_i_code(s: Seq<char>) -> Seq<char> {
    s.subrange(3, flag_i_end(s))
}

/// Where the optional `-o` group would start: after the whitespace that
/// follows the `-i` group.
pub open spec fn flag_o_start(s: Seq<char>) -> int {
    space_end(s, flag_i_end(s))
}

/// After the `-i` group and any whitespace, the arguments continue with
/// `-o ` followed by at least one lowercase letter.
pub open spec fn flag_o_present(s: Seq<char>) -> bool {
    let j = flag_o_start(s);
    j + 4 <= s.len() && s[j] == '-' && s[j + 1] == 'o' && s[j + 2] == ' ' && is_lower(s[j + 3])
}

/// Position just past the `-o <code>` group, or past the `-i` group when
/// `-o` is absent (the whitespace then stays with the trailing text).
pub open spec fn flag_o_end(s: Seq<char>) -> int {
    if flag_o_present(s) {
        lower_end(s, flag_o_start(s) + 3)
    } else {
        flag_i_end(s)
    }
}

/// The code captured by the `-o` group (meaningful only when present).
pub open spec fn flag_o_code(s: Seq<char>) -> Seq<char> {
    s.subrange(flag_o_start(s) + 3, flag_o_end(s))
}

/// Where the trailing text begins.
pub open spec fn text_start(s: Seq<char>) -> int {
    flag_o_end(s)
}

/// The pattern matches the whole argument string exactly when the trailing
/// text holds no newline (the text class cannot cross one, and nothing can
/// shift a newline out of it).
pub open spec fn pattern_matches(s: Seq<char>) -> bool {
    forall|k: int| text_start(s) <= k < s.len() ==> s[k] != '\n'
}

/// The trailing text with leading and trailing whitespace removed.
pub open spec fn trimmed_text(s: Seq<char>) -> Seq<char> {
    let a = space_end(s, text_start(s));
    let b = trim_end_from(s, s.len() as int);
    if a < b {
        s.subrange(a, b)
    } else {
        Seq::empty()
    }
}

/// The input language after merging: the `-i` capture when the pattern
/// matched and the group is present, else the environment default.
pub open spec fn resolved_input(s: Seq<char>, env_in: Seq<char>) -> Seq<char> {
    if pattern_matches(s) && flag_i_present(s) {
        flag_i_code(s)
    } else {
        env_in
    }
}

/// The output language after merging, like [`resolved_input`].
pub open spec fn resolved_output(s: Seq<char>, env_out: Seq<char>) -> Seq<char> {
    if pattern_matches(s) && flag_o_present(s) {
        flag_o_code(s)
    } else {
        env_out
    }
}

/// The text to translate: the trimmed trailing text, or empty when the
/// pattern did not match.
pub open spec fn resolved_text(s: Seq<char>) -> Seq<char> {
    if pattern_matches(s) {
        trimmed_text(s)
    } else {
        Seq::empty()
    }
}

/// The six characters of the help flag stand at position `i`.
pub open spec fn help_at(s: Seq<char>, i: int) -> bool {
    s[i] == '-' && s[i + 1] == '-' && s[i + 2] == 'h' && s[i + 3] == 'e' && s[i + 4] == 'l'
        && s[i + 5] == 'p'
}

/// `--help` occurs somewhere in the argument string.
pub open spec fn contains_help(s: Seq<char>) -> bool {
    exists|i: int| 0 <= i && i + 6 <= s.len() && help_at(s, i)
}

/// What resolution must return, for every argument string and environment.
/// Help wins outright; then both codes must be present; then both must be
/// allow-listed, input checked first.
pub open spec fn resolution_model(s: Seq<char>, ei: Seq<char>, eo: Seq<char>) -> ResolutionModel {
    let inp = resolved_input(s, ei);
    let out = resolved_output(s, eo);
    if contains_help(s) {
        ResolutionModel::Help
    } else if inp.len() == 0 {
        ResolutionModel::MissingInput
    } else if out.len() == 0 {
        ResolutionModel::MissingOutput
    } else if !is_allowed(inp) {
        ResolutionModel::InputNotAllowed
    } else if !is_allowed(out) {
        ResolutionModel::OutputNotAllowed
    } else {
        ResolutionModel::Request { input: inp, output: out, text: resolved_text(s) }
    }
}

/// Whether `--help` occurs in `v`.
fn find_help(v: &Vec<char>) -> (r: bool)
    ensures
        r == contains_help(v@),
{
    let n = v.len();
    if n < 6 {
        return false;
    }
    let mut i: usize = 0;
    while i <= n - 6
        invariant
            6 <= n == v@.len(),
            i <= n - 5,
            forall|j: int| 0 <= j < i ==> !help_at(v@, j),
        decreases n - i,
    {
        if v[i] == '-' && v[i + 1] == '-' && v[i + 2] == 'h' && v[i + 3] == 'e' && v[i + 4] == 'l'
            && v[i + 5] == 'p' {
            assert(help_at(v@, i as int));
            return true;
        }
        i += 1;
    }
    assert forall|j: int| 0 <= j && j + 6 <= v@.len() implies !help_at(v@, j) by {
        assert(!help_at(v@, j));
    }
    false
}

/// End of the greedy lowercase-letter run starting at `start`.
fn lower_run(v: &Vec<char>, start: usize) -> (r: usize)
    requires
        start <= v@.len(),
    ensures
        r == lower_end(v@, start as int),
        start <= r <= v@.len(),
{
    let mut i = start;
    while i < v.len() && lower_char(v[i])
        invariant
            start <= i <= v@.len(),
            lower_end(v@, start as int) == lower_end(v@, i as int),
        decreases v@.len() - i,
    {
        i += 1;
    }
    i
}

/// End of the greedy whitespace run starting at `start`.
fn space_run(v: &Vec<char>, start: usize) -> (r: usize)
    requires
        start <= v@.len(),
    ensures
        r == space_end(v@, start as int),
        start <= r <= v@.len(),
{
    let mut i = start;
    while i < v.len() && space_char(v[i])
        invariant
            start <= i <= v@.len(),
            space_end(v@, start as int) == space_end(v@, i as int),
        decreases v@.len() - i,
    {
        i += 1;
    }
    i
}

/// Start of the trailing whitespace run that reaches the end of `v`.
fn trim_end_run(v: &Vec<char>) -> (r: usize)
    ensures
        r == trim_end_from(v@, v@.len() as int),
        r <= v@.len(),
{
    let mut j = v.len();
    while j > 0 && space_char(v[j - 1])
        invariant
            j <= v@.len(),
            trim_end_from(v@, v@.len() as int) == trim_end_from(v@, j as int),
        decreases j,
    {
        j -= 1;
    }
    j
}

/// No newline stands at or after `start`.
fn no_newline_from(v: &Vec<char>, start: usize) -> (r: bool)
    requires
        start <= v@.len(),
    ensures
        r == (forall|k: int| start <= k < v@.len() ==> v@[k] != '\n'),
{
    let mut i = start;
    while i < v.len()
        invariant
            start <= i <= v@.len(),
            forall|k: int| start <= k < i ==> v@[k] != '\n',
        decreases v@.len() - i,
    {
        if v[i] == '\n' {
            return false;
        }
        i += 1;
    }
    true
}

/// Resolve the joined argument string and the two environment defaults into
/// a [`Resolution`].  The result is exactly [`resolution_model`] applied to
/// the three inputs.
pub fn resolve_request(args: &str, env_input: &str, env_output: &str) -> (r: Resolution)
    ensures
        r@ == resolution_model(args@, env_input@, env_output@),
{
    let v = chars_of(args);
    if find_help(&v) {
        return Resolution::Help;
    }
    let n = v.len();

    let i_present: bool = n >= 4 && v[0] == '-' && v[1] == 'i' && v[2] == ' ' && lower_char(v[3]);
    assert(i_present == flag_i_present(args@));
    let i_end: usize = if i_present {
        lower_run(&v, 3)
    } else {
        0
    };
    assert(i_end == flag_i_end(args@));

    let o_start = space_run(&v, i_end);
    let o_present: bool = n - o_start >= 4 && v[o_start] == '-' && v[o_start + 1] == 'o'
        && v[o_start + 2] == ' ' && lower_char(v[o_start + 3]);
    assert(o_present == flag_o_present(args@));
    let o_end: usize = if o_present {
        lower_run(&v, o_start + 3)
    } else {
        i_end
    };
    assert(o_end == flag_o_end(args@));

    let matched = no_newline_from(&v, o_end);
    assert(matched == pattern_matches(args@));

    let input: String = if matched && i_present {
        substring_of(&v, 3, i_end)
    } else {
        env_input.to_owned()
    };
    assert(input@ == resolved_input(args@, env_input@));

    let output: String = if matched && o_present {
        substring_of(&v, o_start + 3, o_end)
    } else {
        env_output.to_owned()
    };
    assert(output@ == resolved_output(args@, env_output@));

    let text: String = if matched {
        let a = space_run(&v, o_end);
        let b = trim_end_run(&v);
        if a < b {
            substring_of(&v, a, b)
        } else {
            String::new()
        }
    } else {
        String::new()
    };
    assert(text@ == resolved_text(args@));

    if input.as_str().is_empty() {
        return Resolution::MissingInput;
    }
    if output.as_str().is_empty() {
        return Resolution::MissingOutput;
    }
    if !is_allowed_code(input.as_str()) {
        return Resolution::InputNotAllowed;
    }
    if !is_allowed_code(output.as_str()) {
        return Resolution::OutputNotAllowed;
    }
    Resolution::Request(RequestDescriptor { input_language: input, output_language: output, text })
}

/// The diagnostic line for each terminal outcome short of help; `Help` and
/// a successful `Request` carry no diagnostic.
pub fn resolution_message(r: &Resolution) -> (m: Option<String>)
    ensures
        match r {
            Resolution::MissingInput => m matches Some(s) && s@ == "No input language provided. Type --help to see allowed languages"@,
            Resolution::MissingOutput => m matches Some(s) && s@ == "No output language provided. Type --help to see allowed languages"@,
            Resolution::InputNotAllowed => m matches Some(s) && s@ == "Input language is not allowed. Type --help to see allowed languages"@,
            Resolution::OutputNotAllowed => m matches Some(s) && s@ == "Output language is not allowed. Type --help to see allowed languages"@,
            _ => m is None,
        },
{
    match r {
        Resolution::MissingInput => Some(String::from_str(
            "No input language provided. Type --help to see allowed languages",
        )),
        Resolution::MissingOutput => Some(String::from_str(
            "No output language provided. Type --help to see allowed languages",
        )),
        Resolution::InputNotAllowed => Some(String::from_str(
            "Input language is not allowed. Type --help to see allowed languages",
        )),
        Resolution::OutputNotAllowed => Some(String::from_str(
            "Output language is not allowed. Type --help to see allowed languages",
        )),
        _ => None,
    }
}

} // verus!
