use gtranslate::languages::is_allowed_code;
use gtranslate::resolve::{resolution_message, resolve_request, Resolution};

fn expect_request(r: Resolution) -> (String, String, String) {
    match r {
        Resolution::Request(req) => (req.input_language, req.output_language, req.text),
        other => panic!("expected a request, got {:?}", other),
    }
}

#[test]
fn parses_flags_and_text() {
    let (i, o, t) = expect_request(resolve_request("-i en -o fr hello world", "", ""));
    assert_eq!(i, "en");
    assert_eq!(o, "fr");
    assert_eq!(t, "hello world");
}

#[test]
fn environment_fallback() {
    let (i, o, t) = expect_request(resolve_request("hello", "en", "fr"));
    assert_eq!(i, "en");
    assert_eq!(o, "fr");
    assert_eq!(t, "hello");
}

#[test]
fn flag_overrides_environment() {
    let (i, o, t) = expect_request(resolve_request("-i de hola", "en", "fr"));
    assert_eq!(i, "de");
    assert_eq!(o, "fr");
    assert_eq!(t, "hola");
}

#[test]
fn output_flag_alone() {
    let (i, o, t) = expect_request(resolve_request("-o fr bonjour", "en", ""));
    assert_eq!(i, "en");
    assert_eq!(o, "fr");
    assert_eq!(t, "bonjour");
}

#[test]
fn missing_input_language() {
    let r = resolve_request("some text", "", "fr");
    assert_eq!(r, Resolution::MissingInput);
    assert_eq!(
        resolution_message(&r).unwrap(),
        "No input language provided. Type --help to see allowed languages"
    );
}

#[test]
fn missing_output_language() {
    let r = resolve_request("some text", "en", "");
    assert_eq!(r, Resolution::MissingOutput);
    assert_eq!(
        resolution_message(&r).unwrap(),
        "No output language provided. Type --help to see allowed languages"
    );
}

#[test]
fn unlisted_input_rejected() {
    let r = resolve_request("-i qq hello", "", "fr");
    assert_eq!(r, Resolution::InputNotAllowed);
    assert_eq!(
        resolution_message(&r).unwrap(),
        "Input language is not allowed. Type --help to see allowed languages"
    );
}

#[test]
fn unlisted_output_rejected() {
    let r = resolve_request("-o qq hello", "en", "");
    assert_eq!(r, Resolution::OutputNotAllowed);
    assert_eq!(
        resolution_message(&r).unwrap(),
        "Output language is not allowed. Type --help to see allowed languages"
    );
}

#[test]
fn unlisted_environment_code_rejected() {
    assert_eq!(resolve_request("hello", "english", "fr"), Resolution::InputNotAllowed);
    assert_eq!(resolve_request("hello", "en", "EN"), Resolution::OutputNotAllowed);
}

#[test]
fn help_anywhere_wins() {
    assert_eq!(resolve_request("--help", "", ""), Resolution::Help);
    assert_eq!(resolve_request("-i en --help stuff", "en", "fr"), Resolution::Help);
    assert_eq!(resolve_request("translate this --help", "", ""), Resolution::Help);
    assert_eq!(resolve_request("--helpful", "", ""), Resolution::Help);
}

#[test]
fn all_listed_codes_accepted_both_positions() {
    let codes = vec![
        "af", "sq", "am", "ar", "hy", "az", "eu", "be", "bn", "bs", "bg", "ca", "ceb", "zh-CN",
        "zh", "zh-TW", "co", "hr", "cs", "da", "nl", "en", "eo", "et", "fi", "fr", "fy", "gl",
        "ka", "de", "el", "gu", "ht", "ha", "haw", "he", "iw", "hi", "hmn", "hu", "is", "ig",
        "id", "ga", "it", "ja", "jv", "kn", "kk", "km", "rw", "ko", "ku", "ky", "lo", "la", "lv",
        "lt", "lb", "mk", "mg", "ms", "ml", "mt", "mi", "mr", "mn", "my", "ne", "no", "ny", "or",
        "ps", "fa", "pl", "pt", "pa", "ro", "ru", "sm", "gd", "sr", "st", "sn", "sd", "si", "sk",
        "sl", "so", "es", "su", "sw", "sv", "tl", "tg", "ta", "tt", "te", "th", "tr", "tk", "uk",
        "ur", "ug", "uz", "vi", "cy", "xh", "yi", "yo", "zu",
    ];
    for c in codes {
        assert!(is_allowed_code(c), "code {} should be allowed", c);
        let (i, o, _) = expect_request(resolve_request("text", c, c));
        assert_eq!(i, c);
        assert_eq!(o, c);
    }
}

#[test]
fn unlisted_strings_rejected_by_validator() {
    for s in ["", "EN", "english", "e", "zz", "zh-cn", "en ", " en", "--", "e1"] {
        assert!(!is_allowed_code(s), "code {:?} should not be allowed", s);
    }
}

#[test]
fn hyphenated_code_cannot_come_from_flag() {
    // The flag grammar captures lowercase letters only, so `-i zh-CN`
    // captures `zh` and leaves `-CN ...` to the text.
    let (i, o, t) = expect_request(resolve_request("-i zh-CN hello", "", "fr"));
    assert_eq!(i, "zh");
    assert_eq!(o, "fr");
    assert_eq!(t, "-CN hello");
}

#[test]
fn tab_separates_the_flag_groups() {
    let (i, o, t) = expect_request(resolve_request("-i en\t-o fr hi", "", ""));
    assert_eq!(i, "en");
    assert_eq!(o, "fr");
    assert_eq!(t, "hi");
}

#[test]
fn text_is_trimmed() {
    let (_, _, t) = expect_request(resolve_request("-i en -o fr   spaced out  ", "", ""));
    assert_eq!(t, "spaced out");
}

#[test]
fn empty_text_is_allowed() {
    let (i, o, t) = expect_request(resolve_request("-i en -o fr", "", ""));
    assert_eq!(i, "en");
    assert_eq!(o, "fr");
    assert_eq!(t, "");
}

#[test]
fn newline_makes_pattern_fail() {
    // A newline in the trailing text defeats the whole pattern: captures
    // are dropped and the environment values stand, with empty text.
    let (i, o, t) = expect_request(resolve_request("-i de first\nsecond", "en", "fr"));
    assert_eq!(i, "en");
    assert_eq!(o, "fr");
    assert_eq!(t, "");
}

#[test]
fn flags_not_at_start_are_text() {
    let (i, o, t) = expect_request(resolve_request("say -i en please", "de", "fr"));
    assert_eq!(i, "de");
    assert_eq!(o, "fr");
    assert_eq!(t, "say -i en please");
}
