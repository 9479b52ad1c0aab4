use gtranslate::request::{build_body, plan_request};
use gtranslate::resolve::RequestDescriptor;
use gtranslate::response::{render_outcome, translated_text};

fn req(i: &str, o: &str, t: &str) -> RequestDescriptor {
    RequestDescriptor {
        input_language: i.to_string(),
        output_language: o.to_string(),
        text: t.to_string(),
    }
}

#[test]
fn body_has_three_keys() {
    let body = build_body(&req("en", "fr", "hello world"));
    assert_eq!(body, "{\"source\":\"en\",\"target\":\"fr\",\"q\":\"hello world\"}");
}

#[test]
fn body_escapes_specials() {
    let body = build_body(&req("en", "fr", "a \"b\" \\ c\nd\te\u{1}"));
    assert_eq!(body, "{\"source\":\"en\",\"target\":\"fr\",\"q\":\"a \\\"b\\\" \\\\ c\\nd\\te\\u0001\"}");
}

#[test]
fn body_keeps_plain_unicode_raw() {
    let body = build_body(&req("fr", "de", "h\u{e9}llo \u{1f600}"));
    assert_eq!(body, "{\"source\":\"fr\",\"target\":\"de\",\"q\":\"h\u{e9}llo \u{1f600}\"}");
}

#[test]
fn plan_refused_without_key() {
    assert!(plan_request(&req("en", "fr", "hi"), "").is_none());
}

#[test]
fn plan_carries_endpoint_bearer_and_body() {
    let p = plan_request(&req("en", "fr", "hi"), "sample-token").unwrap();
    assert_eq!(p.url, "https://translation.googleapis.com/language/translate/v2");
    assert_eq!(p.authorization, "Bearer sample-token");
    assert_eq!(p.body, "{\"source\":\"en\",\"target\":\"fr\",\"q\":\"hi\"}");
}

#[test]
fn successful_response_yields_text() {
    let body = "{\"data\":{\"translations\":[{\"translatedText\":\"Bonjour\"}]}}";
    let parsed = translated_text(body);
    assert_eq!(parsed.as_deref(), Some("Bonjour"));
    assert_eq!(render_outcome(parsed), "Bonjour");
}

#[test]
fn response_tolerates_whitespace() {
    let body = " {\n  \"data\" : {\n    \"translations\" : [\n      { \"translatedText\" : \"Hallo\" }\n    ]\n  }\n} ";
    assert_eq!(translated_text(body).as_deref(), Some("Hallo"));
}

#[test]
fn first_of_several_translations_is_taken() {
    let body = "{\"data\":{\"translations\":[{\"translatedText\":\"eins\"},{\"translatedText\":\"zwei\"}]}}";
    assert_eq!(translated_text(body).as_deref(), Some("eins"));
}

#[test]
fn response_string_escapes_are_decoded() {
    let body = "{\"data\":{\"translations\":[{\"translatedText\":\"a\\n\\\"b\\\"\\u0042\\t\\\\\"}]}}";
    assert_eq!(translated_text(body).as_deref(), Some("a\n\"b\"B\t\\"));
}

#[test]
fn surrogate_pairs_are_decoded() {
    let body = "{\"data\":{\"translations\":[{\"translatedText\":\"\\ud83d\\ude00 ok\"}]}}";
    assert_eq!(translated_text(body).as_deref(), Some("\u{1f600} ok"));
}

#[test]
fn malformed_response_is_reported() {
    let body = "{\"error\":{\"code\":401,\"message\":\"Request had invalid credentials.\"}}";
    let parsed = translated_text(body);
    assert!(parsed.is_none());
    let line = render_outcome(parsed);
    assert!(line.starts_with("There was the following error with the API call:"));
}

#[test]
fn empty_and_truncated_bodies_are_reported() {
    for body in [
        "",
        "   ",
        "not json",
        "{\"data\":{\"translations\":[]}}",
        "{\"data\":{\"translations\":[{\"translatedText\":\"x\"}]}",
        "{\"data\":{\"translations\":[{\"translatedText\":\"x\"}]}} trailing",
        "{\"data\":{\"translations\":[{\"translatedText\":\"bad\\escape\"}]}}",
        "{\"data\":{\"translations\":[{\"translatedText\":\"bad\\udc00\"}]}}",
    ] {
        assert!(translated_text(body).is_none(), "body {:?} should be rejected", body);
    }
}
