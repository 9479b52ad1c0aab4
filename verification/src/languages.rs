//! The fixed allow-list of language codes.
//!
//! A resolved request is only acted on when both of its language codes are
//! members of this list; membership is by case-sensitive, exact match.

use vstd::prelude::*;

verus! {

/// `s` is one of the supported language codes.
pub open spec fn is_allowed(s: Seq<char>) -> bool {
    ||| s == "af"@
    ||| s == "sq"@
    ||| s == "am"@
    ||| s == "ar"@
    ||| s == "hy"@
    ||| s == "az"@
    ||| s == "eu"@
    ||| s == "be"@
    ||| s == "bn"@
    ||| s == "bs"@
    ||| s == "bg"@
    ||| s == "ca"@
    ||| s == "ceb"@
    ||| s == "zh-CN"@
    ||| s == "zh"@
    ||| s == "zh-TW"@
    ||| s == "co"@
    ||| s == "hr"@
    ||| s == "cs"@
    ||| s == "da"@
    ||| s == "nl"@
    ||| s == "en"@
    ||| s == "eo"@
    ||| s == "et"@
    ||| s == "fi"@
    ||| s == "fr"@
    ||| s == "fy"@
    ||| s == "gl"@
    ||| s == "ka"@
    ||| s == "de"@
    ||| s == "el"@
    ||| s == "gu"@
    ||| s == "ht"@
    ||| s == "ha"@
    ||| s == "haw"@
    ||| s == "he"@
    ||| s == "iw"@
    ||| s == "hi"@
    ||| s == "hmn"@
    ||| s == "hu"@
    ||| s == "is"@
    ||| s == "ig"@
    ||| s == "id"@
    ||| s == "ga"@
    ||| s == "it"@
    ||| s == "ja"@
    ||| s == "jv"@
    ||| s == "kn"@
    ||| s == "kk"@
    ||| s == "km"@
    ||| s == "rw"@
    ||| s == "ko"@
    ||| s == "ku"@
    ||| s == "ky"@
    ||| s == "lo"@
    ||| s == "la"@
    ||| s == "lv"@
    ||| s == "lt"@
    ||| s == "lb"@
    ||| s == "mk"@
    ||| s == "mg"@
    ||| s == "ms"@
    ||| s == "ml"@
    ||| s == "mt"@
    ||| s == "mi"@
    ||| s == "mr"@
    ||| s == "mn"@
    ||| s == "my"@
    ||| s == "ne"@
    ||| s == "no"@
    ||| s == "ny"@
    ||| s == "or"@
    ||| s == "ps"@
    ||| s == "fa"@
    ||| s == "pl"@
    ||| s == "pt"@
    ||| s == "pa"@
    ||| s == "ro"@
    ||| s == "ru"@
    ||| s == "sm"@
    ||| s == "gd"@
    ||| s == "sr"@
    ||| s == "st"@
    ||| s == "sn"@
    ||| s == "sd"@
    ||| s == "si"@
    ||| s == "sk"@
    ||| s == "sl"@
    ||| s == "so"@
    ||| s == "es"@
    ||| s == "su"@
    ||| s == "sw"@
    ||| s == "sv"@
    ||| s == "tl"@
    ||| s == "tg"@
    ||| s == "ta"@
    ||| s == "tt"@
    ||| s == "te"@
    ||| s == "th"@
    ||| s == "tr"@
    ||| s == "tk"@
    ||| s == "uk"@
    ||| s == "ur"@
    ||| s == "ug"@
    ||| s == "uz"@
    ||| s == "vi"@
    ||| s == "cy"@
    ||| s == "xh"@
    ||| s == "yi"@
    ||| s == "yo"@
    ||| s == "zu"@
}

/// Executable membership test for the allow-list, matching [`is_allowed`].
pub fn is_allowed_code(s: &str) -> (r: bool)
    ensures
        r == is_allowed(s@),
{
    false
        || crate::text::str_eq(s, "af")
        || crate::text::str_eq(s, "sq")
        || crate::text::str_eq(s, "am")
        || crate::text::str_eq(s, "ar")
        || crate::text::str_eq(s, "hy")
        || crate::text::str_eq(s, "az")
        || crate::text::str_eq(s, "eu")
        || crate::text::str_eq(s, "be")
        || crate::text::str_eq(s, "bn")
        || crate::text::str_eq(s, "bs")
        || crate::text::str_eq(s, "bg")
        || crate::text::str_eq(s, "ca")
        || crate::text::str_eq(s, "ceb")
        || crate::text::str_eq(s, "zh-CN")
        || crate::text::str_eq(s, "zh")
        || crate::text::str_eq(s, "zh-TW")
        || crate::text::str_eq(s, "co")
        || crate::text::str_eq(s, "hr")
        || crate::text::str_eq(s, "cs")
        || crate::text::str_eq(s, "da")
        || crate::text::str_eq(s, "nl")
        || crate::text::str_eq(s, "en")
        || crate::text::str_eq(s, "eo")
        || crate::text::str_eq(s, "et")
        || crate::text::str_eq(s, "fi")
        || crate::text::str_eq(s, "fr")
        || crate::text::str_eq(s, "fy")
        || crate::text::str_eq(s, "gl")
        || crate::text::str_eq(s, "ka")
        || crate::text::str_eq(s, "de")
        || crate::text::str_eq(s, "el")
        || crate::text::str_eq(s, "gu")
        || crate::text::str_eq(s, "ht")
        || crate::text::str_eq(s, "ha")
        || crate::text::str_eq(s, "haw")
        || crate::text::str_eq(s, "he")
        || crate::text::str_eq(s, "iw")
        || crate::text::str_eq(s, "hi")
        || crate::text::str_eq(s, "hmn")
        || crate::text::str_eq(s, "hu")
        || crate::text::str_eq(s, "is")
        || crate::text::str_eq(s, "ig")
        || crate::text::str_eq(s, "id")
        || crate::text::str_eq(s, "ga")
        || crate::text::str_eq(s, "it")
        || crate::text::str_eq(s, "ja")
        || crate::text::str_eq(s, "jv")
        || crate::text::str_eq(s, "kn")
        || crate::text::str_eq(s, "kk")
        || crate::text::str_eq(s, "km")
        || crate::text::str_eq(s, "rw")
        || crate::text::str_eq(s, "ko")
        || crate::text::str_eq(s, "ku")
        || crate::text::str_eq(s, "ky")
        || crate::text::str_eq(s, "lo")
        || crate::text::str_eq(s, "la")
        || crate::text::str_eq(s, "lv")
        || crate::text::str_eq(s, "lt")
        || crate::text::str_eq(s, "lb")
        || crate::text::str_eq(s, "mk")
        || crate::text::str_eq(s, "mg")
        || crate::text::str_eq(s, "ms")
        || crate::text::str_eq(s, "ml")
        || crate::text::str_eq(s, "mt")
        || crate::text::str_eq(s, "mi")
        || crate::text::str_eq(s, "mr")
        || crate::text::str_eq(s, "mn")
        || crate::text::str_eq(s, "my")
        || crate::text::str_eq(s, "ne")
        || crate::text::str_eq(s, "no")
        || crate::text::str_eq(s, "ny")
        || crate::text::str_eq(s, "or")
        || crate::text::str_eq(s, "ps")
        || crate::text::str_eq(s, "fa")
        || crate::text::str_eq(s, "pl")
        || crate::text::str_eq(s, "pt")
        || crate::text::str_eq(s, "pa")
        || crate::text::str_eq(s, "ro")
        || crate::text::str_eq(s, "ru")
        || crate::text::str_eq(s, "sm")
        || crate::text::str_eq(s, "gd")
        || crate::text::str_eq(s, "sr")
        || crate::text::str_eq(s, "st")
        || crate::text::str_eq(s, "sn")
        || crate::text::str_eq(s, "sd")
        || crate::text::str_eq(s, "si")
        || crate::text::str_eq(s, "sk")
        || crate::text::str_eq(s, "sl")
        || crate::text::str_eq(s, "so")
        || crate::text::str_eq(s, "es")
        || crate::text::str_eq(s, "su")
        || crate::text::str_eq(s, "sw")
        || crate::text::str_eq(s, "sv")
        || crate::text::str_eq(s, "tl")
        || crate::text::str_eq(s, "tg")
        || crate::text::str_eq(s, "ta")
        || crate::text::str_eq(s, "tt")
        || crate::text::str_eq(s, "te")
        || crate::text::str_eq(s, "th")
        || crate::text::str_eq(s, "tr")
        || crate::text::str_eq(s, "tk")
        || crate::text::str_eq(s, "uk")
        || crate::text::str_eq(s, "ur")
        || crate::text::str_eq(s, "ug")
        || crate::text::str_eq(s, "uz")
        || crate::text::str_eq(s, "vi")
        || crate::text::str_eq(s, "cy")
        || crate::text::str_eq(s, "xh")
        || crate::text::str_eq(s, "yi")
        || crate::text::str_eq(s, "yo")
        || crate::text::str_eq(s, "zu")
}

/// Every allow-listed code is a non-empty string.
pub proof fn lemma_allowed_nonempty(s: Seq<char>)
    requires
        is_allowed(s),
    ensures
        s.len() > 0,
{
    reveal_strlit("af");
    reveal_strlit("sq");
    reveal_strlit("am");
    reveal_strlit("ar");
    reveal_strlit("hy");
    reveal_strlit("az");
    reveal_strlit("eu");
    reveal_strlit("be");
    reveal_strlit("bn");
    reveal_strlit("bs");
    reveal_strlit("bg");
    reveal_strlit("ca");
    reveal_strlit("ceb");
    reveal_strlit("zh-CN");
    reveal_strlit("zh");
    reveal_strlit("zh-TW");
    reveal_strlit("co");
    reveal_strlit("hr");
    reveal_strlit("cs");
    reveal_strlit("da");
    reveal_strlit("nl");
    reveal_strlit("en");
    reveal_strlit("eo");
    reveal_strlit("et");
    reveal_strlit("fi");
    reveal_strlit("fr");
    reveal_strlit("fy");
    reveal_strlit("gl");
    reveal_strlit("ka");
    reveal_strlit("de");
    reveal_strlit("el");
    reveal_strlit("gu");
    reveal_strlit("ht");
    reveal_strlit("ha");
    reveal_strlit("haw");
    reveal_strlit("he");
    reveal_strlit("iw");
    reveal_strlit("hi");
    reveal_strlit("hmn");
    reveal_strlit("hu");
    reveal_strlit("is");
    reveal_strlit("ig");
    reveal_strlit("id");
    reveal_strlit("ga");
    reveal_strlit("it");
    reveal_strlit("ja");
    reveal_strlit("jv");
    reveal_strlit("kn");
    reveal_strlit("kk");
    reveal_strlit("km");
    reveal_strlit("rw");
    reveal_strlit("ko");
    reveal_strlit("ku");
    reveal_strlit("ky");
    reveal_strlit("lo");
    reveal_strlit("la");
    reveal_strlit("lv");
    reveal_strlit("lt");
    reveal_strlit("lb");
    reveal_strlit("mk");
    reveal_strlit("mg");
    reveal_strlit("ms");
    reveal_strlit("ml");
    reveal_strlit("mt");
    reveal_strlit("mi");
    reveal_strlit("mr");
    reveal_strlit("mn");
    reveal_strlit("my");
    reveal_strlit("ne");
    reveal_strlit("no");
    reveal_strlit("ny");
    reveal_strlit("or");
    reveal_strlit("ps");
    reveal_strlit("fa");
    reveal_strlit("pl");
    reveal_strlit("pt");
    reveal_strlit("pa");
    reveal_strlit("ro");
    reveal_strlit("ru");
    reveal_strlit("sm");
    reveal_strlit("gd");
    reveal_strlit("sr");
    reveal_strlit("st");
    reveal_strlit("sn");
    reveal_strlit("sd");
    reveal_strlit("si");
    reveal_strlit("sk");
    reveal_strlit("sl");
    reveal_strlit("so");
    reveal_strlit("es");
    reveal_strlit("su");
    reveal_strlit("sw");
    reveal_strlit("sv");
    reveal_strlit("tl");
    reveal_strlit("tg");
    reveal_strlit("ta");
    reveal_strlit("tt");
    reveal_strlit("te");
    reveal_strlit("th");
    reveal_strlit("tr");
    reveal_strlit("tk");
    reveal_strlit("uk");
    reveal_strlit("ur");
    reveal_strlit("ug");
    reveal_strlit("uz");
    reveal_strlit("vi");
    reveal_strlit("cy");
    reveal_strlit("xh");
    reveal_strlit("yi");
    reveal_strlit("yo");
    reveal_strlit("zu");
}

} // verus!
