use porter::common::{ChatType, DeliveryStatus, Platform};
use porter::telegram::bridge::fix_filename;
use porter::telegram::onebot_helper::{replace_qq_face, replace_wechat_emoji};
use porter::text::{
    contains_ci, eq_ignore_ascii_case, escape_html, i64_to_dec, parse_i64, parse_u64, replace_all,
    starts_with, trim, u64_to_dec,
};

#[test]
fn decimal_rendering() {
    assert_eq!(u64_to_dec(0), "0");
    assert_eq!(u64_to_dec(10), "10");
    assert_eq!(u64_to_dec(u64::MAX), "18446744073709551615");
    assert_eq!(i64_to_dec(-1), "-1");
    assert_eq!(i64_to_dec(i64::MIN), "-9223372036854775808");
    assert_eq!(i64_to_dec(7), "7");
}

#[test]
fn decimal_parsing() {
    assert_eq!(parse_u64("0"), Some(0));
    assert_eq!(parse_u64("18446744073709551615"), Some(u64::MAX));
    assert_eq!(parse_u64("18446744073709551616"), None);
    assert_eq!(parse_u64(""), None);
    assert_eq!(parse_u64("1a"), None);
    assert_eq!(parse_i64("-9223372036854775808"), Some(i64::MIN));
    assert_eq!(parse_i64("-9223372036854775809"), None);
    assert_eq!(parse_i64("+5"), Some(5));
    assert_eq!(parse_i64("-0"), Some(0));
}

#[test]
fn string_helpers() {
    assert!(starts_with("LLOneBot/1.0", "LLOneBot"));
    assert!(!starts_with("LL", "LLOneBot"));
    assert_eq!(replace_all("aXbXc", "X", "--"), "a--b--c");
    assert_eq!(replace_all("aaa", "aa", "b"), "ba");
    assert_eq!(replace_all("abc", "", "x"), "abc");
    assert_eq!(escape_html("a<b>&c"), "a&lt;b&gt;&amp;c");
    assert_eq!(trim("  x y\t\n"), "x y");
    assert_eq!(trim("\r\n"), "");
    assert!(eq_ignore_ascii_case("JPG", "jpg"));
    assert!(!eq_ignore_ascii_case("JPG", "jpeg"));
}

#[test]
fn filenames_get_the_sniffed_extension() {
    assert_eq!(fix_filename("photo.JPG", "jpg").unwrap(), "photo.JPG");
    assert_eq!(fix_filename("photo.png", "jpg").unwrap(), "photo.jpg");
    assert_eq!(fix_filename("photo", "jpg").unwrap(), "photo.jpg");
    assert_eq!(fix_filename("dir.d/photo", "jpg").unwrap(), "dir.d/photo.jpg");
    assert_eq!(fix_filename("a/.hidden", "gif").unwrap(), "a/.hidden.gif");
}

#[test]
fn qq_faces_substitute_names() {
    assert_eq!(replace_qq_face("0"), "/惊讶");
    assert_eq!(replace_qq_face("14"), "/微笑");
    assert_eq!(replace_qq_face("348"), "/福萝卜");
    assert_eq!(replace_qq_face("999"), "/[Face999]");
    assert_eq!(replace_qq_face("07"), "/[Face07]");
    assert_eq!(replace_qq_face("abc"), "/[Faceabc]");
}

#[test]
fn wechat_emoji_substitution() {
    assert_eq!(replace_wechat_emoji("hi [微笑]!"), "hi 😃!");
    assert_eq!(replace_wechat_emoji("[Smile][色]"), "😃😍");
    assert_eq!(replace_wechat_emoji("plain"), "plain");
}

#[test]
fn enum_codes_round_trip() {
    for t in [ChatType::Private, ChatType::Group] {
        assert_eq!(ChatType::from_code(t.code()), Some(t));
        assert_eq!(ChatType::parse(&t.to_text()), Some(t));
    }
    for s in [
        DeliveryStatus::Pending,
        DeliveryStatus::Failed,
        DeliveryStatus::Sent,
        DeliveryStatus::Recalled,
    ] {
        assert_eq!(DeliveryStatus::from_code(s.code()), Some(s));
        assert_eq!(DeliveryStatus::parse(&s.to_text()), Some(s));
    }
    for p in [Platform::Telegram, Platform::QQ, Platform::WeChat] {
        assert_eq!(Platform::parse(&p.to_text()), Some(p));
    }
    assert_eq!(ChatType::from_code(9), None);
    assert_eq!(DeliveryStatus::from_code(-1), None);
}

#[test]
fn containment_ignores_ascii_case() {
    assert!(contains_ci("Hello World", "o w"));
    assert!(contains_ci("Hello World", "HELLO"));
    assert!(contains_ci("Hello", ""));
    assert!(!contains_ci("Hello", "xyz"));
    assert!(!contains_ci("ab", "abc"));
}
