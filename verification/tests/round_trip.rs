use tauri_dotnet::{OwnedString, OwnedUtf16String};

fn utf16_round_trip(s: &str) {
    let buf = OwnedUtf16String::from_text(String::from(s));
    assert_eq!(buf.into_text(), s);
}

fn utf8_round_trip(s: &str) {
    let buf = OwnedString::from_text(String::from(s));
    assert_eq!(buf.into_text(), s);
}

#[test]
fn utf16_round_trip_empty() {
    utf16_round_trip("");
}

#[test]
fn utf16_round_trip_ascii() {
    utf16_round_trip("Hello, World!");
    utf16_round_trip("the quick brown fox jumps over the lazy dog 0123456789");
}

#[test]
fn utf16_round_trip_multibyte() {
    utf16_round_trip("h\u{e9}llo w\u{f6}rld \u{2014} \u{fc}n\u{ef}c\u{f8}de \u{2713}");
    utf16_round_trip("\u{4f60}\u{597d}\u{ff0c}\u{4e16}\u{754c}");
}

#[test]
fn utf16_round_trip_surrogate_pairs() {
    utf16_round_trip("\u{1f980}\u{1f389}\u{1d11e}");
    utf16_round_trip("a\u{1f600}b");
}

#[test]
fn utf8_round_trip_empty() {
    utf8_round_trip("");
}

#[test]
fn utf8_round_trip_ascii() {
    utf8_round_trip("Hello, World!");
}

#[test]
fn utf8_round_trip_multibyte() {
    utf8_round_trip("h\u{e9}llo w\u{f6}rld \u{2014} \u{fc}n\u{ef}c\u{f8}de \u{2713}");
    utf8_round_trip("\u{4f60}\u{597d}\u{ff0c}\u{4e16}\u{754c}");
    utf8_round_trip("\u{1f980}\u{1f389}\u{1d11e}");
}

#[test]
fn utf16_round_trip_through_from_impls() {
    let s = String::from("via the conversion traits \u{1f980}");
    let buf = OwnedUtf16String::from(s.clone());
    assert_eq!(String::from(buf), s);
}

#[test]
fn utf8_round_trip_through_from_impls() {
    let s = String::from("via the conversion traits \u{1f980}");
    let buf = OwnedString::from(s.clone());
    assert_eq!(String::from(buf), s);
}
