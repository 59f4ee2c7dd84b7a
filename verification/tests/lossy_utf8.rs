use tauri_dotnet::utf8_lossy::decode_utf8_lossy_bytes;

#[test]
fn lossy_utf8_agrees_with_exact_decoding_on_valid_input() {
    for s in ["", "Hello, World!", "h\u{e9}llo", "\u{4f60}\u{597d}", "\u{1f980}"] {
        let bytes = s.as_bytes().to_vec();
        assert_eq!(decode_utf8_lossy_bytes(&bytes), s);
    }
}

#[test]
fn lossy_utf8_replaces_stray_continuation_byte() {
    assert_eq!(decode_utf8_lossy_bytes(&vec![0x41, 0x80, 0x42]), "A\u{fffd}B");
}

#[test]
fn lossy_utf8_replaces_truncated_encoding_byte_by_byte() {
    assert_eq!(decode_utf8_lossy_bytes(&vec![0xe4, 0xb8]), "\u{fffd}\u{fffd}");
    assert_eq!(decode_utf8_lossy_bytes(&vec![0x41, 0xc3]), "A\u{fffd}");
}

#[test]
fn lossy_utf8_replaces_overlong_encoding() {
    assert_eq!(decode_utf8_lossy_bytes(&vec![0xc0, 0xaf]), "\u{fffd}\u{fffd}");
    assert_eq!(decode_utf8_lossy_bytes(&vec![0xe0, 0x80, 0xaf]), "\u{fffd}\u{fffd}\u{fffd}");
}

#[test]
fn lossy_utf8_replaces_encoded_surrogate() {
    assert_eq!(decode_utf8_lossy_bytes(&vec![0xed, 0xa0, 0x80]), "\u{fffd}\u{fffd}\u{fffd}");
}

#[test]
fn lossy_utf8_replaces_value_past_the_last_scalar() {
    assert_eq!(
        decode_utf8_lossy_bytes(&vec![0xf4, 0x90, 0x80, 0x80]),
        "\u{fffd}\u{fffd}\u{fffd}\u{fffd}"
    );
}

#[test]
fn lossy_utf8_repairs_around_valid_text() {
    let mut bytes = b"ok: ".to_vec();
    bytes.push(0xff);
    bytes.extend_from_slice("\u{1f980}".as_bytes());
    assert_eq!(decode_utf8_lossy_bytes(&bytes), "ok: \u{fffd}\u{1f980}");
}
