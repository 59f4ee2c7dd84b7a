use tauri_dotnet::{FreeFn, OwnedString, OwnedUtf16String};

#[test]
fn hello_world_crosses_as_13_units() {
    let buf = OwnedUtf16String::from_text(String::from("Hello, World!"));
    assert_eq!(buf.len(), 13);
    let expected: Vec<u16> = "Hello, World!".encode_utf16().collect();
    assert_eq!(buf.units(), &expected);
    // The consumer reads the units back into text, then releases the
    // buffer exactly once with the length and capacity it received.
    let text = String::from_utf16(buf.units()).unwrap();
    assert_eq!(text, "Hello, World!");
    let (len, capacity) = (buf.len(), buf.capacity());
    buf.release(len, capacity);
}

#[test]
fn ascii_utf8_single_buffer() {
    let s: String = std::iter::repeat('a').take(1000).collect();
    let buf = OwnedString::from_text(s.clone());
    assert_eq!(buf.len(), 1000);
    assert!(buf.capacity() >= 1000);
    assert!(buf.bytes().iter().all(|&b| b == b'a'));
    assert_eq!(buf.into_text(), s);
}

#[test]
fn capacity_bounds_length_utf16() {
    for s in ["", "x", "Hello, World!", "\u{1f980}\u{1f389}", "\u{4f60}\u{597d}"] {
        let buf = OwnedUtf16String::from_text(String::from(s));
        assert!(buf.len() <= buf.capacity());
    }
}

#[test]
fn capacity_bounds_length_utf8() {
    for s in ["", "x", "Hello, World!", "\u{1f980}\u{1f389}", "\u{4f60}\u{597d}"] {
        let buf = OwnedString::from_text(String::from(s));
        assert!(buf.len() <= buf.capacity());
    }
}

#[test]
fn single_release_utf16() {
    let buf = OwnedUtf16String::from_text(String::from("release me"));
    let (len, capacity) = (buf.len(), buf.capacity());
    buf.release(len, capacity);
}

#[test]
fn single_release_utf8() {
    let buf = OwnedString::from_text(String::from("release me"));
    let (len, capacity) = (buf.len(), buf.capacity());
    buf.release(len, capacity);
}

#[test]
fn owned_records_carry_their_free_fn() {
    let utf16 = OwnedUtf16String::from_text(String::from("a"));
    assert_eq!(utf16.free_fn(), FreeFn::Utf16Units);
    let utf8 = OwnedString::from_text(String::from("a"));
    assert_eq!(utf8.free_fn(), FreeFn::Utf8Bytes);
}

#[test]
fn utf16_buffer_holds_encoded_units() {
    let buf = OwnedUtf16String::from_text(String::from("a\u{1f600}b"));
    let expected: Vec<u16> = "a\u{1f600}b".encode_utf16().collect();
    assert_eq!(buf.units(), &expected);
    assert_eq!(buf.len(), 4);
}

#[test]
fn utf8_buffer_holds_encoded_bytes() {
    let buf = OwnedString::from_text(String::from("h\u{e9}llo"));
    assert_eq!(buf.bytes().as_slice(), "h\u{e9}llo".as_bytes());
    assert_eq!(buf.len(), 6);
}

#[test]
fn in_place_edit_respects_length_and_capacity() {
    let mut buf = OwnedUtf16String::from_text(String::from("Hallo, World!"));
    let capacity = buf.capacity();
    buf.set_unit(1, 0x65);
    assert_eq!(buf.len(), 13);
    assert_eq!(buf.capacity(), capacity);
    assert_eq!(buf.free_fn(), FreeFn::Utf16Units);
    assert_eq!(buf.into_text(), "Hello, World!");
}

#[test]
fn into_parts_hands_out_the_record_fields() {
    let buf = OwnedUtf16String::from_text(String::from("Hello, World!"));
    let (units, capacity, free) = buf.into_parts();
    assert_eq!(units.len(), 13);
    assert!(units.len() <= capacity);
    assert_eq!(free, FreeFn::Utf16Units);

    let buf = OwnedString::from_text(String::from("Hello, World!"));
    let (bytes, capacity, free) = buf.into_parts();
    assert_eq!(bytes.len(), 13);
    assert!(bytes.len() <= capacity);
    assert_eq!(free, FreeFn::Utf8Bytes);
}
