use tauri_dotnet::{FreeFn, OwnedUtf16String, UnownedUtf16String};

fn pinned(s: &str) -> UnownedUtf16String {
    UnownedUtf16String::new(s.encode_utf16().collect())
}

#[test]
fn borrowed_view_converts_without_consuming() {
    let view = pinned("pinned by the managed side \u{1f980}");
    let first = view.to_text();
    let second = view.to_text();
    assert_eq!(first, second);
    assert_eq!(first, "pinned by the managed side \u{1f980}");
    // The view is still intact after both conversions.
    assert_eq!(view.len(), 29);
    view.release();
}

#[test]
fn borrowed_view_reports_its_length_and_free_fn() {
    let view = pinned("Hello, World!");
    assert_eq!(view.len(), 13);
    assert_eq!(view.free_fn(), FreeFn::ManagedPin);
    let expected: Vec<u16> = "Hello, World!".encode_utf16().collect();
    assert_eq!(view.units(), &expected);
}

#[test]
fn borrowed_view_into_string_reads_then_releases() {
    let view = pinned("returned from the managed side");
    assert_eq!(String::from(view), "returned from the managed side");
}

#[test]
fn lossy_decode_replaces_unpaired_high_surrogate() {
    let view = UnownedUtf16String::new(vec![0xd800, 0x0041]);
    assert_eq!(view.to_text(), "\u{fffd}A");
}

#[test]
fn lossy_decode_replaces_lone_low_surrogate() {
    let view = UnownedUtf16String::new(vec![0x0041, 0xdc00]);
    assert_eq!(view.to_text(), "A\u{fffd}");
}

#[test]
fn lossy_decode_replaces_swapped_pair() {
    let view = UnownedUtf16String::new(vec![0xdd80, 0xd83e]);
    assert_eq!(view.to_text(), "\u{fffd}\u{fffd}");
}

#[test]
fn lossy_decode_combines_proper_pair() {
    let view = UnownedUtf16String::new(vec![0xd83e, 0xdd80]);
    assert_eq!(view.to_text(), "\u{1f980}");
}

#[test]
fn lossy_decode_of_empty_view() {
    let view = UnownedUtf16String::new(Vec::new());
    assert_eq!(view.to_text(), "");
    assert_eq!(view.len(), 0);
}

#[test]
fn second_round_trip_is_exact_after_lossy_substitution() {
    // Malformed input is repaired once; re-encoding the repaired text and
    // decoding again changes nothing further.
    let view = UnownedUtf16String::new(vec![0xd800, 0x0041, 0xdc00]);
    let repaired = view.to_text();
    assert_eq!(repaired, "\u{fffd}A\u{fffd}");
    let buf = OwnedUtf16String::from_text(repaired.clone());
    assert_eq!(buf.into_text(), repaired);
}
