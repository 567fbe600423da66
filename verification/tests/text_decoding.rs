use omnibox::text::{string_from_utf16, string_from_utf16_lossy};

#[test]
fn utf16_decoding_pairs_and_replacements() {
    assert_eq!(string_from_utf16_lossy(&[0x48, 0x69]), "Hi");
    assert_eq!(string_from_utf16_lossy(&[0xD83D, 0xDE00]), "\u{1F600}");
    assert_eq!(string_from_utf16_lossy(&[0xD83D, 0x41]), "\u{FFFD}A");
    assert_eq!(string_from_utf16_lossy(&[0xDE00, 0xD83D]), "\u{FFFD}\u{FFFD}");
    assert_eq!(string_from_utf16(&[0xD83D, 0xDE00, 0x41]), Some("\u{1F600}A".to_string()));
    assert_eq!(string_from_utf16(&[0xD83D]), None);
}
