use omnibox::sysinfo::devices::{decode_device_string, device_key, extract_vid_pid, REG_MULTI_SZ};

const REG_SZ: u32 = 1;

#[test]
fn duplicate_device_names_are_not_deduplicated() {
    let a = device_key("USB\\VID_1111&PID_2222\\A");
    let b = device_key("USB\\VID_1111&PID_2222\\B");
    assert_ne!(a, b);
}

#[test]
fn ids_are_extracted_only_from_valid_hex_tokens() {
    assert_eq!(extract_vid_pid("USB\\VID_12G4&PID_0001"), (None, Some("0001".to_string())));
    assert_eq!(
        extract_vid_pid("PCI\\VEN_ABCD&DEV_1234"),
        (Some("ABCD".to_string()), Some("1234".to_string()))
    );
    assert_eq!(extract_vid_pid("PCI\\VEN_ABCDX&DEV_1234"), (None, Some("1234".to_string())));
}

#[test]
fn empty_hardware_id_does_not_panic() {
    assert_eq!(extract_vid_pid(""), (None, None));
}

#[test]
fn malformed_multi_sz_without_double_terminator_is_rejected() {
    let malformed = [b'A', 0, 0, 0, b'B', 0, 0, 0];
    assert_eq!(decode_device_string(REG_MULTI_SZ, &malformed), None);
}

#[test]
fn malformed_utf16_property_is_rejected() {
    let malformed = [0x00, 0xd8, 0x00, 0x00];
    assert_eq!(decode_device_string(REG_SZ, &malformed), None);
}

#[test]
fn device_strings_are_trimmed_and_keys_are_stable() {
    let data = [b' ', 0, b'H', 0, b'i', 0, 0, 0];
    assert_eq!(decode_device_string(REG_SZ, &data).as_deref(), Some("Hi"));
    assert_eq!(decode_device_string(4, &data), None);
    let k = device_key("USB\\VID_1111&PID_2222\\A");
    assert_eq!(k, device_key("USB\\VID_1111&PID_2222\\A"));
    assert!(k.starts_with("pnp-"));
    assert_eq!(k.len(), "pnp-".len() + 16);
}
