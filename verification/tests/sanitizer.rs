use omnibox::report::{sanitize_report_json, sanitize_value, JsonValue};
use omnibox::sanitizer::{
    ipv4_end, is_sensitive_key, mac_len_found, normalized_key, redact_ipv4_addresses, redact_mac_addresses,
    sanitize_string,
};

#[test]
fn sanitizer_redacts_structured_sensitive_fields_and_preserves_shape() {
    let raw = r#"{"username":"sample-user","network":{"mac_address":"02:11:22:33:44:55","ipv4_addresses":["192.0.2.10"],"ssid":"LabOnly"},"cpu":{"name":"Example CPU"},"secret":{"token":"not-real"}}"#;
    let value: serde_json::Value = serde_json::from_str(&sanitize_report_json(raw)).unwrap();
    assert_eq!(value["username"], "<REDACTED>");
    assert_eq!(value["network"]["ipv4_addresses"][0], "<REDACTED>");
    assert_eq!(value["cpu"]["name"], "Example CPU");
    assert!(value.to_string().find("02:11:22:33:44:55").is_none());
}

#[test]
fn sanitizer_does_not_return_invalid_input() {
    let output = sanitize_report_json("{not-json: sample-secret}");
    assert_ne!(output, "{not-json: sample-secret}");
    assert!(serde_json::from_str::<serde_json::Value>(&output).is_ok());
}

#[test]
fn metric_sensitive_value_is_nulled_without_losing_quality_metadata() {
    let raw = r#"{"serial_number":{"value":"SN-FAKE-01","unit":"","quality":"Good","source":"test","timestamp":1}}"#;
    let value: serde_json::Value = serde_json::from_str(&sanitize_report_json(raw)).unwrap();
    assert!(value["serial_number"]["value"].is_null());
    assert_eq!(value["serial_number"]["quality"], "Good");
}

#[test]
fn sensitive_keys_ignore_case_and_separator_variants() {
    let raw = r#"{"MAC-ADDRESS":"02:11:22:33:44:55","serialNumber":{"value":"SN-FAKE-02","unit":"","quality":"Good","source":"test","timestamp":2},"ordinary_name":"Example GPU"}"#;
    let value: serde_json::Value = serde_json::from_str(&sanitize_report_json(raw)).unwrap();
    assert_eq!(value["MAC-ADDRESS"], "<REDACTED>");
    assert!(value["serialNumber"]["value"].is_null());
    assert_eq!(value["ordinary_name"], "Example GPU");
}

#[test]
fn sid_and_user_keys_are_redacted_case_insensitively() {
    let raw = r#"{"SID":"S-1-5-21-fixture","user":"fixture-user","ordinary":"Example CPU"}"#;
    let value: serde_json::Value = serde_json::from_str(&sanitize_report_json(raw)).unwrap();

    assert_eq!(value["SID"], "<REDACTED>");
    assert_eq!(value["user"], "<REDACTED>");
    assert_eq!(value["ordinary"], "Example CPU");
}

#[test]
fn incomplete_sensitive_objects_redact_every_nested_value() {
    let raw = r#"{"secret":{"value":"x","payload":"leak","nested":{"data":"still-leak"}}}"#;
    let value: serde_json::Value = serde_json::from_str(&sanitize_report_json(raw)).unwrap();

    assert_eq!(value["secret"]["value"], "<REDACTED>");
    assert_eq!(value["secret"]["payload"], "<REDACTED>");
    assert_eq!(value["secret"]["nested"]["data"], "<REDACTED>");
    assert!(!value.to_string().contains("leak"));
}

#[test]
fn sentence_final_ip_periods_are_redacted_without_losing_punctuation() {
    let raw = r#"{"note":"IPv4 192.0.2.10. IPv6 2001:db8::1."}"#;
    let value: serde_json::Value = serde_json::from_str(&sanitize_report_json(raw)).unwrap();

    assert_eq!(value["note"], "IPv4 <IP_ADDRESS>. IPv6 <IP_ADDRESS>.");
}

#[test]
fn dotted_and_compact_mac_addresses_are_redacted_with_conservative_boundaries() {
    let raw =
        r#"{"note":"dotted aabb.ccdd.eeff compact aabbccddeeff embedded xaabbccddeeffy"}"#;
    let value: serde_json::Value = serde_json::from_str(&sanitize_report_json(raw)).unwrap();

    assert_eq!(
        value["note"],
        "dotted <MAC_ADDRESS> compact <MAC_ADDRESS> embedded xaabbccddeeffy"
    );
}

#[test]
fn ordinary_identity_words_do_not_depend_on_environment_variables() {
    let raw = r#"{"note":"user mÜLLER on éTAGE","ordinary":{"name":"Example CPU","count":3}}"#;
    let value: serde_json::Value = serde_json::from_str(&sanitize_report_json(raw)).unwrap();

    assert_eq!(value["note"], "user mÜLLER on éTAGE");
    assert_eq!(value["ordinary"]["name"], "Example CPU");
    assert_eq!(value["ordinary"]["count"], 3);
}

#[test]
fn ordinary_strings_scrub_identifiable_literals_without_changing_shape() {
    let raw = r#"{"note":"C:\\Users\\sample-user\\tool.exe via 192.0.2.10 and 2001:db8::1 (02:11:22:33:44:55)","name":"Example CPU"}"#;
    let value: serde_json::Value = serde_json::from_str(&sanitize_report_json(raw)).unwrap();
    let note = value["note"].as_str().unwrap();
    assert!(!note.contains("sample-user"));
    assert!(!note.contains("192.0.2.10"));
    assert!(!note.contains("2001:db8::1"));
    assert!(!note.contains("02:11:22:33:44:55"));
    assert_eq!(value["name"], "Example CPU");
}

#[test]
fn ordinary_strings_with_long_numeric_tokens_do_not_panic() {
    let raw = r#"{"note":"999999999999999999999999"}"#;
    let value: serde_json::Value = serde_json::from_str(&sanitize_report_json(raw)).unwrap();
    assert_eq!(value["note"], "999999999999999999999999");
}

#[test]
fn free_text_user_path_is_replaced_segment_only() {
    assert_eq!(
        sanitize_string("C:\\Users\\bob\\Desktop and /users/alice"),
        "C:\\Users\\<USER>\\Desktop and /users/<USER>"
    );
    assert_eq!(sanitize_string("\\Users\\"), "\\Users\\");
}

#[test]
fn free_text_mac_forms_and_boundaries() {
    assert_eq!(sanitize_string("aa-bb-cc-dd-ee-ff"), "<MAC_ADDRESS>");
    assert_eq!(sanitize_string("aa:bb-cc:dd:ee:ff"), "aa:bb-cc:dd:ee:ff");
    assert_eq!(sanitize_string("0aa:bb:cc:dd:ee:ff"), "0aa:bb:cc:dd:ee:ff");
}

#[test]
fn free_text_ipv4_rejects_out_of_range_and_long_runs() {
    assert_eq!(sanitize_string("10.0.0.256"), "10.0.0.256");
    assert_eq!(sanitize_string("1.2.3.4.5"), "1.2.3.4.5");
    assert_eq!(sanitize_string("at 10.1.2.3, ok"), "at <IP_ADDRESS>, ok");
}

#[test]
fn free_text_ipv6_with_zone_index() {
    assert_eq!(sanitize_string("fe80::1%eth0 up"), "<IP_ADDRESS> up");
    assert_eq!(sanitize_string("ab:cd"), "ab:cd");
}

#[test]
fn field_names_are_normalized_before_matching() {
    assert_eq!(normalized_key("MAC-Address_1"), "macaddress1");
    assert!(is_sensitive_key("Tool_Path"));
    assert!(is_sensitive_key("myApiKeyValue"));
    assert!(is_sensitive_key("IPv4-Addresses"));
    assert!(!is_sensitive_key("ordinary_name"));
    assert!(!is_sensitive_key("cpu"));
}

#[test]
fn sensitive_scalars_become_null_and_strings_redacted() {
    let v = JsonValue::Array(vec![
        JsonValue::Bool(true),
        JsonValue::Str("secret".to_string()),
        JsonValue::Null,
    ]);
    let out = sanitize_value(&v, true);
    match out {
        JsonValue::Array(items) => {
            assert_eq!(items.len(), 3);
            assert!(matches!(items[0], JsonValue::Null));
            assert!(matches!(&items[1], JsonValue::Str(s) if s == "<REDACTED>"));
            assert!(matches!(items[2], JsonValue::Null));
        }
        _ => panic!("array expected"),
    }
}

#[test]
fn non_json_input_gives_the_fixed_error_object() {
    assert_eq!(sanitize_report_json("not json"), "{\"error\":\"invalid_json\"}");
}

#[test]
fn mac_redaction_output_holds_no_mac_address() {
    let inputs = [
        "aa:bb:cc:dd:ee:ff-00:11:22:33:44:55",
        "aabb.ccdd.eeff_aabbccddeeff",
        "aa:bb:cc:dd:ee:ff11:22:33:44:55:66",
        "x aabbccddeeff.aabb.ccdd.eeff 0011.2233.4455",
    ];
    for input in inputs {
        let chars: Vec<char> = input.chars().collect();
        let out = redact_mac_addresses(&chars);
        for p in 0..out.len() {
            assert_eq!(mac_len_found(&out, p), 0, "{input} at {p}");
        }
    }
    let chars: Vec<char> = "aa:bb:cc:dd:ee:ff-00:11:22:33:44:55".chars().collect();
    let out: String = redact_mac_addresses(&chars).into_iter().collect();
    assert_eq!(out, "<MAC_ADDRESS>-<MAC_ADDRESS>");
}

#[test]
fn ipv4_redaction_output_holds_no_ipv4_literal() {
    let inputs = [
        "1.2.3.4",
        "1.2.3.45.6.7.8",
        "10.0.0.1.x 192.168.1.1.",
        "a1.2.3.4 256.1.1.1 01.002.3.4",
        "1.2.3.4-5.6.7.8",
    ];
    for input in inputs {
        let chars: Vec<char> = input.chars().collect();
        let out = redact_ipv4_addresses(&chars);
        for p in 0..out.len() {
            assert!(!(out[p].is_ascii_digit() && ipv4_end(&out, p).is_some()), "{input} at {p}");
        }
    }
    let chars: Vec<char> = "1.2.3.4-5.6.7.8".chars().collect();
    let out: String = redact_ipv4_addresses(&chars).into_iter().collect();
    assert_eq!(out, "<IP_ADDRESS>-<IP_ADDRESS>");
}
