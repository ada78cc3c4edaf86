use azure_iot_operations::common::is_invalid_utf8;
use azure_iot_operations::common::payload_serialize::{FormatIndicator, SerializedPayload};
use azure_iot_operations::common::protocol_version::{
    supported_protocol_major_versions_to_string, ProtocolVersion,
};
use azure_iot_operations::common::topic_processor::{contains_invalid_char, is_valid_replacement};
use azure_iot_operations::common::user_properties::{
    validate_user_properties, UserProperty, PARTITION_KEY,
};
use azure_iot_operations::rpc_command::{
    default_rpc_command_protocol_version, rpc_command_protocol_version, StatusCode,
};
use azure_iot_operations::text::{is_blank, u16_to_string};
use azure_iot_operations::time::{Duration, Instant};

#[test]
fn invalid_utf8_characters() {
    for s in [
        "\u{0}", "a\u{1F}", "\u{7F}", "\u{9F}", "\u{FDD0}", "\u{FDEF}", "\u{FFFE}", "\u{1FFFF}",
        "\u{10FFFE}",
    ] {
        assert!(is_invalid_utf8(s));
    }
    for s in ["", " ", "~", "\u{A0}", "\u{FDCF}", "\u{FDF0}", "\u{FFFD}", "\u{10FFFD}", "héé"] {
        assert!(!is_invalid_utf8(s));
    }
}

#[test]
fn topic_characters() {
    for s in ["a b", "+", "#", "{", "}", "\u{7F}", "é", "\u{0}"] {
        assert!(contains_invalid_char(s));
        assert!(!is_valid_replacement(s));
    }
    assert!(!contains_invalid_char("!a/~"));
    assert!(!contains_invalid_char(""));
    for s in ["", "/", "/a", "a/", "a//b"] {
        assert!(!is_valid_replacement(s));
    }
    for s in ["a", "a/b", "!/~"] {
        assert!(is_valid_replacement(s));
    }
}

#[test]
fn protocol_versions_are_read_as_written() {
    for (major, minor) in [(0, 0), (1, 0), (10, 9), (65535, 65535)] {
        let version = ProtocolVersion { major, minor };
        let text = version.to_string();
        assert_eq!(text, format!("{major}.{minor}"));
        assert_eq!(ProtocolVersion::parse_protocol_version(&text), Some(version));
    }
    for text in ["", ".", "1", "1.", ".1", "1.2.3", "a.1", "1.b", "65536.1", "1.65536", " 1.0"] {
        assert_eq!(ProtocolVersion::parse_protocol_version(text), None);
    }
    assert_eq!(
        ProtocolVersion::parse_protocol_version("001.0000000002"),
        Some(ProtocolVersion { major: 1, minor: 2 })
    );
}

#[test]
fn supported_protocol_versions() {
    let version = ProtocolVersion { major: 3, minor: 1 };
    assert!(version.is_supported(&vec![1, 3]));
    assert!(!version.is_supported(&vec![1, 2]));
    assert!(!version.is_supported(&vec![]));
    assert_eq!(supported_protocol_major_versions_to_string(&vec![]), "");
    assert_eq!(supported_protocol_major_versions_to_string(&vec![1]), "1");
    assert_eq!(
        supported_protocol_major_versions_to_string(&vec![1, 20, 300]),
        "1 20 300"
    );
    assert_eq!(rpc_command_protocol_version().to_string(), "1.0");
    assert_eq!(default_rpc_command_protocol_version().to_string(), "1.0");
}

#[test]
fn user_property_keys() {
    let keys = [
        (UserProperty::Timestamp, "__ts"),
        (UserProperty::Status, "__stat"),
        (UserProperty::StatusMessage, "__stMsg"),
        (UserProperty::IsApplicationError, "__apErr"),
        (UserProperty::SourceId, "__srcId"),
        (UserProperty::InvalidPropertyName, "__propName"),
        (UserProperty::InvalidPropertyValue, "__propVal"),
        (UserProperty::ProtocolVersion, "__protVer"),
        (UserProperty::SupportedMajorVersions, "__supProtMajVer"),
        (UserProperty::RequestProtocolVersion, "__requestProtVer"),
    ];
    for (property, key) in keys {
        assert_eq!(property.to_string(), key);
        assert_eq!(UserProperty::from_key(key), Some(property));
    }
    assert_eq!(UserProperty::from_key(PARTITION_KEY), None);
    assert_eq!(UserProperty::from_key("__TS"), None);
    assert_eq!(UserProperty::from_key(""), None);
}

#[test]
fn user_property_validation() {
    let fine = ("key".to_string(), "value".to_string());
    assert_eq!(validate_user_properties(&vec![]), Ok(()));
    assert_eq!(validate_user_properties(&vec![fine.clone(), fine.clone()]), Ok(()));
    let reserved = (PARTITION_KEY.to_string(), "x".to_string());
    assert_eq!(
        validate_user_properties(&vec![fine.clone(), reserved.clone()]),
        Err("Reserved user data key '$partition' must not be used".to_string())
    );
    let invalid = ("k\u{0}".to_string(), "v".to_string());
    // The first fault is told
    assert_eq!(
        validate_user_properties(&vec![fine, invalid, reserved]),
        Err("Invalid user data key 'k\u{0}' or value 'v' found, must be valid UTF-8".to_string())
    );
}

#[test]
fn format_indicators_are_read_as_written() {
    for f in [
        FormatIndicator::UnspecifiedBytes,
        FormatIndicator::Utf8EncodedCharacterData,
    ] {
        assert_eq!(FormatIndicator::from_code(Some(f.code())), f);
    }
    assert_eq!(FormatIndicator::Utf8EncodedCharacterData.code(), 1);
    assert_eq!(
        SerializedPayload::default(),
        SerializedPayload {
            payload: vec![],
            content_type: String::new(),
            format_indicator: FormatIndicator::UnspecifiedBytes,
        }
    );
}

#[test]
fn status_code_numbers() {
    let numbers: Vec<u16> = [
        StatusCode::Success,
        StatusCode::NoContent,
        StatusCode::BadRequest,
        StatusCode::RequestTimeout,
        StatusCode::UnsupportedMediaType,
        StatusCode::InternalServerError,
        StatusCode::ServiceUnavailable,
        StatusCode::VersionNotSupported,
    ]
    .iter()
    .map(|c| c.number())
    .collect();
    assert_eq!(numbers, vec![200, 204, 400, 408, 415, 500, 503, 505]);
}

#[test]
fn blank_text_agrees_with_std() {
    for n in 0..0x11_0000u32 {
        if let Some(c) = char::from_u32(n) {
            assert_eq!(is_blank(&c.to_string()), c.is_whitespace());
        }
    }
    assert!(is_blank(""));
    assert!(!is_blank(" x "));
}

#[test]
fn decimal_text_agrees_with_std() {
    for n in 0..=u16::MAX {
        assert_eq!(u16_to_string(n), n.to_string());
    }
}

#[test]
fn instants_and_durations() {
    let t = Instant::at(Duration::new(10, 999_999_999));
    let u = Instant::at(Duration::new(12, 1));
    assert!(t.has_passed(u));
    assert!(!u.has_passed(t));
    assert!(!t.has_passed(t));
    let d = u.saturating_duration_since(t);
    assert_eq!((d.as_secs(), d.subsec_nanos()), (1, 2));
    assert!(t.saturating_duration_since(u).is_zero());
    assert!(t.saturating_duration_since(t).is_zero());
    assert_eq!(
        t.checked_add_secs(5),
        Some(Instant::at(Duration::new(15, 999_999_999)))
    );
    assert_eq!(t.checked_add_secs(u64::MAX), None);
    assert_eq!(
        t.checked_add_secs(u64::MAX - 10),
        Some(Instant::at(Duration::new(u64::MAX, 999_999_999)))
    );
}
