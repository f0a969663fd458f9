use fiftyone_degrees::device_detection::{
    keep_value, Evidence, ResultData, Manager, ManagerConfig, Progress, STRING_BUFFER_LEN,
    VALUE_BUFFER_LEN,
};
use fiftyone_degrees::engine::{
    CanonicalPath, DataFileProbe, EngineException, EngineReply, LoadReply, ValueReply,
    STATUS_SUCCESS,
};
use fiftyone_degrees::names::{EvidenceName, PropertyName};
use fiftyone_degrees::utils::{
    build_cstring, decode_buffer, get_error_msg, read_until_nul, status_to_error_message,
    verify_exception, CStringKind, FiftyOneDegreesError, Operation,
};

fn result_view() -> ResultData {
    let manager = Manager::new(
        ManagerConfig { data_file_path: "data.hash", property_names: None },
        &DataFileProbe {
            exists: true,
            is_file: true,
            canonical: CanonicalPath::Resolved(String::from("/srv/data.hash")),
        },
        &LoadReply { status: STATUS_SUCCESS, exception: None },
    )
    .unwrap();
    let mut detection = manager.detect(&[EvidenceName::UserAgent.value("ua")]).unwrap();
    loop {
        match detection.advance(&EngineReply { handle: true, exception: None }).unwrap() {
            Progress::Call(next) => detection = next,
            Progress::Done(result) => return result,
        }
    }
}

fn rendered(text: &[u8], room: usize) -> ValueReply {
    let mut buffer = vec![0u8; room];
    buffer[..text.len()].copy_from_slice(text);
    ValueReply { required_len: text.len() + 1, buffer, exception: None }
}

#[test]
fn property_tokens_are_the_variant_names() {
    assert_eq!(PropertyName::DeviceId.to_str(), "DeviceId");
    assert_eq!(PropertyName::IsArtificialIntelligence.to_str(), "IsArtificialIntelligence");
    assert_eq!(PropertyName::IndexedDB.to_str(), "IndexedDB");
    assert_eq!(PropertyName::InVRMode.to_str(), "InVRMode");
    assert_eq!(PropertyName::OEM.to_str(), "OEM");
    assert_eq!(PropertyName::ScreenPixelsPhysicalHeight.to_str(), "ScreenPixelsPhysicalHeight");
    assert_eq!(PropertyName::UserAgents.to_str(), "UserAgents");
    assert_eq!(PropertyName::Custom("Anything at all").to_str(), "Anything at all");
}

#[test]
fn evidence_keys_are_header_names() {
    assert_eq!(EvidenceName::UserAgent.as_str(), "user-agent");
    assert_eq!(EvidenceName::SecChUa.as_str(), "sec-ch-ua");
    assert_eq!(EvidenceName::SecChPlatform.as_str(), "sec-ch-platform");
    assert_eq!(EvidenceName::Custom("x-forwarded-for").as_str(), "x-forwarded-for");
    assert_eq!(EvidenceName::SecChUa.value("v"), (EvidenceName::SecChUa, "v"));
}

#[test]
fn status_codes_have_their_descriptions() {
    assert_eq!(status_to_error_message(0), "Success");
    assert_eq!(status_to_error_message(1), "Lack of memory");
    assert_eq!(status_to_error_message(7), "Not set (should never be returned)");
    assert_eq!(status_to_error_message(11), "Required property not present");
    assert_eq!(status_to_error_message(23), "Encoding error");
    assert_eq!(status_to_error_message(25), "Invalid config");
    assert_eq!(status_to_error_message(32), "Temp file error");
    assert_eq!(status_to_error_message(33), "Unknown error");
    assert_eq!(status_to_error_message(u32::MAX), "Unknown error");
}

#[test]
fn build_cstring_appends_the_terminator() {
    assert_eq!(build_cstring(CStringKind::PropertyName, "IsMobile"), Ok(b"IsMobile\0".to_vec()));
    assert_eq!(build_cstring(CStringKind::PropertyName, ""), Ok(vec![0u8]));
    assert_eq!(
        build_cstring(CStringKind::EvidenceValue, "h\u{e9}"),
        Ok(vec![b'h', 0xc3, 0xa9, 0])
    );
}

#[test]
fn build_cstring_refuses_embedded_nul() {
    assert_eq!(
        build_cstring(CStringKind::FilePath, "a\0b"),
        Err(FiftyOneDegreesError::CStringCreationError(CStringKind::FilePath))
    );
    assert_eq!(
        build_cstring(CStringKind::HashResultSeparator, "\0"),
        Err(FiftyOneDegreesError::CStringCreationError(CStringKind::HashResultSeparator))
    );
    assert_eq!(
        build_cstring(CStringKind::EvidenceKey, "tail\0"),
        Err(FiftyOneDegreesError::CStringCreationError(CStringKind::EvidenceKey))
    );
}

#[test]
fn reading_stops_at_the_first_terminator() {
    assert_eq!(read_until_nul(&b"iOS\0junk\0".to_vec()), b"iOS".to_vec());
    assert_eq!(read_until_nul(&b"\0abc".to_vec()), Vec::<u8>::new());
    assert_eq!(read_until_nul(&b"full".to_vec()), b"full".to_vec());
    assert_eq!(read_until_nul(&Vec::new()), Vec::<u8>::new());
}

#[test]
fn decoding_is_lossy_on_invalid_bytes() {
    assert_eq!(decode_buffer(&b"15.2\0\0\0".to_vec()), "15.2");
    assert_eq!(decode_buffer(&vec![b'a', 0xff, b'b', 0, b'c']), "a\u{fffd}b");
    assert_eq!(decode_buffer(&vec![0xc3, 0xa9, 0]), "\u{e9}");
}

#[test]
fn engine_messages_are_read_strictly() {
    assert_eq!(get_error_msg(&None), "No exception available");
    assert_eq!(
        get_error_msg(&Some(EngineException { status: 2, message: None })),
        "No error message available"
    );
    assert_eq!(
        get_error_msg(&Some(EngineException { status: 2, message: Some(b"broken".to_vec()) })),
        "broken"
    );
    assert_eq!(
        get_error_msg(&Some(EngineException { status: 2, message: Some(vec![0xff, 0xfe]) })),
        "Unknown error"
    );
}

#[test]
fn exceptions_become_errors_unless_successful() {
    assert_eq!(verify_exception(&None, Operation::ReadProperty), Ok(()));
    assert_eq!(
        verify_exception(
            &Some(EngineException { status: 0, message: Some(b"fine".to_vec()) }),
            Operation::ReadProperty
        ),
        Ok(())
    );
    assert_eq!(
        verify_exception(
            &Some(EngineException { status: 1, message: None }),
            Operation::ApplyEvidence
        ),
        Err(FiftyOneDegreesError::InternalApiError(
            Operation::ApplyEvidence,
            1,
            "Lack of memory",
            String::from("No error message available")
        ))
    );
    assert_eq!(
        verify_exception(
            &Some(EngineException { status: 99, message: Some(vec![0x80]) }),
            Operation::InitManager
        ),
        Err(FiftyOneDegreesError::InternalApiError(
            Operation::InitManager,
            99,
            "Unknown error",
            String::from("Unknown error")
        ))
    );
}

#[test]
fn keep_value_filters_by_mode() {
    assert_eq!(keep_value(String::from(""), false), None);
    assert_eq!(keep_value(String::from(""), true), None);
    assert_eq!(keep_value(String::from("Unknown"), true), None);
    assert_eq!(keep_value(String::from("N/A"), true), None);
    assert_eq!(keep_value(String::from("Unknown"), false), Some(String::from("Unknown")));
    assert_eq!(keep_value(String::from("N/A"), false), Some(String::from("N/A")));
    assert_eq!(keep_value(String::from("unknown"), true), Some(String::from("unknown")));
    assert_eq!(keep_value(String::from("True"), true), Some(String::from("True")));
}

#[test]
fn sentinels_are_filtered_in_one_mode_only() {
    let view = result_view();
    for sentinel in ["Unknown", "N/A"] {
        let filtered = view
            .get_value_as_string(
                PropertyName::HardwareCarrier,
                &rendered(sentinel.as_bytes(), STRING_BUFFER_LEN),
            )
            .unwrap();
        assert_eq!(filtered, None);
        let plain = view
            .get_value("HardwareCarrier", &rendered(sentinel.as_bytes(), VALUE_BUFFER_LEN))
            .unwrap();
        assert_eq!(plain, Some(String::from(sentinel)));
    }
}

#[test]
fn empty_value_is_no_value_in_both_modes() {
    let view = result_view();
    assert_eq!(view.get_value("Nothing", &rendered(b"", VALUE_BUFFER_LEN)), Ok(None));
    assert_eq!(
        view.get_value_as_string(PropertyName::Custom("Nothing"), &rendered(b"", 64)),
        Ok(None)
    );
}

#[test]
fn multiple_values_come_back_joined() {
    let view = result_view();
    assert_eq!(
        view.get_value("HardwareName", &rendered(b"iPhone, iPhone 13", VALUE_BUFFER_LEN)),
        Ok(Some(String::from("iPhone, iPhone 13")))
    );
}

#[test]
fn overflow_is_an_error_and_never_cut_short() {
    let view = result_view();
    let mut reply = rendered(&[b'x'; 128], VALUE_BUFFER_LEN);
    reply.required_len = 200;
    assert_eq!(
        view.get_value("UserAgents", &reply),
        Err(FiftyOneDegreesError::UnsafeOperationError(String::from(
            "Buffer too small for property: UserAgents, expected: 200, actual: 128"
        )))
    );
    let mut reply = rendered(&[b'x'; 64], STRING_BUFFER_LEN);
    reply.required_len = 65;
    assert_eq!(
        view.get_value_as_string(PropertyName::UserAgents, &reply),
        Err(FiftyOneDegreesError::UnsafeOperationError(String::from(
            "Buffer too small for property: UserAgents, expected: 65, actual: 64"
        )))
    );
}

#[test]
fn value_that_fills_the_room_is_read() {
    let view = result_view();
    let mut reply = rendered(&[b'y'; 63], STRING_BUFFER_LEN);
    reply.required_len = 64;
    assert_eq!(
        view.get_value_as_string(PropertyName::UserAgents, &reply),
        Ok(Some("y".repeat(63)))
    );
}

#[test]
fn property_name_with_embedded_nul_is_refused() {
    let view = result_view();
    assert_eq!(
        view.get_value("Is\0Mobile", &rendered(b"True", VALUE_BUFFER_LEN)),
        Err(FiftyOneDegreesError::CStringCreationError(CStringKind::PropertyName))
    );
    assert_eq!(
        view.get_value_as_string(PropertyName::Custom("\0"), &rendered(b"True", 64)),
        Err(FiftyOneDegreesError::CStringCreationError(CStringKind::PropertyName))
    );
    assert_eq!(
        ResultData::value_request("Is\0Mobile", 64),
        Err(FiftyOneDegreesError::CStringCreationError(CStringKind::PropertyName))
    );
}

#[test]
fn value_request_encodes_token_and_separator() {
    let request = ResultData::value_request("IsMobile", 128).unwrap();
    assert_eq!(request.property, b"IsMobile\0".to_vec());
    assert_eq!(request.separator, b", \0".to_vec());
    assert_eq!(request.buffer_len, 128);
}

#[test]
fn exception_while_reading_is_an_error() {
    let view = result_view();
    let mut reply = rendered(b"True", VALUE_BUFFER_LEN);
    reply.exception =
        Some(EngineException { status: 13, message: Some(b"collection gone".to_vec()) });
    assert_eq!(
        view.get_value("IsMobile", &reply),
        Err(FiftyOneDegreesError::InternalApiError(
            Operation::ReadProperty,
            13,
            "Collection failure",
            String::from("collection gone")
        ))
    );
}

#[test]
fn evidence_keeps_encoded_pairs() {
    let mut evidence = Evidence::new(2);
    assert_eq!(evidence.capacity(), 2);
    assert_eq!(evidence.len(), 0);
    assert_eq!(evidence.add("user-agent", "Mozilla"), Ok(()));
    assert_eq!(
        evidence.add("k", "v\0"),
        Err(FiftyOneDegreesError::CStringCreationError(CStringKind::EvidenceValue))
    );
    assert_eq!(
        evidence.add("k\0", "v\0"),
        Err(FiftyOneDegreesError::CStringCreationError(CStringKind::EvidenceKey))
    );
    assert_eq!(evidence.len(), 1);
    assert_eq!(evidence.name(0), "user-agent");
    assert_eq!(evidence.key(0), &b"user-agent\0".to_vec());
    assert_eq!(evidence.value(0), &b"Mozilla\0".to_vec());
}
