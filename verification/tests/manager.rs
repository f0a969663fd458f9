use fiftyone_degrees::device_detection::{property_list, Manager, ManagerConfig};
use fiftyone_degrees::engine::{
    CanonicalPath, DataFileProbe, EngineException, LoadReply, STATUS_CORRUPT_DATA,
    STATUS_INCORRECT_VERSION, STATUS_SUCCESS,
};
use fiftyone_degrees::names::PropertyName;
use fiftyone_degrees::utils::{
    verify_data_file_path, CStringKind, FiftyOneDegreesError, Operation, ReadFileError,
};

fn resolved(path: &str) -> DataFileProbe {
    DataFileProbe {
        exists: true,
        is_file: true,
        canonical: CanonicalPath::Resolved(String::from(path)),
    }
}

fn success() -> LoadReply {
    LoadReply { status: STATUS_SUCCESS, exception: None }
}

fn all_properties() -> ManagerConfig {
    ManagerConfig { data_file_path: "data.hash", property_names: None }
}

#[test]
fn property_list_joins_tokens_with_commas() {
    assert_eq!(
        property_list(&[
            PropertyName::BrowserName,
            PropertyName::Custom("Mine"),
            PropertyName::IsMobile
        ]),
        "BrowserName,Mine,IsMobile"
    );
    assert_eq!(property_list(&[PropertyName::OEM]), "OEM");
    assert_eq!(property_list(&[]), "");
}

#[test]
fn load_request_encodes_path_and_allow_list() {
    let config = ManagerConfig {
        data_file_path: "data.hash",
        property_names: Some(&[PropertyName::BrowserName, PropertyName::DeviceType]),
    };
    let request = Manager::load_request(&config, &resolved("/srv/data.hash")).unwrap();
    assert_eq!(request.file_path, b"/srv/data.hash\0".to_vec());
    assert_eq!(request.properties, Some(b"BrowserName,DeviceType\0".to_vec()));
}

#[test]
fn load_request_without_allow_list_asks_for_all() {
    let request = Manager::load_request(&all_properties(), &resolved("/srv/data.hash")).unwrap();
    assert_eq!(request.file_path, b"/srv/data.hash\0".to_vec());
    assert_eq!(request.properties, None);
}

#[test]
fn manager_keeps_what_was_loaded() {
    let manager = Manager::new(all_properties(), &resolved("/srv/data.hash"), &success()).unwrap();
    assert_eq!(manager.request().file_path, b"/srv/data.hash\0".to_vec());
    assert_eq!(manager.request().properties, None);
}

#[test]
fn missing_path_is_refused() {
    let probe = DataFileProbe {
        exists: false,
        is_file: false,
        canonical: CanonicalPath::Failed(String::from("No such file or directory")),
    };
    let err = Manager::new(all_properties(), &probe, &success()).unwrap_err();
    assert_eq!(
        err,
        FiftyOneDegreesError::AssertionError(Operation::ReadDataFile, "file does not exist")
    );
}

#[test]
fn directory_is_refused() {
    let probe = DataFileProbe {
        exists: true,
        is_file: false,
        canonical: CanonicalPath::Resolved(String::from("/srv")),
    };
    let err = Manager::new(all_properties(), &probe, &success()).unwrap_err();
    assert_eq!(
        err,
        FiftyOneDegreesError::AssertionError(Operation::ReadDataFile, "is not a file")
    );
}

#[test]
fn verify_data_file_path_tells_the_cases_apart() {
    assert_eq!(verify_data_file_path(true, true), Ok(()));
    assert_eq!(
        verify_data_file_path(false, false),
        Err(FiftyOneDegreesError::new_read_file_assertion_error(&ReadFileError::NotExists))
    );
    assert_eq!(
        verify_data_file_path(false, true),
        Err(FiftyOneDegreesError::new_read_file_assertion_error(&ReadFileError::NotExists))
    );
    assert_eq!(
        verify_data_file_path(true, false),
        Err(FiftyOneDegreesError::new_read_file_assertion_error(&ReadFileError::IsNotFile))
    );
    assert_eq!(ReadFileError::NotExists.as_str(), "file does not exist");
    assert_eq!(ReadFileError::IsNotFile.as_str(), "is not a file");
}

#[test]
fn failed_canonicalization_is_an_io_error() {
    let probe = DataFileProbe {
        exists: true,
        is_file: true,
        canonical: CanonicalPath::Failed(String::from("permission denied")),
    };
    let err = Manager::new(all_properties(), &probe, &success()).unwrap_err();
    assert_eq!(
        err,
        FiftyOneDegreesError::IOError(
            "Failed to canonicalize data file path",
            Some(String::from("permission denied"))
        )
    );
}

#[test]
fn non_unicode_path_is_an_io_error() {
    let probe = DataFileProbe { exists: true, is_file: true, canonical: CanonicalPath::NotUnicode };
    let err = Manager::new(all_properties(), &probe, &success()).unwrap_err();
    assert_eq!(
        err,
        FiftyOneDegreesError::IOError("Failed to convert data file path to string", None)
    );
}

#[test]
fn path_with_embedded_nul_is_refused() {
    let err = Manager::new(all_properties(), &resolved("/srv/da\0ta"), &success()).unwrap_err();
    assert_eq!(err, FiftyOneDegreesError::CStringCreationError(CStringKind::FilePath));
}

#[test]
fn allow_list_with_embedded_nul_is_refused() {
    let config = ManagerConfig {
        data_file_path: "data.hash",
        property_names: Some(&[PropertyName::BrowserName, PropertyName::Custom("a\0b")]),
    };
    let err = Manager::new(config, &resolved("/srv/data.hash"), &success()).unwrap_err();
    assert_eq!(err, FiftyOneDegreesError::CStringCreationError(CStringKind::PropertyName));
}

#[test]
fn engine_exception_fails_the_loading() {
    let reply = LoadReply {
        status: STATUS_SUCCESS,
        exception: Some(EngineException {
            status: STATUS_CORRUPT_DATA,
            message: Some(b"bad header".to_vec()),
        }),
    };
    let err = Manager::new(all_properties(), &resolved("/srv/data.hash"), &reply).unwrap_err();
    assert_eq!(
        err,
        FiftyOneDegreesError::InternalApiError(
            Operation::InitManager,
            2,
            "Corrupt data",
            String::from("bad header")
        )
    );
}

#[test]
fn engine_status_fails_the_loading() {
    let reply = LoadReply { status: STATUS_INCORRECT_VERSION, exception: None };
    let err = Manager::new(all_properties(), &resolved("/srv/data.hash"), &reply).unwrap_err();
    assert_eq!(
        err,
        FiftyOneDegreesError::InternalApiError(
            Operation::InitManager,
            3,
            "Incorrect version",
            String::from("Status check failed")
        )
    );
}

#[test]
fn successful_exception_does_not_fail_the_loading() {
    let reply = LoadReply {
        status: STATUS_SUCCESS,
        exception: Some(EngineException { status: STATUS_SUCCESS, message: None }),
    };
    assert!(Manager::new(all_properties(), &resolved("/srv/data.hash"), &reply).is_ok());
}
