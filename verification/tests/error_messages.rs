use archicomm::error::{ApiError, ErrorSource, OperationNames};
use std::io::ErrorKind;

#[test]
fn test_api_error_display() {
    let error = ApiError::ProjectNotFound {
        project_id: "test_id".to_string(),
        source: None,
    };
    assert_eq!(error.to_string(), "Project not found: test_id");

    let error = ApiError::ComponentNotFound {
        component_id: "comp_id".to_string(),
        project_id: "proj_id".to_string(),
        source: None,
    };
    assert_eq!(error.to_string(), "Component not found: comp_id in project proj_id");

    let error = ApiError::InvalidProjectData {
        details: "Name too long".to_string(),
        source: None,
    };
    assert_eq!(error.to_string(), "Invalid project data: Name too long");
}

#[test]
fn test_api_error_from_conversions() {
    // Test From<std::io::Error>
    let io_error = std::io::Error::new(ErrorKind::PermissionDenied, "access denied");
    let api_error: ApiError = io_error.into();
    match api_error {
        ApiError::FileSystemError { operation, details, .. } => {
            assert_eq!(operation, OperationNames::FILE_SYSTEM);
            assert!(details.contains("A file system operation failed"));
            assert!(details.contains("access denied"));
        }
        _ => panic!("Expected FileSystemError variant"),
    }

    // Test From<serde_json::Error>
    let json_error = serde_json::from_str::<serde_json::Value>("invalid json").unwrap_err();
    let api_error: ApiError = json_error.into();
    match api_error {
        ApiError::SerializationError { operation, details, .. } => {
            assert_eq!(operation, OperationNames::SERIALIZATION);
            assert!(details.starts_with("Data serialization or deserialization failed:"));
        }
        _ => panic!("Expected SerializationError variant"),
    }

    // Test From<ApiError> for String
    let api_error = ApiError::Internal {
        details: "test error".to_string(),
        source: None,
    };
    let error_string: String = api_error.into();
    assert_eq!(error_string, "Internal error: test error");
}

#[test]
fn every_variant_has_its_message() {
    let s = |t: &str| t.to_string();
    let cases: Vec<(ApiError, &str)> = vec![
        (ApiError::InvalidComponentData { details: s("d"), source: None }, "Invalid component data: d"),
        (ApiError::InvalidFilename { details: s("d"), source: None }, "Invalid filename: d"),
        (
            ApiError::FileSystemError { operation: s("file write"), details: s("disk full"), source: None },
            "File system error: file write failed - disk full",
        ),
        (ApiError::AudioFileNotFound { path: s("/tmp/a.wav"), source: None }, "Audio file not found at path: /tmp/a.wav"),
        (ApiError::TranscriptionError { details: s("d"), source: None }, "Audio transcription failed: d"),
        (ApiError::TranscriptionInitError { details: s("d"), source: None }, "Transcription initialization failed: d"),
        (ApiError::TranscriptionJobNotFound { job_id: s("j1"), source: None }, "Transcription job not found: j1"),
        (
            ApiError::SerializationError { operation: s("export"), details: s("bad"), source: None },
            "Serialization error: export - bad",
        ),
        (ApiError::StateLockError { resource: s("ProjectStore"), source: None }, "State lock error: Failed to acquire lock for ProjectStore"),
        (
            ApiError::ProcessError { command: s("xdg-open"), details: s("missing"), source: None },
            "External process error: xdg-open failed - missing",
        ),
    ];
    for (error, expected) in cases {
        assert_eq!(error.to_string(), expected);
    }
}

#[test]
fn a_lock_that_cannot_be_taken_names_its_store() {
    match ApiError::state_lock("DiagramStore") {
        ApiError::StateLockError { resource, source: None } => assert_eq!(resource, "DiagramStore"),
        other => panic!("unexpected {:?}", other),
    }
    let e = ApiError::file_system("file write", "Failed to create temporary file: ", "no space", None);
    assert_eq!(
        e.to_string(),
        "File system error: file write failed - Failed to create temporary file: no space"
    );
    let e = ApiError::serialization("export project data", "", "recursion limit", None);
    assert_eq!(e.to_string(), "Serialization error: export project data - recursion limit");
}

#[test]
fn conversions_keep_the_underlying_failure() {
    let io_error = std::io::Error::new(std::io::ErrorKind::NotFound, "gone");
    match ApiError::from(io_error) {
        ApiError::FileSystemError { details, source: Some(ErrorSource::Io(inner)), .. } => {
            assert_eq!(
                details,
                "A file system operation failed. Please check file permissions and disk space. Error: gone"
            );
            assert_eq!(inner.kind(), std::io::ErrorKind::NotFound);
        }
        other => panic!("unexpected {:?}", other),
    }
    let json_error = serde_json::from_str::<serde_json::Value>("{").unwrap_err();
    let text = json_error.to_string();
    match ApiError::from(json_error) {
        ApiError::SerializationError { details, source: Some(ErrorSource::Json(_)), .. } => {
            assert_eq!(details, format!("Data serialization or deserialization failed: {}", text));
        }
        other => panic!("unexpected {:?}", other),
    }
}
