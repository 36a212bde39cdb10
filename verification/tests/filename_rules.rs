use archicomm::error::ApiError;
use archicomm::filename::validate_filename;

#[test]
fn test_validate_filename_security() {
    // Test path traversal attempts
    assert!(validate_filename("../evil").is_err());
    assert!(validate_filename("..\\evil").is_err());
    assert!(validate_filename("evil/../file").is_err());
    assert!(validate_filename("/etc/passwd").is_err());
    assert!(validate_filename("C:\\Windows\\System32\\config").is_err());

    // Test reserved Windows names
    assert!(validate_filename("CON").is_err());
    assert!(validate_filename("con.txt").is_err());
    assert!(validate_filename("PRN").is_err());
    assert!(validate_filename("AUX").is_err());
    assert!(validate_filename("NUL").is_err());
    assert!(validate_filename("COM1").is_err());
    assert!(validate_filename("LPT1").is_err());

    // Test invalid characters
    assert!(validate_filename("file<name").is_err());
    assert!(validate_filename("file>name").is_err());
    assert!(validate_filename("file:name").is_err());
    assert!(validate_filename("file\"name").is_err());
    assert!(validate_filename("file|name").is_err());
    assert!(validate_filename("file?name").is_err());
    assert!(validate_filename("file*name").is_err());

    // Test control characters
    assert!(validate_filename("file\x00name").is_err());
    assert!(validate_filename("file\x1fname").is_err());

    // Test empty filename
    assert!(validate_filename("").is_err());
    assert!(validate_filename("   ").is_err());

    // Test filename too long
    let long_name = "a".repeat(256);
    assert!(validate_filename(&long_name).is_err());

    // Test valid filenames
    assert!(validate_filename("valid_file.txt").is_ok());
    assert!(validate_filename("audio_recording_123.wav").is_ok());
    assert!(validate_filename("file-with-dashes.mp3").is_ok());
    assert!(validate_filename("file with spaces.webm").is_ok());
}

fn details_of(name: &str) -> String {
    match validate_filename(name) {
        Err(ApiError::InvalidFilename { details, source }) => {
            assert!(source.is_none());
            details
        }
        other => panic!("expected an invalid-filename error, got {:?}", other),
    }
}

#[test]
fn rejection_names_the_first_broken_rule() {
    assert_eq!(details_of(""), "File name cannot be empty");
    assert_eq!(details_of(" \t\u{3000}"), "File name cannot be empty");
    assert_eq!(details_of("a/b"), "Invalid filename 'a/b': contains path separators");
    assert_eq!(details_of("a\\b"), "Invalid filename 'a\\b': contains path separators");
    assert_eq!(details_of("."), "Invalid filename '.': contains directory traversal patterns");
    assert_eq!(details_of(".."), "Invalid filename '..': contains directory traversal patterns");
    assert_eq!(details_of("nul.tar"), "Invalid filename 'nul.tar': uses reserved system name");
    assert_eq!(details_of("Lpt9"), "Invalid filename 'Lpt9': uses reserved system name");
    assert_eq!(details_of("a\u{7f}"), "Invalid filename 'a\u{7f}': contains invalid characters");
    assert_eq!(details_of(&"b".repeat(300)), "Filename too long: 300 characters (max 255)");
    // A separator is reported before a forbidden character.
    assert_eq!(details_of("a/b<"), "Invalid filename 'a/b<': contains path separators");
}

#[test]
fn unsafe_names_are_rejected_and_plain_names_accepted() {
    for name in ["../evil", "CON", "file<name", "", "\"\""] {
        assert!(validate_filename(name).is_err(), "{:?}", name);
    }
    assert!(validate_filename(&"a".repeat(256)).is_err());
    for name in ["valid_file.txt", "audio-01.wav"] {
        assert!(validate_filename(name).is_ok(), "{:?}", name);
    }
}

#[test]
fn control_codes_are_rejected() {
    for code in 0u32..0x20 {
        let name = format!("a{}b", char::from_u32(code).unwrap());
        assert!(validate_filename(&name).is_err(), "U+{:04X}", code);
    }
    assert!(validate_filename("a\u{7f}b").is_err());
    assert!(validate_filename("a~b").is_ok());
    assert!(validate_filename("a b").is_ok());
}

#[test]
fn boundary_names() {
    assert!(validate_filename(&"a".repeat(255)).is_ok());
    assert!(validate_filename(&"é".repeat(255)).is_ok());
    assert!(validate_filename(&"é".repeat(256)).is_err());
    assert!(validate_filename("...").is_ok());
    assert!(validate_filename(".con").is_ok());
    assert!(validate_filename("con.txt.bak").is_ok());
    assert!(validate_filename("con.").is_err());
    assert!(validate_filename("COM0").is_ok());
    assert!(validate_filename("COM10").is_ok());
    assert!(validate_filename("com9.log").is_err());
    assert!(validate_filename("console").is_ok());
    assert!(validate_filename(" padded.wav ").is_ok());
}
