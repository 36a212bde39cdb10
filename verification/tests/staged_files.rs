use archicomm::error::ApiError;
use archicomm::staging::{
    after_path, name_session_directory, new_session_directory_name, DirectoryKind, DirectoryPlan,
    PathOutcome, PathProgress, PathStep, SessionDirectory, Stage, Staging, WriteStep,
};
use std::io::{Read, Seek, SeekFrom, Write};
use std::path::{Path, PathBuf};
use tempfile::{tempdir, NamedTempFile, TempPath};

struct Staged {
    path: String,
    file: std::io::BufReader<Box<dyn ReadSeek>>,
}

trait ReadSeek: Read + Seek {}

impl<T: Read + Seek> ReadSeek for T {}

/// Stages `data` under `file_name` in a directory of its own below
/// `base_dir`, carrying out the steps as the protocol asks for them.
fn save_audio_file(file_name: String, data: Vec<u8>, base_dir: Option<String>) -> Result<Staged, ApiError> {
    let staging = Staging::begin(&file_name, DirectoryKind::UnderBase, false)?;
    let base = PathBuf::from(base_dir.expect("the tests name a base directory"));
    let directory = base.join(new_session_directory_name(4242));
    let mut stage = staging.first_stage(false);
    let mut temporary: Option<NamedTempFile> = None;
    let mut persisted = None;
    let final_path = directory.join(&staging.file_name);
    loop {
        match stage {
            Stage::Write(step) => {
                let result: Result<(), std::io::Error> = match step {
                    WriteStep::CreateDirectory => tempfile::Builder::new()
                        .prefix(directory.file_name().unwrap())
                        .rand_bytes(0)
                        .keep(true)
                        .tempdir_in(&base)
                        .map(|_| ()),
                    WriteStep::CreateTemporary => NamedTempFile::new_in(&directory).map(|t| {
                        temporary = Some(t);
                    }),
                    WriteStep::WritePayload => temporary.as_mut().unwrap().write_all(&data),
                    WriteStep::Flush => temporary.as_mut().unwrap().flush(),
                    WriteStep::Persist => match temporary.take().unwrap().persist(&final_path) {
                        Ok(file) => {
                            persisted = Some(file);
                            Ok(())
                        }
                        Err(e) => Err(e.error),
                    },
                    WriteStep::RestrictDirectory | WriteStep::RestrictFile => {
                        unreachable!("no permission steps were asked for")
                    }
                };
                stage = staging.after_write(step, result)?;
            }
            Stage::Path(step) => {
                let found = match step {
                    PathStep::Canonicalize => final_path.canonicalize(),
                    PathStep::AbsoluteFallback => Ok(final_path.clone()),
                };
                let outcome = match found {
                    Ok(path) => match path.to_str() {
                        Some(text) => PathOutcome::Resolved(text.to_string()),
                        None => PathOutcome::Unrepresentable(path.to_string_lossy().to_string()),
                    },
                    Err(e) => PathOutcome::Failed(e),
                };
                match after_path(step, outcome) {
                    PathProgress::Finished(path) => {
                        let file: Box<dyn ReadSeek> = Box::new(persisted.take().unwrap());
                        return Ok(Staged { path, file: std::io::BufReader::new(file) });
                    }
                    PathProgress::Continue(next) => stage = Stage::Path(next),
                    PathProgress::Failed(e) => return Err(e),
                }
            }
        }
    }
}

fn content(staged: &mut Staged) -> Vec<u8> {
    let mut bytes = Vec::new();
    staged.file.seek(SeekFrom::Start(0)).unwrap();
    staged.file.read_to_end(&mut bytes).unwrap();
    bytes
}

fn entries(dir: &Path) -> Vec<String> {
    dir.read_dir().unwrap().map(|e| e.unwrap().file_name().to_string_lossy().to_string()).collect()
}

#[test]
fn test_save_audio_file_security() {
    // Create isolated test directory
    let temp_dir = tempdir().expect("Failed to create temp directory");
    let temp_path = temp_dir.path().to_string_lossy().to_string();

    // Test with valid filename
    let valid_data = b"fake audio data";
    let result = save_audio_file("test_audio.wav".to_string(), valid_data.to_vec(), Some(temp_path.clone()));
    assert!(result.is_ok());

    // Clean up - the file should exist and be valid
    let mut staged = result.unwrap();
    let file_path = staged.path.clone();
    assert!(std::path::Path::new(&file_path).exists());
    let content = content(&mut staged);
    assert_eq!(content, valid_data);

    // Test with malicious filename - should fail
    let long_name = "a".repeat(300);
    let malicious_names = vec![
        "../etc/passwd",
        "..\\Windows\\System32\\config",
        "CON",
        "file<>name",
        "",
        &long_name, // too long
    ];

    for malicious_name in malicious_names {
        let result = save_audio_file(malicious_name.to_string(), valid_data.to_vec(), Some(temp_path.clone()));
        assert!(result.is_err(), "Expected error for malicious filename: {}", malicious_name);
    }
    // A refused name touches nothing: only the one staging directory is there.
    assert_eq!(entries(temp_dir.path()).len(), 1);
}

#[test]
fn test_save_audio_file_canonicalization() {
    // Create isolated test directory
    let temp_dir = tempdir().expect("Failed to create temp directory");
    let temp_path = temp_dir.path().to_string_lossy().to_string();

    // Test that canonicalization works correctly
    let test_data = b"test audio content";
    let result = save_audio_file("test_canonical.wav".to_string(), test_data.to_vec(), Some(temp_path));

    assert!(result.is_ok());
    let mut staged = result.unwrap();
    let canonical_path = staged.path.clone();

    // Verify path is absolute
    let path_buf = PathBuf::from(&canonical_path);
    assert!(path_buf.is_absolute());

    // Verify file exists and has correct content
    assert!(path_buf.exists());
    let content = content(&mut staged);
    assert_eq!(content, test_data);

    // Verify path is properly UTF-8 encoded
    assert!(canonical_path.is_ascii() || canonical_path.chars().all(|c| !c.is_control()));

    // The final name is the name as given.
    assert_eq!(path_buf.file_name().unwrap().to_str(), Some("test_canonical.wav"));
    let directory = path_buf.parent().unwrap().file_name().unwrap().to_str().unwrap();
    assert!(directory.starts_with("archicomm_audio_4242_"));
    assert_eq!(directory.len(), "archicomm_audio_4242_".len() + 36);
}

#[test]
fn test_file_cleanup_and_no_artifacts() {
    // Create isolated test directory
    let temp_dir = tempdir().expect("Failed to create temp directory");
    let temp_path = temp_dir.path().to_string_lossy().to_string();

    let test_data = b"cleanup test data";
    let filename = "cleanup_test.wav";

    // Save file in isolated directory
    let result = save_audio_file(filename.to_string(), test_data.to_vec(), Some(temp_path));
    assert!(result.is_ok());

    let file_path = result.unwrap().path;
    let path_buf = PathBuf::from(&file_path);

    // Verify file exists
    assert!(path_buf.exists());

    // Get directory and check for temporary artifacts
    let dir = path_buf.parent().unwrap();
    let entries_before_cleanup = entries(dir);

    // Remove the file
    TempPath::from_path(path_buf.clone()).close().unwrap();

    // Verify no temp files left behind
    let entries_after_cleanup = entries(dir);

    // Should be one fewer file (the one we removed)
    assert_eq!(entries_after_cleanup.len(), entries_before_cleanup.len() - 1);

    // No temporary files should remain (no files starting with .tmp)
    let temp_files: Vec<_> = entries_after_cleanup.iter().filter(|name| name.starts_with(".tmp")).collect();
    assert!(temp_files.is_empty(), "Found temporary files: {:?}", temp_files);

    // Additional check: verify no files with random UUID suffixes (tempfile artifacts)
    let uuid_pattern_files: Vec<_> = entries_after_cleanup
        .iter()
        .filter(|name| name.len() > 10 && name.chars().filter(|c| *c == '-').count() >= 4)
        .collect();
    assert!(uuid_pattern_files.is_empty(), "Found UUID pattern files (potential artifacts): {:?}", uuid_pattern_files);
}

#[test]
fn test_concurrent_audio_file_operations() {
    // Create multiple isolated test directories for concurrent tests
    let temp_dir1 = tempdir().expect("Failed to create temp directory 1");
    let temp_dir2 = tempdir().expect("Failed to create temp directory 2");
    let temp_path1 = temp_dir1.path().to_string_lossy().to_string();
    let temp_path2 = temp_dir2.path().to_string_lossy().to_string();

    let test_data1 = b"concurrent test data 1";
    let test_data2 = b"concurrent test data 2";

    let runtime = tokio::runtime::Builder::new_current_thread().build().unwrap();
    let (result1, result2) = runtime.block_on(async move {
        // Start two concurrent audio file operations in different directories
        let handle1 = tokio::spawn(async move {
            save_audio_file("concurrent1.wav".to_string(), test_data1.to_vec(), Some(temp_path1))
                .map(|mut s| (s.path.clone(), content(&mut s)))
        });
        let handle2 = tokio::spawn(async move {
            save_audio_file("concurrent2.wav".to_string(), test_data2.to_vec(), Some(temp_path2))
                .map(|mut s| (s.path.clone(), content(&mut s)))
        });
        // Wait for both operations to complete
        let result1 = handle1.await.expect("Task 1 panicked").expect("Save operation 1 failed");
        let result2 = handle2.await.expect("Task 2 panicked").expect("Save operation 2 failed");
        (result1, result2)
    });

    // Verify both files were created successfully and independently
    assert!(std::path::Path::new(&result1.0).exists());
    assert!(std::path::Path::new(&result2.0).exists());

    // Verify paths are different (isolated)
    assert_ne!(result1.0, result2.0);

    // Verify file contents
    assert_eq!(result1.1, test_data1);
    assert_eq!(result2.1, test_data2);
}

#[test]
fn steps_come_in_order() {
    let staging = Staging::begin("a.wav", DirectoryKind::Session, true).unwrap();
    assert_eq!(staging.file_name, "a.wav");
    assert_eq!(staging.kind, DirectoryKind::Session);
    assert!(staging.restrict_permissions);
    assert_eq!(staging.first_stage(true), Stage::Write(WriteStep::CreateTemporary));
    let mut stage = staging.first_stage(false);
    let mut seen = vec![stage];
    while let Stage::Write(step) = stage {
        stage = staging.after_write(step, Ok(())).unwrap();
        seen.push(stage);
    }
    assert_eq!(
        seen,
        vec![
            Stage::Write(WriteStep::CreateDirectory),
            Stage::Write(WriteStep::RestrictDirectory),
            Stage::Write(WriteStep::CreateTemporary),
            Stage::Write(WriteStep::WritePayload),
            Stage::Write(WriteStep::Flush),
            Stage::Write(WriteStep::Persist),
            Stage::Write(WriteStep::RestrictFile),
            Stage::Path(PathStep::Canonicalize),
        ]
    );

    assert!(!staging.completes_directory(WriteStep::CreateDirectory));
    assert!(staging.completes_directory(WriteStep::RestrictDirectory));
    assert!(!staging.completes_directory(WriteStep::CreateTemporary));
    assert!(!staging.completes_directory(WriteStep::Persist));

    let plain = Staging::begin("a.wav", DirectoryKind::UnderBase, false).unwrap();
    assert!(plain.completes_directory(WriteStep::CreateDirectory));
    assert_eq!(
        plain.after_write(WriteStep::CreateDirectory, Ok(())).unwrap(),
        Stage::Write(WriteStep::CreateTemporary)
    );
    assert_eq!(plain.after_write(WriteStep::Persist, Ok(())).unwrap(), Stage::Path(PathStep::Canonicalize));
}

#[test]
fn each_failed_step_has_its_report() {
    let session = &Staging::begin("a.wav", DirectoryKind::Session, true).unwrap();
    let under_base = &Staging::begin("a.wav", DirectoryKind::UnderBase, true).unwrap();
    let cases = [
        (session, WriteStep::CreateDirectory, "directory creation", "Failed to create audio session directory: "),
        (under_base, WriteStep::CreateDirectory, "directory creation", "Failed to create audio test directory: "),
        (session, WriteStep::RestrictDirectory, "directory creation", "Failed to set secure directory permissions: "),
        (session, WriteStep::CreateTemporary, "file write", "Failed to create temporary file: "),
        (session, WriteStep::WritePayload, "file write", "Failed to write audio data to file: "),
        (session, WriteStep::Flush, "file write", "Failed to flush file data to disk: "),
        (session, WriteStep::Persist, "file persistence", "Failed to persist temporary file to final location: "),
        (session, WriteStep::RestrictFile, "file persistence", "Failed to set secure file permissions: "),
    ];
    for (staging, step, operation, prefix) in cases {
        let failure = std::io::Error::new(std::io::ErrorKind::Other, "boom");
        match staging.after_write(step, Err(failure)) {
            Err(ApiError::FileSystemError { operation: op, details, source: Some(_) }) => {
                assert_eq!(op, operation);
                assert_eq!(details, format!("{}boom", prefix));
            }
            other => panic!("unexpected {:?}", other),
        }
        let e = staging.write_failure(step, "why", None);
        assert_eq!(e.to_string(), format!("File system error: {} failed - {}why", operation, prefix));
    }
}

#[test]
fn path_steps() {
    match after_path(PathStep::Canonicalize, PathOutcome::Resolved("/tmp/x/a.wav".to_string())) {
        PathProgress::Finished(path) => assert_eq!(path, "/tmp/x/a.wav"),
        other => panic!("unexpected {:?}", other),
    }
    let failure = || std::io::Error::new(std::io::ErrorKind::NotFound, "gone");
    assert!(matches!(
        after_path(PathStep::Canonicalize, PathOutcome::Failed(failure())),
        PathProgress::Continue(PathStep::AbsoluteFallback)
    ));
    match after_path(PathStep::AbsoluteFallback, PathOutcome::Resolved("/cwd/rel/a.wav".to_string())) {
        PathProgress::Finished(path) => assert_eq!(path, "/cwd/rel/a.wav"),
        other => panic!("unexpected {:?}", other),
    }
    match after_path(PathStep::AbsoluteFallback, PathOutcome::Failed(failure())) {
        PathProgress::Failed(e) => assert_eq!(
            e.to_string(),
            "File system error: path canonicalization failed - Cannot determine current directory: gone"
        ),
        other => panic!("unexpected {:?}", other),
    }
    for step in [PathStep::Canonicalize, PathStep::AbsoluteFallback] {
        match after_path(step, PathOutcome::Unrepresentable("/tmp/\u{fffd}.wav".to_string())) {
            PathProgress::Failed(e) => assert_eq!(
                e.to_string(),
                "Internal error: Path contains invalid UTF-8 sequences: '/tmp/\u{fffd}.wav'"
            ),
            other => panic!("unexpected {:?}", other),
        }
    }
}

#[test]
fn a_refused_name_starts_nothing() {
    match Staging::begin("../evil", DirectoryKind::Session, true) {
        Err(ApiError::InvalidFilename { details, .. }) => {
            assert_eq!(details, "Invalid filename '../evil': contains path separators")
        }
        other => panic!("unexpected {:?}", other),
    }
}

#[test]
fn session_directory_names() {
    assert_eq!(name_session_directory(0, "s"), "archicomm_audio_0_s");
    assert_eq!(
        name_session_directory(31337, "123e4567-e89b-12d3-a456-426614174000"),
        "archicomm_audio_31337_123e4567-e89b-12d3-a456-426614174000"
    );
    assert_eq!(name_session_directory(u32::MAX, ""), "archicomm_audio_4294967295_");
    let a = new_session_directory_name(12);
    let b = new_session_directory_name(12);
    assert!(a.starts_with("archicomm_audio_12_"));
    assert_eq!(a.len(), "archicomm_audio_12_".len() + 36);
    assert_ne!(a, b);
}

#[test]
fn session_directory_is_made_once_and_again_when_gone() {
    let mut session = SessionDirectory::new();
    assert_eq!(session.candidate(), None);
    assert!(matches!(session.plan(false), DirectoryPlan::Create));
    assert!(matches!(session.plan(true), DirectoryPlan::Create));
    session.remember("/tmp/archicomm_audio_1_x".to_string());
    assert_eq!(session.candidate(), Some("/tmp/archicomm_audio_1_x".to_string()));
    match session.plan(true) {
        DirectoryPlan::Reuse(path) => assert_eq!(path, "/tmp/archicomm_audio_1_x"),
        other => panic!("unexpected {:?}", other),
    }
    assert!(matches!(session.plan(false), DirectoryPlan::Create));
    session.remember("/tmp/archicomm_audio_1_y".to_string());
    match session.plan(true) {
        DirectoryPlan::Reuse(path) => assert_eq!(path, "/tmp/archicomm_audio_1_y"),
        other => panic!("unexpected {:?}", other),
    }
}
