use archicomm::error::ApiError;
use archicomm::jobs::{
    audio_file_not_found, audio_file_unreadable, JobTable, TranscriptionOptions,
    TranscriptionResponse, TranscriptionSegment,
};
use archicomm::transcription::{
    check_audio_extension, AudioTranscriber, Model, TranscriptionConfig, TranscriptionError,
    MODEL_FILE_NAME,
};

#[test]
fn test_transcription_config_and_model() {
    let config = TranscriptionConfig { model: Model::Base };
    assert!(matches!(config.model, Model::Base));
}

#[test]
fn test_audio_format_validation() {
    let config = TranscriptionConfig { model: Model::Base };
    let transcriber = AudioTranscriber::new(config);

    let wav_path = "test.wav";
    assert!(transcriber.validate_audio_format(wav_path).is_ok());

    let webm_path = "test.webm";
    assert!(transcriber.validate_audio_format(webm_path).is_ok());

    let invalid_path = "test.txt";
    let result = transcriber.validate_audio_format(invalid_path);
    assert!(result.is_err());
    match result.err().unwrap() {
        TranscriptionError::InvalidAudioFormat(msg) => assert!(msg.contains("Unsupported audio format: txt")),
        _ => panic!("Wrong error type"),
    }
}

#[test]
fn test_mock_transcriber_initialization() {
    let config = TranscriptionConfig { model: Model::Base };
    let mut transcriber = AudioTranscriber::new(config);
    assert!(transcriber.initialize(Ok(())).is_ok());
    assert!(transcriber.is_initialized());
}

#[test]
fn test_mock_transcription_success() {
    let config = TranscriptionConfig { model: Model::Base };
    let mut transcriber = AudioTranscriber::new(config);
    transcriber.initialize(Ok(())).unwrap();

    let result = transcriber.transcribe_audio("/tmp/test.wav", true, 2000);
    assert!(result.is_ok());
    let transcription = result.unwrap();
    assert_eq!(transcription.text, "This is a mock transcription result. The audio was successfully processed.");
    assert_eq!(transcription.confidence.map(f32::from_bits), Some(0.95));
    assert_eq!(transcription.processing_time_ms, 2000);
    assert_eq!(transcription.language_detected.as_deref(), Some("en"));
}

#[test]
fn a_request_that_is_refused_gets_no_transcript() {
    let mut transcriber = AudioTranscriber::new(TranscriptionConfig { model: Model::Base });
    assert!(matches!(
        transcriber.transcribe_audio("a.wav", true, 1),
        Err(TranscriptionError::ModelLoadError(_))
    ));
    transcriber.initialize(Ok(())).unwrap();
    assert!(matches!(
        transcriber.transcribe_audio("a.wav", false, 1),
        Err(TranscriptionError::FileNotFound(_))
    ));
    assert!(matches!(
        transcriber.transcribe_audio("a.pdf", true, 1),
        Err(TranscriptionError::InvalidAudioFormat(_))
    ));
}

fn format_error(path: &str) -> String {
    let transcriber = AudioTranscriber::new(TranscriptionConfig { model: Model::Base });
    match transcriber.validate_audio_format(path) {
        Err(TranscriptionError::InvalidAudioFormat(message)) => message,
        other => panic!("unexpected {:?}", other),
    }
}

#[test]
fn every_supported_format_passes_in_any_case() {
    let transcriber = AudioTranscriber::new(TranscriptionConfig { model: Model::Base });
    for name in ["a.wav", "a.mp3", "a.m4a", "a.webm", "a.ogg", "a.flac", "A.WAV", "take.2.Mp3", "/tmp/x/y.FLAC"] {
        assert!(transcriber.validate_audio_format(name).is_ok(), "{}", name);
    }
    assert_eq!(format_error("notes.TXT"), "Unsupported audio format: txt");
    assert_eq!(format_error("song.wav.bak"), "Unsupported audio format: bak");
    assert_eq!(format_error("song."), "Unsupported audio format: ");
    assert_eq!(format_error("song"), "Could not determine audio format");
    assert_eq!(format_error(".wav"), "Could not determine audio format");
    assert_eq!(format_error(""), "Could not determine audio format");
}

#[test]
fn extension_verdicts() {
    assert!(check_audio_extension(Some("ogg".to_string())).is_ok());
    match check_audio_extension(Some("OGG".to_string())) {
        Err(TranscriptionError::InvalidAudioFormat(m)) => assert_eq!(m, "Unsupported audio format: OGG"),
        other => panic!("unexpected {:?}", other),
    }
    match check_audio_extension(None) {
        Err(TranscriptionError::InvalidAudioFormat(m)) => assert_eq!(m, "Could not determine audio format"),
        other => panic!("unexpected {:?}", other),
    }
}

#[test]
fn a_transcriber_must_be_initialized_first() {
    let mut transcriber = AudioTranscriber::new(TranscriptionConfig { model: Model::Base });
    assert!(!transcriber.is_initialized());
    assert_eq!(transcriber.model(), Model::Base);
    match transcriber.check_request("a.wav", true) {
        Err(TranscriptionError::ModelLoadError(m)) => assert_eq!(m, "Model not initialized"),
        other => panic!("unexpected {:?}", other),
    }
    let failure = std::io::Error::new(std::io::ErrorKind::PermissionDenied, "read-only");
    match transcriber.initialize(Err(failure)) {
        Err(TranscriptionError::IoError(e)) => assert_eq!(e.kind(), std::io::ErrorKind::PermissionDenied),
        other => panic!("unexpected {:?}", other),
    }
    assert!(!transcriber.is_initialized());
    assert!(transcriber.initialize(Ok(())).is_ok());
    assert!(transcriber.is_initialized());

    match transcriber.check_request("/nowhere/a.wav", false) {
        Err(TranscriptionError::FileNotFound(p)) => assert_eq!(p, "/nowhere/a.wav"),
        other => panic!("unexpected {:?}", other),
    }
    assert!(transcriber.check_request("a.wav", true).is_ok());
    assert!(matches!(
        transcriber.check_request("a.doc", true),
        Err(TranscriptionError::InvalidAudioFormat(_))
    ));
}

#[test]
fn model_cache_location() {
    let with_data = AudioTranscriber::model_cache_location(Some("/home/u/.local/share".to_string()), "/tmp".to_string());
    assert_eq!(with_data.base, "/home/u/.local/share");
    assert_eq!(with_data.segments, vec!["archicomm".to_string(), "models".to_string()]);
    let without = AudioTranscriber::model_cache_location(None, "/tmp".to_string());
    assert_eq!(without.base, "/tmp");
    assert_eq!(without.segments, vec!["archicomm_models".to_string()]);
    assert_eq!(MODEL_FILE_NAME, "ggml-base.en.bin");
}

#[test]
fn transcription_errors_have_their_messages() {
    let s = |t: &str| t.to_string();
    assert_eq!(
        TranscriptionError::FileNotFound(s("a.wav")).to_string(),
        "FILE_NOT_FOUND: Audio file not found: a.wav"
    );
    assert_eq!(TranscriptionError::ModelLoadError(s("x")).to_string(), "MODEL_ERROR: Model loading error: x");
    assert_eq!(
        TranscriptionError::TranscriptionFailed(s("x")).to_string(),
        "TRANSCRIPTION_ERROR: Transcription failed: x"
    );
    assert_eq!(
        TranscriptionError::InvalidAudioFormat(s("x")).to_string(),
        "FORMAT_ERROR: Invalid audio format: x"
    );
    assert_eq!(
        TranscriptionError::ConversionFailed(s("x")).to_string(),
        "FFMPEG_ERROR: Audio conversion failed: x"
    );
    let io = std::io::Error::new(std::io::ErrorKind::Other, "pipe closed");
    assert_eq!(TranscriptionError::from(io).to_string(), "IO_ERROR: pipe closed");
}

fn segment(text: &str, start: f64, end: f64, confidence: f64) -> TranscriptionSegment {
    TranscriptionSegment {
        text: text.to_string(),
        start: start.to_bits(),
        end: end.to_bits(),
        confidence: Some(confidence.to_bits()),
    }
}

fn response() -> TranscriptionResponse {
    TranscriptionResponse {
        text: "Test transcription".to_string(),
        segments: vec![segment("Test", 0.0, 1.0, 0.95), segment("transcription", 1.0, 2.5, 0.92)],
    }
}

#[test]
fn segments_are_cut_to_the_limit() {
    for (limit, expected) in [(None, 2usize), (Some(0), 0), (Some(1), 1), (Some(2), 2), (Some(3), 2), (Some(usize::MAX), 2)] {
        let mut r = response();
        r.limit_segments(limit);
        assert_eq!(r.segments.len(), expected, "{:?}", limit);
        assert_eq!(r.text, "Test transcription");
        if expected > 0 {
            assert_eq!(r.segments[0].text, "Test");
            assert_eq!(f64::from_bits(r.segments[0].end), 1.0);
            assert_eq!(r.segments[0].confidence.map(f64::from_bits), Some(0.95));
        }
    }
}

#[test]
fn options_default_to_nothing() {
    let options = TranscriptionOptions::default();
    assert_eq!(options.timeout, None);
    assert_eq!(options.job_id, None);
    assert_eq!(options.max_segments, None);
    let generated = options.resolve_job_id();
    assert_eq!(generated.len(), 36);
    assert_ne!(generated, options.resolve_job_id());
    assert_eq!(options.job_id_or("fresh".to_string()), "fresh");

    let named = TranscriptionOptions { timeout: Some(30), job_id: Some("job-7".to_string()), max_segments: Some(1) };
    assert_eq!(named.resolve_job_id(), "job-7");
    assert_eq!(named.job_id_or("fresh".to_string()), "job-7");
    let copy = named.clone();
    assert_eq!(copy.timeout, Some(30));
    assert_eq!(copy.job_id.as_deref(), Some("job-7"));
    assert_eq!(copy.max_segments, Some(1));
}

#[test]
fn cancelling_releases_the_handle_once() {
    let mut jobs: JobTable<u32> = JobTable::new();
    assert_eq!(jobs.len(), 0);
    assert_eq!(jobs.cancel("a"), None);
    jobs.track("a".to_string(), 1);
    jobs.track("b".to_string(), 2);
    jobs.track("a".to_string(), 3);
    assert_eq!(jobs.len(), 3);
    assert_eq!(jobs.cancel("a"), Some(1));
    assert_eq!(jobs.len(), 2);
    assert_eq!(jobs.cancel("a"), Some(3));
    assert_eq!(jobs.cancel("a"), None);
    assert_eq!(jobs.cancel("unknown"), None);
    assert_eq!(jobs.len(), 1);
    assert_eq!(jobs.cancel("b"), Some(2));
    assert_eq!(jobs.len(), 0);
}

#[test]
fn audio_file_errors() {
    let e = audio_file_not_found("/tmp/none.wav".to_string());
    assert_eq!(e.to_string(), "Audio file not found at path: /tmp/none.wav");
    let denied = std::io::Error::new(std::io::ErrorKind::PermissionDenied, "denied");
    match audio_file_unreadable(denied) {
        ApiError::FileSystemError { operation, details, source: Some(_) } => {
            assert_eq!(operation, "file system operation");
            assert_eq!(details, "Failed to read audio file: denied");
        }
        other => panic!("unexpected {:?}", other),
    }
}
