//! The transcription gateway: the requests it accepts, the options it honours
//! and the jobs it tracks. The speech-recognition engine itself is not part
//! of this library.

use crate::error::io_error_text;
use crate::model::opt_text;
use crate::text::{join2, text_is};
use vstd::prelude::*;
use vstd::string::*;

verus! {

/// The speech-recognition model to use.
#[derive(Debug, Clone, Copy, PartialEq, Eq, Structural)]
pub enum Model {
    Base,
}

/// How a transcriber is set up.
#[derive(Debug, Clone, Copy, PartialEq, Eq, Structural)]
pub struct TranscriptionConfig {
    pub model: Model,
}

/// What a transcriber makes of one audio file. The confidence is kept as the
/// bit pattern of its IEEE 754 single.
#[derive(Debug)]
pub struct TranscriptionResult {
    pub text: String,
    pub confidence: Option<u32>,
    pub processing_time_ms: u128,
    pub language_detected: Option<String>,
}

impl Clone for TranscriptionResult {
    fn clone(&self) -> (r: Self)
        ensures
            r == *self,
    {
        TranscriptionResult {
            text: self.text.clone(),
            confidence: self.confidence,
            processing_time_ms: self.processing_time_ms,
            language_detected: match &self.language_detected {
                Some(language) => Some(language.clone()),
                None => None,
            },
        }
    }
}

/// Why a transcriber refused or failed.
#[derive(Debug)]
pub enum TranscriptionError {
    FileNotFound(String),
    ModelLoadError(String),
    TranscriptionFailed(String),
    InvalidAudioFormat(String),
    ConversionFailed(String),
    IoError(std::io::Error),
}

/// What a [`TranscriptionError`] reports, where that is a text of the
/// library's own.
pub enum TranscriptionFault {
    FileNotFound(Seq<char>),
    ModelLoadError(Seq<char>),
    TranscriptionFailed(Seq<char>),
    InvalidAudioFormat(Seq<char>),
    ConversionFailed(Seq<char>),
    IoError,
}

impl View for TranscriptionError {
    type V = TranscriptionFault;

    open spec fn view(&self) -> TranscriptionFault {
        match self {
            TranscriptionError::FileNotFound(m) => TranscriptionFault::FileNotFound(m@),
            TranscriptionError::ModelLoadError(m) => TranscriptionFault::ModelLoadError(m@),
            TranscriptionError::TranscriptionFailed(m) => TranscriptionFault::TranscriptionFailed(
                m@,
            ),
            TranscriptionError::InvalidAudioFormat(m) => TranscriptionFault::InvalidAudioFormat(m@),
            TranscriptionError::ConversionFailed(m) => TranscriptionFault::ConversionFailed(m@),
            TranscriptionError::IoError(_) => TranscriptionFault::IoError,
        }
    }
}

impl TranscriptionFault {
    /// The text shown for the fault; for an I/O failure, the tag that its own
    /// text follows.
    pub open spec fn message(self) -> Seq<char> {
        match self {
            TranscriptionFault::FileNotFound(m) => "FILE_NOT_FOUND: Audio file not found: "@ + m,
            TranscriptionFault::ModelLoadError(m) => "MODEL_ERROR: Model loading error: "@ + m,
            TranscriptionFault::TranscriptionFailed(m) =>
                "TRANSCRIPTION_ERROR: Transcription failed: "@ + m,
            TranscriptionFault::InvalidAudioFormat(m) => "FORMAT_ERROR: Invalid audio format: "@
                + m,
            TranscriptionFault::ConversionFailed(m) => "FFMPEG_ERROR: Audio conversion failed: "@
                + m,
            TranscriptionFault::IoError => "IO_ERROR: "@,
        }
    }
}

impl TranscriptionError {
    /// Renders the error as the text shown to the user. An I/O failure is
    /// shown by its tag and the failure's own text.
    pub fn to_string(&self) -> (r: String)
        ensures
            !(self@ is IoError) ==> r@ == self@.message(),
            self@ is IoError ==> self@.message().is_prefix_of(r@),
    {
        match self {
            TranscriptionError::FileNotFound(m) => join2(
                "FILE_NOT_FOUND: Audio file not found: ",
                m.as_str(),
            ),
            TranscriptionError::ModelLoadError(m) => join2(
                "MODEL_ERROR: Model loading error: ",
                m.as_str(),
            ),
            TranscriptionError::TranscriptionFailed(m) => join2(
                "TRANSCRIPTION_ERROR: Transcription failed: ",
                m.as_str(),
            ),
            TranscriptionError::InvalidAudioFormat(m) => join2(
                "FORMAT_ERROR: Invalid audio format: ",
                m.as_str(),
            ),
            TranscriptionError::ConversionFailed(m) => join2(
                "FFMPEG_ERROR: Audio conversion failed: ",
                m.as_str(),
            ),
            TranscriptionError::IoError(e) => {
                let text = io_error_text(e);
                let r = join2("IO_ERROR: ", text.as_str());
                proof {
                    assert(r@.subrange(0, "IO_ERROR: "@.len() as int) =~= "IO_ERROR: "@);
                }
                r
            },
        }
    }
}

impl From<std::io::Error> for TranscriptionError {
    fn from(err: std::io::Error) -> (ret: Self)
        ensures
            ret == TranscriptionError::IoError(err),
    {
        TranscriptionError::IoError(err)
    }
}

impl vstd::std_specs::convert::FromSpecImpl<std::io::Error> for TranscriptionError {
    open spec fn obeys_from_spec() -> bool {
        true
    }

    open spec fn from_spec(err: std::io::Error) -> TranscriptionError {
        TranscriptionError::IoError(err)
    }
}

/// What `str::to_lowercase` returns for a text: its lower-case form by the
/// Unicode case mappings.
pub uninterp spec fn unicode_lowercase(text: Seq<char>) -> Seq<char>;

/// `extension` stands in `path` right after a `.`.
pub open spec fn follows_a_dot(path: Seq<char>, extension: Seq<char>) -> bool {
    exists|i: int|
        1 <= i && i + extension.len() <= path.len() && path[i - 1] == '.' && #[trigger] path.subrange(
            i,
            i + extension.len(),
        ) == extension
}

/// The extension of `path` as `std::path::Path::extension` finds it: the
/// part of the final path component after its last `.`, if that component
/// has one that is not its first character. What counts as the final
/// component depends on the platform's separators, so the contract claims
/// only what holds on each: the extension follows a `.` in `path` and holds
/// none itself.
#[verifier::external_body]
fn path_extension(path: &str) -> (r: Option<String>)
    ensures
        r matches Some(extension) ==> follows_a_dot(path@, extension@) && !extension@.contains('.'),
{
    match std::path::Path::new(path).extension() {
        Some(extension) => Some(extension.to_string_lossy().into_owned()),
        None => None,
    }
}

/// The lower-case form of `text`, by `str::to_lowercase`.
#[verifier::external_body]
fn lowercase(text: &str) -> (r: String)
    ensures
        r@ == unicode_lowercase(text@),
{
    text.to_lowercase()
}

/// `extension` names one of the audio formats that can be transcribed.
pub open spec fn is_supported_audio_extension(extension: Seq<char>) -> bool {
    ||| extension == "wav"@
    ||| extension == "mp3"@
    ||| extension == "m4a"@
    ||| extension == "webm"@
    ||| extension == "ogg"@
    ||| extension == "flac"@
}

/// What the format check makes of a file's lower-case extension: a
/// supported one passes; any other, and a missing one, is an invalid audio
/// format.
pub open spec fn audio_format_verdict(
    extension: Option<Seq<char>>,
    r: Result<(), TranscriptionError>,
) -> bool {
    match extension {
        Some(e) => if is_supported_audio_extension(e) {
            r is Ok
        } else {
            r matches Err(err) && err@ == TranscriptionFault::InvalidAudioFormat(
                "Unsupported audio format: "@ + e,
            )
        },
        None => r matches Err(err) && err@ == TranscriptionFault::InvalidAudioFormat(
            "Could not determine audio format"@,
        ),
    }
}

/// Decides whether a file with the lower-case extension `extension` can be
/// transcribed.
pub fn check_audio_extension(extension: Option<String>) -> (r: Result<(), TranscriptionError>)
    ensures
        audio_format_verdict(opt_text(extension), r),
{
    match extension {
        Some(e) => {
            if text_is(&e, "wav") || text_is(&e, "mp3") || text_is(&e, "m4a") || text_is(
                &e,
                "webm",
            ) || text_is(&e, "ogg") || text_is(&e, "flac") {
                Ok(())
            } else {
                Err(
                    TranscriptionError::InvalidAudioFormat(
                        join2("Unsupported audio format: ", e.as_str()),
                    ),
                )
            }
        },
        None => Err(
            TranscriptionError::InvalidAudioFormat(
                String::from_str("Could not determine audio format"),
            ),
        ),
    }
}

/// The lower-case form of an optional text.
pub open spec fn lowercased(extension: Option<Seq<char>>) -> Option<Seq<char>> {
    match extension {
        Some(e) => Some(unicode_lowercase(e)),
        None => None,
    }
}

/// Where the transcriber keeps its models: below the user's data directory
/// where there is one, else below the temporary directory.
pub struct ModelCacheLocation {
    /// The directory to start from.
    pub base: String,
    /// The directories to descend into, in order.
    pub segments: Vec<String>,
}

/// The file name under which the model is cached.
pub const MODEL_FILE_NAME: &'static str = "ggml-base.en.bin";

/// The confidence that the stand-in engine reports: 0.95, as the bit pattern
/// of an IEEE 754 single.
pub const STAND_IN_CONFIDENCE: u32 = 0x3F73_3333;

/// What transcribing a file gives, given its extension as the platform
/// finds it and the time the engine took: for a supported format the
/// transcript of the stand-in engine, in English; else the error of the
/// format check.
pub open spec fn transcript_verdict(
    extension: Option<Seq<char>>,
    processing_time_ms: u128,
    r: Result<TranscriptionResult, TranscriptionError>,
) -> bool {
    match r {
        Ok(t) => audio_format_verdict(lowercased(extension), Ok(())) && t.text@
            == "This is a mock transcription result. The audio was successfully processed."@
            && t.confidence == Some(STAND_IN_CONFIDENCE) && t.processing_time_ms
            == processing_time_ms && opt_text(t.language_detected) == Some("en"@),
        Err(e) => audio_format_verdict(lowercased(extension), Err(e)),
    }
}

/// A transcriber: its configuration, and whether its model is ready.
pub struct AudioTranscriber {
    config: TranscriptionConfig,
    model_loaded: bool,
}

impl AudioTranscriber {
    /// The configuration the transcriber was made with.
    pub closed spec fn config(&self) -> TranscriptionConfig {
        self.config
    }

    /// Whether the model is ready.
    pub closed spec fn model_loaded(&self) -> bool {
        self.model_loaded
    }

    /// A transcriber whose model is not yet loaded.
    pub fn new(config: TranscriptionConfig) -> (t: Self)
        ensures
            t.config() == config,
            !t.model_loaded(),
    {
        Self { config, model_loaded: false }
    }

    /// Whether the model is ready.
    pub fn is_initialized(&self) -> (r: bool)
        ensures
            r == self.model_loaded(),
    {
        self.model_loaded
    }

    /// The model the transcriber uses.
    pub fn model(&self) -> (m: Model)
        ensures
            m == self.config().model,
    {
        self.config.model
    }

    /// Where to cache the model, given the user's data directory, if the
    /// platform has one, and the temporary directory: `archicomm/models`
    /// below the former, else `archicomm_models` below the latter.
    pub fn model_cache_location(data_dir: Option<String>, temp_dir: String) -> (r:
        ModelCacheLocation)
        ensures
            match data_dir {
                Some(dir) => r.base@ == dir@ && r.segments@.len() == 2 && r.segments@[0]@
                    == "archicomm"@ && r.segments@[1]@ == "models"@,
                None => r.base@ == temp_dir@ && r.segments@.len() == 1 && r.segments@[0]@
                    == "archicomm_models"@,
            },
    {
        match data_dir {
            Some(dir) => {
                let mut segments: Vec<String> = Vec::new();
                segments.push(String::from_str("archicomm"));
                segments.push(String::from_str("models"));
                ModelCacheLocation { base: dir, segments }
            },
            None => {
                let mut segments: Vec<String> = Vec::new();
                segments.push(String::from_str("archicomm_models"));
                ModelCacheLocation { base: temp_dir, segments }
            },
        }
    }

    /// Ends the initialization, given how preparing the model cache went:
    /// after a success the model is ready; a failure is reported as it is and
    /// leaves the transcriber as it was.
    pub fn initialize(&mut self, prepared: Result<(), std::io::Error>) -> (r: Result<
        (),
        TranscriptionError,
    >)
        ensures
            final(self).config() == old(self).config(),
            match prepared {
                Ok(()) => r is Ok && final(self).model_loaded(),
                Err(e) => r == Err::<(), TranscriptionError>(TranscriptionError::IoError(e))
                    && final(self).model_loaded() == old(self).model_loaded(),
            },
    {
        match prepared {
            Ok(()) => {
                self.model_loaded = true;
                Ok(())
            },
            Err(e) => Err(TranscriptionError::IoError(e)),
        }
    }

    /// Checks that the file at `audio_path` has the extension of a supported
    /// audio format, in any letter case.
    ///
    /// The extension is found by the platform's path rules and put in lower
    /// case by the Unicode mappings; [`check_audio_extension`] says what
    /// follows from it.
    pub fn validate_audio_format(&self, audio_path: &str) -> (r: Result<(), TranscriptionError>)
        ensures
            exists|extension: Option<Seq<char>>| #[trigger]
                audio_format_verdict(lowercased(extension), r) && (extension matches Some(e)
                    ==> follows_a_dot(audio_path@, e) && !e.contains('.')),
    {
        let found = path_extension(audio_path);
        let ghost original = opt_text(found);
        let extension = match found {
            Some(e) => Some(lowercase(e.as_str())),
            None => None,
        };
        let r = check_audio_extension(extension);
        proof {
            assert(audio_format_verdict(lowercased(original), r));
        }
        r
    }

    /// Decides whether the file at `audio_path` may be transcribed, given
    /// whether it exists: the model must be ready, the file must exist, and
    /// its format must be supported, checked in that order.
    pub fn check_request(&self, audio_path: &str, exists: bool) -> (r: Result<(), TranscriptionError>)
        ensures
            !self.model_loaded() ==> (r matches Err(e) && e@
                == TranscriptionFault::ModelLoadError("Model not initialized"@)),
            self.model_loaded() && !exists ==> (r matches Err(e) && e@
                == TranscriptionFault::FileNotFound(audio_path@)),
            self.model_loaded() && exists ==> exists|extension: Option<Seq<char>>| #[trigger]
                audio_format_verdict(lowercased(extension), r),
    {
        if !self.model_loaded {
            return Err(TranscriptionError::ModelLoadError(String::from_str("Model not initialized")));
        }
        if !exists {
            return Err(TranscriptionError::FileNotFound(String::from_str(audio_path)));
        }
        self.validate_audio_format(audio_path)
    }

    /// Transcribes the file at `audio_path`, given whether it exists and the
    /// time that the engine took. The request is checked as by
    /// [`AudioTranscriber::check_request`]; a request that passes gets the
    /// transcript of the stand-in engine.
    pub fn transcribe_audio(&self, audio_path: &str, exists: bool, processing_time_ms: u128) -> (r:
        Result<TranscriptionResult, TranscriptionError>)
        ensures
            !self.model_loaded() ==> (r matches Err(e) && e@
                == TranscriptionFault::ModelLoadError("Model not initialized"@)),
            self.model_loaded() && !exists ==> (r matches Err(e) && e@
                == TranscriptionFault::FileNotFound(audio_path@)),
            self.model_loaded() && exists ==> exists|extension: Option<Seq<char>>| #[trigger]
                transcript_verdict(extension, processing_time_ms, r),
    {
        let checked = self.check_request(audio_path, exists);
        let ghost verdict = checked;
        let r = match checked {
            Ok(()) => Ok(
                TranscriptionResult {
                    text: String::from_str(
                        "This is a mock transcription result. The audio was successfully processed.",
                    ),
                    confidence: Some(STAND_IN_CONFIDENCE),
                    processing_time_ms,
                    language_detected: Some(String::from_str("en")),
                },
            ),
            Err(e) => Err(e),
        };
        proof {
            if self.model_loaded() && exists {
                let extension = choose|extension: Option<Seq<char>>| #[trigger]
                    audio_format_verdict(lowercased(extension), verdict);
                assert(transcript_verdict(extension, processing_time_ms, r));
            }
        }
        r
    }
}

} // verus!
