//! The error taxonomy: one reportable error type for every failure of the
//! backend, each with its human-readable message.

use crate::text::join2;
use vstd::prelude::*;
use vstd::string::*;

verus! {

/// `std::io::Error`, which the library carries and never looks into.
#[verifier::external_type_specification]
#[verifier::external_body]
pub struct ExIoError(std::io::Error);

/// `serde_json::Error`, which the library carries and never looks into.
#[verifier::external_type_specification]
#[verifier::external_body]
pub struct ExJsonError(serde_json::Error);

/// Names of the operations that error reports refer to.
pub struct OperationNames;

impl OperationNames {
    pub const FILE_SYSTEM: &'static str = "file system operation";

    pub const SERIALIZATION: &'static str = "serialization operation";

    pub const VALIDATION: &'static str = "input validation";

    pub const AUDIO_SAVE: &'static str = "audio file save";

    pub const DIRECTORY_CREATE: &'static str = "directory creation";

    pub const FILE_WRITE: &'static str = "file write";

    pub const FILE_PERSIST: &'static str = "file persistence";

    pub const PATH_CANONICALIZE: &'static str = "path canonicalization";

    pub const AUDIO_RECORDING: &'static str = "audio recording";

    pub const PROJECT_MANAGEMENT: &'static str = "project management";

    pub const COMPONENT_MANAGEMENT: &'static str = "component management";

    pub const TRANSCRIPTION: &'static str = "transcription";

    pub const TRANSCRIPTION_INIT: &'static str = "transcription initialization";
}

/// The failure that lies behind an error, kept for the caller to inspect.
#[derive(Debug)]
pub enum ErrorSource {
    /// A failed file-system or process operation.
    Io(std::io::Error),
    /// A document that could not be parsed or rendered.
    Json(serde_json::Error),
}

/// Every failure the backend reports. Each variant carries the values its
/// message is built from and, where there is one, the underlying failure.
#[derive(Debug)]
pub enum ApiError {
    ProjectNotFound { project_id: String, source: Option<ErrorSource> },
    ComponentNotFound { component_id: String, project_id: String, source: Option<ErrorSource> },
    InvalidProjectData { details: String, source: Option<ErrorSource> },
    InvalidComponentData { details: String, source: Option<ErrorSource> },
    InvalidFilename { details: String, source: Option<ErrorSource> },
    FileSystemError { operation: String, details: String, source: Option<ErrorSource> },
    AudioFileNotFound { path: String, source: Option<ErrorSource> },
    TranscriptionError { details: String, source: Option<ErrorSource> },
    TranscriptionInitError { details: String, source: Option<ErrorSource> },
    TranscriptionJobNotFound { job_id: String, source: Option<ErrorSource> },
    SerializationError { operation: String, details: String, source: Option<ErrorSource> },
    StateLockError { resource: String, source: Option<ErrorSource> },
    ProcessError { command: String, details: String, source: Option<ErrorSource> },
    Internal { details: String, source: Option<ErrorSource> },
}

/// What an [`ApiError`] reports: its kind and the texts it carries.
pub enum ErrorReport {
    ProjectNotFound { project_id: Seq<char> },
    ComponentNotFound { component_id: Seq<char>, project_id: Seq<char> },
    InvalidProjectData { details: Seq<char> },
    InvalidComponentData { details: Seq<char> },
    InvalidFilename { details: Seq<char> },
    FileSystemError { operation: Seq<char>, details: Seq<char> },
    AudioFileNotFound { path: Seq<char> },
    TranscriptionError { details: Seq<char> },
    TranscriptionInitError { details: Seq<char> },
    TranscriptionJobNotFound { job_id: Seq<char> },
    SerializationError { operation: Seq<char>, details: Seq<char> },
    StateLockError { resource: Seq<char> },
    ProcessError { command: Seq<char>, details: Seq<char> },
    Internal { details: Seq<char> },
}

impl ErrorReport {
    /// The text shown to the user: what failed, then why.
    pub open spec fn message(self) -> Seq<char> {
        match self {
            ErrorReport::ProjectNotFound { project_id } => "Project not found: "@ + project_id,
            ErrorReport::ComponentNotFound { component_id, project_id } => "Component not found: "@
                + component_id + " in project "@ + project_id,
            ErrorReport::InvalidProjectData { details } => "Invalid project data: "@ + details,
            ErrorReport::InvalidComponentData { details } => "Invalid component data: "@ + details,
            ErrorReport::InvalidFilename { details } => "Invalid filename: "@ + details,
            ErrorReport::FileSystemError { operation, details } => "File system error: "@
                + operation + " failed - "@ + details,
            ErrorReport::AudioFileNotFound { path } => "Audio file not found at path: "@ + path,
            ErrorReport::TranscriptionError { details } => "Audio transcription failed: "@
                + details,
            ErrorReport::TranscriptionInitError { details } =>
                "Transcription initialization failed: "@ + details,
            ErrorReport::TranscriptionJobNotFound { job_id } => "Transcription job not found: "@
                + job_id,
            ErrorReport::SerializationError { operation, details } => "Serialization error: "@
                + operation + " - "@ + details,
            ErrorReport::StateLockError { resource } =>
                "State lock error: Failed to acquire lock for "@ + resource,
            ErrorReport::ProcessError { command, details } => "External process error: "@
                + command + " failed - "@ + details,
            ErrorReport::Internal { details } => "Internal error: "@ + details,
        }
    }
}

impl View for ApiError {
    type V = ErrorReport;

    open spec fn view(&self) -> ErrorReport {
        match self {
            ApiError::ProjectNotFound { project_id, .. } => ErrorReport::ProjectNotFound {
                project_id: project_id@,
            },
            ApiError::ComponentNotFound {
                component_id,
                project_id,
                ..
            } => ErrorReport::ComponentNotFound {
                component_id: component_id@,
                project_id: project_id@,
            },
            ApiError::InvalidProjectData { details, .. } => ErrorReport::InvalidProjectData {
                details: details@,
            },
            ApiError::InvalidComponentData { details, .. } => ErrorReport::InvalidComponentData {
                details: details@,
            },
            ApiError::InvalidFilename { details, .. } => ErrorReport::InvalidFilename {
                details: details@,
            },
            ApiError::FileSystemError { operation, details, .. } => ErrorReport::FileSystemError {
                operation: operation@,
                details: details@,
            },
            ApiError::AudioFileNotFound { path, .. } => ErrorReport::AudioFileNotFound {
                path: path@,
            },
            ApiError::TranscriptionError { details, .. } => ErrorReport::TranscriptionError {
                details: details@,
            },
            ApiError::TranscriptionInitError {
                details,
                ..
            } => ErrorReport::TranscriptionInitError { details: details@ },
            ApiError::TranscriptionJobNotFound {
                job_id,
                ..
            } => ErrorReport::TranscriptionJobNotFound { job_id: job_id@ },
            ApiError::SerializationError {
                operation,
                details,
                ..
            } => ErrorReport::SerializationError { operation: operation@, details: details@ },
            ApiError::StateLockError { resource, .. } => ErrorReport::StateLockError {
                resource: resource@,
            },
            ApiError::ProcessError { command, details, .. } => ErrorReport::ProcessError {
                command: command@,
                details: details@,
            },
            ApiError::Internal { details, .. } => ErrorReport::Internal { details: details@ },
        }
    }
}

/// What `ApiError::from` reports for an I/O failure whose text is `text`.
pub open spec fn io_failure_report(text: Seq<char>) -> ErrorReport {
    ErrorReport::FileSystemError {
        operation: "file system operation"@,
        details: "A file system operation failed. Please check file permissions and disk space. Error: "@
            + text,
    }
}

/// What `ApiError::from` reports for a JSON failure whose text is `text`.
pub open spec fn json_failure_report(text: Seq<char>) -> ErrorReport {
    ErrorReport::SerializationError {
        operation: "serialization operation"@,
        details: "Data serialization or deserialization failed: "@ + text,
    }
}

impl ApiError {
    /// The underlying failure, if the error carries one.
    pub open spec fn cause(&self) -> Option<ErrorSource> {
        match self {
            ApiError::ProjectNotFound { source, .. } => *source,
            ApiError::ComponentNotFound { source, .. } => *source,
            ApiError::InvalidProjectData { source, .. } => *source,
            ApiError::InvalidComponentData { source, .. } => *source,
            ApiError::InvalidFilename { source, .. } => *source,
            ApiError::FileSystemError { source, .. } => *source,
            ApiError::AudioFileNotFound { source, .. } => *source,
            ApiError::TranscriptionError { source, .. } => *source,
            ApiError::TranscriptionInitError { source, .. } => *source,
            ApiError::TranscriptionJobNotFound { source, .. } => *source,
            ApiError::SerializationError { source, .. } => *source,
            ApiError::StateLockError { source, .. } => *source,
            ApiError::ProcessError { source, .. } => *source,
            ApiError::Internal { source, .. } => *source,
        }
    }

    /// Renders the error as the text shown to the user.
    pub fn to_string(&self) -> (r: String)
        ensures
            r@ == self@.message(),
    {
        match self {
            ApiError::ProjectNotFound { project_id, .. } => join2(
                "Project not found: ",
                project_id.as_str(),
            ),
            ApiError::ComponentNotFound { component_id, project_id, .. } => {
                let mut r = join2("Component not found: ", component_id.as_str());
                r.append(" in project ");
                r.append(project_id.as_str());
                r
            },
            ApiError::InvalidProjectData { details, .. } => join2(
                "Invalid project data: ",
                details.as_str(),
            ),
            ApiError::InvalidComponentData { details, .. } => join2(
                "Invalid component data: ",
                details.as_str(),
            ),
            ApiError::InvalidFilename { details, .. } => join2(
                "Invalid filename: ",
                details.as_str(),
            ),
            ApiError::FileSystemError { operation, details, .. } => {
                let mut r = join2("File system error: ", operation.as_str());
                r.append(" failed - ");
                r.append(details.as_str());
                r
            },
            ApiError::AudioFileNotFound { path, .. } => join2(
                "Audio file not found at path: ",
                path.as_str(),
            ),
            ApiError::TranscriptionError { details, .. } => join2(
                "Audio transcription failed: ",
                details.as_str(),
            ),
            ApiError::TranscriptionInitError { details, .. } => join2(
                "Transcription initialization failed: ",
                details.as_str(),
            ),
            ApiError::TranscriptionJobNotFound { job_id, .. } => join2(
                "Transcription job not found: ",
                job_id.as_str(),
            ),
            ApiError::SerializationError { operation, details, .. } => {
                let mut r = join2("Serialization error: ", operation.as_str());
                r.append(" - ");
                r.append(details.as_str());
                r
            },
            ApiError::StateLockError { resource, .. } => join2(
                "State lock error: Failed to acquire lock for ",
                resource.as_str(),
            ),
            ApiError::ProcessError { command, details, .. } => {
                let mut r = join2("External process error: ", command.as_str());
                r.append(" failed - ");
                r.append(details.as_str());
                r
            },
            ApiError::Internal { details, .. } => join2("Internal error: ", details.as_str()),
        }
    }

    /// The error for a store whose lock cannot be taken, named by
    /// `resource`.
    pub fn state_lock(resource: &str) -> (ret: ApiError)
        ensures
            ret@ == (ErrorReport::StateLockError { resource: resource@ }),
            ret.cause() is None,
    {
        ApiError::StateLockError { resource: String::from_str(resource), source: None }
    }

    /// The file-system error for the failure of `operation`: its details are
    /// `context` followed by `text`, the failure's own text.
    pub fn file_system(
        operation: &str,
        context: &str,
        text: &str,
        source: Option<ErrorSource>,
    ) -> (ret: ApiError)
        ensures
            ret@ == (ErrorReport::FileSystemError {
                operation: operation@,
                details: context@ + text@,
            }),
            ret.cause() == source,
    {
        ApiError::FileSystemError {
            operation: String::from_str(operation),
            details: join2(context, text),
            source,
        }
    }

    /// The file-system error for the I/O failure `failure` of `operation`:
    /// its details are `context` followed by the failure's text, and it keeps
    /// the failure.
    pub fn from_io(operation: &str, context: &str, failure: std::io::Error) -> (ret: ApiError)
        ensures
            ret@ is FileSystemError,
            ret@->FileSystemError_operation == operation@,
            context@.is_prefix_of(ret@->FileSystemError_details),
            ret.cause() == Some(ErrorSource::Io(failure)),
    {
        let text = io_error_text(&failure);
        proof {
            assert((context@ + text@).subrange(0, context@.len() as int) =~= context@);
        }
        Self::file_system(operation, context, text.as_str(), Some(ErrorSource::Io(failure)))
    }

    /// The serialization error for the failure of `operation`: its details
    /// are `context` followed by `text`, the failure's own text.
    pub fn serialization(
        operation: &str,
        context: &str,
        text: &str,
        source: Option<ErrorSource>,
    ) -> (ret: ApiError)
        ensures
            ret@ == (ErrorReport::SerializationError {
                operation: operation@,
                details: context@ + text@,
            }),
            ret.cause() == source,
    {
        ApiError::SerializationError {
            operation: String::from_str(operation),
            details: join2(context, text),
            source,
        }
    }

    /// The serialization error for the JSON failure `failure` of
    /// `operation`: its details are `context` followed by the failure's text,
    /// and it keeps the failure.
    pub fn from_json(operation: &str, context: &str, failure: serde_json::Error) -> (ret: ApiError)
        ensures
            ret@ is SerializationError,
            ret@->SerializationError_operation == operation@,
            context@.is_prefix_of(ret@->SerializationError_details),
            ret.cause() == Some(ErrorSource::Json(failure)),
    {
        let text = json_error_text(&failure);
        proof {
            assert((context@ + text@).subrange(0, context@.len() as int) =~= context@);
        }
        Self::serialization(operation, context, text.as_str(), Some(ErrorSource::Json(failure)))
    }

    /// The file-system error for an I/O failure that displays as `text`.
    pub fn io_failure(text: &str, source: Option<ErrorSource>) -> (ret: ApiError)
        ensures
            ret@ == io_failure_report(text@),
            ret.cause() == source,
    {
        ApiError::FileSystemError {
            operation: String::from_str(OperationNames::FILE_SYSTEM),
            details: join2(
                "A file system operation failed. Please check file permissions and disk space. Error: ",
                text,
            ),
            source,
        }
    }

    /// The serialization error for a JSON failure that displays as `text`.
    pub fn json_failure(text: &str, source: Option<ErrorSource>) -> (ret: ApiError)
        ensures
            ret@ == json_failure_report(text@),
            ret.cause() == source,
    {
        ApiError::SerializationError {
            operation: String::from_str(OperationNames::SERIALIZATION),
            details: join2("Data serialization or deserialization failed: ", text),
            source,
        }
    }
}

/// The text that `std::io::Error` renders through `Display`. It comes from
/// the operating system or from whoever built the error, so nothing is
/// claimed of it.
#[verifier::external_body]
pub(crate) fn io_error_text(err: &std::io::Error) -> (text: String) {
    err.to_string()
}

/// The text that `serde_json::Error` renders through `Display`. Nothing is
/// claimed of it.
#[verifier::external_body]
fn json_error_text(err: &serde_json::Error) -> (text: String) {
    err.to_string()
}

impl From<std::io::Error> for ApiError {
    /// An I/O failure becomes a file-system error that names the generic
    /// file-system operation, quotes the failure's text and keeps the failure.
    fn from(err: std::io::Error) -> (ret: Self)
        ensures
            exists|text: Seq<char>| ret@ == io_failure_report(text),
            ret.cause() == Some(ErrorSource::Io(err)),
    {
        let text = io_error_text(&err);
        ApiError::io_failure(text.as_str(), Some(ErrorSource::Io(err)))
    }
}

impl vstd::std_specs::convert::FromSpecImpl<std::io::Error> for ApiError {
    open spec fn obeys_from_spec() -> bool {
        false
    }

    open spec fn from_spec(err: std::io::Error) -> ApiError {
        arbitrary()
    }
}

impl From<serde_json::Error> for ApiError {
    /// A JSON failure becomes a serialization error that names the generic
    /// serialization operation, quotes the failure's text and keeps the
    /// failure.
    fn from(err: serde_json::Error) -> (ret: Self)
        ensures
            exists|text: Seq<char>| ret@ == json_failure_report(text),
            ret.cause() == Some(ErrorSource::Json(err)),
    {
        let text = json_error_text(&err);
        ApiError::json_failure(text.as_str(), Some(ErrorSource::Json(err)))
    }
}

impl vstd::std_specs::convert::FromSpecImpl<serde_json::Error> for ApiError {
    open spec fn obeys_from_spec() -> bool {
        false
    }

    open spec fn from_spec(err: serde_json::Error) -> ApiError {
        arbitrary()
    }
}

impl From<ApiError> for String {
    /// The error's message.
    fn from(err: ApiError) -> (ret: String)
        ensures
            ret@ == err@.message(),
    {
        err.to_string()
    }
}

impl vstd::std_specs::convert::FromSpecImpl<ApiError> for String {
    open spec fn obeys_from_spec() -> bool {
        false
    }

    open spec fn from_spec(err: ApiError) -> String {
        arbitrary()
    }
}

} // verus!
