//! The staged file writer and the session directory manager.
//!
//! A payload is never written to the path under which it becomes visible: it
//! is written to a temporary file in the same directory, flushed, and only
//! then moved onto the final path, whose name is the validated file name as
//! it was given. This module decides the order of those steps and what each
//! failure is reported as; the caller carries the steps out and reports how
//! they went.

use crate::error::{io_error_text, ApiError, ErrorReport, ErrorSource, OperationNames};
use crate::filename::{filename_acceptable, filename_rejection, validate_filename};
use crate::ident::fresh_id;
use crate::model::opt_text;
use crate::text::{decimal, join2, join3, push_decimal};
use vstd::prelude::*;
use vstd::string::*;

verus! {

/// Which directory a file is staged in.
#[derive(Debug, Clone, Copy, PartialEq, Eq, Structural)]
pub enum DirectoryKind {
    /// The session directory of the process, below the temporary directory.
    Session,
    /// A directory of its own below a base directory that the caller names.
    UnderBase,
}

/// A step that writes and gives no value back.
#[derive(Debug, Clone, Copy, PartialEq, Eq, Structural)]
pub enum WriteStep {
    /// Create the staging directory and its parents.
    CreateDirectory,
    /// Restrict the staging directory to its owner.
    RestrictDirectory,
    /// Create a uniquely named temporary file in the staging directory.
    CreateTemporary,
    /// Write the whole payload to the temporary file.
    WritePayload,
    /// Flush the temporary file.
    Flush,
    /// Move the temporary file onto the final path.
    Persist,
    /// Restrict the final file to reading and writing by its owner.
    RestrictFile,
}

/// A step that finds the path to return.
#[derive(Debug, Clone, Copy, PartialEq, Eq, Structural)]
pub enum PathStep {
    /// Resolve the final path to its canonical, absolute form.
    Canonicalize,
    /// Take the final path as it is where it is absolute, else join it to
    /// the current working directory.
    AbsoluteFallback,
}

/// What is to be done next.
#[derive(Debug, Clone, Copy, PartialEq, Eq, Structural)]
pub enum Stage {
    Write(WriteStep),
    Path(PathStep),
}

/// How a path step went.
#[derive(Debug)]
pub enum PathOutcome {
    /// The path was found and is valid text.
    Resolved(String),
    /// The path could not be found.
    Failed(std::io::Error),
    /// The path was found and cannot be represented as text; what is carried
    /// is a lossy rendering of it.
    Unrepresentable(String),
}

/// Where the protocol stands after a path step.
#[derive(Debug)]
pub enum PathProgress {
    /// The file is staged; this is its absolute path.
    Finished(String),
    /// Another path step is to be tried.
    Continue(PathStep),
    /// The operation failed.
    Failed(ApiError),
}

/// One run of the protocol: the name of the final file, the kind of
/// directory it is staged in, and whether the platform has owner-only
/// permissions to set.
#[derive(Debug)]
pub struct Staging {
    /// The name of the final file in the staging directory: the validated
    /// name, as it was given.
    pub file_name: String,
    pub kind: DirectoryKind,
    pub restrict_permissions: bool,
}

/// The place of a stage in the protocol. Every step leads to a later stage.
pub open spec fn rank(stage: Stage) -> nat {
    match stage {
        Stage::Write(WriteStep::CreateDirectory) => 0,
        Stage::Write(WriteStep::RestrictDirectory) => 1,
        Stage::Write(WriteStep::CreateTemporary) => 2,
        Stage::Write(WriteStep::WritePayload) => 3,
        Stage::Write(WriteStep::Flush) => 4,
        Stage::Write(WriteStep::Persist) => 5,
        Stage::Write(WriteStep::RestrictFile) => 6,
        Stage::Path(PathStep::Canonicalize) => 7,
        Stage::Path(PathStep::AbsoluteFallback) => 8,
    }
}

impl Staging {
    /// The stage that follows a write step that succeeded. The permission
    /// steps are left out where the platform has no such permissions.
    pub open spec fn stage_after(&self, step: WriteStep) -> Stage {
        match step {
            WriteStep::CreateDirectory => if self.restrict_permissions {
                Stage::Write(WriteStep::RestrictDirectory)
            } else {
                Stage::Write(WriteStep::CreateTemporary)
            },
            WriteStep::RestrictDirectory => Stage::Write(WriteStep::CreateTemporary),
            WriteStep::CreateTemporary => Stage::Write(WriteStep::WritePayload),
            WriteStep::WritePayload => Stage::Write(WriteStep::Flush),
            WriteStep::Flush => Stage::Write(WriteStep::Persist),
            WriteStep::Persist => if self.restrict_permissions {
                Stage::Write(WriteStep::RestrictFile)
            } else {
                Stage::Path(PathStep::Canonicalize)
            },
            WriteStep::RestrictFile => Stage::Path(PathStep::Canonicalize),
        }
    }

    /// The operation that a failed write step is reported under.
    pub open spec fn failed_operation(step: WriteStep) -> Seq<char> {
        match step {
            WriteStep::CreateDirectory => "directory creation"@,
            WriteStep::RestrictDirectory => "directory creation"@,
            WriteStep::CreateTemporary => "file write"@,
            WriteStep::WritePayload => "file write"@,
            WriteStep::Flush => "file write"@,
            WriteStep::Persist => "file persistence"@,
            WriteStep::RestrictFile => "file persistence"@,
        }
    }

    /// What a failed write step is reported with, before the failure's own
    /// text.
    pub open spec fn failure_prefix(&self, step: WriteStep) -> Seq<char> {
        match step {
            WriteStep::CreateDirectory => match self.kind {
                DirectoryKind::Session => "Failed to create audio session directory: "@,
                DirectoryKind::UnderBase => "Failed to create audio test directory: "@,
            },
            WriteStep::RestrictDirectory => "Failed to set secure directory permissions: "@,
            WriteStep::CreateTemporary => "Failed to create temporary file: "@,
            WriteStep::WritePayload => "Failed to write audio data to file: "@,
            WriteStep::Flush => "Failed to flush file data to disk: "@,
            WriteStep::Persist => "Failed to persist temporary file to final location: "@,
            WriteStep::RestrictFile => "Failed to set secure file permissions: "@,
        }
    }

    /// What the failure of a write step is reported as, given the failure's
    /// text.
    pub open spec fn write_failure_report(&self, step: WriteStep, text: Seq<char>) -> ErrorReport {
        ErrorReport::FileSystemError {
            operation: Self::failed_operation(step),
            details: self.failure_prefix(step) + text,
        }
    }

    /// Starts the staging of a file named `file_name`: the name is validated
    /// before anything touches the disk, and an accepted name becomes the
    /// name of the final file without any change.
    pub fn begin(file_name: &str, kind: DirectoryKind, restrict_permissions: bool) -> (r: Result<
        Staging,
        ApiError,
    >)
        ensures
            r is Ok <==> filename_acceptable(file_name@),
            r matches Ok(s) ==> s.file_name@ == file_name@ && s.kind == kind
                && s.restrict_permissions == restrict_permissions,
            r matches Err(e) ==> e@ is InvalidFilename && filename_rejection(file_name@) == Some(
                e@->InvalidFilename_details,
            ) && e.cause() is None,
    {
        match validate_filename(file_name) {
            Ok(()) => Ok(
                Staging { file_name: String::from_str(file_name), kind, restrict_permissions },
            ),
            Err(e) => Err(e),
        }
    }

    /// The first stage: the temporary file where the staging directory is
    /// there already, else the directory.
    pub fn first_stage(&self, directory_ready: bool) -> (stage: Stage)
        ensures
            stage == if directory_ready {
                Stage::Write(WriteStep::CreateTemporary)
            } else {
                Stage::Write(WriteStep::CreateDirectory)
            },
    {
        if directory_ready {
            Stage::Write(WriteStep::CreateTemporary)
        } else {
            Stage::Write(WriteStep::CreateDirectory)
        }
    }

    /// Whether the success of `step` completes the staging directory, so that
    /// a session directory can be remembered from then on: `step` is the last
    /// of the directory's steps.
    pub fn completes_directory(&self, step: WriteStep) -> (r: bool)
        ensures
            r == ((step == WriteStep::CreateDirectory || step == WriteStep::RestrictDirectory)
                && self.stage_after(step) == Stage::Write(WriteStep::CreateTemporary)),
    {
        match step {
            WriteStep::CreateDirectory => !self.restrict_permissions,
            WriteStep::RestrictDirectory => true,
            _ => false,
        }
    }

    /// The error for a write step that failed with a failure that displays
    /// as `text`.
    pub fn write_failure(&self, step: WriteStep, text: &str, source: Option<ErrorSource>) -> (e:
        ApiError)
        ensures
            e@ == self.write_failure_report(step, text@),
            e.cause() == source,
    {
        let operation = match step {
            WriteStep::CreateDirectory => OperationNames::DIRECTORY_CREATE,
            WriteStep::RestrictDirectory => OperationNames::DIRECTORY_CREATE,
            WriteStep::CreateTemporary => OperationNames::FILE_WRITE,
            WriteStep::WritePayload => OperationNames::FILE_WRITE,
            WriteStep::Flush => OperationNames::FILE_WRITE,
            WriteStep::Persist => OperationNames::FILE_PERSIST,
            WriteStep::RestrictFile => OperationNames::FILE_PERSIST,
        };
        let prefix = match step {
            WriteStep::CreateDirectory => match self.kind {
                DirectoryKind::Session => "Failed to create audio session directory: ",
                DirectoryKind::UnderBase => "Failed to create audio test directory: ",
            },
            WriteStep::RestrictDirectory => "Failed to set secure directory permissions: ",
            WriteStep::CreateTemporary => "Failed to create temporary file: ",
            WriteStep::WritePayload => "Failed to write audio data to file: ",
            WriteStep::Flush => "Failed to flush file data to disk: ",
            WriteStep::Persist => "Failed to persist temporary file to final location: ",
            WriteStep::RestrictFile => "Failed to set secure file permissions: ",
        };
        ApiError::FileSystemError {
            operation: String::from_str(operation),
            details: join2(prefix, text),
            source,
        }
    }

    /// What follows a write step: after a success the next stage, which is a
    /// later one; after a failure the file-system error of that step, which
    /// quotes the failure's text and keeps the failure.
    pub fn after_write(&self, step: WriteStep, result: Result<(), std::io::Error>) -> (r: Result<
        Stage,
        ApiError,
    >)
        ensures
            match result {
                Ok(()) => r == Ok::<Stage, ApiError>(self.stage_after(step)) && rank(
                    self.stage_after(step),
                ) > rank(Stage::Write(step)),
                Err(failure) => r matches Err(e) && e.cause() == Some(ErrorSource::Io(failure))
                    && exists|text: Seq<char>| e@ == #[trigger] self.write_failure_report(
                        step,
                        text,
                    ),
            },
    {
        match result {
            Ok(()) => Ok(
                match step {
                    WriteStep::CreateDirectory => if self.restrict_permissions {
                        Stage::Write(WriteStep::RestrictDirectory)
                    } else {
                        Stage::Write(WriteStep::CreateTemporary)
                    },
                    WriteStep::RestrictDirectory => Stage::Write(WriteStep::CreateTemporary),
                    WriteStep::CreateTemporary => Stage::Write(WriteStep::WritePayload),
                    WriteStep::WritePayload => Stage::Write(WriteStep::Flush),
                    WriteStep::Flush => Stage::Write(WriteStep::Persist),
                    WriteStep::Persist => if self.restrict_permissions {
                        Stage::Write(WriteStep::RestrictFile)
                    } else {
                        Stage::Path(PathStep::Canonicalize)
                    },
                    WriteStep::RestrictFile => Stage::Path(PathStep::Canonicalize),
                },
            ),
            Err(failure) => {
                let text = io_error_text(&failure);
                Err(self.write_failure(step, text.as_str(), Some(ErrorSource::Io(failure))))
            },
        }
    }
}

/// What the failure to find the current working directory is reported as.
pub open spec fn current_directory_failure_report(text: Seq<char>) -> ErrorReport {
    ErrorReport::FileSystemError {
        operation: "path canonicalization"@,
        details: "Cannot determine current directory: "@ + text,
    }
}

/// What a path that is not valid text is reported as.
pub open spec fn unrepresentable_path_report(lossy: Seq<char>) -> ErrorReport {
    ErrorReport::Internal { details: "Path contains invalid UTF-8 sequences: '"@ + lossy + "'"@ }
}

/// The error for a current working directory that cannot be found.
pub fn current_directory_failure(text: &str, source: Option<ErrorSource>) -> (e: ApiError)
    ensures
        e@ == current_directory_failure_report(text@),
        e.cause() == source,
{
    ApiError::FileSystemError {
        operation: String::from_str(OperationNames::PATH_CANONICALIZE),
        details: join2("Cannot determine current directory: ", text),
        source,
    }
}

/// What follows a path step. A path that was found and is valid text ends
/// the protocol. A canonical form that cannot be found is no failure: the
/// fallback is tried. A fallback that fails, and a path that is not valid
/// text, are reported.
pub fn after_path(step: PathStep, outcome: PathOutcome) -> (r: PathProgress)
    ensures
        match outcome {
            PathOutcome::Resolved(path) => r matches PathProgress::Finished(p) && p@ == path@,
            PathOutcome::Unrepresentable(lossy) => r matches PathProgress::Failed(e) && e@
                == unrepresentable_path_report(lossy@) && e.cause() is None,
            PathOutcome::Failed(failure) => match step {
                PathStep::Canonicalize => r matches PathProgress::Continue(
                    PathStep::AbsoluteFallback,
                ),
                PathStep::AbsoluteFallback => r matches PathProgress::Failed(e) && e.cause()
                    == Some(ErrorSource::Io(failure)) && exists|text: Seq<char>|
                    e@ == #[trigger] current_directory_failure_report(text),
            },
        },
{
    match outcome {
        PathOutcome::Resolved(path) => PathProgress::Finished(path),
        PathOutcome::Unrepresentable(lossy) => PathProgress::Failed(
            ApiError::Internal {
                details: join3("Path contains invalid UTF-8 sequences: '", lossy.as_str(), "'"),
                source: None,
            },
        ),
        PathOutcome::Failed(failure) => match step {
            PathStep::Canonicalize => PathProgress::Continue(PathStep::AbsoluteFallback),
            PathStep::AbsoluteFallback => {
                let text = io_error_text(&failure);
                PathProgress::Failed(
                    current_directory_failure(text.as_str(), Some(ErrorSource::Io(failure))),
                )
            },
        },
    }
}

/// The payload is complete before it becomes visible: the steps run in the
/// order of their rank, and the payload is written and flushed before the
/// temporary file is moved onto the final path, which no earlier step
/// touches.
pub proof fn law_written_before_visible(staging: Staging, step: WriteStep)
    ensures
        rank(staging.stage_after(step)) > rank(Stage::Write(step)),
        rank(Stage::Write(WriteStep::CreateTemporary)) < rank(
            Stage::Write(WriteStep::WritePayload),
        ) < rank(Stage::Write(WriteStep::Flush)) < rank(Stage::Write(WriteStep::Persist)),
        staging.stage_after(step) == Stage::Write(WriteStep::Persist) <==> step == WriteStep::Flush,
        staging.stage_after(step) == Stage::Write(WriteStep::Flush) <==> step
            == WriteStep::WritePayload,
{
}

/// The name of a session directory:
/// `archicomm_audio_<process id>_<session id>`.
pub open spec fn session_directory_name(process_id: u32, session_id: Seq<char>) -> Seq<char> {
    "archicomm_audio_"@ + decimal(process_id as nat) + "_"@ + session_id
}

/// The name of the session directory of the process `process_id` for the
/// session `session_id`.
pub fn name_session_directory(process_id: u32, session_id: &str) -> (name: String)
    ensures
        name@ == session_directory_name(process_id, session_id@),
{
    let mut name = String::from_str("archicomm_audio_");
    push_decimal(&mut name, process_id as usize);
    name.append("_");
    name.append(session_id);
    name
}

/// The name of a new session directory of the process `process_id`, under a
/// new random session identifier.
pub fn new_session_directory_name(process_id: u32) -> (name: String)
    ensures
        exists|session_id: Seq<char>|
            session_id.len() == 36 && name@ == #[trigger] session_directory_name(
                process_id,
                session_id,
            ),
{
    let session_id = fresh_id();
    name_session_directory(process_id, session_id.as_str())
}

/// What to do for a session directory.
#[derive(Debug)]
pub enum DirectoryPlan {
    /// Use this directory, which was made before and is still there.
    Reuse(String),
    /// Make a new directory.
    Create,
}

/// The session directory of a process: made once, remembered, and made
/// again where it has gone.
pub struct SessionDirectory {
    remembered: Option<String>,
}

impl SessionDirectory {
    /// The path of the directory that was made last, if any.
    pub closed spec fn remembered(&self) -> Option<Seq<char>> {
        match self.remembered {
            Some(path) => Some(path@),
            None => None,
        }
    }

    /// A manager that has made no directory yet.
    pub fn new() -> (s: Self)
        ensures
            s.remembered() is None,
    {
        SessionDirectory { remembered: None }
    }

    /// The path of the directory that was made last, if any, for the caller
    /// to look for on disk.
    pub fn candidate(&self) -> (r: Option<String>)
        ensures
            opt_text(r) == self.remembered(),
    {
        match &self.remembered {
            Some(path) => Some(path.clone()),
            None => None,
        }
    }

    /// Decides between the remembered directory and a new one, given whether
    /// the remembered one is still on disk.
    pub fn plan(&self, still_exists: bool) -> (r: DirectoryPlan)
        ensures
            match r {
                DirectoryPlan::Reuse(path) => still_exists && self.remembered() == Some(path@),
                DirectoryPlan::Create => !still_exists || self.remembered() is None,
            },
    {
        match &self.remembered {
            Some(path) => if still_exists {
                DirectoryPlan::Reuse(path.clone())
            } else {
                DirectoryPlan::Create
            },
            None => DirectoryPlan::Create,
        }
    }

    /// Remembers the directory that was just made.
    pub fn remember(&mut self, path: String)
        ensures
            final(self).remembered() == Some(path@),
    {
        self.remembered = Some(path);
    }
}

} // verus!
