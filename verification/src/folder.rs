//! Revealing a file in the platform's file manager: which program to start,
//! and with which arguments.

use crate::error::{io_error_text, ApiError, ErrorReport, ErrorSource};
use crate::model::{opt_text, texts};
use crate::text::join2;
use vstd::prelude::*;
use vstd::string::*;

verus! {

/// The platform the application runs on.
#[derive(Debug, Clone, Copy, PartialEq, Eq, Structural)]
pub enum Platform {
    Windows,
    MacOs,
    Linux,
    Other,
}

/// A program to start, its arguments, and what to report where it cannot be
/// started.
#[derive(Debug)]
pub struct RevealCommand {
    pub program: String,
    pub arguments: Vec<String>,
    /// What the report of a failure begins with.
    pub failure_context: String,
}

/// The program that reveals files on `platform`, if it has one.
pub open spec fn reveal_program(platform: Platform) -> Option<Seq<char>> {
    match platform {
        Platform::Windows => Some("explorer"@),
        Platform::MacOs => Some("open"@),
        Platform::Linux => Some("xdg-open"@),
        Platform::Other => None,
    }
}

/// The arguments that reveal `path`. Windows and macOS select the file;
/// Linux opens the directory that holds it, or the root where it has none.
pub open spec fn reveal_arguments(
    platform: Platform,
    path: Seq<char>,
    parent: Option<Seq<char>>,
) -> Seq<Seq<char>> {
    match platform {
        Platform::Windows => seq!["/select,"@, path],
        Platform::MacOs => seq!["-R"@, path],
        Platform::Linux => seq![
            match parent {
                Some(p) => p,
                None => "/"@,
            },
        ],
        Platform::Other => Seq::empty(),
    }
}

/// What a reveal program that cannot be started is reported with, before the
/// failure's own text.
pub open spec fn reveal_failure_prefix(platform: Platform) -> Seq<char> {
    match platform {
        Platform::Windows => "Failed to open file explorer: "@,
        Platform::MacOs => "Failed to open Finder: "@,
        Platform::Linux => "Failed to open file manager: "@,
        Platform::Other => Seq::empty(),
    }
}

/// What revealing `path` asks for: an error where the path does not exist,
/// else the command of the platform, or nothing to do where it has none.
pub open spec fn reveal_outcome(
    platform: Platform,
    path: Seq<char>,
    exists: bool,
    parent: Option<Seq<char>>,
    r: Result<Option<RevealCommand>, ApiError>,
) -> bool {
    if !exists {
        r matches Err(e) && e@ == (ErrorReport::AudioFileNotFound { path }) && e.cause() is None
    } else {
        match reveal_program(platform) {
            Some(program) => r matches Ok(Some(command)) && command.program@ == program
                && texts(command.arguments@) == reveal_arguments(
                platform,
                path,
                parent,
            ) && command.failure_context@ == reveal_failure_prefix(platform),
            None => r matches Ok(None),
        }
    }
}

/// Decides how to reveal the file at `path`, given whether it exists and the
/// directory that holds it, if it has one.
pub fn show_in_folder(platform: Platform, path: String, exists: bool, parent: Option<String>) -> (r:
    Result<Option<RevealCommand>, ApiError>)
    ensures
        reveal_outcome(platform, path@, exists, opt_text(parent), r),
{
    if !exists {
        return Err(ApiError::AudioFileNotFound { path, source: None });
    }
    let mut arguments: Vec<String> = Vec::new();
    let (program, failure_context) = match platform {
        Platform::Windows => {
            arguments.push(String::from_str("/select,"));
            arguments.push(path);
            ("explorer", "Failed to open file explorer: ")
        },
        Platform::MacOs => {
            arguments.push(String::from_str("-R"));
            arguments.push(path);
            ("open", "Failed to open Finder: ")
        },
        Platform::Linux => {
            match parent {
                Some(p) => arguments.push(p),
                None => arguments.push(String::from_str("/")),
            }
            ("xdg-open", "Failed to open file manager: ")
        },
        Platform::Other => {
            return Ok(None);
        },
    };
    proof {
        assert(texts(arguments@) =~= reveal_arguments(
            platform,
            path@,
            opt_text(parent),
        ));
    }
    Ok(
        Some(
            RevealCommand {
                program: String::from_str(program),
                arguments,
                failure_context: String::from_str(failure_context),
            },
        ),
    )
}

impl RevealCommand {
    /// The error for this command where it could not be started, with a
    /// failure that displays as `text`.
    pub fn failure(&self, text: &str, source: Option<ErrorSource>) -> (e: ApiError)
        ensures
            e@ == (ErrorReport::ProcessError {
                command: self.program@,
                details: self.failure_context@ + text@,
            }),
            e.cause() == source,
    {
        ApiError::ProcessError {
            command: self.program.clone(),
            details: join2(self.failure_context.as_str(), text),
            source,
        }
    }

    /// The error for this command where it could not be started because of
    /// `failure`.
    pub fn failure_from(&self, failure: std::io::Error) -> (e: ApiError)
        ensures
            e@ is ProcessError,
            e@->ProcessError_command == self.program@,
            self.failure_context@.is_prefix_of(e@->ProcessError_details),
            e.cause() == Some(ErrorSource::Io(failure)),
    {
        let text = io_error_text(&failure);
        proof {
            assert((self.failure_context@ + text@).subrange(
                0,
                self.failure_context@.len() as int,
            ) =~= self.failure_context@);
        }
        self.failure(text.as_str(), Some(ErrorSource::Io(failure)))
    }
}

} // verus!
