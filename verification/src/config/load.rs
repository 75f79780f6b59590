//! Loading a configuration: which step follows which answer of the host.
//!
//! The host finds directories, probes the file system, reads and parses;
//! what to do next, and when to give up with which error, is decided here.

use crate::config::error::ResolveError;
use vstd::prelude::*;

verus! {

/// Why a configuration could not be loaded.
#[derive(Debug, PartialEq, Eq)]
pub enum LoadError {
    /// No directory was given and the host reports no home directory.
    HomeNotDetected,
    /// The configuration directory does not exist.
    DirMissing { dir: String },
    /// The configuration directory holds no configuration file.
    FileMissing { file: String },
    /// The host failed to probe or to read; `detail` is its diagnostic.
    Io { detail: String },
    /// The file is no configuration of a known version; `detail` is the
    /// parser's diagnostic.
    Schema { detail: String },
    /// A required value is missing on this platform.
    Resolve { error: ResolveError },
}

impl LoadError {
    /// The text of the message.
    pub open spec fn text(self) -> Seq<char> {
        match self {
            LoadError::HomeNotDetected => "User home directory not dectected!"@,
            LoadError::DirMissing { dir } => "Kuro directory does not exist: "@ + dir@,
            LoadError::FileMissing { file } => "Kuro config file does not exist: "@ + file@,
            LoadError::Io { detail } => detail@,
            LoadError::Schema { detail } => detail@,
            LoadError::Resolve { error } => error.text(),
        }
    }

    /// The message for the user: what is missing, with its path, or the
    /// diagnostic that the host or the parser gave.
    pub fn message(&self) -> (text: String)
        ensures
            text@ == self.text(),
    {
        match self {
            LoadError::HomeNotDetected => String::from_str("User home directory not dectected!"),
            LoadError::DirMissing { dir } => {
                let mut text = String::from_str("Kuro directory does not exist: ");
                text.append(dir.as_str());
                text
            },
            LoadError::FileMissing { file } => {
                let mut text = String::from_str("Kuro config file does not exist: ");
                text.append(file.as_str());
                text
            },
            LoadError::Io { detail } => detail.clone(),
            LoadError::Schema { detail } => detail.clone(),
            LoadError::Resolve { error } => error.message(),
        }
    }
}

/// How far loading has come.
#[derive(Debug, PartialEq, Eq)]
pub enum LoadState {
    /// Nothing was asked yet.
    Start,
    /// The host looks for the default directory.
    Locating,
    /// The host probes the directory `dir`.
    ProbingDir { dir: String },
    /// The host probes the configuration file.
    ProbingFile,
    /// The host reads the configuration file.
    Reading,
    /// Loading has ended: the text is at hand, or an error was reported.
    Done,
}

/// What the host reports.
#[derive(Debug, PartialEq, Eq)]
pub enum LoadEvent {
    /// Loading is asked for, from `explicit` where a directory is given.
    Begin { explicit: Option<String> },
    /// The default directory below the user's home directory, or nothing
    /// where the host knows no home directory.
    DefaultDir { dir: Option<String> },
    /// Whether the directory exists, or why that could not be found out.
    DirProbed { exists: Result<bool, String> },
    /// The path of the configuration file in the directory, and whether it
    /// exists, or why that could not be found out.
    FileProbed { file: String, exists: Result<bool, String> },
    /// The text of the file, or why it could not be read.
    FileRead { text: Result<String, String> },
}

/// What the host is to do next.
#[derive(Debug, PartialEq, Eq)]
pub enum LoadAction {
    /// Find the directory of the default name below the user's home.
    FindDefaultDir,
    /// Find out whether the directory `dir` exists.
    ProbeDir { dir: String },
    /// Find out whether `dir` holds a file of the configuration file's name.
    ProbeFile { dir: String },
    /// Read the file at `file`.
    ReadFile { file: String },
    /// Parse `text` as a configuration.
    Parse { text: String },
    /// Give up with `error`.
    Fail { error: LoadError },
}

/// Gives up: the error is reported and loading is over.
pub open spec fn fail(error: LoadError) -> Option<(LoadState, LoadAction)> {
    Some((LoadState::Done, LoadAction::Fail { error }))
}

/// The step that follows `event` in `state`, or nothing where `state` does
/// not await such an event.
///
/// A directory that was given is used as it is, else the default directory;
/// the directory must exist, then the file in it; then the file is read and
/// its text handed over for parsing. Whatever is missing ends loading with
/// the error that names it, and a diagnostic of the host ends it as it is.
pub open spec fn next_step(state: LoadState, event: LoadEvent) -> Option<(LoadState, LoadAction)> {
    match (state, event) {
        (LoadState::Start, LoadEvent::Begin { explicit: Some(dir) }) => Some(
            (LoadState::ProbingDir { dir }, LoadAction::ProbeDir { dir }),
        ),
        (LoadState::Start, LoadEvent::Begin { explicit: None }) => Some(
            (LoadState::Locating, LoadAction::FindDefaultDir),
        ),
        (LoadState::Locating, LoadEvent::DefaultDir { dir: Some(dir) }) => Some(
            (LoadState::ProbingDir { dir }, LoadAction::ProbeDir { dir }),
        ),
        (LoadState::Locating, LoadEvent::DefaultDir { dir: None }) => fail(
            LoadError::HomeNotDetected,
        ),
        (LoadState::ProbingDir { dir }, LoadEvent::DirProbed { exists: Ok(true) }) => Some(
            (LoadState::ProbingFile, LoadAction::ProbeFile { dir }),
        ),
        (LoadState::ProbingDir { dir }, LoadEvent::DirProbed { exists: Ok(false) }) => fail(
            LoadError::DirMissing { dir },
        ),
        (LoadState::ProbingDir { dir }, LoadEvent::DirProbed { exists: Err(detail) }) => fail(
            LoadError::Io { detail },
        ),
        (LoadState::ProbingFile, LoadEvent::FileProbed { file, exists: Ok(true) }) => Some(
            (LoadState::Reading, LoadAction::ReadFile { file }),
        ),
        (LoadState::ProbingFile, LoadEvent::FileProbed { file, exists: Ok(false) }) => fail(
            LoadError::FileMissing { file },
        ),
        (LoadState::ProbingFile, LoadEvent::FileProbed { file, exists: Err(detail) }) => fail(
            LoadError::Io { detail },
        ),
        (LoadState::Reading, LoadEvent::FileRead { text: Ok(text) }) => Some(
            (LoadState::Done, LoadAction::Parse { text }),
        ),
        (LoadState::Reading, LoadEvent::FileRead { text: Err(detail) }) => fail(
            LoadError::Io { detail },
        ),
        _ => None,
    }
}

/// Loading that has ended takes no further step.
pub proof fn lemma_done_is_final(event: LoadEvent)
    ensures
        next_step(LoadState::Done, event) is None,
{
}

/// Loading fails fast: a step that reports an error ends loading, and so
/// does the step that hands the text over; every other step leaves it
/// under way.
pub proof fn lemma_errors_end_loading(state: LoadState, event: LoadEvent)
    requires
        next_step(state, event) is Some,
    ensures
        ({
            let (next, action) = next_step(state, event)->Some_0;
            next == LoadState::Done <==> (action is Fail || action is Parse)
        }),
{
}

/// A directory without the configuration file ends loading with the error
/// that names the path of the missing file.
pub proof fn lemma_missing_file_names_its_path(file: String)
    ensures
        next_step(
            LoadState::ProbingFile,
            LoadEvent::FileProbed { file, exists: Ok(false) },
        ) == fail(LoadError::FileMissing { file }),
        (LoadError::FileMissing { file }).text() == "Kuro config file does not exist: "@ + file@,
{
}

} // verus!
