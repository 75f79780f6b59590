//! The configuration schema, its versions and their resolution.

pub mod error;
pub mod files;
pub mod internal;
pub mod laws;
pub mod load;
pub mod ordered;
pub mod v1;

use crate::config::error::ResolveError;
use crate::config::internal::{ConfigInternal, ConfigModel};
use crate::config::load::{next_step, LoadAction, LoadError, LoadEvent, LoadState};
use crate::platform::Platform;
use vstd::prelude::*;

verus! {

/// A configuration as the user writes it, of whichever version.
#[derive(Debug)]
pub enum Config {
    V1(v1::ConfigV1),
}

impl Config {
    /// What the configuration resolves to on `platform`, as its version
    /// defines it.
    pub open spec fn resolved(self, platform: Platform) -> Result<ConfigModel, ResolveError> {
        match self {
            Config::V1(config) => config.resolved(platform),
        }
    }

    /// What loading ends with, once the file's text was parsed: the parser's
    /// diagnostic, a value that is missing on `platform`, or the resolved
    /// configuration.
    pub open spec fn loaded(parsed: Result<Config, String>, platform: Platform) -> Result<
        ConfigModel,
        LoadError,
    > {
        match parsed {
            Err(detail) => Err(LoadError::Schema { detail }),
            Ok(config) => match config.resolved(platform) {
                Err(error) => Err(LoadError::Resolve { error }),
                Ok(model) => Ok(model),
            },
        }
    }

    /// The name of the default configuration directory below the user's
    /// home directory.
    pub fn default_dir_name() -> (name: &'static str)
        ensures
            name@ == ".kuro"@,
    {
        ".kuro"
    }

    /// The name of the configuration file in the configuration directory.
    pub fn file_name() -> (name: &'static str)
        ensures
            name@ == "kuro.toml"@,
    {
        "kuro.toml"
    }

    /// Resolves the configuration for `platform`, as its version defines it.
    pub fn to_internal(&self, platform: Platform) -> (outcome: Result<ConfigInternal, ResolveError>)
        ensures
            match self.resolved(platform) {
                Ok(model) => outcome is Ok && outcome->Ok_0@ == model,
                Err(error) => outcome is Err && outcome->Err_0 == error,
            },
    {
        match self {
            Config::V1(config) => config.to_internal(platform),
        }
    }

    /// Advances loading by one step: takes what the host reports and says
    /// what it is to do next. Nothing is returned where `state` does not
    /// await `event`.
    pub fn load(state: LoadState, event: LoadEvent) -> (step: Option<(LoadState, LoadAction)>)
        ensures
            step == next_step(state, event),
    {
        match (state, event) {
            (LoadState::Start, LoadEvent::Begin { explicit: Some(dir) }) => {
                let asked = dir.clone();
                Some((LoadState::ProbingDir { dir }, LoadAction::ProbeDir { dir: asked }))
            },
            (LoadState::Start, LoadEvent::Begin { explicit: None }) => Some(
                (LoadState::Locating, LoadAction::FindDefaultDir),
            ),
            (LoadState::Locating, LoadEvent::DefaultDir { dir: Some(dir) }) => {
                let asked = dir.clone();
                Some((LoadState::ProbingDir { dir }, LoadAction::ProbeDir { dir: asked }))
            },
            (LoadState::Locating, LoadEvent::DefaultDir { dir: None }) => Some(
                (LoadState::Done, LoadAction::Fail { error: LoadError::HomeNotDetected }),
            ),
            (LoadState::ProbingDir { dir }, LoadEvent::DirProbed { exists: Ok(true) }) => Some(
                (LoadState::ProbingFile, LoadAction::ProbeFile { dir }),
            ),
            (LoadState::ProbingDir { dir }, LoadEvent::DirProbed { exists: Ok(false) }) => Some(
                (LoadState::Done, LoadAction::Fail { error: LoadError::DirMissing { dir } }),
            ),
            (LoadState::ProbingDir { dir }, LoadEvent::DirProbed { exists: Err(detail) }) => Some(
                (LoadState::Done, LoadAction::Fail { error: LoadError::Io { detail } }),
            ),
            (LoadState::ProbingFile, LoadEvent::FileProbed { file, exists: Ok(true) }) => Some(
                (LoadState::Reading, LoadAction::ReadFile { file }),
            ),
            (LoadState::ProbingFile, LoadEvent::FileProbed { file, exists: Ok(false) }) => Some(
                (LoadState::Done, LoadAction::Fail { error: LoadError::FileMissing { file } }),
            ),
            (LoadState::ProbingFile, LoadEvent::FileProbed { file, exists: Err(detail) }) => Some(
                (LoadState::Done, LoadAction::Fail { error: LoadError::Io { detail } }),
            ),
            (LoadState::Reading, LoadEvent::FileRead { text: Ok(text) }) => Some(
                (LoadState::Done, LoadAction::Parse { text }),
            ),
            (LoadState::Reading, LoadEvent::FileRead { text: Err(detail) }) => Some(
                (LoadState::Done, LoadAction::Fail { error: LoadError::Io { detail } }),
            ),
            _ => None,
        }
    }

    /// Ends loading: takes what parsing the file's text gave and resolves
    /// the configuration for `platform`.
    pub fn finish(parsed: Result<Config, String>, platform: Platform) -> (outcome: Result<
        ConfigInternal,
        LoadError,
    >)
        ensures
            match Config::loaded(parsed, platform) {
                Ok(model) => outcome is Ok && outcome->Ok_0@ == model,
                Err(error) => outcome is Err && outcome->Err_0 == error,
            },
    {
        match parsed {
            Err(detail) => Err(LoadError::Schema { detail }),
            Ok(config) => match config.to_internal(platform) {
                Err(error) => Err(LoadError::Resolve { error }),
                Ok(resolved) => Ok(resolved),
            },
        }
    }
}

} // verus!
