use indexmap::IndexMap;
use kuro::config::error::{EntryKind, Field, ResolveError};
use kuro::config::load::{LoadAction, LoadError, LoadEvent, LoadState};
use kuro::config::v1::{ConfigV1, DotfileHttp, Dotfiles, Options, Value};
use kuro::config::Config;
use kuro::platform::Platform;

fn text(value: &str) -> String {
    String::from(value)
}

fn failed(error: LoadError) -> Option<(LoadState, LoadAction)> {
    Some((LoadState::Done, LoadAction::Fail { error }))
}

fn config_with_http_dest(dest: Value<String>) -> Config {
    let mut env = IndexMap::new();
    env.insert(text("EDITOR_PATH"), Value::Simple(text("/usr/bin/vim")));
    Config::V1(ConfigV1 {
        env,
        options: Options { editor: None, trash_cmd: None },
        dotfiles: Dotfiles {
            git: Vec::new(),
            local: Vec::new(),
            http: vec![DotfileHttp { name: text("font"), url: Value::Simple(text("u")), dest }],
        },
    })
}

#[test]
fn names_of_directory_and_file() {
    assert_eq!(Config::default_dir_name(), ".kuro");
    assert_eq!(Config::file_name(), "kuro.toml");
}

#[test]
fn explicit_directory_is_probed_as_given() {
    assert_eq!(
        Config::load(LoadState::Start, LoadEvent::Begin { explicit: Some(text("/etc/kuro")) }),
        Some((
            LoadState::ProbingDir { dir: text("/etc/kuro") },
            LoadAction::ProbeDir { dir: text("/etc/kuro") }
        ))
    );
}

#[test]
fn without_a_directory_the_default_is_looked_for() {
    assert_eq!(
        Config::load(LoadState::Start, LoadEvent::Begin { explicit: None }),
        Some((LoadState::Locating, LoadAction::FindDefaultDir))
    );
    assert_eq!(
        Config::load(LoadState::Locating, LoadEvent::DefaultDir { dir: Some(text("/home/u/.kuro")) }),
        Some((
            LoadState::ProbingDir { dir: text("/home/u/.kuro") },
            LoadAction::ProbeDir { dir: text("/home/u/.kuro") }
        ))
    );
}

#[test]
fn unknown_home_directory_ends_loading() {
    let step = Config::load(LoadState::Locating, LoadEvent::DefaultDir { dir: None });
    assert_eq!(step, failed(LoadError::HomeNotDetected));
    assert_eq!(LoadError::HomeNotDetected.message(), "User home directory not dectected!");
}

#[test]
fn missing_directory_ends_loading_with_its_path() {
    let step = Config::load(
        LoadState::ProbingDir { dir: text("/nowhere/.kuro") },
        LoadEvent::DirProbed { exists: Ok(false) },
    );
    assert_eq!(step, failed(LoadError::DirMissing { dir: text("/nowhere/.kuro") }));
    assert_eq!(
        LoadError::DirMissing { dir: text("/nowhere/.kuro") }.message(),
        "Kuro directory does not exist: /nowhere/.kuro"
    );
}

#[test]
fn existing_directory_has_its_file_probed() {
    assert_eq!(
        Config::load(
            LoadState::ProbingDir { dir: text("/home/u/.kuro") },
            LoadEvent::DirProbed { exists: Ok(true) }
        ),
        Some((LoadState::ProbingFile, LoadAction::ProbeFile { dir: text("/home/u/.kuro") }))
    );
}

#[test]
fn missing_file_ends_loading_with_the_expected_path() {
    let step = Config::load(
        LoadState::ProbingFile,
        LoadEvent::FileProbed { file: text("/home/u/.kuro/kuro.toml"), exists: Ok(false) },
    );
    assert_eq!(step, failed(LoadError::FileMissing { file: text("/home/u/.kuro/kuro.toml") }));
    assert_eq!(
        LoadError::FileMissing { file: text("/home/u/.kuro/kuro.toml") }.message(),
        "Kuro config file does not exist: /home/u/.kuro/kuro.toml"
    );
}

#[test]
fn existing_file_is_read_and_its_text_parsed() {
    assert_eq!(
        Config::load(
            LoadState::ProbingFile,
            LoadEvent::FileProbed { file: text("/k/kuro.toml"), exists: Ok(true) }
        ),
        Some((LoadState::Reading, LoadAction::ReadFile { file: text("/k/kuro.toml") }))
    );
    assert_eq!(
        Config::load(LoadState::Reading, LoadEvent::FileRead { text: Ok(text("version = \"1\"")) }),
        Some((LoadState::Done, LoadAction::Parse { text: text("version = \"1\"") }))
    );
}

#[test]
fn diagnostics_of_the_host_end_loading_as_they_are() {
    assert_eq!(
        Config::load(
            LoadState::ProbingDir { dir: text("/k") },
            LoadEvent::DirProbed { exists: Err(text("permission denied")) }
        ),
        failed(LoadError::Io { detail: text("permission denied") })
    );
    assert_eq!(
        Config::load(
            LoadState::ProbingFile,
            LoadEvent::FileProbed { file: text("/k/kuro.toml"), exists: Err(text("loop")) }
        ),
        failed(LoadError::Io { detail: text("loop") })
    );
    assert_eq!(
        Config::load(LoadState::Reading, LoadEvent::FileRead { text: Err(text("not utf-8")) }),
        failed(LoadError::Io { detail: text("not utf-8") })
    );
    assert_eq!(LoadError::Io { detail: text("not utf-8") }.message(), "not utf-8");
}

#[test]
fn events_that_are_not_awaited_give_no_step() {
    assert_eq!(Config::load(LoadState::Done, LoadEvent::Begin { explicit: None }), None);
    assert_eq!(Config::load(LoadState::Start, LoadEvent::DefaultDir { dir: None }), None);
    assert_eq!(
        Config::load(LoadState::Locating, LoadEvent::DirProbed { exists: Ok(true) }),
        None
    );
    assert_eq!(
        Config::load(
            LoadState::ProbingDir { dir: text("/k") },
            LoadEvent::FileRead { text: Ok(text("")) }
        ),
        None
    );
    assert_eq!(
        Config::load(LoadState::ProbingFile, LoadEvent::DirProbed { exists: Ok(true) }),
        None
    );
    assert_eq!(
        Config::load(
            LoadState::Reading,
            LoadEvent::FileProbed { file: text("/k/kuro.toml"), exists: Ok(true) }
        ),
        None
    );
}

#[test]
fn whole_run_from_the_default_directory() {
    let (state, action) = Config::load(LoadState::Start, LoadEvent::Begin { explicit: None }).unwrap();
    assert_eq!(action, LoadAction::FindDefaultDir);
    let (state, action) =
        Config::load(state, LoadEvent::DefaultDir { dir: Some(text("/home/u/.kuro")) }).unwrap();
    assert_eq!(action, LoadAction::ProbeDir { dir: text("/home/u/.kuro") });
    let (state, action) = Config::load(state, LoadEvent::DirProbed { exists: Ok(true) }).unwrap();
    assert_eq!(action, LoadAction::ProbeFile { dir: text("/home/u/.kuro") });
    let (state, action) = Config::load(
        state,
        LoadEvent::FileProbed { file: text("/home/u/.kuro/kuro.toml"), exists: Ok(true) },
    )
    .unwrap();
    assert_eq!(action, LoadAction::ReadFile { file: text("/home/u/.kuro/kuro.toml") });
    let (state, action) =
        Config::load(state, LoadEvent::FileRead { text: Ok(text("version = \"1\"")) }).unwrap();
    assert_eq!(action, LoadAction::Parse { text: text("version = \"1\"") });
    assert_eq!(state, LoadState::Done);
}

#[test]
fn parser_diagnostic_ends_loading() {
    let outcome = Config::finish(Err(text("unknown variant `2`")), Platform::Linux);
    let failure = outcome.unwrap_err();
    assert_eq!(failure, LoadError::Schema { detail: text("unknown variant `2`") });
    assert_eq!(failure.message(), "unknown variant `2`");
}

#[test]
fn missing_value_ends_loading_with_entry_and_field() {
    let config = config_with_http_dest(Value::Specific {
        windows: Some(text("w")),
        linux: None,
        macos: None,
        unix: None,
    });
    let failure = Config::finish(Ok(config), Platform::Linux).unwrap_err();
    assert_eq!(
        failure,
        LoadError::Resolve {
            error: ResolveError { kind: EntryKind::Http, field: Field::Dest, name: text("font") }
        }
    );
    assert_eq!(failure.message(), "Failed to resolve dest path for HTTP dotfile: font");
}

#[test]
fn parsed_configuration_is_resolved() {
    let config = config_with_http_dest(Value::Simple(text("~/.fonts/f.ttf")));
    let resolved = Config::finish(Ok(config), Platform::Macos).unwrap();
    assert_eq!(resolved.env["EDITOR_PATH"], "/usr/bin/vim");
    assert_eq!(resolved.dotfiles.http["font"].dest, "~/.fonts/f.ttf");
    assert_eq!(resolved.dotfiles.http["font"].url, "u");
}
