use indexmap::IndexMap;
use kuro::config::error::{EntryKind, Field, ResolveError};
use kuro::config::internal;
use kuro::config::v1::{
    ConfigV1, DotFileLocalMethod, DotfileGit, DotfileHttp, DotfileLocal, Dotfiles, Options, Value,
};
use kuro::config::Config;
use kuro::platform::Platform;

const ALL: [Platform; 5] =
    [Platform::Windows, Platform::Linux, Platform::Macos, Platform::Unix, Platform::Other];

fn simple(text: &str) -> Value<String> {
    Value::Simple(String::from(text))
}

fn only_windows(text: &str) -> Value<String> {
    Value::Specific { windows: Some(String::from(text)), linux: None, macos: None, unix: None }
}

fn git(name: &str, repo: &str, dest: Value<String>) -> DotfileGit {
    DotfileGit { name: String::from(name), repo: simple(repo), branch: None, commit: None, dest }
}

fn local(name: &str, src: &str, dest: &str, method: DotFileLocalMethod) -> DotfileLocal {
    DotfileLocal {
        name: String::from(name),
        src: simple(src),
        dest: simple(dest),
        method: Value::Simple(method),
    }
}

fn http(name: &str, url: &str, dest: Value<String>) -> DotfileHttp {
    DotfileHttp { name: String::from(name), url: simple(url), dest }
}

fn no_entries() -> Dotfiles {
    Dotfiles { git: Vec::new(), local: Vec::new(), http: Vec::new() }
}

fn no_options() -> Options {
    Options { editor: None, trash_cmd: None }
}

fn names<V>(map: &IndexMap<String, V>) -> Vec<&str> {
    map.keys().map(|name| name.as_str()).collect()
}

#[test]
fn empty_set_resolves_to_empty_maps() {
    let resolved = no_entries().to_internal(Platform::Linux).unwrap();
    assert!(resolved.git.is_empty());
    assert!(resolved.local.is_empty());
    assert!(resolved.http.is_empty());
}

#[test]
fn entries_keep_the_order_of_declaration() {
    let set = Dotfiles {
        git: vec![
            git("zsh", "rz", simple("dz")),
            git("alacritty", "ra", simple("da")),
            git("nvim", "rn", simple("dn")),
        ],
        local: vec![
            local("b", "sb", "db", DotFileLocalMethod::Copy),
            local("a", "sa", "da", DotFileLocalMethod::Symlink),
        ],
        http: vec![http("y", "uy", simple("dy")), http("x", "ux", simple("dx"))],
    };
    let resolved = set.to_internal(Platform::Macos).unwrap();
    assert_eq!(names(&resolved.git), vec!["zsh", "alacritty", "nvim"]);
    assert_eq!(names(&resolved.local), vec!["b", "a"]);
    assert_eq!(names(&resolved.http), vec!["y", "x"]);
    assert_eq!(resolved.git["alacritty"].repo, "ra");
    assert_eq!(resolved.git["alacritty"].name, "alacritty");
    assert_eq!(resolved.local["a"].method, internal::DotFileLocalMethod::Symlink);
    assert_eq!(resolved.http["x"].url, "ux");
}

#[test]
fn later_local_entry_of_the_same_name_overwrites_the_earlier_one() {
    let set = Dotfiles {
        git: Vec::new(),
        local: vec![
            local("vimrc", "./old", "~/.old", DotFileLocalMethod::Copy),
            local("vimrc", "./new", "~/.new", DotFileLocalMethod::Symlink),
        ],
        http: Vec::new(),
    };
    let resolved = set.to_internal(Platform::Linux).unwrap();
    assert_eq!(resolved.local.len(), 1);
    assert_eq!(
        resolved.local["vimrc"],
        internal::DotfileLocal {
            name: String::from("vimrc"),
            src: String::from("./new"),
            dest: String::from("~/.new"),
            method: internal::DotFileLocalMethod::Symlink,
        }
    );
}

#[test]
fn overwritten_entry_keeps_the_place_of_the_first_declaration() {
    let set = Dotfiles {
        git: vec![
            git("a", "first", simple("d")),
            git("b", "other", simple("d")),
            git("a", "second", simple("d")),
            git("c", "third", simple("d")),
            git("b", "fourth", simple("d")),
        ],
        local: Vec::new(),
        http: Vec::new(),
    };
    let resolved = set.to_internal(Platform::Linux).unwrap();
    assert_eq!(names(&resolved.git), vec!["a", "b", "c"]);
    assert_eq!(resolved.git["a"].repo, "second");
    assert_eq!(resolved.git["b"].repo, "fourth");
    assert_eq!(resolved.git["c"].repo, "third");
}

#[test]
fn kinds_are_separate_namespaces() {
    let set = Dotfiles {
        git: vec![git("same", "r", simple("dg"))],
        local: vec![local("same", "s", "dl", DotFileLocalMethod::Copy)],
        http: vec![http("same", "u", simple("dh"))],
    };
    let resolved = set.to_internal(Platform::Linux).unwrap();
    assert_eq!(resolved.git["same"].dest, "dg");
    assert_eq!(resolved.local["same"].dest, "dl");
    assert_eq!(resolved.http["same"].dest, "dh");
}

#[test]
fn one_git_entry_without_dest_fails_the_whole_set() {
    let set = Dotfiles {
        git: vec![
            git("good", "r", simple("d")),
            git("broken", "r", only_windows("C:/d")),
            git("also-good", "r", simple("d")),
        ],
        local: vec![local("l", "s", "d", DotFileLocalMethod::Copy)],
        http: vec![http("h", "u", simple("d"))],
    };
    let failure = set.to_internal(Platform::Linux).unwrap_err();
    assert_eq!(
        failure,
        ResolveError { kind: EntryKind::Git, field: Field::Dest, name: String::from("broken") }
    );
    assert_eq!(failure.message(), "Failed to resolve dest path for git dotfile: broken");
    let on_windows = set.to_internal(Platform::Windows).unwrap();
    assert_eq!(names(&on_windows.git), vec!["good", "broken", "also-good"]);
}

#[test]
fn the_first_failure_is_reported() {
    let set = Dotfiles {
        git: vec![git("g1", "r", only_windows("w")), git("g2", "r", only_windows("w"))],
        local: Vec::new(),
        http: vec![http("h", "u", only_windows("w"))],
    };
    assert_eq!(set.to_internal(Platform::Unix).unwrap_err().name, "g1");

    let later_kind = Dotfiles {
        git: vec![git("g", "r", simple("d"))],
        local: vec![DotfileLocal {
            name: String::from("l"),
            src: simple("s"),
            dest: simple("d"),
            method: Value::Specific {
                windows: Some(DotFileLocalMethod::Copy),
                linux: None,
                macos: None,
                unix: None,
            },
        }],
        http: vec![http("h", "u", only_windows("w"))],
    };
    assert_eq!(
        later_kind.to_internal(Platform::Unix).unwrap_err(),
        ResolveError { kind: EntryKind::Local, field: Field::Method, name: String::from("l") }
    );

    let last_kind = Dotfiles {
        git: vec![git("g", "r", simple("d"))],
        local: Vec::new(),
        http: vec![http("h1", "u", simple("d")), http("h2", "u", only_windows("w"))],
    };
    assert_eq!(
        last_kind.to_internal(Platform::Unix).unwrap_err(),
        ResolveError { kind: EntryKind::Http, field: Field::Dest, name: String::from("h2") }
    );
}

#[test]
fn broken_entry_fails_the_whole_configuration() {
    let mut env = IndexMap::new();
    env.insert(String::from("EDITOR_PATH"), simple("/usr/bin/vim"));
    let config = ConfigV1 {
        env,
        options: no_options(),
        dotfiles: Dotfiles {
            git: vec![git("broken", "r", only_windows("C:/d"))],
            local: Vec::new(),
            http: Vec::new(),
        },
    };
    assert_eq!(
        config.to_internal(Platform::Macos).unwrap_err(),
        ResolveError { kind: EntryKind::Git, field: Field::Dest, name: String::from("broken") }
    );
    assert!(config.to_internal(Platform::Windows).is_ok());
}

#[test]
fn environment_keeps_the_variables_in_effect_in_order() {
    let mut env = IndexMap::new();
    env.insert(String::from("ZED"), simple("z"));
    env.insert(String::from("WIN_ONLY"), only_windows("w"));
    env.insert(
        String::from("SHELL"),
        Value::Specific {
            windows: None,
            linux: Some(String::from("/bin/bash")),
            macos: Some(String::from("/bin/zsh")),
            unix: Some(String::from("/bin/sh")),
        },
    );
    env.insert(String::from("ALPHA"), simple("a"));
    let config = ConfigV1 { env, options: no_options(), dotfiles: no_entries() };

    let on_linux = config.to_internal(Platform::Linux).unwrap();
    assert_eq!(names(&on_linux.env), vec!["ZED", "SHELL", "ALPHA"]);
    assert_eq!(on_linux.env["SHELL"], "/bin/bash");
    assert_eq!(on_linux.env["ZED"], "z");

    let on_windows = config.to_internal(Platform::Windows).unwrap();
    assert_eq!(names(&on_windows.env), vec!["ZED", "WIN_ONLY", "ALPHA"]);
    assert_eq!(on_windows.env["WIN_ONLY"], "w");

    let on_unix = config.to_internal(Platform::Unix).unwrap();
    assert_eq!(on_unix.env["SHELL"], "/bin/sh");

    let elsewhere = config.to_internal(Platform::Other).unwrap();
    assert_eq!(names(&elsewhere.env), vec!["ZED", "ALPHA"]);
}

#[test]
fn options_are_resolved_and_may_be_left_out() {
    let config = ConfigV1 {
        env: IndexMap::new(),
        options: Options {
            editor: Some(Value::Specific {
                windows: Some(String::from("notepad")),
                linux: None,
                macos: None,
                unix: Some(String::from("vi")),
            }),
            trash_cmd: Some(Value::Specific {
                windows: None,
                linux: Some(vec![String::from("gio"), String::from("trash")]),
                macos: Some(vec![String::from("trash")]),
                unix: None,
            }),
        },
        dotfiles: no_entries(),
    };
    let on_linux = config.to_internal(Platform::Linux).unwrap();
    assert_eq!(on_linux.editor, Some(String::from("vi")));
    assert_eq!(on_linux.trash_cmd, Some(vec![String::from("gio"), String::from("trash")]));
    let on_windows = config.to_internal(Platform::Windows).unwrap();
    assert_eq!(on_windows.editor, Some(String::from("notepad")));
    assert_eq!(on_windows.trash_cmd, None);
    let on_unix = config.to_internal(Platform::Unix).unwrap();
    assert_eq!(on_unix.editor, Some(String::from("vi")));
    assert_eq!(on_unix.trash_cmd, None);

    let without = ConfigV1 { env: IndexMap::new(), options: no_options(), dotfiles: no_entries() };
    let resolved = without.to_internal(Platform::Linux).unwrap();
    assert_eq!(resolved.editor, None);
    assert_eq!(resolved.trash_cmd, None);
}

fn fully_simple() -> ConfigV1 {
    let mut env = IndexMap::new();
    env.insert(String::from("EDITOR_PATH"), simple("/usr/bin/vim"));
    env.insert(String::from("PAGER"), simple("less"));
    ConfigV1 {
        env,
        options: Options {
            editor: Some(simple("vim")),
            trash_cmd: Some(Value::Simple(vec![String::from("trash"), String::from("-v")])),
        },
        dotfiles: Dotfiles {
            git: vec![DotfileGit {
                name: String::from("nvim"),
                repo: simple("https://example.org/nvim.git"),
                branch: Some(simple("main")),
                commit: Some(simple("0a1b2c3")),
                dest: simple("~/.config/nvim"),
            }],
            local: vec![
                local("vimrc", "./vimrc", "~/.vimrc", DotFileLocalMethod::Symlink),
                local("bashrc", "./bashrc", "~/.bashrc", DotFileLocalMethod::Copy),
            ],
            http: vec![http("font", "https://example.org/f.ttf", simple("~/.fonts/f.ttf"))],
        },
    }
}

#[test]
fn fully_simple_configuration_comes_out_as_declared_on_every_platform() {
    for platform in ALL {
        let resolved = fully_simple().to_internal(platform).unwrap();
        assert_eq!(names(&resolved.env), vec!["EDITOR_PATH", "PAGER"]);
        assert_eq!(resolved.env["EDITOR_PATH"], "/usr/bin/vim");
        assert_eq!(resolved.env["PAGER"], "less");
        assert_eq!(resolved.editor, Some(String::from("vim")));
        assert_eq!(resolved.trash_cmd, Some(vec![String::from("trash"), String::from("-v")]));
        assert_eq!(names(&resolved.dotfiles.git), vec!["nvim"]);
        assert_eq!(
            resolved.dotfiles.git["nvim"],
            internal::DotfileGit {
                name: String::from("nvim"),
                repo: String::from("https://example.org/nvim.git"),
                branch: Some(String::from("main")),
                commit: Some(String::from("0a1b2c3")),
                dest: String::from("~/.config/nvim"),
            }
        );
        assert_eq!(names(&resolved.dotfiles.local), vec!["vimrc", "bashrc"]);
        assert_eq!(
            resolved.dotfiles.local["bashrc"],
            internal::DotfileLocal {
                name: String::from("bashrc"),
                src: String::from("./bashrc"),
                dest: String::from("~/.bashrc"),
                method: internal::DotFileLocalMethod::Copy,
            }
        );
        assert_eq!(names(&resolved.dotfiles.http), vec!["font"]);
        assert_eq!(
            resolved.dotfiles.http["font"],
            internal::DotfileHttp {
                name: String::from("font"),
                url: String::from("https://example.org/f.ttf"),
                dest: String::from("~/.fonts/f.ttf"),
            }
        );
    }
}

#[test]
fn version_one_is_resolved_through_the_dispatch() {
    let mut env = IndexMap::new();
    env.insert(String::from("EDITOR_PATH"), simple("/usr/bin/vim"));
    let config = Config::V1(ConfigV1 {
        env,
        options: no_options(),
        dotfiles: Dotfiles {
            git: Vec::new(),
            local: vec![local("vimrc", "./vimrc", "~/.vimrc", DotFileLocalMethod::Symlink)],
            http: Vec::new(),
        },
    });
    for platform in ALL {
        let resolved = config.to_internal(platform).unwrap();
        assert_eq!(resolved.env["EDITOR_PATH"], "/usr/bin/vim");
        assert_eq!(resolved.env.len(), 1);
        let vimrc = &resolved.dotfiles.local["vimrc"];
        assert_eq!(vimrc.method, internal::DotFileLocalMethod::Symlink);
        assert_eq!(vimrc.src, "./vimrc");
        assert_eq!(vimrc.dest, "~/.vimrc");
        assert_eq!(resolved.dotfiles.local.len(), 1);
    }
}

#[test]
fn dispatch_reports_the_failure_of_the_version() {
    let config = Config::V1(ConfigV1 {
        env: IndexMap::new(),
        options: no_options(),
        dotfiles: Dotfiles {
            git: Vec::new(),
            local: Vec::new(),
            http: vec![http("font", "u", only_windows("w"))],
        },
    });
    assert_eq!(
        config.to_internal(Platform::Linux).unwrap_err(),
        ResolveError { kind: EntryKind::Http, field: Field::Dest, name: String::from("font") }
    );
}
