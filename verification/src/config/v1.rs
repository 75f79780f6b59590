//! Version 1 of the schema, as the user writes it: any value may be given
//! once for all platforms or separately per platform family.

use crate::config::error::{first_error, EntryKind, Field, ResolveError};
use crate::config::error::{lemma_first_error_at, lemma_first_error_none};
use crate::config::internal;
use crate::config::ordered::{collect, distinct_keys, has_key, ordered_insert, Entries};
use crate::platform::Platform;
use indexmap::IndexMap;
use vstd::prelude::*;

verus! {

/// A value that may depend on the platform.
#[derive(Debug)]
pub enum Value<T> {
    /// One value for every platform.
    Simple(T),
    /// A value per platform family, each of them optional.
    Specific { windows: Option<T>, linux: Option<T>, macos: Option<T>, unix: Option<T> },
}

/// The fallback table of per-platform values: Linux and macOS fall back on
/// the `unix` value, Windows and plain Unix take their own value only, and
/// any other platform has none.
pub open spec fn specific_choice<T>(
    windows: Option<T>,
    linux: Option<T>,
    macos: Option<T>,
    unix: Option<T>,
    platform: Platform,
) -> Option<T> {
    match platform {
        Platform::Windows => windows,
        Platform::Linux => if linux is Some {
            linux
        } else {
            unix
        },
        Platform::Macos => if macos is Some {
            macos
        } else {
            unix
        },
        Platform::Unix => unix,
        Platform::Other => None,
    }
}

/// `copy` holds a clone of what `source` holds, and holds nothing where
/// `source` holds nothing.
pub open spec fn cloned_choice<T: Clone>(source: Option<T>, copy: Option<T>) -> bool {
    match source {
        Some(value) => copy is Some && cloned(value, copy->Some_0),
        None => copy is None,
    }
}

impl<T> Value<T> {
    /// The value that is in effect on `platform`, if there is one.
    pub open spec fn chosen(self, platform: Platform) -> Option<T> {
        match self {
            Value::Simple(value) => Some(value),
            Value::Specific { windows, linux, macos, unix } => specific_choice(
                windows,
                linux,
                macos,
                unix,
                platform,
            ),
        }
    }
}

impl<T: Clone> Value<T> {
    /// The value that is in effect on `platform`, cloned.
    pub fn resovle(&self, platform: Platform) -> (value: Option<T>)
        ensures
            cloned_choice(self.chosen(platform), value),
    {
        match self {
            Value::Simple(value) => Some(value.clone()),
            Value::Specific { windows, linux, macos, unix } => Self::resolve_specific(
                windows,
                linux,
                macos,
                unix,
                platform,
            ),
        }
    }

    /// Looks `platform` up in the fallback table and clones what it finds.
    fn resolve_specific(
        windows: &Option<T>,
        linux: &Option<T>,
        macos: &Option<T>,
        unix: &Option<T>,
        platform: Platform,
    ) -> (value: Option<T>)
        ensures
            cloned_choice(specific_choice(*windows, *linux, *macos, *unix, platform), value),
    {
        match platform {
            Platform::Windows => windows.clone(),
            Platform::Linux => match linux {
                Some(value) => Some(value.clone()),
                None => unix.clone(),
            },
            Platform::Macos => match macos {
                Some(value) => Some(value.clone()),
                None => unix.clone(),
            },
            Platform::Unix => unix.clone(),
            Platform::Other => None,
        }
    }
}

/// A value given for all platforms is in effect on each of them.
pub proof fn lemma_simple_on_every_platform<T>(value: T, platform: Platform)
    ensures
        Value::Simple(value).chosen(platform) == Some(value),
{
}

/// Per-platform values follow the fallback table: Linux takes `linux`, else
/// `unix`; macOS takes `macos`, else `unix`; Windows takes `windows` only;
/// plain Unix takes `unix` only; any other platform takes nothing.
pub proof fn lemma_specific_fallback<T>(
    windows: Option<T>,
    linux: Option<T>,
    macos: Option<T>,
    unix: Option<T>,
)
    ensures
        ({
            let value = Value::Specific { windows, linux, macos, unix };
            &&& value.chosen(Platform::Linux) == match linux {
                Some(v) => Some(v),
                None => unix,
            }
            &&& value.chosen(Platform::Macos) == match macos {
                Some(v) => Some(v),
                None => unix,
            }
            &&& value.chosen(Platform::Windows) == windows
            &&& value.chosen(Platform::Unix) == unix
            &&& value.chosen(Platform::Other) is None
        }),
{
}

/// The value in effect on `platform` of a field that may be left out.
pub open spec fn chosen_optional<T>(field: Option<Value<T>>, platform: Platform) -> Option<T> {
    match field {
        Some(value) => value.chosen(platform),
        None => None,
    }
}

/// Resolves a field that may be left out: no value is no failure.
fn resolve_optional<T: Clone>(field: &Option<Value<T>>, platform: Platform) -> (value: Option<T>)
    ensures
        cloned_choice(chosen_optional(*field, platform), value),
{
    match field {
        Some(value) => value.resovle(platform),
        None => None,
    }
}

/// How a local file is put in place, as the user writes it.
#[derive(Clone, Copy, Debug, PartialEq, Eq, Structural)]
pub enum DotFileLocalMethod {
    Copy,
    Symlink,
}

impl DotFileLocalMethod {
    /// The method of the resolved model that this one stands for.
    pub open spec fn internal(self) -> internal::DotFileLocalMethod {
        match self {
            DotFileLocalMethod::Copy => internal::DotFileLocalMethod::Copy,
            DotFileLocalMethod::Symlink => internal::DotFileLocalMethod::Symlink,
        }
    }
}

/// A repository to check out, as declared.
#[derive(Debug)]
pub struct DotfileGit {
    pub name: String,
    pub repo: Value<String>,
    pub branch: Option<Value<String>>,
    pub commit: Option<Value<String>>,
    pub dest: Value<String>,
}

/// A local file to put in place, as declared.
#[derive(Debug)]
pub struct DotfileLocal {
    pub name: String,
    pub src: Value<String>,
    pub dest: Value<String>,
    pub method: Value<DotFileLocalMethod>,
}

/// A file to download, as declared.
#[derive(Debug)]
pub struct DotfileHttp {
    pub name: String,
    pub url: Value<String>,
    pub dest: Value<String>,
}

impl DotfileGit {
    /// What this entry resolves to on `platform`: the entry with each value
    /// chosen, or the first of `repo` and `dest` that has no value there.
    /// A `branch` or `commit` without a value is left out.
    pub open spec fn resolved(self, platform: Platform) -> Result<
        internal::DotfileGit,
        ResolveError,
    > {
        if self.repo.chosen(platform) is None {
            Err(ResolveError { kind: EntryKind::Git, field: Field::Repo, name: self.name })
        } else if self.dest.chosen(platform) is None {
            Err(ResolveError { kind: EntryKind::Git, field: Field::Dest, name: self.name })
        } else {
            Ok(
                internal::DotfileGit {
                    name: self.name,
                    repo: self.repo.chosen(platform)->Some_0,
                    branch: chosen_optional(self.branch, platform),
                    commit: chosen_optional(self.commit, platform),
                    dest: self.dest.chosen(platform)->Some_0,
                },
            )
        }
    }

    /// Resolves the entry for `platform`.
    pub fn to_internal(&self, platform: Platform) -> (outcome: Result<
        internal::DotfileGit,
        ResolveError,
    >)
        ensures
            outcome == self.resolved(platform),
    {
        let repo = match self.repo.resovle(platform) {
            Some(repo) => repo,
            None => {
                return Err(
                    ResolveError {
                        kind: EntryKind::Git,
                        field: Field::Repo,
                        name: self.name.clone(),
                    },
                );
            },
        };
        let branch = resolve_optional(&self.branch, platform);
        let commit = resolve_optional(&self.commit, platform);
        let dest = match self.dest.resovle(platform) {
            Some(dest) => dest,
            None => {
                return Err(
                    ResolveError {
                        kind: EntryKind::Git,
                        field: Field::Dest,
                        name: self.name.clone(),
                    },
                );
            },
        };
        Ok(internal::DotfileGit { name: self.name.clone(), repo, branch, commit, dest })
    }
}

impl DotfileLocal {
    /// What this entry resolves to on `platform`: the entry with each value
    /// chosen, or the first of `src`, `dest` and `method` that has no value
    /// there.
    pub open spec fn resolved(self, platform: Platform) -> Result<
        internal::DotfileLocal,
        ResolveError,
    > {
        if self.src.chosen(platform) is None {
            Err(ResolveError { kind: EntryKind::Local, field: Field::Src, name: self.name })
        } else if self.dest.chosen(platform) is None {
            Err(ResolveError { kind: EntryKind::Local, field: Field::Dest, name: self.name })
        } else if self.method.chosen(platform) is None {
            Err(ResolveError { kind: EntryKind::Local, field: Field::Method, name: self.name })
        } else {
            Ok(
                internal::DotfileLocal {
                    name: self.name,
                    src: self.src.chosen(platform)->Some_0,
                    dest: self.dest.chosen(platform)->Some_0,
                    method: self.method.chosen(platform)->Some_0.internal(),
                },
            )
        }
    }

    /// Resolves the entry for `platform`.
    pub fn to_internal(&self, platform: Platform) -> (outcome: Result<
        internal::DotfileLocal,
        ResolveError,
    >)
        ensures
            outcome == self.resolved(platform),
    {
        let src = match self.src.resovle(platform) {
            Some(src) => src,
            None => {
                return Err(
                    ResolveError {
                        kind: EntryKind::Local,
                        field: Field::Src,
                        name: self.name.clone(),
                    },
                );
            },
        };
        let dest = match self.dest.resovle(platform) {
            Some(dest) => dest,
            None => {
                return Err(
                    ResolveError {
                        kind: EntryKind::Local,
                        field: Field::Dest,
                        name: self.name.clone(),
                    },
                );
            },
        };
        let method = match self.method.resovle(platform) {
            Some(method) => method,
            None => {
                return Err(
                    ResolveError {
                        kind: EntryKind::Local,
                        field: Field::Method,
                        name: self.name.clone(),
                    },
                );
            },
        };
        let method = match method {
            DotFileLocalMethod::Copy => internal::DotFileLocalMethod::Copy,
            DotFileLocalMethod::Symlink => internal::DotFileLocalMethod::Symlink,
        };
        Ok(internal::DotfileLocal { name: self.name.clone(), src, dest, method })
    }
}

impl DotfileHttp {
    /// What this entry resolves to on `platform`: the entry with each value
    /// chosen, or the first of `url` and `dest` that has no value there.
    pub open spec fn resolved(self, platform: Platform) -> Result<
        internal::DotfileHttp,
        ResolveError,
    > {
        if self.url.chosen(platform) is None {
            Err(ResolveError { kind: EntryKind::Http, field: Field::Url, name: self.name })
        } else if self.dest.chosen(platform) is None {
            Err(ResolveError { kind: EntryKind::Http, field: Field::Dest, name: self.name })
        } else {
            Ok(
                internal::DotfileHttp {
                    name: self.name,
                    url: self.url.chosen(platform)->Some_0,
                    dest: self.dest.chosen(platform)->Some_0,
                },
            )
        }
    }

    /// Resolves the entry for `platform`.
    pub fn to_internal(&self, platform: Platform) -> (outcome: Result<
        internal::DotfileHttp,
        ResolveError,
    >)
        ensures
            outcome == self.resolved(platform),
    {
        let url = match self.url.resovle(platform) {
            Some(url) => url,
            None => {
                return Err(
                    ResolveError {
                        kind: EntryKind::Http,
                        field: Field::Url,
                        name: self.name.clone(),
                    },
                );
            },
        };
        let dest = match self.dest.resovle(platform) {
            Some(dest) => dest,
            None => {
                return Err(
                    ResolveError {
                        kind: EntryKind::Http,
                        field: Field::Dest,
                        name: self.name.clone(),
                    },
                );
            },
        };
        Ok(internal::DotfileHttp { name: self.name.clone(), url, dest })
    }
}

/// The declared entries of each kind, in order of declaration.
#[derive(Debug)]
pub struct Dotfiles {
    pub git: Vec<DotfileGit>,
    pub local: Vec<DotfileLocal>,
    pub http: Vec<DotfileHttp>,
}

/// What each git entry of a list resolves to.
pub open spec fn git_outcomes(list: Seq<DotfileGit>, platform: Platform) -> Seq<
    Result<internal::DotfileGit, ResolveError>,
> {
    Seq::new(list.len(), |i: int| list[i].resolved(platform))
}

/// What each local entry of a list resolves to.
pub open spec fn local_outcomes(list: Seq<DotfileLocal>, platform: Platform) -> Seq<
    Result<internal::DotfileLocal, ResolveError>,
> {
    Seq::new(list.len(), |i: int| list[i].resolved(platform))
}

/// What each HTTP entry of a list resolves to.
pub open spec fn http_outcomes(list: Seq<DotfileHttp>, platform: Platform) -> Seq<
    Result<internal::DotfileHttp, ResolveError>,
> {
    Seq::new(list.len(), |i: int| list[i].resolved(platform))
}

/// The resolved git entries of a list, each under its name.
pub open spec fn named_git(list: Seq<DotfileGit>, platform: Platform) -> Entries<
    internal::DotfileGit,
> {
    Seq::new(list.len(), |i: int| (list[i].name@, list[i].resolved(platform)->Ok_0))
}

/// The resolved local entries of a list, each under its name.
pub open spec fn named_local(list: Seq<DotfileLocal>, platform: Platform) -> Entries<
    internal::DotfileLocal,
> {
    Seq::new(list.len(), |i: int| (list[i].name@, list[i].resolved(platform)->Ok_0))
}

/// The resolved HTTP entries of a list, each under its name.
pub open spec fn named_http(list: Seq<DotfileHttp>, platform: Platform) -> Entries<
    internal::DotfileHttp,
> {
    Seq::new(list.len(), |i: int| (list[i].name@, list[i].resolved(platform)->Ok_0))
}

/// Resolves a list of git entries into a map by name, or fails with the
/// error of the first entry that does not resolve.
fn git_to_internal(list: &Vec<DotfileGit>, platform: Platform) -> (outcome: Result<
    IndexMap<String, internal::DotfileGit>,
    ResolveError,
>)
    ensures
        match first_error(git_outcomes(list@, platform)) {
            Some(error) => outcome is Err && outcome->Err_0 == error,
            None => outcome is Ok && internal::git_entries(outcome->Ok_0) == collect(
                named_git(list@, platform),
            ),
        },
{
    let ghost outcomes = git_outcomes(list@, platform);
    let ghost named = named_git(list@, platform);
    let mut map = internal::new_git_map();
    let mut i: usize = 0;
    proof {
        assert(named.take(0) =~= Seq::empty());
    }
    while i < list.len()
        invariant
            i <= list.len(),
            outcomes == git_outcomes(list@, platform),
            named == named_git(list@, platform),
            forall|j: int| 0 <= j < i ==> (#[trigger] outcomes[j]) is Ok,
            internal::git_entries(map) == collect(named.take(i as int)),
        decreases list.len() - i,
    {
        match list[i].to_internal(platform) {
            Err(error) => {
                proof {
                    lemma_first_error_at(outcomes, i as int);
                }
                return Err(error);
            },
            Ok(entry) => {
                proof {
                    assert(named.take(i + 1).drop_last() =~= named.take(i as int));
                }
                let name = entry.name.clone();
                internal::insert_git(&mut map, name, entry);
            },
        }
        i += 1;
    }
    proof {
        lemma_first_error_none(outcomes);
        assert(named.take(i as int) =~= named);
    }
    Ok(map)
}

/// Resolves a list of local entries into a map by name, or fails with the
/// error of the first entry that does not resolve.
fn local_to_internal(list: &Vec<DotfileLocal>, platform: Platform) -> (outcome: Result<
    IndexMap<String, internal::DotfileLocal>,
    ResolveError,
>)
    ensures
        match first_error(local_outcomes(list@, platform)) {
            Some(error) => outcome is Err && outcome->Err_0 == error,
            None => outcome is Ok && internal::local_entries(outcome->Ok_0) == collect(
                named_local(list@, platform),
            ),
        },
{
    let ghost outcomes = local_outcomes(list@, platform);
    let ghost named = named_local(list@, platform);
    let mut map = internal::new_local_map();
    let mut i: usize = 0;
    proof {
        assert(named.take(0) =~= Seq::empty());
    }
    while i < list.len()
        invariant
            i <= list.len(),
            outcomes == local_outcomes(list@, platform),
            named == named_local(list@, platform),
            forall|j: int| 0 <= j < i ==> (#[trigger] outcomes[j]) is Ok,
            internal::local_entries(map) == collect(named.take(i as int)),
        decreases list.len() - i,
    {
        match list[i].to_internal(platform) {
            Err(error) => {
                proof {
                    lemma_first_error_at(outcomes, i as int);
                }
                return Err(error);
            },
            Ok(entry) => {
                proof {
                    assert(named.take(i + 1).drop_last() =~= named.take(i as int));
                }
                let name = entry.name.clone();
                internal::insert_local(&mut map, name, entry);
            },
        }
        i += 1;
    }
    proof {
        lemma_first_error_none(outcomes);
        assert(named.take(i as int) =~= named);
    }
    Ok(map)
}

/// Resolves a list of HTTP entries into a map by name, or fails with the
/// error of the first entry that does not resolve.
fn http_to_internal(list: &Vec<DotfileHttp>, platform: Platform) -> (outcome: Result<
    IndexMap<String, internal::DotfileHttp>,
    ResolveError,
>)
    ensures
        match first_error(http_outcomes(list@, platform)) {
            Some(error) => outcome is Err && outcome->Err_0 == error,
            None => outcome is Ok && internal::http_entries(outcome->Ok_0) == collect(
                named_http(list@, platform),
            ),
        },
{
    let ghost outcomes = http_outcomes(list@, platform);
    let ghost named = named_http(list@, platform);
    let mut map = internal::new_http_map();
    let mut i: usize = 0;
    proof {
        assert(named.take(0) =~= Seq::empty());
    }
    while i < list.len()
        invariant
            i <= list.len(),
            outcomes == http_outcomes(list@, platform),
            named == named_http(list@, platform),
            forall|j: int| 0 <= j < i ==> (#[trigger] outcomes[j]) is Ok,
            internal::http_entries(map) == collect(named.take(i as int)),
        decreases list.len() - i,
    {
        match list[i].to_internal(platform) {
            Err(error) => {
                proof {
                    lemma_first_error_at(outcomes, i as int);
                }
                return Err(error);
            },
            Ok(entry) => {
                proof {
                    assert(named.take(i + 1).drop_last() =~= named.take(i as int));
                }
                let name = entry.name.clone();
                internal::insert_http(&mut map, name, entry);
            },
        }
        i += 1;
    }
    proof {
        lemma_first_error_none(outcomes);
        assert(named.take(i as int) =~= named);
    }
    Ok(map)
}

impl Dotfiles {
    /// The first entry that does not resolve on `platform`, git entries
    /// before local ones and those before HTTP ones, each list in order of
    /// declaration.
    pub open spec fn failure(self, platform: Platform) -> Option<ResolveError> {
        if first_error(git_outcomes(self.git@, platform)) is Some {
            first_error(git_outcomes(self.git@, platform))
        } else if first_error(local_outcomes(self.local@, platform)) is Some {
            first_error(local_outcomes(self.local@, platform))
        } else {
            first_error(http_outcomes(self.http@, platform))
        }
    }

    /// What the set resolves to on `platform`: all of it or nothing. Where
    /// every entry resolves, each kind is collected by name in order of
    /// declaration; of two entries with one name the later one stays, at the
    /// place of the earlier one.
    pub open spec fn resolved(self, platform: Platform) -> Result<
        internal::DotfilesModel,
        ResolveError,
    > {
        match self.failure(platform) {
            Some(error) => Err(error),
            None => Ok(
                internal::DotfilesModel {
                    git: collect(named_git(self.git@, platform)),
                    local: collect(named_local(self.local@, platform)),
                    http: collect(named_http(self.http@, platform)),
                },
            ),
        }
    }

    /// Resolves every entry for `platform` and indexes each kind by name.
    pub fn to_internal(&self, platform: Platform) -> (outcome: Result<
        internal::Dotfiles,
        ResolveError,
    >)
        ensures
            match self.resolved(platform) {
                Ok(model) => outcome is Ok && outcome->Ok_0@ == model,
                Err(error) => outcome is Err && outcome->Err_0 == error,
            },
    {
        let git = match git_to_internal(&self.git, platform) {
            Ok(git) => git,
            Err(error) => {
                return Err(error);
            },
        };
        let local = match local_to_internal(&self.local, platform) {
            Ok(local) => local,
            Err(error) => {
                return Err(error);
            },
        };
        let http = match http_to_internal(&self.http, platform) {
            Ok(http) => http,
            Err(error) => {
                return Err(error);
            },
        };
        Ok(internal::Dotfiles { git, local, http })
    }
}

/// The options block, as declared.
#[derive(Debug)]
pub struct Options {
    pub editor: Option<Value<String>>,
    pub trash_cmd: Option<Value<Vec<String>>>,
}

/// A whole configuration of version 1, as declared.
#[derive(Debug)]
pub struct ConfigV1 {
    pub env: IndexMap<String, Value<String>>,
    pub options: Options,
    pub dotfiles: Dotfiles,
}

/// What a map of declared environment variables holds: name and declared
/// value, in iteration order.
pub uninterp spec fn env_declarations(map: IndexMap<String, Value<String>>) -> Entries<
    Value<String>,
>;

/// `IndexMap::iter`, collected: the pairs of the map in its order, and no
/// name twice among them.
#[verifier::external_body]
fn declared_env(map: &IndexMap<String, Value<String>>) -> (pairs: Vec<(&String, &Value<String>)>)
    ensures
        pairs@.len() == env_declarations(*map).len(),
        forall|i: int|
            0 <= i < pairs@.len() ==> (#[trigger] pairs@[i]).0@ == env_declarations(*map)[i].0
                && *pairs@[i].1 == env_declarations(*map)[i].1,
        forall|i: int, j: int|
            0 <= i < j < pairs@.len() ==> (#[trigger] pairs@[i]).0@ != (#[trigger] pairs@[j]).0@,
{
    map.iter().collect()
}

/// The variables that have a value on `platform`, each with that value, in
/// order of declaration. A variable without a value there is left out.
pub open spec fn effective_env(declared: Entries<Value<String>>, platform: Platform) -> Entries<
    String,
>
    decreases declared.len(),
{
    if declared.len() == 0 {
        Seq::empty()
    } else {
        let front = effective_env(declared.drop_last(), platform);
        match declared.last().1.chosen(platform) {
            Some(value) => front.push((declared.last().0, value)),
            None => front,
        }
    }
}

/// A variable that is in effect was declared.
proof fn lemma_effective_env_keys(
    declared: Entries<Value<String>>,
    platform: Platform,
    name: Seq<char>,
)
    requires
        has_key(effective_env(declared, platform), name),
    ensures
        has_key(declared, name),
    decreases declared.len(),
{
    if declared.len() > 0 {
        let front = declared.drop_last();
        let held = effective_env(front, platform);
        let all = effective_env(declared, platform);
        let n = choose|n: int| 0 <= n < all.len() && (#[trigger] all[n]).0 == name;
        if n < held.len() {
            assert(held[n].0 == name);
            lemma_effective_env_keys(front, platform, name);
            let i = choose|i: int| 0 <= i < front.len() && (#[trigger] front[i]).0 == name;
            assert(declared[i].0 == name);
        } else {
            assert(declared[declared.len() - 1].0 == name);
        }
    }
}

impl ConfigV1 {
    /// What the configuration resolves to on `platform`: the variables in
    /// effect, the options chosen, and the set of entries, or the failure of
    /// that set.
    pub open spec fn resolved(self, platform: Platform) -> Result<
        internal::ConfigModel,
        ResolveError,
    > {
        match self.dotfiles.resolved(platform) {
            Err(error) => Err(error),
            Ok(dotfiles) => Ok(
                internal::ConfigModel {
                    env: effective_env(env_declarations(self.env), platform),
                    editor: chosen_optional(self.options.editor, platform),
                    trash_cmd: match chosen_optional(self.options.trash_cmd, platform) {
                        Some(words) => Some(words@),
                        None => None,
                    },
                    dotfiles,
                },
            ),
        }
    }

    /// Resolves the configuration for `platform`.
    pub fn to_internal(&self, platform: Platform) -> (outcome: Result<
        internal::ConfigInternal,
        ResolveError,
    >)
        ensures
            match self.resolved(platform) {
                Ok(model) => outcome is Ok && outcome->Ok_0@ == model,
                Err(error) => outcome is Err && outcome->Err_0 == error,
            },
    {
        let pairs = declared_env(&self.env);
        let ghost declared = env_declarations(self.env);
        let mut env = internal::new_env_map();
        let mut i: usize = 0;
        proof {
            assert(declared.take(0) =~= Seq::empty());
            assert forall|a: int, b: int| 0 <= a < b < declared.len() implies (
            #[trigger] declared[a]).0 != (#[trigger] declared[b]).0 by {
                assert(pairs@[a].0@ != pairs@[b].0@);
            }
        }
        while i < pairs.len()
            invariant
                i <= pairs.len(),
                pairs@.len() == declared.len(),
                forall|k: int|
                    0 <= k < pairs@.len() ==> (#[trigger] pairs@[k]).0@ == declared[k].0
                        && *pairs@[k].1 == declared[k].1,
                distinct_keys(declared),
                internal::env_entries(env) == effective_env(declared.take(i as int), platform),
            decreases pairs.len() - i,
        {
            let (name, value) = pairs[i];
            proof {
                assert(declared.take(i + 1).drop_last() =~= declared.take(i as int));
                assert(declared.take(i + 1).last() == declared[i as int]);
            }
            match value.resovle(platform) {
                Some(resolved) => {
                    proof {
                        let held = effective_env(declared.take(i as int), platform);
                        if has_key(held, name@) {
                            lemma_effective_env_keys(declared.take(i as int), platform, name@);
                            let k = choose|k: int|
                                0 <= k < i && (#[trigger] declared.take(i as int)[k]).0 == name@;
                            assert(declared[k].0 != declared[i as int].0);
                        }
                        assert(ordered_insert(held, name@, resolved) == held.push(
                            (name@, resolved),
                        ));
                    }
                    internal::insert_env(&mut env, name.clone(), resolved);
                },
                None => {},
            }
            i += 1;
        }
        proof {
            assert(declared.take(i as int) =~= declared);
        }
        let editor = resolve_optional(&self.options.editor, platform);
        let trash_cmd = resolve_optional(&self.options.trash_cmd, platform);
        let dotfiles = match self.dotfiles.to_internal(platform) {
            Ok(dotfiles) => dotfiles,
            Err(error) => {
                return Err(error);
            },
        };
        Ok(internal::ConfigInternal { env, editor, trash_cmd, dotfiles })
    }
}

} // verus!
