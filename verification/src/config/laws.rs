//! What holds of resolution as a whole: it is all or nothing, names stay
//! unique with the last declaration winning, and a configuration without
//! per-platform values comes out as it went in.

use crate::config::error::{lemma_first_error_none, EntryKind, Field, ResolveError};
use crate::config::internal;
use crate::config::ordered::{distinct_keys, is_last_of_key, Entries};
use crate::config::ordered::{lemma_collect_distinct, lemma_collect_identity, lemma_collect_last_wins};
use crate::config::v1::{chosen_optional, effective_env, env_declarations};
use crate::config::v1::{git_outcomes, http_outcomes, local_outcomes};
use crate::config::v1::{named_git, named_http, named_local};
use crate::config::v1::{ConfigV1, DotfileGit, DotfileHttp, DotfileLocal, Dotfiles, Value};
use crate::platform::Platform;
use vstd::prelude::*;

verus! {

/// An optional field is left out or given for all platforms.
pub open spec fn simple_optional<T>(field: Option<Value<T>>) -> bool {
    field matches Some(value) ==> value is Simple
}

/// The value of an optional field that is given for all platforms.
pub open spec fn plain_optional<T>(field: Option<Value<T>>) -> Option<T> {
    match field {
        Some(value) => Some(value->Simple_0),
        None => None,
    }
}

/// Every value of the git entry is given for all platforms.
pub open spec fn simple_git(entry: DotfileGit) -> bool {
    &&& entry.repo is Simple
    &&& entry.dest is Simple
    &&& simple_optional(entry.branch)
    &&& simple_optional(entry.commit)
}

/// The git entry with each value unwrapped.
pub open spec fn plain_git(entry: DotfileGit) -> internal::DotfileGit {
    internal::DotfileGit {
        name: entry.name,
        repo: entry.repo->Simple_0,
        branch: plain_optional(entry.branch),
        commit: plain_optional(entry.commit),
        dest: entry.dest->Simple_0,
    }
}

/// Every value of the local entry is given for all platforms.
pub open spec fn simple_local(entry: DotfileLocal) -> bool {
    &&& entry.src is Simple
    &&& entry.dest is Simple
    &&& entry.method is Simple
}

/// The local entry with each value unwrapped.
pub open spec fn plain_local(entry: DotfileLocal) -> internal::DotfileLocal {
    internal::DotfileLocal {
        name: entry.name,
        src: entry.src->Simple_0,
        dest: entry.dest->Simple_0,
        method: entry.method->Simple_0.internal(),
    }
}

/// Every value of the HTTP entry is given for all platforms.
pub open spec fn simple_http(entry: DotfileHttp) -> bool {
    &&& entry.url is Simple
    &&& entry.dest is Simple
}

/// The HTTP entry with each value unwrapped.
pub open spec fn plain_http(entry: DotfileHttp) -> internal::DotfileHttp {
    internal::DotfileHttp {
        name: entry.name,
        url: entry.url->Simple_0,
        dest: entry.dest->Simple_0,
    }
}

/// Every value of every entry is given for all platforms.
pub open spec fn simple_dotfiles(set: Dotfiles) -> bool {
    &&& forall|i: int| 0 <= i < set.git@.len() ==> simple_git(#[trigger] set.git@[i])
    &&& forall|i: int| 0 <= i < set.local@.len() ==> simple_local(#[trigger] set.local@[i])
    &&& forall|i: int| 0 <= i < set.http@.len() ==> simple_http(#[trigger] set.http@[i])
}

/// No two entries of one kind share a name.
pub open spec fn distinct_names(set: Dotfiles) -> bool {
    &&& forall|i: int, j: int|
        0 <= i < j < set.git@.len() ==> (#[trigger] set.git@[i]).name@ != (
        #[trigger] set.git@[j]).name@
    &&& forall|i: int, j: int|
        0 <= i < j < set.local@.len() ==> (#[trigger] set.local@[i]).name@ != (
        #[trigger] set.local@[j]).name@
    &&& forall|i: int, j: int|
        0 <= i < j < set.http@.len() ==> (#[trigger] set.http@[i]).name@ != (
        #[trigger] set.http@[j]).name@
}

/// The set with each value unwrapped, every entry under its name and in
/// its place.
pub open spec fn plain_dotfiles(set: Dotfiles) -> internal::DotfilesModel {
    internal::DotfilesModel {
        git: Seq::new(set.git@.len(), |i: int| (set.git@[i].name@, plain_git(set.git@[i]))),
        local: Seq::new(
            set.local@.len(),
            |i: int| (set.local@[i].name@, plain_local(set.local@[i])),
        ),
        http: Seq::new(set.http@.len(), |i: int| (set.http@[i].name@, plain_http(set.http@[i]))),
    }
}

/// Every value of the configuration is given for all platforms.
pub open spec fn simple_config(config: ConfigV1) -> bool {
    &&& forall|i: int|
        0 <= i < env_declarations(config.env).len() ==> (#[trigger] env_declarations(
            config.env,
        )[i]).1 is Simple
    &&& simple_optional(config.options.editor)
    &&& simple_optional(config.options.trash_cmd)
    &&& simple_dotfiles(config.dotfiles)
}

/// The declared variables with each value unwrapped.
pub open spec fn plain_env(declared: Entries<Value<String>>) -> Entries<String> {
    Seq::new(declared.len(), |i: int| (declared[i].0, declared[i].1->Simple_0))
}

/// The configuration with each value unwrapped.
pub open spec fn plain_config(config: ConfigV1) -> internal::ConfigModel {
    internal::ConfigModel {
        env: plain_env(env_declarations(config.env)),
        editor: plain_optional(config.options.editor),
        trash_cmd: match plain_optional(config.options.trash_cmd) {
            Some(words) => Some(words@),
            None => None,
        },
        dotfiles: plain_dotfiles(config.dotfiles),
    }
}

/// A git entry whose `repo` has a value and whose `dest` has none fails,
/// and the error names the entry and `dest`.
pub proof fn lemma_git_without_dest(entry: DotfileGit, platform: Platform)
    requires
        entry.repo.chosen(platform) is Some,
        entry.dest.chosen(platform) is None,
    ensures
        entry.resolved(platform) == Err::<internal::DotfileGit, ResolveError>(
            ResolveError { kind: EntryKind::Git, field: Field::Dest, name: entry.name },
        ),
{
}

/// Resolution of a set is all or nothing: it succeeds exactly when every
/// entry of every kind resolves.
pub proof fn lemma_all_or_nothing(set: Dotfiles, platform: Platform)
    ensures
        set.resolved(platform) is Ok <==> {
            &&& forall|i: int|
                0 <= i < set.git@.len() ==> (#[trigger] set.git@[i]).resolved(platform) is Ok
            &&& forall|i: int|
                0 <= i < set.local@.len() ==> (#[trigger] set.local@[i]).resolved(platform) is Ok
            &&& forall|i: int|
                0 <= i < set.http@.len() ==> (#[trigger] set.http@[i]).resolved(platform) is Ok
        },
{
    let git = git_outcomes(set.git@, platform);
    let local = local_outcomes(set.local@, platform);
    let http = http_outcomes(set.http@, platform);
    lemma_first_error_none(git);
    lemma_first_error_none(local);
    lemma_first_error_none(http);
    if set.resolved(platform) is Ok {
        assert forall|i: int| 0 <= i < set.git@.len() implies (#[trigger] set.git@[i]).resolved(
            platform,
        ) is Ok by {
            assert(git[i] is Ok);
        }
        assert forall|i: int| 0 <= i < set.local@.len() implies (
        #[trigger] set.local@[i]).resolved(platform) is Ok by {
            assert(local[i] is Ok);
        }
        assert forall|i: int| 0 <= i < set.http@.len() implies (#[trigger] set.http@[i]).resolved(
            platform,
        ) is Ok by {
            assert(http[i] is Ok);
        }
    }
}

/// A configuration resolves exactly when its set of entries does; one
/// entry that fails leaves nothing of the rest.
pub proof fn lemma_config_fails_with_its_entries(config: ConfigV1, platform: Platform)
    ensures
        config.resolved(platform) is Ok <==> config.dotfiles.resolved(platform) is Ok,
        config.dotfiles.resolved(platform) matches Err(error) ==> config.resolved(platform)
            == Err::<internal::ConfigModel, ResolveError>(error),
{
}

/// Within each kind a name occurs once in the resolved set, and the entry
/// under it is the one that was declared last under that name.
pub proof fn lemma_names_unique_last_wins(set: Dotfiles, platform: Platform)
    requires
        set.resolved(platform) is Ok,
    ensures
        ({
            let model = set.resolved(platform)->Ok_0;
            let git = named_git(set.git@, platform);
            let local = named_local(set.local@, platform);
            let http = named_http(set.http@, platform);
            &&& distinct_keys(model.git)
            &&& distinct_keys(model.local)
            &&& distinct_keys(model.http)
            &&& forall|i: int| #[trigger] is_last_of_key(git, i) ==> model.git.contains(git[i])
            &&& forall|i: int| #[trigger]
                is_last_of_key(local, i) ==> model.local.contains(local[i])
            &&& forall|i: int| #[trigger] is_last_of_key(http, i) ==> model.http.contains(http[i])
        }),
{
    let model = set.resolved(platform)->Ok_0;
    let git = named_git(set.git@, platform);
    let local = named_local(set.local@, platform);
    let http = named_http(set.http@, platform);
    lemma_collect_distinct(git);
    lemma_collect_distinct(local);
    lemma_collect_distinct(http);
    assert forall|i: int| #[trigger] is_last_of_key(git, i) implies model.git.contains(git[i]) by {
        lemma_collect_last_wins(git, i);
    }
    assert forall|i: int| #[trigger] is_last_of_key(local, i) implies model.local.contains(
        local[i],
    ) by {
        lemma_collect_last_wins(local, i);
    }
    assert forall|i: int| #[trigger] is_last_of_key(http, i) implies model.http.contains(
        http[i],
    ) by {
        lemma_collect_last_wins(http, i);
    }
}

/// A git entry without per-platform values resolves to itself on every
/// platform.
pub proof fn lemma_simple_git_round_trip(entry: DotfileGit, platform: Platform)
    requires
        simple_git(entry),
    ensures
        entry.resolved(platform) == Ok::<internal::DotfileGit, ResolveError>(plain_git(entry)),
{
    assert(chosen_optional(entry.branch, platform) == plain_optional(entry.branch));
    assert(chosen_optional(entry.commit, platform) == plain_optional(entry.commit));
}

/// A local entry without per-platform values resolves to itself on every
/// platform.
pub proof fn lemma_simple_local_round_trip(entry: DotfileLocal, platform: Platform)
    requires
        simple_local(entry),
    ensures
        entry.resolved(platform) == Ok::<internal::DotfileLocal, ResolveError>(
            plain_local(entry),
        ),
{
}

/// An HTTP entry without per-platform values resolves to itself on every
/// platform.
pub proof fn lemma_simple_http_round_trip(entry: DotfileHttp, platform: Platform)
    requires
        simple_http(entry),
    ensures
        entry.resolved(platform) == Ok::<internal::DotfileHttp, ResolveError>(plain_http(entry)),
{
}

/// A set without per-platform values and without repeated names resolves
/// to itself on every platform: every entry, value for value, under its
/// name and in its place.
pub proof fn lemma_simple_dotfiles_round_trip(set: Dotfiles, platform: Platform)
    requires
        simple_dotfiles(set),
        distinct_names(set),
    ensures
        set.resolved(platform) == Ok::<internal::DotfilesModel, ResolveError>(plain_dotfiles(set)),
{
    let git = named_git(set.git@, platform);
    let local = named_local(set.local@, platform);
    let http = named_http(set.http@, platform);
    let plain = plain_dotfiles(set);
    assert forall|i: int| 0 <= i < set.git@.len() implies (#[trigger] set.git@[i]).resolved(
        platform,
    ) == Ok::<internal::DotfileGit, ResolveError>(plain_git(set.git@[i])) by {
        lemma_simple_git_round_trip(set.git@[i], platform);
    }
    assert forall|i: int| 0 <= i < set.local@.len() implies (#[trigger] set.local@[i]).resolved(
        platform,
    ) == Ok::<internal::DotfileLocal, ResolveError>(plain_local(set.local@[i])) by {
        lemma_simple_local_round_trip(set.local@[i], platform);
    }
    assert forall|i: int| 0 <= i < set.http@.len() implies (#[trigger] set.http@[i]).resolved(
        platform,
    ) == Ok::<internal::DotfileHttp, ResolveError>(plain_http(set.http@[i])) by {
        lemma_simple_http_round_trip(set.http@[i], platform);
    }
    lemma_all_or_nothing(set, platform);
    assert(git =~= plain.git);
    assert(local =~= plain.local);
    assert(http =~= plain.http);
    assert(distinct_keys(git)) by {
        assert forall|i: int, j: int| 0 <= i < j < git.len() implies (#[trigger] git[i]).0 != (
        #[trigger] git[j]).0 by {
            assert(set.git@[i].name@ != set.git@[j].name@);
        }
    }
    assert(distinct_keys(local)) by {
        assert forall|i: int, j: int| 0 <= i < j < local.len() implies (#[trigger] local[i]).0
            != (#[trigger] local[j]).0 by {
            assert(set.local@[i].name@ != set.local@[j].name@);
        }
    }
    assert(distinct_keys(http)) by {
        assert forall|i: int, j: int| 0 <= i < j < http.len() implies (#[trigger] http[i]).0 != (
        #[trigger] http[j]).0 by {
            assert(set.http@[i].name@ != set.http@[j].name@);
        }
    }
    lemma_collect_identity(git);
    lemma_collect_identity(local);
    lemma_collect_identity(http);
}

/// Variables without per-platform values are all in effect, each with its
/// value.
pub proof fn lemma_simple_env_round_trip(declared: Entries<Value<String>>, platform: Platform)
    requires
        forall|i: int| 0 <= i < declared.len() ==> (#[trigger] declared[i]).1 is Simple,
    ensures
        effective_env(declared, platform) == plain_env(declared),
    decreases declared.len(),
{
    if declared.len() == 0 {
        assert(effective_env(declared, platform) =~= plain_env(declared));
    } else {
        let front = declared.drop_last();
        assert forall|i: int| 0 <= i < front.len() implies (#[trigger] front[i]).1 is Simple by {
            assert(declared[i].1 is Simple);
        }
        lemma_simple_env_round_trip(front, platform);
        assert(declared[declared.len() - 1].1 is Simple);
        assert(effective_env(declared, platform) =~= plain_env(declared));
    }
}

/// Round trip: a configuration without per-platform values and without
/// repeated entry names resolves, on every platform, to a model that is
/// value for value what was declared.
pub proof fn lemma_simple_config_round_trip(config: ConfigV1, platform: Platform)
    requires
        simple_config(config),
        distinct_names(config.dotfiles),
    ensures
        config.resolved(platform) == Ok::<internal::ConfigModel, ResolveError>(
            plain_config(config),
        ),
{
    lemma_simple_dotfiles_round_trip(config.dotfiles, platform);
    lemma_simple_env_round_trip(env_declarations(config.env), platform);
    assert(chosen_optional(config.options.editor, platform) == plain_optional(
        config.options.editor,
    ));
    assert(chosen_optional(config.options.trash_cmd, platform) == plain_optional(
        config.options.trash_cmd,
    ));
}

} // verus!
