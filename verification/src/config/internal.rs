//! The resolved model: every value is concrete, and nothing in it depends
//! on the platform any more.

use crate::config::ordered::{ordered_insert, Entries};
use indexmap::IndexMap;
use vstd::prelude::*;

verus! {

/// How a local file is put in place.
#[derive(Clone, Copy, Debug, PartialEq, Eq, Structural)]
pub enum DotFileLocalMethod {
    Copy,
    Symlink,
}

/// A repository to check out at `dest`.
#[derive(Debug, PartialEq, Eq)]
pub struct DotfileGit {
    pub name: String,
    pub repo: String,
    pub branch: Option<String>,
    pub commit: Option<String>,
    pub dest: String,
}

/// A file of the configuration directory to put at `dest`.
#[derive(Debug, PartialEq, Eq)]
pub struct DotfileLocal {
    pub name: String,
    pub src: String,
    pub dest: String,
    pub method: DotFileLocalMethod,
}

/// A file to download to `dest`.
#[derive(Debug, PartialEq, Eq)]
pub struct DotfileHttp {
    pub name: String,
    pub url: String,
    pub dest: String,
}

/// The entries of each kind, indexed by name, in order of declaration.
#[derive(Debug)]
pub struct Dotfiles {
    pub git: IndexMap<String, DotfileGit>,
    pub local: IndexMap<String, DotfileLocal>,
    pub http: IndexMap<String, DotfileHttp>,
}

/// A whole configuration, resolved.
#[derive(Debug)]
pub struct ConfigInternal {
    pub env: IndexMap<String, String>,
    pub editor: Option<String>,
    pub trash_cmd: Option<Vec<String>>,
    pub dotfiles: Dotfiles,
}

impl Clone for DotfileGit {
    fn clone(&self) -> (copy: Self)
        ensures
            copy == *self,
    {
        DotfileGit {
            name: self.name.clone(),
            repo: self.repo.clone(),
            branch: self.branch.clone(),
            commit: self.commit.clone(),
            dest: self.dest.clone(),
        }
    }
}

impl Clone for DotfileLocal {
    fn clone(&self) -> (copy: Self)
        ensures
            copy == *self,
    {
        DotfileLocal {
            name: self.name.clone(),
            src: self.src.clone(),
            dest: self.dest.clone(),
            method: self.method,
        }
    }
}

impl Clone for DotfileHttp {
    fn clone(&self) -> (copy: Self)
        ensures
            copy == *self,
    {
        DotfileHttp { name: self.name.clone(), url: self.url.clone(), dest: self.dest.clone() }
    }
}

/// What a map of environment variables holds: name and value, in iteration
/// order.
pub uninterp spec fn env_entries(map: IndexMap<String, String>) -> Entries<String>;

/// What a map of git entries holds, in iteration order.
pub uninterp spec fn git_entries(map: IndexMap<String, DotfileGit>) -> Entries<DotfileGit>;

/// What a map of local entries holds, in iteration order.
pub uninterp spec fn local_entries(map: IndexMap<String, DotfileLocal>) -> Entries<DotfileLocal>;

/// What a map of HTTP entries holds, in iteration order.
pub uninterp spec fn http_entries(map: IndexMap<String, DotfileHttp>) -> Entries<DotfileHttp>;

/// `IndexMap::new`: the map it makes holds nothing.
#[verifier::external_body]
pub(crate) fn new_env_map() -> (map: IndexMap<String, String>)
    ensures
        env_entries(map) == Entries::<String>::empty(),
{
    IndexMap::new()
}

/// `IndexMap::insert`: a name that the map holds keeps its place and takes
/// the new value, any other name is added last.
#[verifier::external_body]
pub(crate) fn insert_env(map: &mut IndexMap<String, String>, name: String, value: String)
    ensures
        env_entries(*final(map)) == ordered_insert(env_entries(*old(map)), name@, value),
{
    map.insert(name, value);
}

/// `IndexMap::new`: the map it makes holds nothing.
#[verifier::external_body]
pub(crate) fn new_git_map() -> (map: IndexMap<String, DotfileGit>)
    ensures
        git_entries(map) == Entries::<DotfileGit>::empty(),
{
    IndexMap::new()
}

/// `IndexMap::insert`: a name that the map holds keeps its place and takes
/// the new entry, any other name is added last.
#[verifier::external_body]
pub(crate) fn insert_git(map: &mut IndexMap<String, DotfileGit>, name: String, entry: DotfileGit)
    ensures
        git_entries(*final(map)) == ordered_insert(git_entries(*old(map)), name@, entry),
{
    map.insert(name, entry);
}

/// `IndexMap::new`: the map it makes holds nothing.
#[verifier::external_body]
pub(crate) fn new_local_map() -> (map: IndexMap<String, DotfileLocal>)
    ensures
        local_entries(map) == Entries::<DotfileLocal>::empty(),
{
    IndexMap::new()
}

/// `IndexMap::insert`: a name that the map holds keeps its place and takes
/// the new entry, any other name is added last.
#[verifier::external_body]
pub(crate) fn insert_local(
    map: &mut IndexMap<String, DotfileLocal>,
    name: String,
    entry: DotfileLocal,
)
    ensures
        local_entries(*final(map)) == ordered_insert(local_entries(*old(map)), name@, entry),
{
    map.insert(name, entry);
}

/// `IndexMap::new`: the map it makes holds nothing.
#[verifier::external_body]
pub(crate) fn new_http_map() -> (map: IndexMap<String, DotfileHttp>)
    ensures
        http_entries(map) == Entries::<DotfileHttp>::empty(),
{
    IndexMap::new()
}

/// `IndexMap::insert`: a name that the map holds keeps its place and takes
/// the new entry, any other name is added last.
#[verifier::external_body]
pub(crate) fn insert_http(
    map: &mut IndexMap<String, DotfileHttp>,
    name: String,
    entry: DotfileHttp,
)
    ensures
        http_entries(*final(map)) == ordered_insert(http_entries(*old(map)), name@, entry),
{
    map.insert(name, entry);
}

/// What a set of entries holds.
pub struct DotfilesModel {
    pub git: Entries<DotfileGit>,
    pub local: Entries<DotfileLocal>,
    pub http: Entries<DotfileHttp>,
}

/// What a resolved configuration holds.
pub struct ConfigModel {
    pub env: Entries<String>,
    pub editor: Option<String>,
    pub trash_cmd: Option<Seq<String>>,
    pub dotfiles: DotfilesModel,
}

impl View for Dotfiles {
    type V = DotfilesModel;

    open spec fn view(&self) -> DotfilesModel {
        DotfilesModel {
            git: git_entries(self.git),
            local: local_entries(self.local),
            http: http_entries(self.http),
        }
    }
}

impl View for ConfigInternal {
    type V = ConfigModel;

    open spec fn view(&self) -> ConfigModel {
        ConfigModel {
            env: env_entries(self.env),
            editor: self.editor,
            trash_cmd: match self.trash_cmd {
                Some(words) => Some(words@),
                None => None,
            },
            dotfiles: self.dotfiles@,
        }
    }
}

} // verus!
