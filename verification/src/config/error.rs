//! Why a configuration could not be resolved.

use vstd::prelude::*;

verus! {

/// The kinds of dotfile entry; each kind has a namespace of its own.
#[derive(Clone, Copy, Debug, PartialEq, Eq, Structural)]
pub enum EntryKind {
    Git,
    Local,
    Http,
}

/// The fields of an entry that must resolve to a value.
#[derive(Clone, Copy, Debug, PartialEq, Eq, Structural)]
pub enum Field {
    Repo,
    Src,
    Url,
    Dest,
    Method,
}

/// A required field of a named entry has no value on the platform that the
/// configuration is resolved for.
#[derive(Debug, PartialEq, Eq)]
pub struct ResolveError {
    pub kind: EntryKind,
    pub field: Field,
    /// The name of the entry that failed.
    pub name: String,
}

impl EntryKind {
    /// How messages call an entry of this kind.
    pub open spec fn label(self) -> Seq<char> {
        match self {
            EntryKind::Git => "git"@,
            EntryKind::Local => "local"@,
            EntryKind::Http => "HTTP"@,
        }
    }

    /// The word by which messages call an entry of this kind.
    pub fn as_str(&self) -> (text: &'static str)
        ensures
            text@ == self.label(),
    {
        match self {
            EntryKind::Git => "git",
            EntryKind::Local => "local",
            EntryKind::Http => "HTTP",
        }
    }
}

impl Field {
    /// How messages call this field.
    pub open spec fn label(self) -> Seq<char> {
        match self {
            Field::Repo => "repo URL"@,
            Field::Src => "src path"@,
            Field::Url => "URL"@,
            Field::Dest => "dest path"@,
            Field::Method => "method"@,
        }
    }

    /// The words by which messages call this field.
    pub fn as_str(&self) -> (text: &'static str)
        ensures
            text@ == self.label(),
    {
        match self {
            Field::Repo => "repo URL",
            Field::Src => "src path",
            Field::Url => "URL",
            Field::Dest => "dest path",
            Field::Method => "method",
        }
    }
}

impl Clone for ResolveError {
    fn clone(&self) -> (copy: Self)
        ensures
            copy == *self,
    {
        ResolveError { kind: self.kind, field: self.field, name: self.name.clone() }
    }
}

impl ResolveError {
    /// The text of the message: which field of which entry failed.
    pub open spec fn text(self) -> Seq<char> {
        "Failed to resolve "@ + self.field.label() + " for "@ + self.kind.label()
            + " dotfile: "@ + self.name@
    }

    /// The message for the user, naming the field and the entry.
    pub fn message(&self) -> (text: String)
        ensures
            text@ == self.text(),
    {
        let mut text = String::from_str("Failed to resolve ");
        text.append(self.field.as_str());
        text.append(" for ");
        text.append(self.kind.as_str());
        text.append(" dotfile: ");
        text.append(self.name.as_str());
        text
    }
}

/// The error of the first failed outcome, if any outcome failed.
pub open spec fn first_error<V>(outcomes: Seq<Result<V, ResolveError>>) -> Option<ResolveError>
    decreases outcomes.len(),
{
    if outcomes.len() == 0 {
        None
    } else if outcomes[0] is Err {
        Some(outcomes[0]->Err_0)
    } else {
        first_error(outcomes.skip(1))
    }
}

/// Resolution stops at the first failure: where every outcome before
/// position `i` succeeded and the one at `i` failed, its error is reported.
pub proof fn lemma_first_error_at<V>(outcomes: Seq<Result<V, ResolveError>>, i: int)
    requires
        0 <= i < outcomes.len(),
        outcomes[i] is Err,
        forall|j: int| 0 <= j < i ==> (#[trigger] outcomes[j]) is Ok,
    ensures
        first_error(outcomes) == Some(outcomes[i]->Err_0),
    decreases i,
{
    if i > 0 {
        let rest = outcomes.skip(1);
        assert(outcomes[0] is Ok);
        assert forall|j: int| 0 <= j < i - 1 implies (#[trigger] rest[j]) is Ok by {
            assert(outcomes[j + 1] is Ok);
        }
        lemma_first_error_at(rest, i - 1);
    }
}

/// No error is reported exactly when every outcome succeeded.
pub proof fn lemma_first_error_none<V>(outcomes: Seq<Result<V, ResolveError>>)
    ensures
        first_error(outcomes) is None <==> forall|j: int|
            0 <= j < outcomes.len() ==> (#[trigger] outcomes[j]) is Ok,
    decreases outcomes.len(),
{
    if outcomes.len() > 0 {
        let rest = outcomes.skip(1);
        lemma_first_error_none(rest);
        if first_error(outcomes) is None {
            assert forall|j: int| 0 <= j < outcomes.len() implies (#[trigger] outcomes[j]) is Ok by {
                if j > 0 {
                    assert(rest[j - 1] is Ok);
                }
            }
        } else if outcomes[0] is Ok {
            let j = choose|j: int| 0 <= j < rest.len() && !((#[trigger] rest[j]) is Ok);
            assert(!(outcomes[j + 1] is Ok));
        }
    }
}

} // verus!
