//! The commit record and the message it is assembled into.

use vstd::prelude::*;
use vstd::string::StringExecFns;

use crate::commit_type::CommitType;

verus! {

/// What stands between the header's prefix and the subject.
pub open spec fn separator() -> Seq<char> {
    ": "@
}

/// What a breaking change puts directly behind the commit type.
pub open spec fn breaking_marker() -> Seq<char> {
    "!"@
}

/// What opens the breaking-change trailer, the blank line before it included.
pub open spec fn trailer_label() -> Seq<char> {
    "\n\nBREAKING CHANGE: "@
}

/// A commit type with a scope merged in: `type(scope)`. An empty scope is
/// no scope and leaves the type as it is.
pub open spec fn scoped(commit_type: Seq<char>, scope: Seq<char>) -> Seq<char> {
    if scope.len() == 0 {
        commit_type
    } else {
        commit_type + "("@ + scope + ")"@
    }
}

/// Whether `commit_type` is a base type, alone or with a scope merged in.
pub open spec fn is_conventional(commit_type: Seq<char>) -> bool {
    exists|t: CommitType, scope: Seq<char>| commit_type == scoped(t.name(), scope)
}

/// A commit under composition: its type (with the scope, once merged in),
/// its subject and an optional note on a breaking change.
#[derive(Debug, PartialEq, Eq)]
pub struct Commit {
    pub commit_type: String,
    pub message: String,
    pub breaking: Option<String>,
}

/// The mathematical value of a [`Commit`].
pub struct CommitView {
    pub commit_type: Seq<char>,
    pub message: Seq<char>,
    pub breaking: Option<Seq<char>>,
}

impl CommitView {
    /// The record that holds nothing yet.
    pub open spec fn empty() -> CommitView {
        CommitView { commit_type: Seq::empty(), message: Seq::empty(), breaking: None }
    }

    /// A note is present and holds text. An empty note is no note.
    pub open spec fn is_breaking(self) -> bool {
        self.breaking is Some && self.breaking->0.len() > 0
    }

    /// The message that the record stands for.
    pub open spec fn assembled(self) -> Seq<char> {
        if self.is_breaking() {
            self.commit_type + breaking_marker() + separator() + self.message + trailer_label()
                + self.breaking->0
        } else {
            self.commit_type + separator() + self.message
        }
    }
}

impl View for Commit {
    type V = CommitView;

    open spec fn view(&self) -> CommitView {
        CommitView {
            commit_type: self.commit_type@,
            message: self.message@,
            breaking: match self.breaking {
                Some(note) => Some(note@),
                None => None,
            },
        }
    }
}

impl Clone for Commit {
    fn clone(&self) -> (r: Commit)
        ensures
            r@ == self@,
    {
        Commit {
            commit_type: self.commit_type.clone(),
            message: self.message.clone(),
            breaking: match &self.breaking {
                Some(note) => Some(note.clone()),
                None => None,
            },
        }
    }
}

impl Default for Commit {
    fn default() -> (r: Commit)
        ensures
            r@ == CommitView::empty(),
    {
        Commit { commit_type: String::new(), message: String::new(), breaking: None }
    }
}

impl Commit {
    /// Whether the record carries a note on a breaking change with text in it.
    pub fn is_breaking(&self) -> (r: bool)
        ensures
            r == self@.is_breaking(),
    {
        match &self.breaking {
            Some(note) => !note.as_str().is_empty(),
            None => false,
        }
    }

    /// Merges `scope` into the commit type. An empty scope changes nothing.
    pub fn apply_scope(&mut self, scope: &str)
        ensures
            final(self)@ == (CommitView {
                commit_type: scoped(old(self)@.commit_type, scope@),
                ..old(self)@
            }),
    {
        if !scope.is_empty() {
            self.commit_type.append("(");
            self.commit_type.append(scope);
            self.commit_type.append(")");
        }
    }

    /// Assembles the message: `type: subject`, or, for a breaking change,
    /// `type!: subject`, a blank line and the `BREAKING CHANGE: ` trailer.
    pub fn to_string(&self) -> (r: String)
        ensures
            r@ == self@.assembled(),
    {
        let mut text = self.commit_type.clone();
        match &self.breaking {
            Some(note) if !note.as_str().is_empty() => {
                text.append("!");
                text.append(": ");
                text.append(self.message.as_str());
                text.append("\n\nBREAKING CHANGE: ");
                text.append(note.as_str());
            },
            _ => {
                text.append(": ");
                text.append(self.message.as_str());
            },
        }
        text
    }
}

/// A record whose type is a base type with the scope `scope` in brackets and
/// whose note is absent or empty assembles into `type(scope): subject`,
/// whatever the scope and the subject hold.
pub proof fn lemma_scoped_header(
    t: CommitType,
    scope: Seq<char>,
    subject: Seq<char>,
    breaking: Option<Seq<char>>,
)
    requires
        breaking is None || breaking->0.len() == 0,
    ensures
        (CommitView {
            commit_type: t.name() + "("@ + scope + ")"@,
            message: subject,
            breaking,
        }).assembled() == t.name() + "("@ + scope + ")"@ + ": "@ + subject,
{
}

/// The message of a record with a non-empty note `b` begins with the commit
/// type, `!` and `:`, in this order and with nothing between them, and ends
/// with a blank line and `BREAKING CHANGE: b`.
pub proof fn lemma_breaking_shape(c: CommitView)
    requires
        c.is_breaking(),
    ensures
        ({
            let text = c.assembled();
            let head = c.commit_type.len() as int;
            let tail = ("\n\nBREAKING CHANGE: "@ + c.breaking->0).len() as int;
            &&& text.len() >= head + 2 + tail
            &&& text.subrange(0, head) == c.commit_type
            &&& text[head] == '!'
            &&& text[head + 1] == ':'
            &&& text.subrange(text.len() - tail, text.len() as int) == "\n\nBREAKING CHANGE: "@
                + c.breaking->0
        }),
{
    reveal_strlit("!");
    reveal_strlit(": ");
    reveal_strlit("\n\nBREAKING CHANGE: ");
}

/// Assembly is a function of the record's three fields and of nothing else:
/// records that hold the same text assemble into the same message.
pub proof fn lemma_assembly_is_pure(a: Commit, b: Commit)
    requires
        a.commit_type@ == b.commit_type@,
        a.message@ == b.message@,
        a.breaking is Some <==> b.breaking is Some,
        a.breaking is Some ==> a.breaking->0@ == b.breaking->0@,
    ensures
        a@.assembled() == b@.assembled(),
{
}

} // verus!
