//! The nine base types of a conventional commit.

use vstd::prelude::*;
use vstd::string::StringExecFns;

verus! {

/// A base type of a conventional commit.
#[derive(Clone, Copy, Debug, PartialEq, Eq, Structural)]
pub enum CommitType {
    Feat,
    Fix,
    Chore,
    Ci,
    Docs,
    Style,
    Refactor,
    Perf,
    Test,
}

/// The base types in the order in which they are offered.
pub open spec fn offered_types() -> Seq<CommitType> {
    seq![
        CommitType::Feat,
        CommitType::Fix,
        CommitType::Chore,
        CommitType::Ci,
        CommitType::Docs,
        CommitType::Style,
        CommitType::Refactor,
        CommitType::Perf,
        CommitType::Test,
    ]
}

/// Whether `text` is the name of a base type.
pub open spec fn is_base_type(text: Seq<char>) -> bool {
    exists|t: CommitType| t.name() == text
}

impl CommitType {
    /// The name under which the type stands in a message.
    pub open spec fn name(self) -> Seq<char> {
        match self {
            CommitType::Feat => "feat"@,
            CommitType::Fix => "fix"@,
            CommitType::Chore => "chore"@,
            CommitType::Ci => "ci"@,
            CommitType::Docs => "docs"@,
            CommitType::Style => "style"@,
            CommitType::Refactor => "refactor"@,
            CommitType::Perf => "perf"@,
            CommitType::Test => "test"@,
        }
    }

    /// The type's name.
    pub fn as_str(self) -> (r: &'static str)
        ensures
            r@ == self.name(),
    {
        match self {
            CommitType::Feat => "feat",
            CommitType::Fix => "fix",
            CommitType::Chore => "chore",
            CommitType::Ci => "ci",
            CommitType::Docs => "docs",
            CommitType::Style => "style",
            CommitType::Refactor => "refactor",
            CommitType::Perf => "perf",
            CommitType::Test => "test",
        }
    }

    /// All base types, in the order of [`offered_types`].
    pub fn all() -> (r: Vec<CommitType>)
        ensures
            r@ == offered_types(),
    {
        let mut types: Vec<CommitType> = Vec::new();
        types.push(CommitType::Feat);
        types.push(CommitType::Fix);
        types.push(CommitType::Chore);
        types.push(CommitType::Ci);
        types.push(CommitType::Docs);
        types.push(CommitType::Style);
        types.push(CommitType::Refactor);
        types.push(CommitType::Perf);
        types.push(CommitType::Test);
        assert(types@ =~= offered_types());
        types
    }

    /// The base type that `text` names, if it names one.
    pub fn parse(text: &str) -> (r: Option<CommitType>)
        ensures
            match r {
                Some(t) => t.name() == text@,
                None => !is_base_type(text@),
            },
            forall|t: CommitType| t.name() == text@ ==> r == Some(t),
    {
        let types = CommitType::all();
        let wanted = String::from_str(text);
        let mut i: usize = 0;
        while i < types.len()
            invariant
                i <= types.len(),
                types@ == offered_types(),
                wanted@ == text@,
                forall|j: int| 0 <= j < i ==> types@[j].name() != text@,
            decreases types.len() - i,
        {
            let candidate = types[i];
            if String::from_str(candidate.as_str()) == wanted {
                proof {
                    assert forall|t: CommitType| t.name() == text@ implies t == candidate by {
                        lemma_names_differ(t, candidate);
                    }
                }
                return Some(candidate);
            }
            i += 1;
        }
        proof {
            lemma_every_type_is_offered();
        }
        None
    }
}

/// The length of a base type's name and the character it begins with.
proof fn lemma_name_shape(t: CommitType)
    ensures
        match t {
            CommitType::Feat => t.name().len() == 4 && t.name()[0] == 'f',
            CommitType::Fix => t.name().len() == 3 && t.name()[0] == 'f',
            CommitType::Chore => t.name().len() == 5 && t.name()[0] == 'c',
            CommitType::Ci => t.name().len() == 2 && t.name()[0] == 'c',
            CommitType::Docs => t.name().len() == 4 && t.name()[0] == 'd',
            CommitType::Style => t.name().len() == 5 && t.name()[0] == 's',
            CommitType::Refactor => t.name().len() == 8 && t.name()[0] == 'r',
            CommitType::Perf => t.name().len() == 4 && t.name()[0] == 'p',
            CommitType::Test => t.name().len() == 4 && t.name()[0] == 't',
        },
{
    reveal_strlit("feat");
    reveal_strlit("fix");
    reveal_strlit("chore");
    reveal_strlit("ci");
    reveal_strlit("docs");
    reveal_strlit("style");
    reveal_strlit("refactor");
    reveal_strlit("perf");
    reveal_strlit("test");
}

/// Different base types have different names.
pub proof fn lemma_names_differ(a: CommitType, b: CommitType)
    requires
        a.name() == b.name(),
    ensures
        a == b,
{
    lemma_name_shape(a);
    lemma_name_shape(b);
}

/// Every base type stands in [`offered_types`].
pub proof fn lemma_every_type_is_offered()
    ensures
        forall|t: CommitType| offered_types().contains(t),
{
    assert forall|t: CommitType| offered_types().contains(t) by {
        let k: int = match t {
            CommitType::Feat => 0,
            CommitType::Fix => 1,
            CommitType::Chore => 2,
            CommitType::Ci => 3,
            CommitType::Docs => 4,
            CommitType::Style => 5,
            CommitType::Refactor => 6,
            CommitType::Perf => 7,
            CommitType::Test => 8,
        };
        assert(offered_types()[k] == t);
    }
}

} // verus!
