//! The commit dispatcher: the call that hands a message to git, which
//! opens it in the editor before the commit is recorded.

use vstd::prelude::*;
use vstd::string::StringExecFns;

verus! {

/// A call of an external program.
#[derive(Debug, PartialEq, Eq)]
pub struct Invocation {
    pub program: String,
    pub args: Vec<String>,
}

/// The mathematical value of an [`Invocation`].
pub struct InvocationView {
    pub program: Seq<char>,
    pub args: Seq<Seq<char>>,
}

impl View for Invocation {
    type V = InvocationView;

    open spec fn view(&self) -> InvocationView {
        InvocationView { program: self.program@, args: self.args.deep_view() }
    }
}

/// The call that commits with `message` as the message to start from:
/// `git commit -m <message> -e`, the message being one argument, unchanged.
pub open spec fn commit_invocation(message: Seq<char>) -> InvocationView {
    InvocationView { program: "git"@, args: seq!["commit"@, "-m"@, message, "-e"@] }
}

/// The call that commits with `message` and lets the user edit it first.
pub fn commit_command(message: &str) -> (r: Invocation)
    ensures
        r@ == commit_invocation(message@),
{
    let mut args: Vec<String> = Vec::new();
    args.push(String::from_str("commit"));
    args.push(String::from_str("-m"));
    args.push(String::from_str(message));
    args.push(String::from_str("-e"));
    assert(args.deep_view() =~= commit_invocation(message@).args);
    Invocation { program: String::from_str("git"), args }
}

} // verus!
