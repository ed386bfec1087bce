//! Text for the generated-message path: the staged patch as one text, and
//! the request that a language model is given with it.

use vstd::prelude::*;
use vstd::string::StringExecFns;

verus! {

/// Whether a patch line is an added, a removed or a context line, whose
/// origin marker belongs to its text.
pub open spec fn keeps_marker(origin: char) -> bool {
    origin == '+' || origin == '-' || origin == ' '
}

/// The text of one patch line: the content, behind the origin marker where
/// the line keeps it.
pub open spec fn patch_line(origin: char, content: Seq<char>) -> Seq<char> {
    if keeps_marker(origin) {
        seq![origin] + content
    } else {
        content
    }
}

/// The request that goes with the staged patch `info`.
pub open spec fn generation_request(info: Seq<char>) -> Seq<char> {
    "Write me a conventional commit message using the following: "@ + info
}

/// Appends one patch line to `output`.
pub fn push_patch_line(output: &mut String, origin: char, content: &str)
    ensures
        final(output)@ == old(output)@ + patch_line(origin, content@),
{
    proof {
        reveal_strlit("+");
        reveal_strlit("-");
        reveal_strlit(" ");
        assert("+"@ =~= seq!['+']);
        assert("-"@ =~= seq!['-']);
        assert(" "@ =~= seq![' ']);
    }
    if origin == '+' {
        output.append("+");
    } else if origin == '-' {
        output.append("-");
    } else if origin == ' ' {
        output.append(" ");
    }
    output.append(content);
    assert(final(output)@ =~= old(output)@ + patch_line(origin, content@));
}

/// The request to generate a commit message from the staged patch `info`.
pub fn generation_prompt(info: &str) -> (r: String)
    ensures
        r@ == generation_request(info@),
{
    let mut text = String::from_str("Write me a conventional commit message using the following: ");
    text.append(info);
    text
}

} // verus!
