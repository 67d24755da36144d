//! Prompt assembly: the staged diff concatenated with a fixed instruction
//! block that asks for a one-line commit message.

use vstd::prelude::*;

verus! {

/// The fixed instruction block appended after the diff text. It is a
/// constant and is never parameterized by configuration.
pub const INSTRUCTION: &'static str = "\nThe text above is a diff from a git commit, but it needs a commit message.\nWrite an appropriate commit message for the piece of code given above.\nMake it a one-liner and do not output anything beside the commit message.\n\n\n";

/// The prompt for a diff: the diff text followed verbatim by the fixed
/// instruction block.
pub open spec fn prompt_of(diff: Seq<char>) -> Seq<char> {
    diff + INSTRUCTION@
}

/// Builds the generation prompt for a staged diff. Pure: the result is a
/// function of the diff text alone, so building twice from the same text
/// yields the same prompt.
pub fn build_prompt(diff: &str) -> (p: String)
    ensures
        p@ == prompt_of(diff@),
{
    let mut p = diff.to_owned();
    p.append(INSTRUCTION);
    p
}

/// The prompt begins with the diff verbatim and ends with the fixed
/// instruction block.
pub proof fn lemma_prompt_structure(diff: Seq<char>)
    ensures
        prompt_of(diff).len() == diff.len() + INSTRUCTION@.len(),
        prompt_of(diff).subrange(0, diff.len() as int) == diff,
        prompt_of(diff).subrange(diff.len() as int, prompt_of(diff).len() as int) == INSTRUCTION@,
{
    assert(prompt_of(diff).subrange(0, diff.len() as int) =~= diff);
    assert(prompt_of(diff).subrange(diff.len() as int, prompt_of(diff).len() as int)
        =~= INSTRUCTION@);
}

} // verus!
