//! The operator's answer to whether to continue.

use vstd::prelude::*;

verus! {

/// The text without its leading and trailing whitespace.
pub uninterp spec fn trim_of(s: Seq<char>) -> Seq<char>;

/// The text in lower case.
pub uninterp spec fn lower_of(s: Seq<char>) -> Seq<char>;

/// Relies on `str::trim`: the text without leading and trailing whitespace.
#[verifier::external_body]
fn trimmed(s: &str) -> (r: &str)
    ensures
        r@ == trim_of(s@),
{
    s.trim()
}

/// Relies on `str::to_lowercase`: the text in lower case.
#[verifier::external_body]
fn lowercase(s: &str) -> (r: String)
    ensures
        r@ == lower_of(s@),
{
    s.to_lowercase()
}

/// Whether an answer, already trimmed and in lower case, accepts.
pub fn answer_is_yes(answer: &str) -> (r: bool)
    ensures
        r == (answer@ == "y"@),
{
    let y = "y".to_owned();
    let a = answer.to_owned();
    a == y
}

/// Whether a line that the operator typed accepts: it reads `y`, in either
/// case, between any whitespace.
pub fn accepts_answer(line: &str) -> (r: bool)
    ensures
        r == (lower_of(trim_of(line@)) == "y"@),
{
    let lowered = lowercase(trimmed(line));
    answer_is_yes(lowered.as_str())
}

} // verus!
