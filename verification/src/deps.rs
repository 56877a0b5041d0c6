//! Decisions about the host's tools: which are missing, and how the user
//! answers a yes/no question.
use vstd::prelude::*;
use vstd::string::*;
use crate::text::{lemma_trim_idempotent, same_text, trim, trim_text};

verus! {

/// The warning shown when `openFPGALoader` is missing.
pub open spec fn missing_loader_warning() -> Seq<char> {
    "openFPGALoader not found. Run `vivado-mac install` to install it."@
}

/// The warning shown when XQuartz is missing.
pub open spec fn missing_xquartz_warning() -> Seq<char> {
    "XQuartz not found. Run `vivado-mac install` to install it."@
}

/// The warnings for the host's tools, in the order they are shown: one for
/// a missing `openFPGALoader`, then one for a missing XQuartz.
pub open spec fn host_dep_warnings(has_openfpgaloader: bool, has_xquartz: bool) -> Seq<Seq<char>> {
    (if has_openfpgaloader {
        Seq::empty()
    } else {
        seq![missing_loader_warning()]
    }) + (if has_xquartz {
        Seq::empty()
    } else {
        seq![missing_xquartz_warning()]
    })
}

/// The warnings to show about the host's tools, given whether
/// `openFPGALoader` and XQuartz were found; they never stop the program.
pub fn check_host_deps(has_openfpgaloader: bool, has_xquartz: bool) -> (warnings: Vec<String>)
    ensures
        warnings@.map_values(|w: String| w@) == host_dep_warnings(has_openfpgaloader, has_xquartz),
{
    let mut warnings: Vec<String> = Vec::new();
    if !has_openfpgaloader {
        warnings.push("openFPGALoader not found. Run `vivado-mac install` to install it.".to_string());
    }
    if !has_xquartz {
        warnings.push("XQuartz not found. Run `vivado-mac install` to install it.".to_string());
    }
    assert(warnings@.map_values(|w: String| w@) =~= host_dep_warnings(has_openfpgaloader, has_xquartz));
    warnings
}

/// The answers that mean yes: `y`, `Y`, `yes` or `Yes`, once trimmed.
pub open spec fn affirmative(answer: Seq<char>) -> bool {
    let a = trim(answer);
    a == "y"@ || a == "Y"@ || a == "yes"@ || a == "Yes"@
}

/// Whether the line the user typed answers a yes/no question with yes.
pub fn is_affirmative(answer: &str) -> (r: bool)
    ensures
        r == affirmative(answer@),
{
    let a = trim_text(answer);
    let s = a.as_str();
    same_text(s, "y") || same_text(s, "Y") || same_text(s, "yes") || same_text(s, "Yes")
}

/// Whitespace around an answer does not change it: an answer means what its
/// trimmed form means.
pub proof fn lemma_answer_ignores_padding(answer: Seq<char>)
    ensures
        affirmative(answer) == affirmative(trim(answer)),
{
    lemma_trim_idempotent(answer);
}

} // verus!
