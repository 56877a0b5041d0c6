//! Decisions of extracting the helper scripts into the data directory.
use vstd::prelude::*;
use vstd::string::*;
use crate::text::{ends_with_text, has_suffix, is_ws, same_text, trim, trim_text};

verus! {

/// The scripts must be written again: no version was recorded (the version
/// file could not be read), or the recorded one, trimmed, is not `current`.
pub open spec fn extraction_needed(recorded: Option<Seq<char>>, current: Seq<char>) -> bool {
    match recorded {
        None => true,
        Some(v) => trim(v) != current,
    }
}

/// Whether the scripts must be written again, given what the version file
/// holds (none when it could not be read) and the current version.
pub fn needs_extract(recorded: Option<String>, current: &str) -> (r: bool)
    ensures
        r == extraction_needed(
            match recorded {
                Some(v) => Some(v@),
                None => None,
            },
            current@,
        ),
{
    match recorded {
        None => true,
        Some(v) => {
            let t = trim_text(v.as_str());
            !same_text(t.as_str(), current)
        },
    }
}

/// The scripts that are made executable: shell and `expect` scripts.
pub open spec fn executable_script(name: Seq<char>) -> bool {
    has_suffix(name, ".sh"@) || has_suffix(name, ".exp"@)
}

/// Whether the script `name` is made executable (mode 0o755).
pub fn is_executable_script(name: &str) -> (r: bool)
    ensures
        r == executable_script(name@),
{
    ends_with_text(name, ".sh") || ends_with_text(name, ".exp")
}

/// Text with no whitespace at either end.
pub open spec fn unpadded(s: Seq<char>) -> bool {
    s.len() > 0 ==> !is_ws(s[0]) && !is_ws(s.last())
}

/// Once the scripts are written, the version file records the current
/// version, and the next run finds nothing to do: a recorded version that
/// is read back as it was written never asks for another extraction.
pub proof fn lemma_recorded_version_is_current(current: Seq<char>)
    requires
        unpadded(current),
    ensures
        !extraction_needed(Some(current), current),
{
    crate::text::lemma_trim_unpadded(current);
}

} // verus!
