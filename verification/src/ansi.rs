//! Removal of terminal control sequences from shell output before it is
//! shown to the approver.

use crate::outside::{decode_lossy, regex_replace_all, replace_all_matches, utf8_lossy};
use vstd::prelude::*;

verus! {

/// Select Graphic Rendition sequences (colours, bold, ...): `ESC [ ... m`.
pub open spec fn sgr_pattern() -> Seq<char> {
    "\\x1b\\[[0-9;]*m"@
}

/// Window-title sequences ended by a newline or by the end of the text.
pub open spec fn title_line_pattern() -> Seq<char> {
    "\\x1b\\]0;(.*?)(\\n|$)"@
}

/// Window-title sequences ended by BEL.
pub open spec fn title_bell_pattern() -> Seq<char> {
    "\\x1b\\]0;(.*?)\\a"@
}

/// `text` with every match of `pattern` removed.
pub open spec fn strip_matches(pattern: Seq<char>, text: Seq<char>) -> Seq<char> {
    regex_replace_all(pattern, text, ""@)->Some_0
}

/// The text of `output` (decoded leniently) with every match of the three
/// patterns removed, one pattern after the other.
pub open spec fn ansi_cleaned(output: Seq<u8>) -> Seq<char> {
    strip_matches(
        title_bell_pattern(),
        strip_matches(title_line_pattern(), strip_matches(sgr_pattern(), utf8_lossy(output))),
    )
}

/// Removes colour and window-title control sequences from raw shell
/// output.
pub fn ansi_clean_up(text: &[u8]) -> (cleaned: String)
    ensures
        cleaned@ == ansi_cleaned(text@),
{
    let decoded = decode_lossy(text);
    let t1 = replace_all_matches("\\x1b\\[[0-9;]*m", decoded.as_str(), "").unwrap();
    let t2 = replace_all_matches("\\x1b\\]0;(.*?)(\\n|$)", t1.as_str(), "").unwrap();
    replace_all_matches("\\x1b\\]0;(.*?)\\a", t2.as_str(), "").unwrap()
}

} // verus!
