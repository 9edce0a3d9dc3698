//! Configuration of the firmware: `printer.toml`, `motion.toml`,
//! `network.toml`, `temperature.toml`.
//!
//! Parsing and writing TOML is done by the caller; this module holds the
//! configuration types the verified logic reads and the rule that decides
//! whether a stored section is used at all.
pub mod network;
pub mod printer;
pub mod temperature;

use crate::text::trim;
use vstd::prelude::*;

verus! {

/// Whether the text of a stored section counts as present: it is not made
/// of white space alone.
pub open spec fn section_present(text: Seq<char>) -> bool {
    trim(text).len() > 0
}

/// The text of a configuration section that should be parsed, or `None`
/// when the section is missing or blank and its defaults apply.
pub fn section_text<'a>(source: Option<&'a str>) -> (r: Option<&'a str>)
    ensures
        source is None ==> r is None,
        source matches Some(t) ==> (if section_present(t@) {
            r == Some(t)
        } else {
            r is None
        }),
{
    match source {
        Some(text) => {
            let chars = crate::text::chars_of(text);
            let trimmed = crate::text::trim_chars(chars.as_slice());
            if trimmed.len() > 0 {
                Some(text)
            } else {
                None
            }
        },
        None => None,
    }
}

} // verus!
