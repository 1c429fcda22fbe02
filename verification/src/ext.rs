//! An extension capability for parsed command-line matches.

use vstd::prelude::*;
use crate::font::LigaturesFlag;

verus! {

/// An extension trait for the parsed command-line matches of the program.
///
/// The command-line layer implements it for its own match type; the decision
/// itself is `ligatures_flag_from`.
pub trait ArgMatchesExt {
    /// Returns the result of `--[no-]ligatures`.
    fn ligatures_flag(&self) -> Option<LigaturesFlag>;
}

/// The flag the two command-line switches yield: `--ligatures` enables,
/// else `--no-ligatures` disables, and neither leaves the flag unset.
pub fn ligatures_flag_from(ligatures: bool, no_ligatures: bool) -> (r: Option<LigaturesFlag>)
    ensures
        ligatures ==> r == Some(LigaturesFlag::Enable),
        !ligatures && no_ligatures ==> r == Some(LigaturesFlag::Disable),
        !ligatures && !no_ligatures ==> r is None,
{
    if ligatures {
        Some(LigaturesFlag::Enable)
    } else if no_ligatures {
        Some(LigaturesFlag::Disable)
    } else {
        None
    }
}

} // verus!
