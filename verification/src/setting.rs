//! The requested change: a font, a ligature toggle, or both.

use vstd::prelude::*;
use crate::font::{Font, LigaturesFlag};

verus! {

/// How to make changes to an app.
///
/// The state of having neither a font nor a ligatures flag is not possible.
/// This type makes that state unrepresentable, avoiding needing to do awkward
/// error handling for a state that can't happen.
#[derive(Clone, Debug)]
pub enum Setting {
    /// Only set the font.
    Font(Font),
    /// Only set orthographic ligatures.
    Ligatures(LigaturesFlag),
    /// Set both the font and orthographic ligatures.
    Both {
        font: Font,
        ligatures: LigaturesFlag,
    },
}

/// What building a setting out of two optional inputs yields: nothing when
/// both are absent, and otherwise exactly the variant that holds what was
/// given.
pub open spec fn construct(font: Option<Font>, ligatures: Option<LigaturesFlag>) -> Option<
    Setting,
> {
    match (font, ligatures) {
        (Some(f), Some(l)) => Some(Setting::Both { font: f, ligatures: l }),
        (Some(f), None) => Some(Setting::Font(f)),
        (None, Some(l)) => Some(Setting::Ligatures(l)),
        (None, None) => None,
    }
}

impl Setting {
    /// The font component, if the variant carries one.
    pub open spec fn spec_font(self) -> Option<Font> {
        match self {
            Setting::Font(f) => Some(f),
            Setting::Ligatures(_) => None,
            Setting::Both { font, .. } => Some(font),
        }
    }

    /// The ligature component, if the variant carries one.
    pub open spec fn spec_ligatures(self) -> Option<LigaturesFlag> {
        match self {
            Setting::Font(_) => None,
            Setting::Ligatures(l) => Some(l),
            Setting::Both { ligatures, .. } => Some(ligatures),
        }
    }

    /// Whatever font the setting carries is a well-formed font name.
    pub open spec fn wf(self) -> bool {
        match self.spec_font() {
            Some(f) => f.wf(),
            None => true,
        }
    }

    /// Builds the setting, or nothing when neither input is present.
    pub fn new(font: Option<Font>, ligatures: Option<LigaturesFlag>) -> (r: Option<Setting>)
        ensures
            r == construct(font, ligatures),
    {
        match (font, ligatures) {
            (Some(font), Some(ligatures)) => Some(Setting::Both { font, ligatures }),
            (Some(font), None) => Some(Setting::Font(font)),
            (None, Some(ligatures)) => Some(Setting::Ligatures(ligatures)),
            (None, None) => None,
        }
    }

    /// The font component, if the variant carries one.
    pub fn font(&self) -> (r: Option<&Font>)
        ensures
            r matches Some(f) ==> self.spec_font() == Some(*f),
            r is None ==> self.spec_font() is None,
    {
        match self {
            Setting::Font(f) => Some(f),
            Setting::Ligatures(_) => None,
            Setting::Both { font, .. } => Some(font),
        }
    }

    /// The ligature component, if the variant carries one.
    pub fn ligatures(&self) -> (r: Option<LigaturesFlag>)
        ensures
            r == self.spec_ligatures(),
    {
        match self {
            Setting::Font(_) => None,
            Setting::Ligatures(l) => Some(*l),
            Setting::Both { ligatures, .. } => Some(*ligatures),
        }
    }
}

/// Building a setting yields no value exactly when both inputs are absent;
/// for every other combination it yields a value whose accessors project the
/// original inputs back out.
pub proof fn lemma_setting_construction(font: Option<Font>, ligatures: Option<LigaturesFlag>)
    ensures
        construct(font, ligatures) is None <==> (font is None && ligatures is None),
        construct(font, ligatures) matches Some(s) ==> s.spec_font() == font
            && s.spec_ligatures() == ligatures,
{
}

} // verus!
