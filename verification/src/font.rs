//! The validated font name and the ligature toggle.

use vstd::prelude::*;
use vstd::string::StrSliceExecFns;

verus! {

/// Whether orthographic ligatures are to be turned on or off.
#[derive(Clone, Copy, Debug, PartialEq, Eq, Structural)]
pub enum LigaturesFlag {
    /// Turn ligatures on.
    Enable,
    /// Turn ligatures off.
    Disable,
}

/// The set of characters the standard library counts as alphanumeric.
pub uninterp spec fn alphanumeric_of(c: char) -> bool;

/// Relies on char::is_alphanumeric: a pure classification that depends on the
/// character alone.
#[verifier::external_body]
fn char_is_alphanumeric(c: char) -> (r: bool)
    ensures
        r == alphanumeric_of(c),
{
    c.is_alphanumeric()
}

/// An ASCII character with a visible glyph (`!` through `~`).
pub open spec fn is_ascii_graphic_char(c: char) -> bool {
    0x21 <= c as int <= 0x7e
}

/// An acceptable character of a font name: not one of the five characters
/// that break quoting in the stores (newline, carriage return, tab, the two
/// quotes), and otherwise a space, an ASCII-graphic character, or an
/// alphanumeric character.
pub open spec fn is_valid_char_spec(c: char) -> bool {
    &&& c != '\n' && c != '\r' && c != '\t' && c != '"' && c != '\''
    &&& (c == ' ' || is_ascii_graphic_char(c) || alphanumeric_of(c))
}

/// Every character of the string is acceptable in a font name.
pub open spec fn is_valid_str_spec(s: Seq<char>) -> bool {
    forall|i: int| 0 <= i < s.len() ==> is_valid_char_spec(s[i])
}

/// An acceptable font name.
///
/// This exists to ensure the name does not contain characters that would
/// break the textual stores it is written into, such as quotes or line
/// breaks.
#[derive(Clone, Debug)]
pub struct Font {
    name: String,
}

impl View for Font {
    type V = Seq<char>;

    closed spec fn view(&self) -> Seq<char> {
        self.name@
    }
}

impl Font {
    /// The name only ever holds acceptable characters.
    pub open spec fn wf(&self) -> bool {
        is_valid_str_spec(self@)
    }

    /// Decides whether one character may appear in a font name.
    pub fn is_valid_char(ch: char) -> (r: bool)
        ensures
            r == is_valid_char_spec(ch),
    {
        if ch == '\n' || ch == '\r' || ch == '\t' || ch == '"' || ch == '\'' {
            false
        } else if ch == ' ' {
            true
        } else {
            let u = ch as u32;
            (0x21 <= u && u <= 0x7e) || char_is_alphanumeric(ch)
        }
    }

    /// Decides whether every character of the string may appear in a font
    /// name.
    pub fn is_valid_str(s: &str) -> (r: bool)
        ensures
            r == is_valid_str_spec(s@),
    {
        let len = s.unicode_len();
        let mut i: usize = 0;
        while i < len
            invariant
                len == s@.len(),
                0 <= i <= len,
                forall|j: int| 0 <= j < i ==> is_valid_char_spec(s@[j]),
            decreases len - i,
        {
            if !Self::is_valid_char(s.get_char(i)) {
                return false;
            }
            i += 1;
        }
        true
    }

    /// Parses the string as a valid font name; an unacceptable character
    /// rejects the whole name.
    pub fn parse(name: String) -> (r: Option<Font>)
        ensures
            match r {
                Some(f) => f@ == name@ && f.wf(),
                None => !is_valid_str_spec(name@),
            },
    {
        if Self::is_valid_str(name.as_str()) {
            Some(Font { name })
        } else {
            None
        }
    }

    /// Returns the name as a UTF-8 string.
    pub fn as_str(&self) -> (r: &str)
        ensures
            r@ == self@,
    {
        self.name.as_str()
    }
}

/// A string holding a quote, a tab, a newline, or a carriage return is never
/// an acceptable font name.
pub proof fn lemma_font_rejects(s: Seq<char>, i: int)
    requires
        0 <= i < s.len(),
        s[i] == '\n' || s[i] == '\r' || s[i] == '\t' || s[i] == '"' || s[i] == '\'',
    ensures
        !is_valid_str_spec(s),
{
}

/// A string made only of spaces, ASCII-graphic characters, and alphanumeric
/// characters is an acceptable font name, as long as none of its characters
/// is among the five that break quoting.
pub proof fn lemma_font_accepts(s: Seq<char>)
    requires
        forall|i: int| 0 <= i < s.len() ==> (#[trigger] s[i]) == ' '
            || is_ascii_graphic_char(s[i]) || alphanumeric_of(s[i]),
        forall|i: int| 0 <= i < s.len() ==> (#[trigger] s[i]) != '\n' && s[i] != '\r'
            && s[i] != '\t' && s[i] != '"' && s[i] != '\'',
    ensures
        is_valid_str_spec(s),
{
}

} // verus!
