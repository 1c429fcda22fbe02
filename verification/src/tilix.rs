//! The store-backed terminal adapter.
//!
//! The adapter's store is a key/value service addressed through a dump
//! command and a load command, both speaking an INI-like block format:
//! `[section]` headers followed by `key='value'` lines. One invocation dumps
//! the store, resolves the active profile, extracts the current font
//! declaration, merges the requested change in, and loads a minimal section
//! back. The process interaction happens outside this library; this module
//! holds every decision between those steps, against an exact description of
//! the text handled.

use vstd::prelude::*;
use vstd::string::{StrSliceExecFns, StringExecFns};
use crate::app::AdapterError;
use crate::font::Font;
use crate::setting::Setting;

verus! {

/// The pattern occurs in `s` at position `i`.
pub open spec fn match_at(s: Seq<char>, pat: Seq<char>, i: int) -> bool {
    0 <= i && i + pat.len() <= s.len() && s.subrange(i, i + pat.len()) == pat
}

/// The first position at or after `from` where the nonempty pattern occurs;
/// nothing when it does not occur there, or when the pattern is empty.
pub open spec fn find_from(s: Seq<char>, pat: Seq<char>, from: int) -> Option<int>
    decreases s.len() - from,
{
    if from < 0 || pat.len() <= 0 || from + pat.len() > s.len() {
        None
    } else if match_at(s, pat, from) {
        Some(from)
    } else {
        find_from(s, pat, from + 1)
    }
}

/// A position before every match is skipped over without changing what is
/// found.
proof fn lemma_find_from_skip(s: Seq<char>, pat: Seq<char>, from: int, i: int)
    requires
        0 <= from <= i,
        forall|j: int| from <= j < i ==> !match_at(s, pat, j),
    ensures
        find_from(s, pat, from) == find_from(s, pat, i),
    decreases i - from,
{
    if from < i {
        lemma_find_from_skip(s, pat, from + 1, i);
    }
}

/// Decides whether the pattern occurs in `s` at position `i`.
fn match_at_exec(s: &str, pat: &str, i: usize, n: usize, m: usize) -> (r: bool)
    requires
        n == s@.len(),
        m == pat@.len(),
        i + m <= n,
    ensures
        r == match_at(s@, pat@, i as int),
{
    let mut j: usize = 0;
    while j < m
        invariant
            n == s@.len(),
            m == pat@.len(),
            i + m <= n,
            0 <= j <= m,
            forall|k: int| 0 <= k < j ==> s@[i + k] == pat@[k],
        decreases m - j,
    {
        if s.get_char(i + j) != pat.get_char(j) {
            proof {
                assert(s@.subrange(i as int, i + m)[j as int] == s@[i + j]);
            }
            return false;
        }
        j += 1;
    }
    proof {
        assert(s@.subrange(i as int, i + m) =~= pat@);
    }
    true
}

/// Finds the first occurrence of `pat` at or after `from` in `s`, counting
/// in characters.
fn find_str(s: &str, pat: &str, from: usize) -> (r: Option<usize>)
    ensures
        match r {
            Some(i) => find_from(s@, pat@, from as int) == Some(i as int),
            None => find_from(s@, pat@, from as int) is None,
        },
{
    let n = s.unicode_len();
    let m = pat.unicode_len();
    if m == 0 || from > n || m > n - from {
        return None;
    }
    let mut i: usize = from;
    while i <= n - m
        invariant
            n == s@.len(),
            m == pat@.len(),
            0 < m <= n,
            from <= i <= n - m + 1,
            forall|j: int| from <= j < i ==> !match_at(s@, pat@, j),
        decreases n - i,
    {
        if match_at_exec(s, pat, i, n, m) {
            proof {
                lemma_find_from_skip(s@, pat@, from as int, i as int);
            }
            return Some(i);
        }
        i += 1;
    }
    proof {
        lemma_find_from_skip(s@, pat@, from as int, i as int);
    }
    None
}

/// A found position carries its bounds: it lies at or after the start of the
/// search, the pattern occurs there, and it ends within the text.
proof fn lemma_find_from_bounds(s: Seq<char>, pat: Seq<char>, from: int)
    ensures
        find_from(s, pat, from) matches Some(i) ==> from <= i && match_at(s, pat, i) && i
            + pat.len() <= s.len(),
    decreases s.len() - from,
{
    if !(from < 0 || pat.len() <= 0 || from + pat.len() > s.len()) && !match_at(s, pat, from) {
        lemma_find_from_bounds(s, pat, from + 1);
    }
}

/// The profile identifier the terminal writes on its very first launch.
pub open spec fn first_run_id() -> Seq<char> {
    "2b7c4080-0ddd-46c5-8f23-563fd3ba789d"@
}

/// The block header of the first-launch profile, as the dump prints it.
pub open spec fn first_run_header() -> Seq<char> {
    "[profiles/2b7c4080-0ddd-46c5-8f23-563fd3ba789d]\n"@
}

/// The store's documented built-in font family.
pub open spec fn default_family() -> Seq<char> {
    "Monospace Regular"@
}

/// The store's documented built-in point size.
pub open spec fn default_size() -> Seq<char> {
    "12"@
}

/// Profile ID the terminal creates on first launch.
pub fn default_profile_id() -> (r: &'static str)
    ensures
        r@ == first_run_id(),
{
    "2b7c4080-0ddd-46c5-8f23-563fd3ba789d"
}

/// The identifier of the declared default profile: the text between the
/// quotes of the first `default='` after the first `[profiles]` block
/// header. Nothing when any of the three parts is missing.
pub open spec fn default_profile_spec(s: Seq<char>) -> Option<Seq<char>> {
    match find_from(s, "[profiles]"@, 0) {
        None => None,
        Some(h) => match find_from(s, "default='"@, h + "[profiles]"@.len()) {
            None => None,
            Some(d) => {
                let start = d + "default='"@.len();
                match find_from(s, "'"@, start) {
                    None => None,
                    Some(e) => Some(s.subrange(start, e)),
                }
            },
        },
    }
}

/// Which profile one invocation updates, and whether it must be declared
/// from scratch: the snapshot's declared default profile when there is one;
/// else the first-launch profile, when its header is present; else the
/// first-launch identifier again, for a profile written from scratch.
/// Resolution never fails.
pub open spec fn resolve_profile_spec(s: Seq<char>) -> (Seq<char>, bool) {
    match default_profile_spec(s) {
        Some(id) => (id, false),
        None => if find_from(s, first_run_header(), 0) is Some {
            (first_run_id(), false)
        } else {
            (first_run_id(), true)
        },
    }
}

/// A decimal digit.
pub open spec fn is_digit_char(c: char) -> bool {
    48 <= c as int <= 57
}

/// Where the maximal run of trailing decimal digits starts.
pub open spec fn digits_start(v: Seq<char>) -> int
    decreases v.len(),
{
    if v.len() > 0 && is_digit_char(v[v.len() - 1]) {
        digits_start(v.drop_last())
    } else {
        v.len() as int
    }
}

/// Splits a quoted font value into family and point size: the size is the
/// maximal run of trailing digits, the family what stands before it, less
/// one separating space. A value without trailing digits does not split.
pub open spec fn split_value_spec(v: Seq<char>) -> Option<(Seq<char>, Seq<char>)> {
    let k = digits_start(v);
    if k == v.len() {
        None
    } else {
        let size = v.subrange(k, v.len() as int);
        let head = v.subrange(0, k);
        let family = if head.len() > 0 && head[head.len() - 1] == ' ' {
            head.drop_last()
        } else {
            head
        };
        Some((family, size))
    }
}

/// The current font declaration for the profile: the value of the first
/// `font='` after the first `[profiles/<id>]` header, split into family and
/// size; the store's documented defaults when any part is missing or the
/// value carries no trailing point size.
pub open spec fn font_name_and_size_spec(profile_id: Seq<char>, s: Seq<char>) -> (
    Seq<char>,
    Seq<char>,
) {
    let header = "[profiles/"@ + profile_id + "]"@;
    let fallback = (default_family(), default_size());
    match find_from(s, header, 0) {
        None => fallback,
        Some(h) => match find_from(s, "font='"@, h + header.len()) {
            None => fallback,
            Some(f) => {
                let start = f + "font='"@.len();
                match find_from(s, "'"@, start) {
                    None => fallback,
                    Some(e) => match split_value_spec(s.subrange(start, e)) {
                        None => fallback,
                        Some(fs) => fs,
                    },
                }
            },
        },
    }
}

/// Decides whether the character is a decimal digit.
fn is_digit(c: char) -> (r: bool)
    ensures
        r == is_digit_char(c),
{
    let u = c as u32;
    48 <= u && u <= 57
}

/// Splits a quoted font value into family and trailing point size.
fn split_value(v: &str) -> (r: Option<(String, String)>)
    ensures
        match r {
            Some(p) => split_value_spec(v@) matches Some(q) && p.0@ == q.0 && p.1@ == q.1,
            None => split_value_spec(v@) is None,
        },
{
    let n = v.unicode_len();
    let mut k = n;
    proof {
        assert(v@.subrange(0, n as int) =~= v@);
    }
    while k > 0 && is_digit(v.get_char(k - 1))
        invariant
            n == v@.len(),
            0 <= k <= n,
            digits_start(v@) == digits_start(v@.subrange(0, k as int)),
        decreases k,
    {
        proof {
            assert(v@.subrange(0, k as int).drop_last() =~= v@.subrange(0, k as int - 1));
        }
        k -= 1;
    }
    proof {
        assert(digits_start(v@) == k);
    }
    if k == n {
        return None;
    }
    let size = v.substring_char(k, n).to_owned();
    let fam_end = if k > 0 && v.get_char(k - 1) == ' ' {
        k - 1
    } else {
        k
    };
    let family = v.substring_char(0, fam_end).to_owned();
    proof {
        if k > 0 && v@[k - 1] == ' ' {
            assert(v@.subrange(0, k as int).drop_last() =~= v@.subrange(0, k as int - 1));
        }
    }
    Some((family, size))
}

/// Resolves the profile one invocation updates, never failing: the declared
/// default profile, else the first-launch profile, else the first-launch
/// identifier for a profile written from scratch (second component true).
pub fn resolve_profile(snapshot: &str) -> (r: (String, bool))
    ensures
        r.0@ == resolve_profile_spec(snapshot@).0,
        r.1 == resolve_profile_spec(snapshot@).1,
{
    let n = snapshot.unicode_len();
    if let Some(h) = find_str(snapshot, "[profiles]", 0) {
        proof {
            lemma_find_from_bounds(snapshot@, "[profiles]"@, 0);
        }
        let plen = "[profiles]".unicode_len();
        if let Some(d) = find_str(snapshot, "default='", h + plen) {
            proof {
                lemma_find_from_bounds(snapshot@, "default='"@, h + plen);
            }
            let dlen = "default='".unicode_len();
            let start = d + dlen;
            if let Some(e) = find_str(snapshot, "'", start) {
                proof {
                    lemma_find_from_bounds(snapshot@, "'"@, start as int);
                }
                let id = snapshot.substring_char(start, e).to_owned();
                return (id, false);
            }
        }
    }
    if find_str(snapshot, "[profiles/2b7c4080-0ddd-46c5-8f23-563fd3ba789d]\n", 0).is_some() {
        (default_profile_id().to_owned(), false)
    } else {
        (default_profile_id().to_owned(), true)
    }
}

/// Obtain the current font name and size for the profile out of the
/// snapshot; the store's documented defaults when no declaration is there.
pub fn get_font_name_and_size(profile_id: &str, dconf_settings: &str) -> (r: (String, String))
    ensures
        r.0@ == font_name_and_size_spec(profile_id@, dconf_settings@).0,
        r.1@ == font_name_and_size_spec(profile_id@, dconf_settings@).1,
{
    let mut header = String::from_str("[profiles/");
    header.append(profile_id);
    header.append("]");
    proof {
        assert(header@ =~= "[profiles/"@ + profile_id@ + "]"@);
    }
    let n = dconf_settings.unicode_len();
    if let Some(h) = find_str(dconf_settings, header.as_str(), 0) {
        proof {
            lemma_find_from_bounds(dconf_settings@, header@, 0);
        }
        let hlen = header.as_str().unicode_len();
        if let Some(f) = find_str(dconf_settings, "font='", h + hlen) {
            proof {
                lemma_find_from_bounds(dconf_settings@, "font='"@, h + hlen);
            }
            let flen = "font='".unicode_len();
            let start = f + flen;
            if let Some(e) = find_str(dconf_settings, "'", start) {
                proof {
                    lemma_find_from_bounds(dconf_settings@, "'"@, start as int);
                }
                let value = dconf_settings.substring_char(start, e);
                if let Some(p) = split_value(value) {
                    return p;
                }
            }
        }
    }
    (String::from_str("Monospace Regular"), String::from_str("12"))
}

/// Return the requested font name or a fallback option.
pub fn unwrap_font<'a>(font: &'a Option<&'a Font>, fallback_font: &'a str) -> (r: &'a str)
    ensures
        match *font {
            Some(f) => r@ == f@,
            None => r@ == fallback_font@,
        },
{
    match font {
        Some(f) => f.as_str(),
        None => fallback_font,
    }
}

/// The family the merged declaration carries: the requested font when the
/// setting has one, else the current one.
pub open spec fn merged_family(setting: Setting, current: Seq<char>) -> Seq<char> {
    match setting.spec_font() {
        Some(f) => f@,
        None => current,
    }
}

/// The minimal section one invocation loads back into the store: the
/// profile's header, the font declaration, and the use-system-font switch
/// turned off; a profile written from scratch also gets a visible name.
pub open spec fn section_spec(
    id: Seq<char>,
    family: Seq<char>,
    size: Seq<char>,
    is_new: bool,
) -> Seq<char> {
    "[profiles/"@ + id + "]\n"@ + (if is_new {
        "visible-name='Default'\n"@
    } else {
        Seq::<char>::empty()
    }) + "font='"@ + family + " "@ + size + "'\nuse-system-font=false"@
}

/// The exact text one invocation feeds the store's load command, given the
/// captured snapshot: the resolved profile's section, with the requested
/// font merged over the current declaration, and the current size kept.
pub open spec fn payload_spec(setting: Setting, snap: Seq<char>) -> Seq<char> {
    let id = resolve_profile_spec(snap).0;
    let is_new = resolve_profile_spec(snap).1;
    let cur = if is_new {
        (default_family(), default_size())
    } else {
        font_name_and_size_spec(id, snap)
    };
    section_spec(id, merged_family(setting, cur.0), cur.1, is_new)
}

/// Computes the text to feed the store's load command.
pub fn payload(setting: &Setting, snapshot: &str) -> (r: String)
    ensures
        r@ == payload_spec(*setting, snapshot@),
{
    let resolved = resolve_profile(snapshot);
    let is_new = resolved.1;
    let cur = if is_new {
        (String::from_str("Monospace Regular"), String::from_str("12"))
    } else {
        get_font_name_and_size(resolved.0.as_str(), snapshot)
    };
    let fopt = setting.font();
    let family = unwrap_font(&fopt, cur.0.as_str());
    let mut out = String::from_str("[profiles/");
    out.append(resolved.0.as_str());
    out.append("]\n");
    if is_new {
        out.append("visible-name='Default'\n");
    }
    out.append("font='");
    out.append(family);
    out.append(" ");
    out.append(cur.1.as_str());
    out.append("'\nuse-system-font=false");
    proof {
        assert(out@ =~= payload_spec(*setting, snapshot@));
    }
    out
}

/// The colon-separated segments of an execution search path; a trailing or
/// doubled separator yields an empty segment, as the search treats it.
pub open spec fn split_search_path(s: Seq<char>) -> Seq<Seq<char>>
    decreases s.len(),
        via split_search_path_decreases
{
    match find_from(s, seq![':'], 0) {
        None => seq![s],
        Some(i) => seq![s.subrange(0, i)] + split_search_path(s.subrange(i + 1, s.len() as int)),
    }
}

#[via_fn]
proof fn split_search_path_decreases(s: Seq<char>) {
    lemma_find_from_bounds(s, seq![':'], 0);
}

/// The candidate file names `dir/program` that the preflight probes for a
/// tool, one per segment of the search path, in order. The surrounding
/// program checks which of them names an existing file.
pub fn search_path_candidates(path: &str, program: &str) -> (r: Vec<String>)
    ensures
        r@.len() == split_search_path(path@).len(),
        forall|k: int| 0 <= k < r@.len() ==> (#[trigger] r@[k])@ == split_search_path(path@)[k]
            + "/"@ + program@,
    decreases path@.len(),
{
    proof {
        reveal_strlit(":");
        assert(":"@ =~= seq![':']);
        lemma_find_from_bounds(path@, seq![':'], 0);
    }
    let n = path.unicode_len();
    match find_str(path, ":", 0) {
        None => {
            let mut c = path.to_owned();
            c.append("/");
            c.append(program);
            let mut v: Vec<String> = Vec::new();
            v.push(c);
            v
        },
        Some(i) => {
            let seg = path.substring_char(0, i);
            let rest = path.substring_char(i + 1, n);
            let mut c = seg.to_owned();
            c.append("/");
            c.append(program);
            let mut rest_v = search_path_candidates(rest, program);
            let ghost rv = rest_v@;
            let mut v: Vec<String> = Vec::new();
            v.push(c);
            v.append(&mut rest_v);
            proof {
                let sp = split_search_path(path@);
                assert(sp =~= seq![path@.subrange(0, i as int)] + split_search_path(
                    path@.subrange(i + 1, n as int),
                ));
                assert forall|k: int| 0 <= k < v@.len() implies (#[trigger] v@[k])@ == sp[k]
                    + "/"@ + program@ by {
                    if k > 0 {
                        assert(v@[k] == rv[k - 1]);
                    }
                }
            }
            v
        },
    }
}

/// What the surrounding program observed of the store before the merge: the
/// preflight result and the captured dump.
pub struct StoreView {
    /// Both the application's own tool and the store's tool were found on
    /// the execution search path.
    pub tools_installed: bool,
    /// The store dump, captured as text; nothing when the dump command
    /// failed or its output was not valid text.
    pub snapshot: Option<String>,
}

/// The outcome of one invocation of this adapter: the text to feed the
/// store's load command, or the first failure. Missing tools are fatal
/// before anything else; an unreadable store is fatal next; on a readable
/// store the merge itself never fails.
pub open spec fn apply_spec(setting: Setting, store: StoreView) -> Result<Seq<char>, AdapterError> {
    if !store.tools_installed {
        Err(AdapterError::NotInstalled)
    } else {
        match store.snapshot {
            None => Err(AdapterError::StoreUnreadable),
            Some(snap) => Ok(payload_spec(setting, snap@)),
        }
    }
}

/// The executable outcome `r` is the one `apply_spec` prescribes.
pub open spec fn apply_matches(
    setting: Setting,
    store: StoreView,
    r: Result<String, AdapterError>,
) -> bool {
    match r {
        Ok(p) => apply_spec(setting, store) matches Ok(q) && p@ == q,
        Err(e) => apply_spec(setting, store) == Err::<Seq<char>, AdapterError>(e),
    }
}

/// One invocation of the store-backed adapter. The surrounding program
/// checks the search path and dumps the store beforehand, and afterwards
/// feeds an `Ok` result to the store's load command (whose own failure it
/// reports as `StoreWriteFailed`).
pub fn apply(setting: &Setting, store: &StoreView) -> (r: Result<String, AdapterError>)
    ensures
        apply_matches(*setting, *store, r),
{
    if !store.tools_installed {
        return Err(AdapterError::NotInstalled);
    }
    match &store.snapshot {
        None => Err(AdapterError::StoreUnreadable),
        Some(snap) => Ok(payload(setting, snap.as_str())),
    }
}

/// Profile resolution never fails and follows the priority order: a
/// declared default profile wins even when the first-launch profile is also
/// present; else the first-launch profile when its header is present; and an
/// untouched store still yields the first-launch identifier, as a profile to
/// be written from scratch.
pub proof fn lemma_profile_resolution(s: Seq<char>)
    ensures
        default_profile_spec(s) matches Some(id) ==> resolve_profile_spec(s) == (id, false),
        default_profile_spec(s) is None && find_from(s, first_run_header(), 0) is Some
            ==> resolve_profile_spec(s) == (first_run_id(), false),
        default_profile_spec(s) is None && find_from(s, first_run_header(), 0) is None
            ==> resolve_profile_spec(s) == (first_run_id(), true),
{
}

/// A setting that carries no font leaves the current family untouched, so a
/// merge over an existing declaration preserves its family and size.
pub proof fn lemma_merge_keeps_current(setting: Setting, current: Seq<char>)
    requires
        setting.spec_font() is None,
    ensures
        merged_family(setting, current) == current,
{
}

/// A setting that carries a font determines the merged family by itself:
/// whatever declaration the store already holds, the same request merges to
/// the same family, so repeating an application cannot accumulate changes.
pub proof fn lemma_merge_requested_wins(setting: Setting, current: Seq<char>, f: Font)
    requires
        setting.spec_font() == Some(f),
    ensures
        merged_family(setting, current) == f@,
{
}

} // verus!
