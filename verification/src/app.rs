//! The known applications, their canonical tokens, and the dispatch layer.

use vstd::prelude::*;
use crate::tilix;
use crate::tilix::StoreView;

pub use crate::setting::Setting;

verus! {

/// How the dispatcher routed one application.
pub enum Applied {
    /// The store-backed adapter ran: the text to feed the store's load
    /// command, or its failure.
    Store(Result<String, AdapterError>),
    /// This application's adapter lives outside the library (a stub or a
    /// plain file write); the surrounding program invokes it with the same
    /// setting.
    Delegated,
}

/// A supported application.
///
/// The variants stand in a fixed declaration order, which is the order the
/// dispatcher sorts by; parsing goes by the canonical token of each variant.
#[derive(Clone, Copy, Debug, PartialEq, Eq, Structural, PartialOrd, Ord, Hash)]
pub enum App {
    /// The Alacritty terminal.
    Alacritty,
    /// The Atom editor.
    Atom,
    /// The Sublime Text editor.
    SublimeText,
    /// The native terminal of the platform.
    Terminal,
    /// The Visual Studio Code editor.
    VsCode,
    /// The Xcode development environment.
    Xcode,
}

/// Why one adapter invocation failed; fatal for that application only, never
/// for the run.
#[derive(Clone, Copy, Debug, PartialEq, Eq, Structural)]
pub enum AdapterError {
    /// A required command-line tool was not found on the execution search
    /// path.
    NotInstalled,
    /// The store could not be dumped, or the dump was not valid text.
    StoreUnreadable,
    /// The store's load command could not be reached or fed the new text.
    StoreWriteFailed,
}

impl AdapterError {
    /// A short, human-readable cause, for the one line printed per failure.
    pub fn message(self) -> (r: &'static str)
        ensures
            self == AdapterError::NotInstalled ==> r@ == "could not find the required tools"@,
            self == AdapterError::StoreUnreadable ==> r@ == "could not read the settings store"@,
            self == AdapterError::StoreWriteFailed ==> r@
                == "could not write the settings store"@,
    {
        match self {
            AdapterError::NotInstalled => "could not find the required tools",
            AdapterError::StoreUnreadable => "could not read the settings store",
            AdapterError::StoreWriteFailed => "could not write the settings store",
        }
    }
}

/// Decides whether two strings hold the same sequence of characters.
fn str_eq(a: &str, b: &str) -> (r: bool)
    ensures
        r == (a@ == b@),
{
    let x = a.to_owned();
    let y = b.to_owned();
    x == y
}

impl App {
    /// The canonical token of the application.
    pub open spec fn token_spec(self) -> Seq<char> {
        match self {
            App::Alacritty => "alacritty"@,
            App::Atom => "atom"@,
            App::SublimeText => "sublimetext"@,
            App::Terminal => "terminal"@,
            App::VsCode => "vscode"@,
            App::Xcode => "xcode"@,
        }
    }

    /// Where the application stands in the declaration order.
    pub open spec fn rank_spec(self) -> int {
        match self {
            App::Alacritty => 0,
            App::Atom => 1,
            App::SublimeText => 2,
            App::Terminal => 3,
            App::VsCode => 4,
            App::Xcode => 5,
        }
    }

    /// What parsing a token yields: the application whose canonical token it
    /// is, and nothing for every other string.
    pub open spec fn from_str_spec(s: Seq<char>) -> Option<App> {
        if s == "alacritty"@ {
            Some(App::Alacritty)
        } else if s == "atom"@ {
            Some(App::Atom)
        } else if s == "sublimetext"@ {
            Some(App::SublimeText)
        } else if s == "terminal"@ {
            Some(App::Terminal)
        } else if s == "vscode"@ {
            Some(App::VsCode)
        } else if s == "xcode"@ {
            Some(App::Xcode)
        } else {
            None
        }
    }

    /// Parses the string into a known app; the match is exact and
    /// case-sensitive.
    pub fn from_str(s: &str) -> (r: Option<App>)
        ensures
            r == Self::from_str_spec(s@),
    {
        if str_eq(s, "alacritty") {
            Some(App::Alacritty)
        } else if str_eq(s, "atom") {
            Some(App::Atom)
        } else if str_eq(s, "sublimetext") {
            Some(App::SublimeText)
        } else if str_eq(s, "terminal") {
            Some(App::Terminal)
        } else if str_eq(s, "vscode") {
            Some(App::VsCode)
        } else if str_eq(s, "xcode") {
            Some(App::Xcode)
        } else {
            None
        }
    }

    /// The canonical token of the application.
    pub fn token(self) -> (r: &'static str)
        ensures
            r@ == self.token_spec(),
    {
        match self {
            App::Alacritty => "alacritty",
            App::Atom => "atom",
            App::SublimeText => "sublimetext",
            App::Terminal => "terminal",
            App::VsCode => "vscode",
            App::Xcode => "xcode",
        }
    }

    /// Applies a setting state to the app, based on input arguments.
    ///
    /// The store-backed terminal adapter is decided here, from what the
    /// surrounding program observed of its store; every other application's
    /// adapter is an outside collaborator, and `Delegated` tells the
    /// surrounding program to invoke it.
    pub fn apply(self, setting: &Setting, store: &StoreView) -> (r: Applied)
        ensures
            self == App::Terminal ==> (r matches Applied::Store(res) && tilix::apply_matches(
                *setting,
                *store,
                res,
            )),
            self != App::Terminal ==> (r matches Applied::Delegated),
    {
        match self {
            App::Terminal => Applied::Store(tilix::apply(setting, store)),
            _ => Applied::Delegated,
        }
    }

    /// Every application, in declaration order; together with `token` this
    /// fixes the canonical tokens the adapters agree on.
    pub fn all() -> (r: Vec<App>)
        ensures
            r@ == seq![
                App::Alacritty,
                App::Atom,
                App::SublimeText,
                App::Terminal,
                App::VsCode,
                App::Xcode,
            ],
    {
        let mut r: Vec<App> = Vec::new();
        r.push(App::Alacritty);
        r.push(App::Atom);
        r.push(App::SublimeText);
        r.push(App::Terminal);
        r.push(App::VsCode);
        r.push(App::Xcode);
        proof {
            assert(r@ =~= seq![
                App::Alacritty,
                App::Atom,
                App::SublimeText,
                App::Terminal,
                App::VsCode,
                App::Xcode,
            ]);
        }
        r
    }
}

/// Parsing is a left inverse of the canonical token: the token of every
/// declared application parses back to exactly that application, and no
/// other string parses at all.
pub proof fn lemma_parse_token(a: App, s: Seq<char>)
    ensures
        App::from_str_spec(a.token_spec()) == Some(a),
        App::from_str_spec(s) == Some(a) ==> s == a.token_spec(),
{
    reveal_strlit("alacritty");
    reveal_strlit("atom");
    reveal_strlit("sublimetext");
    reveal_strlit("terminal");
    reveal_strlit("vscode");
    reveal_strlit("xcode");
    assert("alacritty"@.len() == 9);
    assert("atom"@.len() == 4);
    assert("sublimetext"@.len() == 11);
    assert("terminal"@.len() == 8);
    assert("vscode"@.len() == 6);
    assert("xcode"@.len() == 5);
    match a {
        App::Alacritty => assert(App::from_str_spec(a.token_spec()) == Some(a)),
        App::Atom => assert(App::from_str_spec(a.token_spec()) == Some(a)),
        App::SublimeText => assert(App::from_str_spec(a.token_spec()) == Some(a)),
        App::Terminal => assert(App::from_str_spec(a.token_spec()) == Some(a)),
        App::VsCode => assert(App::from_str_spec(a.token_spec()) == Some(a)),
        App::Xcode => assert(App::from_str_spec(a.token_spec()) == Some(a)),
    }
}

/// No two applications share a place in the declaration order.
proof fn lemma_rank_distinct(a: App, b: App)
    requires
        a.rank_spec() == b.rank_spec(),
    ensures
        a == b,
{
}

/// Decides whether the application was requested.
fn contains_app(apps: &Vec<App>, a: App) -> (r: bool)
    ensures
        r == apps@.contains(a),
{
    let mut i: usize = 0;
    while i < apps.len()
        invariant
            0 <= i <= apps@.len(),
            forall|j: int| 0 <= j < i ==> apps@[j] != a,
        decreases apps@.len() - i,
    {
        if apps[i] == a {
            return true;
        }
        i += 1;
    }
    false
}

/// Sorts the requested applications into declaration order and removes
/// duplicates, so that the dispatcher afterwards makes exactly one adapter
/// call per distinct requested application.
pub fn dedup_apps(apps: &Vec<App>) -> (r: Vec<App>)
    ensures
        forall|a: App| r@.contains(a) <==> apps@.contains(a),
        forall|i: int, j: int| 0 <= i < j < r@.len() ==> r@[i].rank_spec() < r@[j].rank_spec(),
{
    let all = App::all();
    let mut r: Vec<App> = Vec::new();
    let mut i: usize = 0;
    while i < all.len()
        invariant
            all@.len() == 6,
            forall|k: int| 0 <= k < 6 ==> (#[trigger] all@[k].rank_spec()) == k,
            0 <= i <= 6,
            forall|k: int| 0 <= k < r@.len() ==> (#[trigger] r@[k].rank_spec()) < i
                && apps@.contains(r@[k]),
            forall|a: App| a.rank_spec() < i ==> (r@.contains(a) <==> apps@.contains(a)),
            forall|k1: int, k2: int| 0 <= k1 < k2 < r@.len() ==> r@[k1].rank_spec()
                < r@[k2].rank_spec(),
        decreases 6 - i,
    {
        let ghost r_old = r@;
        let a = all[i];
        let requested = contains_app(apps, a);
        if requested {
            r.push(a);
        }
        proof {
            assert(a.rank_spec() == i as int);
            assert forall|b: App| #[trigger] b.rank_spec() < i as int + 1 implies (r@.contains(b)
                <==> apps@.contains(b)) by {
                if b.rank_spec() == i as int {
                    lemma_rank_distinct(a, b);
                    if requested {
                        assert(r@[r@.len() - 1] == a);
                        assert(r@.contains(b));
                    } else {
                        if r@.contains(b) {
                            let k = choose|k: int| 0 <= k < r@.len() && r@[k] == b;
                            assert(r@[k].rank_spec() < i as int);
                            assert(false);
                        }
                    }
                } else {
                    if r_old.contains(b) {
                        let k = choose|k: int| 0 <= k < r_old.len() && r_old[k] == b;
                        assert(r@[k] == b);
                    }
                    if r@.contains(b) {
                        let k = choose|k: int| 0 <= k < r@.len() && r@[k] == b;
                        if k < r_old.len() {
                            assert(r_old[k] == b);
                        } else {
                            assert(r@[k] == a);
                            assert(false);
                        }
                    }
                }
            }
        }
        i += 1;
    }
    proof {
        assert(forall|a: App| 0 <= #[trigger] a.rank_spec() < 6);
        assert forall|a: App| r@.contains(a) implies apps@.contains(a) by {
            let k = choose|k: int| 0 <= k < r@.len() && r@[k] == a;
            assert(apps@.contains(r@[k]));
        }
    }
    r
}

} // verus!
