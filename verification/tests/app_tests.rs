use fontset::app::{dedup_apps, AdapterError, App, Applied};
use fontset::ext::ligatures_flag_from;
use fontset::font::{Font, LigaturesFlag};
use fontset::setting::Setting;
use fontset::shared::Shared;
use fontset::tilix::StoreView;

#[test]
fn app_from_str_parses_all_tokens() {
    assert_eq!(App::from_str("alacritty"), Some(App::Alacritty));
    assert_eq!(App::from_str("atom"), Some(App::Atom));
    assert_eq!(App::from_str("sublimetext"), Some(App::SublimeText));
    assert_eq!(App::from_str("terminal"), Some(App::Terminal));
    assert_eq!(App::from_str("vscode"), Some(App::VsCode));
    assert_eq!(App::from_str("xcode"), Some(App::Xcode));
}

#[test]
fn app_from_str_round_trips_tokens() {
    for app in App::all() {
        assert_eq!(App::from_str(app.token()), Some(app));
    }
}

#[test]
fn app_from_str_rejects_unknown() {
    assert_eq!(App::from_str("notepad"), None);
    assert_eq!(App::from_str("Terminal"), None);
    assert_eq!(App::from_str("terminal "), None);
    assert_eq!(App::from_str(""), None);
}

#[test]
fn app_all_lists_every_token_once() {
    let tokens: Vec<&str> = App::all().into_iter().map(|a| a.token()).collect();
    assert_eq!(
        tokens,
        vec!["alacritty", "atom", "sublimetext", "terminal", "vscode", "xcode"]
    );
}

#[test]
fn dedup_terminal_twice_alacritty() {
    let requested = vec![App::Terminal, App::Terminal, App::Alacritty];
    let deduped = dedup_apps(&requested);
    // One adapter call per distinct application, in declaration order.
    assert_eq!(deduped, vec![App::Alacritty, App::Terminal]);
}

#[test]
fn dedup_empty() {
    let deduped = dedup_apps(&Vec::new());
    assert!(deduped.is_empty());
}

#[test]
fn dedup_many_duplicates() {
    let requested = vec![
        App::VsCode,
        App::Atom,
        App::VsCode,
        App::Atom,
        App::VsCode,
    ];
    let deduped = dedup_apps(&requested);
    assert_eq!(deduped, vec![App::Atom, App::VsCode]);
}

#[test]
fn apply_delegates_non_terminal_apps() {
    let setting = Setting::new(None, Some(LigaturesFlag::Enable)).unwrap();
    let store = StoreView { tools_installed: true, snapshot: Some(String::new()) };
    assert!(matches!(
        App::Alacritty.apply(&setting, &store),
        Applied::Delegated
    ));
    assert!(matches!(App::Xcode.apply(&setting, &store), Applied::Delegated));
}

#[test]
fn apply_terminal_not_installed() {
    let setting = Setting::new(None, Some(LigaturesFlag::Enable)).unwrap();
    let store = StoreView { tools_installed: false, snapshot: None };
    match App::Terminal.apply(&setting, &store) {
        Applied::Store(result) => assert_eq!(result, Err(AdapterError::NotInstalled)),
        Applied::Delegated => panic!("the terminal adapter must run"),
    }
}

#[test]
fn apply_terminal_store_unreadable() {
    let setting = Setting::new(None, Some(LigaturesFlag::Enable)).unwrap();
    let store = StoreView { tools_installed: true, snapshot: None };
    match App::Terminal.apply(&setting, &store) {
        Applied::Store(result) => assert_eq!(result, Err(AdapterError::StoreUnreadable)),
        Applied::Delegated => panic!("the terminal adapter must run"),
    }
}

#[test]
fn adapter_error_messages_are_distinct() {
    let a = AdapterError::NotInstalled.message();
    let b = AdapterError::StoreUnreadable.message();
    let c = AdapterError::StoreWriteFailed.message();
    assert_ne!(a, b);
    assert_ne!(a, c);
    assert_ne!(b, c);
}

#[test]
fn ligatures_flag_combinations() {
    assert_eq!(ligatures_flag_from(true, false), Some(LigaturesFlag::Enable));
    assert_eq!(ligatures_flag_from(true, true), Some(LigaturesFlag::Enable));
    assert_eq!(
        ligatures_flag_from(false, true),
        Some(LigaturesFlag::Disable)
    );
    assert_eq!(ligatures_flag_from(false, false), None);
}

#[test]
fn shared_flag_starts_as_given() {
    assert!(!Shared::new(false).did_error);
    assert!(Shared::new(true).did_error);
}

#[test]
fn shared_set_error_flips_once_and_stays() {
    let mut shared = Shared::new(false);
    shared.set_error();
    assert!(shared.did_error);
    shared.set_error();
    assert!(shared.did_error);
}

#[test]
fn end_to_end_font_for_two_apps() {
    // --font "Fira Code" --apps terminal,alacritty
    let font = Font::parse("Fira Code".to_string()).unwrap();
    let setting = Setting::new(Some(font), None).unwrap();

    let mut apps = Vec::new();
    let mut shared = Shared::new(false);
    for token in ["terminal", "alacritty"] {
        match App::from_str(token) {
            Some(app) => apps.push(app),
            None => shared.set_error(),
        }
    }
    let apps = dedup_apps(&apps);
    assert_eq!(apps, vec![App::Alacritty, App::Terminal]);

    let store = StoreView {
        tools_installed: true,
        snapshot: Some(
            "[profiles]\ndefault='abc'\n\n[profiles/abc]\nfont='Monospace Regular 12'\n"
                .to_string(),
        ),
    };
    for app in apps {
        match app.apply(&setting, &store) {
            Applied::Store(result) => {
                assert_eq!(app, App::Terminal);
                assert_eq!(
                    result.unwrap(),
                    "[profiles/abc]\nfont='Fira Code 12'\nuse-system-font=false"
                );
            }
            Applied::Delegated => {
                // The Alacritty adapter is an outside collaborator invoked
                // with the same setting by the surrounding program.
                assert_eq!(app, App::Alacritty);
            }
        }
    }
    // Both invocations succeeded, so the run exits with code zero.
    assert!(!shared.did_error);
}

#[test]
fn unknown_token_fails_run_but_not_other_apps() {
    // --apps notepad,terminal : the unknown token is reported and skipped,
    // the terminal is still attempted, and the run as a whole fails.
    let setting = Setting::new(None, Some(LigaturesFlag::Disable)).unwrap();
    let mut apps = Vec::new();
    let mut shared = Shared::new(false);
    for token in ["notepad", "terminal"] {
        match App::from_str(token) {
            Some(app) => apps.push(app),
            None => shared.set_error(),
        }
    }
    assert_eq!(apps, vec![App::Terminal]);
    let store = StoreView { tools_installed: true, snapshot: Some(String::new()) };
    for app in dedup_apps(&apps) {
        assert!(matches!(app.apply(&setting, &store), Applied::Store(Ok(_))));
    }
    assert!(shared.did_error);
}
