use fontset::font::{Font, LigaturesFlag};
use fontset::setting::Setting;

fn fira() -> Font {
    Font::parse("Fira Code".to_string()).unwrap()
}

#[test]
fn setting_new_both_absent_is_none() {
    assert!(Setting::new(None, None).is_none());
}

#[test]
fn setting_new_font_only() {
    let s = Setting::new(Some(fira()), None).unwrap();
    assert!(matches!(s, Setting::Font(_)));
    assert_eq!(s.font().unwrap().as_str(), "Fira Code");
    assert!(s.ligatures().is_none());
}

#[test]
fn setting_new_ligatures_only() {
    let s = Setting::new(None, Some(LigaturesFlag::Enable)).unwrap();
    assert!(matches!(s, Setting::Ligatures(_)));
    assert!(s.font().is_none());
    assert_eq!(s.ligatures(), Some(LigaturesFlag::Enable));
}

#[test]
fn setting_new_both() {
    let s = Setting::new(Some(fira()), Some(LigaturesFlag::Disable)).unwrap();
    assert!(matches!(s, Setting::Both { .. }));
    assert_eq!(s.font().unwrap().as_str(), "Fira Code");
    assert_eq!(s.ligatures(), Some(LigaturesFlag::Disable));
}
