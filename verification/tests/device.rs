use axo::device::{
    haptic_style_from_name, impact_name, notification_name, Clipboard, HapticFeedback, Haptics,
    Storage,
};
use axo::paths::join_path;

#[test]
fn clipboard_reads_back_what_was_copied() {
    let mut c = Clipboard::new();
    assert!(!c.has_text());
    assert_eq!(c.get(), None);
    c.set("hola");
    assert!(c.has_text());
    assert_eq!(c.get(), Some("hola".to_string()));
    c.set("");
    assert_eq!(c.get(), Some(String::new()));
    c.clear();
    assert!(!c.has_text());
}

#[test]
fn haptic_names() {
    assert!(Haptics::is_supported());
    assert_eq!(impact_name(HapticFeedback::Selection), "selection");
    assert_eq!(notification_name(HapticFeedback::Warning), "warning");
    assert_eq!(notification_name(HapticFeedback::Light), "unknown");
    assert_eq!(haptic_style_from_name("heavy"), HapticFeedback::Heavy);
    assert_eq!(haptic_style_from_name("bogus"), HapticFeedback::Medium);
    for h in [
        HapticFeedback::Light,
        HapticFeedback::Medium,
        HapticFeedback::Heavy,
        HapticFeedback::Selection,
        HapticFeedback::Success,
        HapticFeedback::Warning,
        HapticFeedback::Error,
        HapticFeedback::Click,
    ] {
        assert_eq!(haptic_style_from_name(impact_name(h)), h);
    }
}

#[test]
fn joining_paths_follows_pathbuf() {
    assert_eq!(join_path("/data", "axo"), "/data/axo");
    assert_eq!(join_path("/data/", "axo"), "/data/axo");
    assert_eq!(join_path("", "axo"), "axo");
    assert_eq!(join_path("/data", "/etc/x"), "/etc/x");
    assert_eq!(join_path("a", ""), "a/");
    for (base, p) in [("/data", "axo"), ("/data/", "x/y"), ("", "z"), ("q", "/abs")] {
        let expected = std::path::Path::new(base).join(p);
        assert_eq!(join_path(base, p), expected.to_string_lossy());
    }
}

#[test]
fn storage_paths() {
    let s = Storage::in_data_dir(Some("/home/u/.local/share"), "axo");
    assert_eq!(s.base_path(), "/home/u/.local/share/axo");
    assert_eq!(s.cache_dir(), "/home/u/.local/share/axo/cache");
    assert_eq!(s.documents_dir(), "/home/u/.local/share/axo/documents");
    assert_eq!(s.resolve("notes/a.txt"), "/home/u/.local/share/axo/notes/a.txt");
    let fallback = Storage::in_data_dir(None, "axo");
    assert_eq!(fallback.base_path(), "./axo");
    let live = Storage::new("axo");
    assert!(live.base_path().ends_with("axo"));
}
