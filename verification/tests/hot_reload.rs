use axo::hot_reload::{
    axo_dir_candidates, entry_candidates, is_lua_change, is_script_change, resolve_axo_dir,
    resolve_entry, watch_dirs, ChangeKind, Debouncer, WsServer, DEBOUNCE_MS,
};
use axo::paths::{has_extension, path_extension, same_path_as};

fn ext(p: &str) -> Option<String> {
    path_extension(p).map(|v| v.into_iter().collect())
}

#[test]
fn extensions_follow_std() {
    for p in ["a.lua", "dir/b.js", "x.tar.gz", ".bashrc", "a.", "noext", "dir.d/file", "a.ts/", "a.lua/.", "..", "...", "/", "", "./", "a/..", "..lua", "b.JS"] {
        let expected = std::path::Path::new(p).extension().map(|e| e.to_string_lossy().into_owned());
        assert_eq!(ext(p), expected, "path {:?}", p);
    }
    assert!(has_extension("app/main.lua", "lua"));
    assert!(!has_extension("app/main.lua.bak", "lua"));
}

#[test]
fn same_path_follows_pathbuf_equality() {
    let pairs = [("app/axo", "app/axo/"), ("app//axo", "app/axo"), ("./app", "app"), ("/app", "app"), ("app/./axo", "app/axo"), ("a/../b", "b"), (".", "./"), ("", ".")];
    for (a, b) in pairs {
        let expected = std::path::PathBuf::from(a) == std::path::PathBuf::from(b);
        assert_eq!(same_path_as(a, b), expected, "{:?} vs {:?}", a, b);
    }
}

#[test]
fn reload_triggers() {
    let lua = vec!["app/app.lua".to_string()];
    let ts = vec!["README.md".to_string(), "app/app.ts".to_string()];
    assert!(is_lua_change(ChangeKind::Modify, &lua));
    assert!(is_lua_change(ChangeKind::Create, &lua));
    assert!(!is_lua_change(ChangeKind::Remove, &lua));
    assert!(!is_lua_change(ChangeKind::Modify, &ts));
    assert!(is_script_change(ChangeKind::Modify, &ts));
    assert!(!is_script_change(ChangeKind::Access, &ts));
    assert!(!is_script_change(ChangeKind::Create, &lua));
}

#[test]
fn debounce_drops_close_requests() {
    let ms = 1_000_000u64;
    let mut d = Debouncer::new(1_000 * ms);
    assert!(!d.should_reload(1_100 * ms));
    assert!(d.should_reload(1_000 * ms + DEBOUNCE_MS * ms));
    assert!(!d.should_reload(1_250 * ms));
    assert!(!d.should_reload(5 * ms));
    assert!(d.should_reload(1_400 * ms));
}

#[test]
fn entry_and_stdlib_candidates() {
    assert_eq!(entry_candidates("app/app.ts", "/src/bridge"), vec!["app/app.ts", "../app/app.ts", "/src/bridge/../app/app.ts"]);
    assert_eq!(resolve_entry("app/app.ts", "/m", &[false, true, true]), Some("../app/app.ts".to_string()));
    assert_eq!(resolve_entry("app/app.ts", "/m", &[false, false, false]), None);
    assert_eq!(resolve_entry("app/app.ts", "/m", &[]), None);
    assert_eq!(axo_dir_candidates("/m"), vec!["app/axo", "../app/axo", "/m/../app/axo"]);
    assert_eq!(resolve_axo_dir("/m", &[true, true, true]), Some("app/axo".to_string()));
}

#[test]
fn watch_dirs_skip_the_same_place_twice() {
    assert_eq!(watch_dirs(Some("app"), Some("app/axo")), vec!["app", "app/axo"]);
    assert_eq!(watch_dirs(Some("app/axo"), Some("app/axo/")), vec!["app/axo"]);
    assert_eq!(watch_dirs(None, Some("app/axo")), vec!["app/axo"]);
    assert_eq!(watch_dirs(Some("app"), None), vec!["app"]);
}

#[test]
fn ws_server_messages() {
    let s = WsServer::new();
    assert_eq!(s.listen_message(), "[WebSocket] Server listening on port 9876");
    assert_eq!(s.broadcast_message(1234), "[WebSocket] Broadcasting Lua script (1234 bytes)");
}

#[test]
fn joined_files_keep_their_extension() {
    let joined = axo::paths::join_path("/home/u/app", "main.lua");
    assert_eq!(ext(&joined), Some("lua".to_string()));
    let s = axo::device::Storage::in_data_dir(Some("/data/"), "axo");
    assert!(has_extension(&s.resolve("notes.ts"), "ts"));
}
