use axo::args::{
    build_cargo_args, bundle_dir, release_binary_path, release_cargo_args, run_cargo_args, BuildArgs,
    DevArgs, InitArgs, ReleaseArgs,
};
use axo::ids::IdGenerator;
use axo::platform::{
    platform_indicator, platform_name, AndroidPlatform, DesktopPlatform, IosPlatform, MobilePlatform,
    Platform, TargetOs, WebPlatform,
};
use axo::render::{draws_image, highlight, image_source_of, Highlight};
use axo::text::{decimal, starts_with, trimmed_chars};

#[test]
fn ids_count_up_from_one() {
    let mut g = IdGenerator::new();
    assert_eq!(g.next_id(), 1);
    assert_eq!(g.next_id(), 2);
    assert_eq!(g.next_id(), 3);
}

#[test]
fn platform_names() {
    assert_eq!(DesktopPlatform.name(), "Desktop");
    assert_eq!(AndroidPlatform.name(), "Android");
    assert_eq!(IosPlatform.name(), "iOS");
    assert_eq!(MobilePlatform.name(), "Mobile");
    assert_eq!(WebPlatform.name(), "Web (WASM)");
    assert_eq!(platform_indicator(TargetOs::Linux, false), "l");
    assert_eq!(platform_indicator(TargetOs::Linux, true), "a");
    assert_eq!(platform_indicator(TargetOs::Other, true), "?");
    assert_eq!(platform_name(TargetOs::Linux, true), "Android (Termux)");
    assert_eq!(platform_name(TargetOs::MacOs, false), "macOS");
    assert_eq!(platform_name(TargetOs::Other, false), "Unknown");
}

#[test]
fn highlight_precedence() {
    assert_eq!(highlight(true, 1, Some(1), Some(1)), Highlight::Disabled);
    assert_eq!(highlight(false, 1, Some(1), Some(1)), Highlight::Active);
    assert_eq!(highlight(false, 1, Some(1), Some(2)), Highlight::Hovered);
    assert_eq!(highlight(false, 1, None, None), Highlight::Normal);
    assert!(draws_image("Image", true));
    assert!(!draws_image("Image", false));
    assert!(!draws_image("View", true));
    assert_eq!(image_source_of("Image", "logo.png"), Some("logo.png".to_string()));
    assert_eq!(image_source_of("Image", ""), None);
    assert_eq!(image_source_of("Text", "logo.png"), None);
}

#[test]
fn text_helpers() {
    assert_eq!(decimal(0), "0");
    assert_eq!(decimal(9876), "9876");
    assert_eq!(decimal(u64::MAX), u64::MAX.to_string());
    assert!(starts_with("__axo_cb_1", "__axo_cb_"));
    assert!(!starts_with("__ax", "__axo_cb_"));
    let t: String = trimmed_chars(" \t hola mundo \u{3000}").into_iter().collect();
    assert_eq!(t, "hola mundo");
}

#[test]
fn cli_defaults_and_commands() {
    assert_eq!(InitArgs::default().name, "my-axo-app");
    let d = DevArgs::default();
    assert_eq!((d.entry.as_str(), d.port, d.no_watch, d.no_qr), ("app/app.lua", 9876, false, false));
    let b = BuildArgs::default();
    assert_eq!((b.mode.as_str(), b.target.is_none(), b.run), ("debug", true, false));
    let r = ReleaseArgs::default();
    assert_eq!((r.target.is_none(), r.bundle, r.name.as_str()), (true, false, "axo-app"));
    assert_eq!(build_cargo_args("debug", None), vec!["build"]);
    assert_eq!(build_cargo_args("release", Some("aarch64-linux-android")), vec!["build", "--release", "--target", "aarch64-linux-android"]);
    assert_eq!(run_cargo_args("release"), vec!["run", "--release"]);
    assert_eq!(run_cargo_args("debug"), vec!["run"]);
    assert_eq!(release_cargo_args(Some("x86_64-pc-windows-gnu")), vec!["build", "--release", "--target", "x86_64-pc-windows-gnu"]);
    assert_eq!(release_binary_path("axo-app", true), "target/release/axo-app.exe");
    assert_eq!(release_binary_path("axo-app", false), "target/release/axo-app");
    assert_eq!(bundle_dir("axo-app"), "dist/axo-app");
}
