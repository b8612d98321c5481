use vstd::prelude::*;

verus! {

/// The operating system a build targets.
#[derive(Debug, Clone, Copy, PartialEq, Eq, Structural)]
pub enum TargetOs {
    Android,
    Ios,
    Windows,
    MacOs,
    Linux,
    Other,
}

/// A platform the framework can run on.
pub trait Platform {
    /// The platform's display name.
    spec fn label(&self) -> Seq<char>;

    fn name(&self) -> (n: &'static str)
        ensures
            n@ == self.label(),
    ;
}

/// Android, driven through JNI.
#[derive(Debug, Clone, Copy)]
pub struct AndroidPlatform;

/// Linux, macOS and Windows desktops.
#[derive(Debug, Clone, Copy)]
pub struct DesktopPlatform;

/// iOS, driven through UIKit.
#[derive(Debug, Clone, Copy)]
pub struct IosPlatform;

/// A generic mobile runtime.
#[derive(Debug, Clone, Copy)]
pub struct MobilePlatform;

/// A browser, through WebAssembly.
#[derive(Debug, Clone, Copy)]
pub struct WebPlatform;

impl Platform for AndroidPlatform {
    open spec fn label(&self) -> Seq<char> {
        "Android"@
    }

    fn name(&self) -> (n: &'static str) {
        "Android"
    }
}

impl Platform for DesktopPlatform {
    open spec fn label(&self) -> Seq<char> {
        "Desktop"@
    }

    fn name(&self) -> (n: &'static str) {
        "Desktop"
    }
}

impl Platform for IosPlatform {
    open spec fn label(&self) -> Seq<char> {
        "iOS"@
    }

    fn name(&self) -> (n: &'static str) {
        "iOS"
    }
}

impl Platform for MobilePlatform {
    open spec fn label(&self) -> Seq<char> {
        "Mobile"@
    }

    fn name(&self) -> (n: &'static str) {
        "Mobile"
    }
}

impl Platform for WebPlatform {
    open spec fn label(&self) -> Seq<char> {
        "Web (WASM)"@
    }

    fn name(&self) -> (n: &'static str) {
        "Web (WASM)"
    }
}

/// The one-letter platform mark of the development banner; a Linux host
/// that is an Android terminal (Termux) is marked as Android.
pub open spec fn indicator_of(os: TargetOs, android_env: bool) -> Seq<char> {
    match os {
        TargetOs::Windows => "w"@,
        TargetOs::MacOs => "m"@,
        TargetOs::Linux => if android_env {
            "a"@
        } else {
            "l"@
        },
        TargetOs::Ios => "i"@,
        TargetOs::Android => "a"@,
        TargetOs::Other => "?"@,
    }
}

/// The platform name of the development banner.
pub open spec fn host_name_of(os: TargetOs, android_env: bool) -> Seq<char> {
    match os {
        TargetOs::Windows => "Windows"@,
        TargetOs::MacOs => "macOS"@,
        TargetOs::Linux => if android_env {
            "Android (Termux)"@
        } else {
            "Linux"@
        },
        TargetOs::Ios => "iOS"@,
        TargetOs::Android => "Android"@,
        TargetOs::Other => "Unknown"@,
    }
}

/// The platform mark for a host; `android_env` tells whether the Android
/// environment variables are set.
pub fn platform_indicator(os: TargetOs, android_env: bool) -> (r: &'static str)
    ensures
        r@ == indicator_of(os, android_env),
{
    match os {
        TargetOs::Windows => "w",
        TargetOs::MacOs => "m",
        TargetOs::Linux => if android_env {
            "a"
        } else {
            "l"
        },
        TargetOs::Ios => "i",
        TargetOs::Android => "a",
        TargetOs::Other => "?",
    }
}

/// The platform name for a host; `android_env` tells whether the Android
/// environment variables are set.
pub fn platform_name(os: TargetOs, android_env: bool) -> (r: &'static str)
    ensures
        r@ == host_name_of(os, android_env),
{
    match os {
        TargetOs::Windows => "Windows",
        TargetOs::MacOs => "macOS",
        TargetOs::Linux => if android_env {
            "Android (Termux)"
        } else {
            "Linux"
        },
        TargetOs::Ios => "iOS",
        TargetOs::Android => "Android",
        TargetOs::Other => "Unknown",
    }
}

/// Whether two hosts are the same: the same system, and for Linux the same
/// answer to whether it is an Android terminal.
pub open spec fn same_host(os1: TargetOs, env1: bool, os2: TargetOs, env2: bool) -> bool {
    os1 == os2 && (os1 != TargetOs::Linux || env1 == env2)
}

/// The lowercase form of an ASCII letter; other characters stay as they are.
pub open spec fn ascii_lower(c: char) -> char {
    if 'A' <= c <= 'Z' {
        ((c as u32) + 32) as char
    } else {
        c
    }
}

/// The host names are told apart by their length and first character.
proof fn reveal_host_names()
    ensures
        "Windows"@.len() == 7 && "Windows"@[0] == 'W',
        "macOS"@.len() == 5 && "macOS"@[0] == 'm',
        "Linux"@.len() == 5 && "Linux"@[0] == 'L',
        "Android (Termux)"@.len() == 16 && "Android (Termux)"@[0] == 'A',
        "iOS"@.len() == 3 && "iOS"@[0] == 'i',
        "Android"@.len() == 7 && "Android"@[0] == 'A',
        "Unknown"@.len() == 7 && "Unknown"@[0] == 'U',
        "w"@ == seq!['w'],
        "m"@ == seq!['m'],
        "l"@ == seq!['l'],
        "a"@ == seq!['a'],
        "i"@ == seq!['i'],
        "?"@ == seq!['?'],
{
    reveal_strlit("Windows");
    reveal_strlit("macOS");
    reveal_strlit("Linux");
    reveal_strlit("Android (Termux)");
    reveal_strlit("iOS");
    reveal_strlit("Android");
    reveal_strlit("Unknown");
    reveal_strlit("w");
    reveal_strlit("m");
    reveal_strlit("l");
    reveal_strlit("a");
    reveal_strlit("i");
    reveal_strlit("?");
}

/// The banner names each host by its own name: different hosts get
/// different names, only an unrecognised system is "Unknown" (marked `?`),
/// and a known host's one-letter mark is its name's initial in lowercase.
pub proof fn lemma_host_names(os1: TargetOs, env1: bool, os2: TargetOs, env2: bool)
    ensures
        !same_host(os1, env1, os2, env2) ==> host_name_of(os1, env1) != host_name_of(os2, env2),
        host_name_of(os1, env1) == "Unknown"@ <==> os1 == TargetOs::Other,
        os1 == TargetOs::Other ==> indicator_of(os1, env1) == "?"@,
        os1 != TargetOs::Other ==> indicator_of(os1, env1) == seq![
            ascii_lower(host_name_of(os1, env1)[0]),
        ],
{
    reveal_host_names();
    assert(ascii_lower('W') == 'w');
    assert(ascii_lower('L') == 'l');
    assert(ascii_lower('A') == 'a');
    assert(ascii_lower('m') == 'm');
    assert(ascii_lower('i') == 'i');
}

} // verus!
