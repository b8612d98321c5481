use vstd::prelude::*;
use vstd::string::StringExecFns;
use crate::text::str_eq;

verus! {

/// Options of `init`: the name of the project directory to create.
#[derive(Debug)]
pub struct InitArgs {
    pub name: String,
}

impl Default for InitArgs {
    fn default() -> (a: Self)
        ensures
            a.name@ == "my-axo-app"@,
    {
        InitArgs { name: String::from_str("my-axo-app") }
    }
}

/// Options of `dev`: the entry script, the preview port, and whether to skip
/// the file watcher and the phone preview.
#[derive(Debug)]
pub struct DevArgs {
    pub entry: String,
    pub port: u16,
    pub no_watch: bool,
    pub no_qr: bool,
}

impl Default for DevArgs {
    fn default() -> (a: Self)
        ensures
            a.entry@ == "app/app.lua"@,
            a.port == 9876,
            !a.no_watch,
            !a.no_qr,
    {
        DevArgs { entry: String::from_str("app/app.lua"), port: 9876, no_watch: false, no_qr: false }
    }
}

/// Options of `build`: the profile, the target triple, and whether to run
/// the result.
#[derive(Debug)]
pub struct BuildArgs {
    pub mode: String,
    pub target: Option<String>,
    pub run: bool,
}

impl Default for BuildArgs {
    fn default() -> (a: Self)
        ensures
            a.mode@ == "debug"@,
            a.target is None,
            !a.run,
    {
        BuildArgs { mode: String::from_str("debug"), target: None, run: false }
    }
}

/// Options of `release`: the target triple, whether to bundle, and the
/// application's name.
#[derive(Debug)]
pub struct ReleaseArgs {
    pub target: Option<String>,
    pub bundle: bool,
    pub name: String,
}

impl Default for ReleaseArgs {
    fn default() -> (a: Self)
        ensures
            a.target is None,
            !a.bundle,
            a.name@ == "axo-app"@,
    {
        ReleaseArgs { target: None, bundle: false, name: String::from_str("axo-app") }
    }
}

/// The views of a list of strings.
pub open spec fn arg_views(v: Seq<String>) -> Seq<Seq<char>> {
    v.map_values(|s: String| s@)
}

/// `--target` and the triple, when one is given.
pub open spec fn target_args(target: Option<Seq<char>>) -> Seq<Seq<char>> {
    match target {
        Some(t) => seq!["--target"@, t],
        None => seq![],
    }
}

/// The view of an optional string slice.
pub open spec fn opt_view(o: Option<&str>) -> Option<Seq<char>> {
    match o {
        Some(s) => Some(s@),
        None => None,
    }
}

/// The arguments of `cargo build` for a profile and target: `--release`
/// only for the `release` profile.
pub open spec fn build_args_of(mode: Seq<char>, target: Option<Seq<char>>) -> Seq<Seq<char>> {
    seq!["build"@] + (if mode == "release"@ {
        seq!["--release"@]
    } else {
        seq![]
    }) + target_args(target)
}

fn push_target(v: &mut Vec<String>, target: Option<&str>)
    ensures
        arg_views(final(v)@) == arg_views(old(v)@) + target_args(opt_view(target)),
{
    if let Some(t) = target {
        v.push(String::from_str("--target"));
        v.push(String::from_str(t));
    }
    assert(arg_views(v@) =~= arg_views(old(v)@) + target_args(opt_view(target)));
}

/// The arguments `build` runs cargo with.
pub fn build_cargo_args(mode: &str, target: Option<&str>) -> (v: Vec<String>)
    ensures
        arg_views(v@) == build_args_of(mode@, opt_view(target)),
{
    let mut v: Vec<String> = Vec::new();
    v.push(String::from_str("build"));
    if str_eq(mode, "release") {
        v.push(String::from_str("--release"));
    }
    push_target(&mut v, target);
    assert(arg_views(v@) =~= build_args_of(mode@, opt_view(target)));
    v
}

/// The arguments `build --run` runs the result with: `--release` only for
/// the `release` profile.
pub fn run_cargo_args(mode: &str) -> (v: Vec<String>)
    ensures
        arg_views(v@) == seq!["run"@] + if mode@ == "release"@ {
            seq!["--release"@]
        } else {
            seq![]
        },
{
    let mut v: Vec<String> = Vec::new();
    v.push(String::from_str("run"));
    if str_eq(mode, "release") {
        v.push(String::from_str("--release"));
    }
    assert(arg_views(v@) =~= seq!["run"@] + if mode@ == "release"@ {
        seq!["--release"@]
    } else {
        seq![]
    });
    v
}

/// The arguments `release` runs cargo with.
pub fn release_cargo_args(target: Option<&str>) -> (v: Vec<String>)
    ensures
        arg_views(v@) == seq!["build"@, "--release"@] + target_args(opt_view(target)),
{
    let mut v: Vec<String> = Vec::new();
    v.push(String::from_str("build"));
    v.push(String::from_str("--release"));
    assert(arg_views(v@) =~= seq!["build"@, "--release"@]);
    push_target(&mut v, target);
    v
}

/// Where the release build leaves the binary of `name`; Windows binaries end
/// in `.exe`.
pub fn release_binary_path(name: &str, windows: bool) -> (p: String)
    ensures
        p@ == "target/release/"@ + name@ + if windows {
            ".exe"@
        } else {
            Seq::<char>::empty()
        },
{
    let mut p = String::from_str("target/release/");
    p.append(name);
    if windows {
        p.append(".exe");
    } else {
        assert(p@ + Seq::<char>::empty() =~= p@);
    }
    p
}

/// The directory a bundle of `name` is assembled in.
pub fn bundle_dir(name: &str) -> (p: String)
    ensures
        p@ == "dist/"@ + name@,
{
    let mut p = String::from_str("dist/");
    p.append(name);
    p
}

/// The cargo command of `build` is `build`, then `--release` exactly for the
/// release profile, then, whenever a target triple is given and whatever the
/// profile, `--target` and the triple.
pub proof fn lemma_build_args(mode: Seq<char>, t: Seq<char>)
    ensures
        build_args_of(mode, Some(t)) == build_args_of(mode, None) + seq!["--target"@, t],
        build_args_of(mode, None)[0] == "build"@,
        build_args_of(mode, None).len() <= 2,
        build_args_of(mode, None).contains("--release"@) <==> mode == "release"@,
        target_args(Some(t)) == seq!["--target"@, t],
        target_args(None) == Seq::<Seq<char>>::empty(),
{
    reveal_strlit("build");
    reveal_strlit("--release");
    assert("build"@[0] != "--release"@[0]);
    let base = build_args_of(mode, None);
    assert(base =~= seq!["build"@] + (if mode == "release"@ {
        seq!["--release"@]
    } else {
        seq![]
    }));
    if mode == "release"@ {
        assert(base[1] == "--release"@);
    } else {
        assert(base =~= seq!["build"@]);
        assert(!base.contains("--release"@));
    }
    assert(build_args_of(mode, Some(t)) =~= base + seq!["--target"@, t]);
}

} // verus!
