use vstd::prelude::*;
use vstd::string::StringExecFns;
use crate::paths::{extension, has_extension, same_path, same_path_as};
use crate::text::decimal;

verus! {

/// What happened to a watched file.
#[derive(Debug, Clone, Copy, PartialEq, Eq, Structural)]
pub enum ChangeKind {
    Any,
    Access,
    Create,
    Modify,
    Remove,
    Other,
}

/// Whether a change event writes files: a creation or a modification.
pub open spec fn writes_files(kind: ChangeKind) -> bool {
    kind == ChangeKind::Create || kind == ChangeKind::Modify
}

/// The views of a list of paths.
pub open spec fn path_views(paths: Seq<String>) -> Seq<Seq<char>> {
    paths.map_values(|p: String| p@)
}

/// Whether one of the paths has one of the two extensions.
pub open spec fn any_with_extension(paths: Seq<Seq<char>>, a: Seq<char>, b: Seq<char>) -> bool {
    exists|i: int|
        0 <= i < paths.len() && (extension(#[trigger] paths[i]) == Some(a) || extension(paths[i])
            == Some(b))
}

fn any_has_extension(paths: &[String], a: &str, b: &str) -> (r: bool)
    ensures
        r == any_with_extension(path_views(paths@), a@, b@),
{
    let ghost ps = path_views(paths@);
    let mut i: usize = 0;
    while i < paths.len()
        invariant
            i <= paths@.len(),
            ps == path_views(paths@),
            forall|j: int|
                0 <= j < i ==> extension(#[trigger] ps[j]) != Some(a@) && extension(ps[j]) != Some(
                    b@,
                ),
        decreases paths@.len() - i,
    {
        assert(ps[i as int] == paths@[i as int]@);
        if has_extension(paths[i].as_str(), a) || has_extension(paths[i].as_str(), b) {
            return true;
        }
        i = i + 1;
    }
    false
}

/// Whether a change calls for reloading a Lua app: a `.lua` file was
/// created or modified.
pub fn is_lua_change(kind: ChangeKind, paths: &[String]) -> (r: bool)
    ensures
        r == (writes_files(kind) && any_with_extension(path_views(paths@), "lua"@, "lua"@)),
{
    let writes = match kind {
        ChangeKind::Create | ChangeKind::Modify => true,
        _ => false,
    };
    writes && any_has_extension(paths, "lua", "lua")
}

/// Whether a change calls for reloading a JavaScript or TypeScript app: a
/// `.js` or `.ts` file was created or modified.
pub fn is_script_change(kind: ChangeKind, paths: &[String]) -> (r: bool)
    ensures
        r == (writes_files(kind) && any_with_extension(path_views(paths@), "js"@, "ts"@)),
{
    let writes = match kind {
        ChangeKind::Create | ChangeKind::Modify => true,
        _ => false,
    };
    writes && any_has_extension(paths, "js", "ts")
}

/// Reloads closer together than this many milliseconds are dropped.
pub const DEBOUNCE_MS: u64 = 200;

/// The nanoseconds of the debounce interval.
pub open spec fn debounce_nanos() -> int {
    DEBOUNCE_MS * 1_000_000
}

/// Drops reload requests that follow the last accepted one too closely.
/// Times are monotonic clock readings in nanoseconds.
#[derive(Debug, Clone, Copy)]
pub struct Debouncer {
    last: u64,
}

impl Debouncer {
    /// The time of the last accepted request (or of creation).
    pub closed spec fn last_accepted(&self) -> u64 {
        self.last
    }

    /// A debouncer that counts from `now`.
    pub fn new(now: u64) -> (d: Self)
        ensures
            d.last_accepted() == now,
    {
        Debouncer { last: now }
    }

    /// Whether a request at `now` goes through: when at least the debounce
    /// interval has passed since the last accepted one (a clock reading
    /// before it counts as no time passed), which then becomes the last.
    pub fn should_reload(&mut self, now: u64) -> (go: bool)
        ensures
            go == accepts(old(self).last_accepted(), now),
            final(self).last_accepted() == if go {
                now
            } else {
                old(self).last_accepted()
            },
    {
        let elapsed = if now >= self.last {
            now - self.last
        } else {
            0
        };
        if elapsed < DEBOUNCE_MS * 1_000_000 {
            false
        } else {
            self.last = now;
            true
        }
    }
}

/// Whether a request at `now` goes through after the last accepted one at `last`.
pub open spec fn accepts(last: u64, now: u64) -> bool {
    now >= last && now - last >= debounce_nanos()
}

/// Once a request is accepted, every request within the following debounce
/// interval is dropped, and the first one at its end goes through.
pub proof fn lemma_accepted_reloads_spaced(accepted_at: u64, later: u64)
    requires
        accepted_at <= later,
    ensures
        later < accepted_at + debounce_nanos() ==> !accepts(accepted_at, later),
        later >= accepted_at + debounce_nanos() ==> accepts(accepted_at, later),
{
}

/// The places an entry file is looked for, in order: as given, one
/// directory up, and next to the framework's sources.
pub open spec fn entry_candidate_paths(entry: Seq<char>, manifest_dir: Seq<char>) -> Seq<
    Seq<char>,
> {
    seq![entry, "../"@ + entry, manifest_dir + "/../"@ + entry]
}

/// The places the script standard library (`app/axo`) is looked for, in order.
pub open spec fn axo_dir_candidate_paths(manifest_dir: Seq<char>) -> Seq<Seq<char>> {
    seq!["app/axo"@, "../app/axo"@, manifest_dir + "/../app/axo"@]
}

/// The first candidate that is present.
pub open spec fn first_present(candidates: Seq<Seq<char>>, present: Seq<bool>) -> Option<Seq<char>>
    decreases candidates.len(),
{
    if candidates.len() == 0 {
        None
    } else if present.len() > 0 && present[0] {
        Some(candidates[0])
    } else {
        first_present(candidates.drop_first(), if present.len() > 0 {
            present.drop_first()
        } else {
            present
        })
    }
}

/// The views of a list of strings.
pub open spec fn string_views(v: Seq<String>) -> Seq<Seq<char>> {
    v.map_values(|s: String| s@)
}

/// The places an entry file is looked for.
pub fn entry_candidates(entry_path: &str, manifest_dir: &str) -> (c: Vec<String>)
    ensures
        string_views(c@) == entry_candidate_paths(entry_path@, manifest_dir@),
{
    let mut v: Vec<String> = Vec::new();
    v.push(String::from_str(entry_path));
    let mut up = String::from_str("../");
    up.append(entry_path);
    v.push(up);
    let mut beside = String::from_str(manifest_dir);
    beside.append("/../");
    beside.append(entry_path);
    v.push(beside);
    assert(string_views(v@) =~= entry_candidate_paths(entry_path@, manifest_dir@));
    v
}

/// The places the script standard library is looked for.
pub fn axo_dir_candidates(manifest_dir: &str) -> (c: Vec<String>)
    ensures
        string_views(c@) == axo_dir_candidate_paths(manifest_dir@),
{
    let mut v: Vec<String> = Vec::new();
    v.push(String::from_str("app/axo"));
    v.push(String::from_str("../app/axo"));
    let mut beside = String::from_str(manifest_dir);
    beside.append("/../app/axo");
    v.push(beside);
    assert(string_views(v@) =~= axo_dir_candidate_paths(manifest_dir@));
    v
}

fn pick_present(candidates: Vec<String>, present: &[bool]) -> (r: Option<String>)
    ensures
        match r {
            Some(s) => first_present(string_views(candidates@), present@) == Some(s@),
            None => first_present(string_views(candidates@), present@) is None,
        },
{
    let ghost all = string_views(candidates@);
    let mut i: usize = 0;
    assert(all.skip(0) =~= all);
    assert(present@.skip(0) =~= present@);
    while i < candidates.len()
        invariant
            i <= candidates@.len(),
            all == string_views(candidates@),
            first_present(all, present@) == first_present(
                all.skip(i as int),
                if i <= present@.len() {
                    present@.skip(i as int)
                } else {
                    Seq::<bool>::empty()
                },
            ),
        decreases candidates@.len() - i,
    {
        assert(all.skip(i as int)[0] == candidates@[i as int]@);
        assert(all.skip(i as int).drop_first() =~= all.skip(i + 1));
        if i < present.len() && present[i] {
            return Some(candidates[i].clone());
        }
        proof {
            if i < present@.len() {
                assert(present@.skip(i as int).drop_first() =~= present@.skip(i + 1));
            } else if i == present@.len() {
                assert(present@.skip(i as int) =~= Seq::<bool>::empty());
            }
        }
        i = i + 1;
    }
    None
}

/// The entry file to load: the first of `entry_candidates` that is a file;
/// `is_file` tells, per candidate, whether it is one.
pub fn resolve_entry(entry_path: &str, manifest_dir: &str, is_file: &[bool]) -> (r: Option<String>)
    ensures
        match r {
            Some(s) => first_present(entry_candidate_paths(entry_path@, manifest_dir@), is_file@)
                == Some(s@),
            None => first_present(entry_candidate_paths(entry_path@, manifest_dir@), is_file@) is None,
        },
{
    pick_present(entry_candidates(entry_path, manifest_dir), is_file)
}

/// The script standard library directory: the first of `axo_dir_candidates`
/// that is a directory; `is_dir` tells, per candidate, whether it is one.
pub fn resolve_axo_dir(manifest_dir: &str, is_dir: &[bool]) -> (r: Option<String>)
    ensures
        match r {
            Some(s) => first_present(axo_dir_candidate_paths(manifest_dir@), is_dir@) == Some(s@),
            None => first_present(axo_dir_candidate_paths(manifest_dir@), is_dir@) is None,
        },
{
    pick_present(axo_dir_candidates(manifest_dir), is_dir)
}

/// The directories to watch: the entry's directory, then the standard
/// library directory unless it is the same place.
pub open spec fn watch_dir_list(parent: Option<Seq<char>>, axo: Option<Seq<char>>) -> Seq<
    Seq<char>,
> {
    let first = match parent {
        Some(p) => seq![p],
        None => seq![],
    };
    match axo {
        Some(a) => if parent matches Some(p) && same_path(p, a) {
            first
        } else {
            first.push(a)
        },
        None => first,
    }
}

/// The directories to watch for an entry whose directory is `parent` and a
/// standard library found at `axo`.
pub fn watch_dirs(parent: Option<&str>, axo: Option<&str>) -> (dirs: Vec<String>)
    ensures
        string_views(dirs@) == watch_dir_list(
            match parent {
                Some(p) => Some(p@),
                None => None,
            },
            match axo {
                Some(a) => Some(a@),
                None => None,
            },
        ),
{
    let mut dirs: Vec<String> = Vec::new();
    if let Some(p) = parent {
        dirs.push(String::from_str(p));
    }
    if let Some(a) = axo {
        let dup = match parent {
            Some(p) => same_path_as(p, a),
            None => false,
        };
        if !dup {
            dirs.push(String::from_str(a));
        }
    }
    proof {
        let pv = match parent {
            Some(p) => Some(p@),
            None => None,
        };
        let av = match axo {
            Some(a) => Some(a@),
            None => None,
        };
        assert(string_views(dirs@) =~= watch_dir_list(pv, av));
    }
    dirs
}

/// The development server that pushes scripts to connected devices.
#[derive(Debug, Clone, Copy)]
pub struct WsServer;

impl WsServer {
    /// A server.
    pub fn new() -> (s: Self) {
        WsServer
    }

    /// The line announcing that the server listens.
    pub fn listen_message(&self) -> (m: &'static str)
        ensures
            m@ == "[WebSocket] Server listening on port 9876"@,
    {
        "[WebSocket] Server listening on port 9876"
    }

    /// The line announcing a broadcast of a script of `len` bytes.
    pub fn broadcast_message(&self, len: u64) -> (m: String)
        ensures
            m@ == "[WebSocket] Broadcasting Lua script ("@ + crate::text::decimal_digits(len as nat)
                + " bytes)"@,
    {
        let mut m = String::from_str("[WebSocket] Broadcasting Lua script (");
        let n = decimal(len);
        m.append(n.as_str());
        m.append(" bytes)");
        m
    }
}

impl Default for WsServer {
    fn default() -> (s: Self) {
        WsServer::new()
    }
}

} // verus!
