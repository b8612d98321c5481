use vstd::prelude::*;
use vstd::string::StringExecFns;
use crate::text::chars_of;

verus! {

/// A path with another appended, as `PathBuf::join` forms it on Unix: an
/// absolute second path replaces the first, otherwise a `/` separates them
/// unless the first is empty or already ends in one.
pub open spec fn path_join(base: Seq<char>, p: Seq<char>) -> Seq<char> {
    if p.len() > 0 && p[0] == '/' {
        p
    } else if base.len() > 0 && base.last() != '/' {
        base + seq!['/'] + p
    } else {
        base + p
    }
}

/// Appends a path to another, as `PathBuf::join` does on Unix.
pub fn join_path(base: &str, p: &str) -> (r: String)
    ensures
        r@ == path_join(base@, p@),
{
    let pc = chars_of(p);
    if pc.len() > 0 && pc[0] == '/' {
        return String::from_str(p);
    }
    let bc = chars_of(base);
    let mut r = String::from_str(base);
    if bc.len() > 0 && bc[bc.len() - 1] != '/' {
        r.append("/");
        proof {
            reveal_strlit("/");
        }
    }
    r.append(p);
    r
}

/// Adds a finished path segment to the list of named segments; empty
/// segments (from repeated or trailing `/`) and `.` segments are dropped.
pub open spec fn flush_segment(parts: Seq<Seq<char>>, seg: Seq<char>) -> Seq<Seq<char>> {
    if seg.len() == 0 || seg == seq!['.'] {
        parts
    } else {
        parts.push(seg)
    }
}

/// The named segments found so far and the segment being read, after
/// reading the characters of `p` from left to right.
pub open spec fn scan_segments(p: Seq<char>) -> (Seq<Seq<char>>, Seq<char>)
    decreases p.len(),
{
    if p.len() == 0 {
        (seq![], seq![])
    } else {
        let (parts, seg) = scan_segments(p.drop_last());
        if p.last() == '/' {
            (flush_segment(parts, seg), seq![])
        } else {
            (parts, seg.push(p.last()))
        }
    }
}

/// The named components of a Unix path, in order: what lies between the
/// separators, without empty and `.` components (`..` is kept).
pub open spec fn path_parts(p: Seq<char>) -> Seq<Seq<char>> {
    let (parts, seg) = scan_segments(p);
    flush_segment(parts, seg)
}

/// The character sequences of a list of components.
pub open spec fn part_views(s: Seq<Vec<char>>) -> Seq<Seq<char>> {
    s.map_values(|v: Vec<char>| v@)
}

/// Whether a path starts at the root.
pub open spec fn has_root(p: Seq<char>) -> bool {
    p.len() > 0 && p[0] == '/'
}

/// Whether a relative path starts with a `.` component, which Rust keeps as
/// its first component.
pub open spec fn starts_at_cur_dir(p: Seq<char>) -> bool {
    p.len() > 0 && p[0] == '.' && (p.len() == 1 || p[1] == '/')
}

/// Whether two paths have the same components, the equality of `PathBuf`.
pub open spec fn same_path(a: Seq<char>, b: Seq<char>) -> bool {
    &&& has_root(a) == has_root(b)
    &&& starts_at_cur_dir(a) == starts_at_cur_dir(b)
    &&& path_parts(a) == path_parts(b)
}

/// The last component of a path when it names a file or directory, as
/// `Path::file_name` gives it.
pub open spec fn file_name(p: Seq<char>) -> Option<Seq<char>> {
    let parts = path_parts(p);
    if parts.len() == 0 || parts.last() == ".."@ {
        None
    } else {
        Some(parts.last())
    }
}

/// The position of the last `.` in a name.
pub open spec fn last_dot(name: Seq<char>) -> Option<int>
    decreases name.len(),
{
    if name.len() == 0 {
        None
    } else if name.last() == '.' {
        Some(name.len() - 1)
    } else {
        last_dot(name.drop_last())
    }
}

/// The extension of a path as `Path::extension` gives it: what follows the
/// last `.` of the file name, unless that `.` starts the name.
pub open spec fn extension(p: Seq<char>) -> Option<Seq<char>> {
    match file_name(p) {
        None => None,
        Some(name) => match last_dot(name) {
            None => None,
            Some(d) => if d == 0 {
                None
            } else {
                Some(name.subrange(d + 1, name.len() as int))
            },
        },
    }
}

fn is_cur_dir_segment(seg: &Vec<char>) -> (r: bool)
    ensures
        r == (seg@ == seq!['.']),
{
    if seg.len() == 1 && seg[0] == '.' {
        assert(seg@ =~= seq!['.']);
        true
    } else {
        false
    }
}

/// The named components of a path.
pub fn parts_of(p: &str) -> (parts: Vec<Vec<char>>)
    ensures
        part_views(parts@) == path_parts(p@),
{
    let c = chars_of(p);
    let mut parts: Vec<Vec<char>> = Vec::new();
    let mut seg: Vec<char> = Vec::new();
    let mut i: usize = 0;
    while i < c.len()
        invariant
            c@ == p@,
            i <= c@.len(),
            (part_views(parts@), seg@) == scan_segments(c@.take(i as int)),
        decreases c@.len() - i,
    {
        proof {
            assert(c@.take(i + 1).drop_last() =~= c@.take(i as int));
        }
        if c[i] == '/' {
            if seg.len() > 0 && !is_cur_dir_segment(&seg) {
                let ghost before = parts@;
                parts.push(seg);
                proof {
                    assert(part_views(parts@) =~= part_views(before).push(seg@));
                }
            }
            seg = Vec::new();
        } else {
            seg.push(c[i]);
        }
        i = i + 1;
    }
    proof {
        assert(c@.take(c@.len() as int) =~= c@);
    }
    if seg.len() > 0 && !is_cur_dir_segment(&seg) {
        let ghost before = parts@;
        parts.push(seg);
        proof {
            assert(part_views(parts@) =~= part_views(before).push(
                seg@,
            ));
        }
    }
    parts
}

fn chars_equal(a: &Vec<char>, b: &Vec<char>) -> (r: bool)
    ensures
        r == (a@ == b@),
{
    if a.len() != b.len() {
        return false;
    }
    let mut i: usize = 0;
    while i < a.len()
        invariant
            a.len() == b.len(),
            i <= a.len(),
            forall|j: int| 0 <= j < i ==> a@[j] == b@[j],
        decreases a.len() - i,
    {
        if a[i] != b[i] {
            return false;
        }
        i = i + 1;
    }
    assert(a@ =~= b@);
    true
}

/// Whether two paths name the same place component by component, as `==`
/// on `PathBuf` decides it.
pub fn same_path_as(a: &str, b: &str) -> (r: bool)
    ensures
        r == same_path(a@, b@),
{
    let ca = chars_of(a);
    let cb = chars_of(b);
    let root_a = ca.len() > 0 && ca[0] == '/';
    let root_b = cb.len() > 0 && cb[0] == '/';
    let cur_a = ca.len() > 0 && ca[0] == '.' && (ca.len() == 1 || ca[1] == '/');
    let cur_b = cb.len() > 0 && cb[0] == '.' && (cb.len() == 1 || cb[1] == '/');
    if root_a != root_b || cur_a != cur_b {
        return false;
    }
    let pa = parts_of(a);
    let pb = parts_of(b);
    let ghost va = part_views(pa@);
    let ghost vb = part_views(pb@);
    if pa.len() != pb.len() {
        assert(va.len() != vb.len());
        return false;
    }
    let mut i: usize = 0;
    while i < pa.len()
        invariant
            pa.len() == pb.len(),
            i <= pa.len(),
            va == part_views(pa@),
            vb == part_views(pb@),
            va == path_parts(a@),
            vb == path_parts(b@),
            has_root(a@) == has_root(b@),
            starts_at_cur_dir(a@) == starts_at_cur_dir(b@),
            forall|j: int| 0 <= j < i ==> va[j] == vb[j],
        decreases pa.len() - i,
    {
        if !chars_equal(&pa[i], &pb[i]) {
            assert(va[i as int] != vb[i as int]);
            return false;
        }
        i = i + 1;
    }
    assert(va =~= vb);
    true
}

/// The extension of a path, as `Path::extension` gives it on Unix.
pub fn path_extension(p: &str) -> (r: Option<Vec<char>>)
    ensures
        match r {
            Some(e) => extension(p@) == Some(e@),
            None => extension(p@) is None,
        },
{
    let parts = parts_of(p);
    let ghost vp = part_views(parts@);
    if parts.len() == 0 {
        return None;
    }
    let name = &parts[parts.len() - 1];
    assert(name@ == vp.last());
    if name.len() == 2 && name[0] == '.' && name[1] == '.' {
        assert(name@ =~= ".."@) by {
            reveal_strlit("..");
        }
        return None;
    }
    assert(name@ != ".."@) by {
        reveal_strlit("..");
    }
    let mut k: usize = name.len();
    assert(name@.take(k as int) =~= name@);
    while k > 0 && name[k - 1] != '.'
        invariant
            k <= name@.len(),
            last_dot(name@) == last_dot(name@.take(k as int)),
        decreases k,
    {
        assert(name@.take(k as int).drop_last() =~= name@.take(k - 1));
        k = k - 1;
    }
    proof {
        if k > 0 {
            assert(name@.take(k as int).last() == '.');
        } else {
            assert(name@.take(0) =~= Seq::<char>::empty());
        }
    }
    if k <= 1 {
        return None;
    }
    let mut ext: Vec<char> = Vec::new();
    let mut j: usize = k;
    while j < name.len()
        invariant
            k <= j <= name@.len(),
            ext@ == name@.subrange(k as int, j as int),
        decreases name@.len() - j,
    {
        ext.push(name[j]);
        j = j + 1;
    }
    Some(ext)
}

/// Whether a path's extension is `ext`.
pub fn has_extension(p: &str, ext: &str) -> (r: bool)
    ensures
        r == (extension(p@) == Some(ext@)),
{
    match path_extension(p) {
        Some(e) => {
            let want = chars_of(ext);
            chars_equal(&e, &want)
        },
        None => false,
    }
}

proof fn lemma_scan_plain_suffix(p: Seq<char>, n: Seq<char>)
    requires
        forall|i: int| 0 <= i < n.len() ==> #[trigger] n[i] != '/',
    ensures
        scan_segments(p + n) == (scan_segments(p).0, scan_segments(p).1 + n),
    decreases n.len(),
{
    if n.len() == 0 {
        assert(p + n =~= p);
        assert(scan_segments(p).1 + n =~= scan_segments(p).1);
    } else {
        let m = n.drop_last();
        assert forall|i: int| 0 <= i < m.len() implies #[trigger] m[i] != '/' by {
            assert(m[i] == n[i]);
        }
        lemma_scan_plain_suffix(p, m);
        assert((p + n).drop_last() =~= p + m);
        assert((p + n).last() == n.last());
        assert(n.last() != '/');
        assert((scan_segments(p).1 + m).push(n.last()) =~= scan_segments(p).1 + n);
    }
}

/// A plain name (not empty, without `/`, neither `.` nor `..`) appended to
/// any path is that path's file name.
pub proof fn lemma_join_file_name(base: Seq<char>, name: Seq<char>)
    requires
        name.len() > 0,
        forall|i: int| 0 <= i < name.len() ==> #[trigger] name[i] != '/',
        name != seq!['.'],
        name != ".."@,
    ensures
        file_name(path_join(base, name)) == Some(name),
{
    assert(name[0] != '/');
    let prefix = if base.len() > 0 && base.last() != '/' {
        base + seq!['/']
    } else {
        base
    };
    assert(path_join(base, name) =~= prefix + name);
    if base.len() > 0 && base.last() != '/' {
        assert(prefix.drop_last() =~= base);
        assert(prefix.last() == '/');
    }
    assert(scan_segments(prefix).1 == Seq::<char>::empty());
    lemma_scan_plain_suffix(prefix, name);
    assert(Seq::<char>::empty() + name =~= name);
}

/// A file `stem.ext` appended to any path has extension `ext`, when the stem
/// is not empty and neither part holds a `/` or a `.`.
pub proof fn lemma_join_extension(base: Seq<char>, stem: Seq<char>, ext: Seq<char>)
    requires
        stem.len() > 0,
        forall|i: int| 0 <= i < stem.len() ==> #[trigger] stem[i] != '/' && stem[i] != '.',
        forall|i: int| 0 <= i < ext.len() ==> #[trigger] ext[i] != '/' && ext[i] != '.',
    ensures
        extension(path_join(base, stem + seq!['.'] + ext)) == Some(ext),
{
    let name = stem + seq!['.'] + ext;
    assert forall|i: int| 0 <= i < name.len() implies #[trigger] name[i] != '/' by {
        if i < stem.len() {
            assert(name[i] == stem[i]);
        } else if i > stem.len() {
            assert(name[i] == ext[i - stem.len() - 1]);
        }
    }
    assert(name.len() >= 2);
    assert(name != seq!['.']);
    assert(name[0] == stem[0]);
    assert(name != ".."@) by {
        reveal_strlit("..");
    }
    lemma_join_file_name(base, name);
    lemma_last_dot_of(stem, ext);
    assert(name.subrange(stem.len() + 1 as int, name.len() as int) =~= ext);
}

proof fn lemma_last_dot_of(stem: Seq<char>, ext: Seq<char>)
    requires
        forall|i: int| 0 <= i < ext.len() ==> #[trigger] ext[i] != '/' && ext[i] != '.',
    ensures
        last_dot(stem + seq!['.'] + ext) == Some(stem.len() as int),
    decreases ext.len(),
{
    if ext.len() == 0 {
        assert(stem + seq!['.'] + ext =~= stem + seq!['.']);
        assert((stem + seq!['.']).last() == '.');
    } else {
        let e = ext.drop_last();
        assert forall|i: int| 0 <= i < e.len() implies #[trigger] e[i] != '/' && e[i] != '.' by {
            assert(e[i] == ext[i]);
        }
        lemma_last_dot_of(stem, e);
        assert((stem + seq!['.'] + ext).drop_last() =~= stem + seq!['.'] + e);
        assert((stem + seq!['.'] + ext).last() == ext.last());
    }
}

} // verus!
