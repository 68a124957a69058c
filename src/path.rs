use vstd::prelude::*;

verus! {

/// The views of a sequence of strings.
pub open spec fn views(v: Seq<String>) -> Seq<Seq<char>> {
    v.map_values(|x: String| x@)
}

/// The prefix of `s` that names the directory whose separator is at `i`;
/// the separator at the very start names the root, `/`.
pub open spec fn cut(s: Seq<char>, i: int) -> Seq<char> {
    if i == 0 {
        seq!['/']
    } else {
        s.subrange(0, i)
    }
}

/// The directories named by the separators of `s[..end]`, nearest first.
pub open spec fn parent_cuts(s: Seq<char>, end: int) -> Seq<Seq<char>>
    decreases end,
{
    if end <= 0 {
        seq![]
    } else if s[end - 1] == '/' {
        seq![cut(s, end - 1)] + parent_cuts(s, end - 1)
    } else {
        parent_cuts(s, end - 1)
    }
}

/// Where the walk up from `s` starts: a trailing separator names no parent.
pub open spec fn walk_start(s: Seq<char>) -> int {
    if s.len() > 0 && s.last() == '/' {
        s.len() - 1
    } else {
        s.len() as int
    }
}

/// A path that does not start at the root has the current directory, the
/// empty path, as its last ancestor.
pub open spec fn is_relative(s: Seq<char>) -> bool {
    s.len() > 0 && s[0] != '/'
}

/// `s` and its ancestor directories, nearest first.
pub open spec fn ancestors_of(s: Seq<char>) -> Seq<Seq<char>> {
    seq![s] + parent_cuts(s, walk_start(s)) + if is_relative(s) {
        seq![Seq::<char>::empty()]
    } else {
        seq![]
    }
}

/// The first candidate whose mark is set, walking both in step.
pub open spec fn first_marked(cands: Seq<Seq<char>>, marked: Seq<bool>) -> Option<Seq<char>>
    decreases cands.len(),
{
    if cands.len() == 0 || marked.len() == 0 {
        None
    } else if marked[0] {
        Some(cands[0])
    } else {
        first_marked(cands.drop_first(), marked.drop_first())
    }
}

/// The project root of `path`: the nearest ancestor whose mark is set, where
/// `marked[i]` tells whether the `i`-th ancestor holds the manifest marker.
pub open spec fn project_root(path: Seq<char>, marked: Seq<bool>) -> Option<Seq<char>> {
    first_marked(ancestors_of(path), marked)
}

/// `name` inside directory `dir`.
pub open spec fn join(dir: Seq<char>, name: Seq<char>) -> Seq<char> {
    if dir.len() == 0 || dir.last() == '/' {
        dir + name
    } else {
        dir + seq!['/'] + name
    }
}

/// Index just past the last separator of `s[..end]`, or 0 if there is none.
pub open spec fn name_start(s: Seq<char>, end: int) -> int
    decreases end,
{
    if end <= 0 {
        0
    } else if s[end - 1] == '/' {
        end
    } else {
        name_start(s, end - 1)
    }
}

/// End of the file stem of `s`, whose file name starts at `start`: the last
/// dot of `s[start..end]` that is not the name's first character, or the end
/// of `s` when there is none.
pub open spec fn stem_end(s: Seq<char>, start: int, end: int) -> int
    decreases end - start,
{
    if end <= start + 1 {
        s.len() as int
    } else if s[end - 1] == '.' {
        end - 1
    } else {
        stem_end(s, start, end - 1)
    }
}

/// The last component of `s`, after its last separator.
pub open spec fn file_name(s: Seq<char>) -> Seq<char> {
    s.subrange(name_start(s, s.len() as int), s.len() as int)
}

/// A path names a file when its last component is neither empty, `.` nor `..`.
pub open spec fn has_file_name(s: Seq<char>) -> bool {
    let f = file_name(s);
    f.len() > 0 && f != seq!['.'] && f != seq!['.', '.']
}

/// `s` with the extension of its file name replaced by `ext`, or `None` when
/// `s` names no file.
pub open spec fn with_extension(s: Seq<char>, ext: Seq<char>) -> Option<Seq<char>> {
    if has_file_name(s) {
        Some(s.subrange(0, stem_end(s, name_start(s, s.len() as int), s.len() as int)) + seq!['.']
            + ext)
    } else {
        None
    }
}

proof fn lemma_views_push(v: Seq<String>, x: String)
    ensures
        views(v.push(x)) == views(v).push(x@),
{
    assert(views(v.push(x)) =~= views(v).push(x@));
}

/// `path` and each of its ancestor directories, nearest first.
pub fn ancestors(path: &str) -> (r: Vec<String>)
    ensures
        views(r@) == ancestors_of(path@),
{
    proof {
        reveal_strlit("/");
    }
    let n = path.unicode_len();
    let mut out: Vec<String> = Vec::new();
    let whole = String::from_str(path);
    proof {
        lemma_views_push(out@, whole);
    }
    out.push(whole);
    let mut i: usize = if n > 0 && path.get_char(n - 1) == '/' {
        n - 1
    } else {
        n
    };
    let ghost start = i as int;
    assert(start == walk_start(path@));
    while i > 0
        invariant
            i <= start <= n == path@.len(),
            start == walk_start(path@),
            views(out@) + parent_cuts(path@, i as int) == seq![path@] + parent_cuts(path@, start),
        decreases i,
    {
        if path.get_char(i - 1) == '/' {
            let dir = if i - 1 == 0 {
                proof {
                    reveal_strlit("/");
                    assert("/"@ =~= seq!['/']);
                }
                String::from_str("/")
            } else {
                String::from_str(path.substring_char(0, i - 1))
            };
            proof {
                lemma_views_push(out@, dir);
                assert(dir@ == cut(path@, i - 1));
                assert(views(out@).push(dir@) + parent_cuts(path@, i - 1) =~= views(out@) + (seq![
                    dir@,
                ] + parent_cuts(path@, i - 1)));
            }
            out.push(dir);
        }
        i = i - 1;
    }
    if n > 0 && path.get_char(0) != '/' {
        let here = String::new();
        proof {
            lemma_views_push(out@, here);
        }
        out.push(here);
    }
    assert(views(out@) =~= ancestors_of(path@));
    out
}

/// The nearest ancestor of `path` (itself included) that holds the manifest
/// marker, where `marked[i]` tells whether the `i`-th entry of
/// `ancestors(path)` holds it; `None` when no such entry is marked.
pub fn find_project_root(path: &str, marked: &Vec<bool>) -> (r: Option<String>)
    ensures
        r is Some <==> project_root(path@, marked@) is Some,
        r is Some ==> r->0@ == project_root(path@, marked@)->0,
{
    let cands = ancestors(path);
    let ghost a = views(cands@);
    let mut i: usize = 0;
    assert(a.skip(0) =~= a);
    assert(marked@.skip(0) =~= marked@);
    while i < cands.len() && i < marked.len()
        invariant
            a == views(cands@),
            a == ancestors_of(path@),
            i <= cands.len(),
            i <= marked.len(),
            first_marked(a, marked@) == first_marked(a.skip(i as int), marked@.skip(i as int)),
        decreases cands.len() - i,
    {
        if marked[i] {
            assert(a.skip(i as int)[0] == cands@[i as int]@);
            return Some(cands[i].clone());
        }
        assert(a.skip(i as int).drop_first() =~= a.skip(i + 1));
        assert(marked@.skip(i as int).drop_first() =~= marked@.skip(i + 1));
        i = i + 1;
    }
    assert(a.skip(i as int).len() == 0 || marked@.skip(i as int).len() == 0);
    None
}

/// `name` inside directory `dir`, as `Path::join` forms it.
pub fn join_path(dir: &str, name: &str) -> (r: String)
    ensures
        r@ == join(dir@, name@),
{
    proof {
        reveal_strlit("/");
    }
    let n = dir.unicode_len();
    let d = String::from_str(dir);
    if n == 0 || dir.get_char(n - 1) == '/' {
        d.concat(name)
    } else {
        d.concat("/").concat(name)
    }
}

/// `path` with the extension of its file name replaced by `ext`, as
/// `PathBuf::set_extension` does; `None` when `path` names no file.
pub fn replace_extension(path: &str, ext: &str) -> (r: Option<String>)
    ensures
        r is Some <==> with_extension(path@, ext@) is Some,
        r is Some ==> r->0@ == with_extension(path@, ext@)->0,
{
    proof {
        reveal_strlit(".");
    }
    let n = path.unicode_len();
    let mut start: usize = n;
    while start > 0 && path.get_char(start - 1) != '/'
        invariant
            start <= n == path@.len(),
            name_start(path@, n as int) == name_start(path@, start as int),
        decreases start,
    {
        start = start - 1;
    }
    assert(name_start(path@, n as int) == start);
    let len = n - start;
    if len == 0 || (len == 1 && path.get_char(start) == '.') || (len == 2 && path.get_char(start)
        == '.' && path.get_char(start + 1) == '.') {
        proof {
            let f = file_name(path@);
            if len == 1 {
                assert(f =~= seq!['.']);
            }
            if len == 2 {
                assert(f =~= seq!['.', '.']);
            }
        }
        return None;
    }
    proof {
        let f = file_name(path@);
        if len == 1 {
            assert(f[0] != '.');
        }
        if len == 2 {
            assert(f[0] != '.' || f[1] != '.');
        }
    }
    let mut end: usize = n;
    while end > start + 1 && path.get_char(end - 1) != '.'
        invariant
            start < end <= n == path@.len(),
            stem_end(path@, start as int, n as int) == stem_end(path@, start as int, end as int),
        decreases end,
    {
        end = end - 1;
    }
    let stem = if end <= start + 1 {
        n
    } else {
        end - 1
    };
    assert(stem == stem_end(path@, start as int, n as int));
    assert("."@ =~= seq!['.']);
    let r = String::from_str(path.substring_char(0, stem)).concat(".").concat(ext);
    Some(r)
}

/// The directory of a project's resource bundle, `<root>/res`.
pub fn resource_dir(root: &str) -> (r: String)
    ensures
        r@ == join(root@, "res"@),
{
    join_path(root, "res")
}

/// The manifest marker's path inside directory `dir`, `<dir>/Cargo.toml`.
pub fn manifest_path(dir: &str) -> (r: String)
    ensures
        r@ == join(dir@, "Cargo.toml"@),
{
    join_path(dir, "Cargo.toml")
}

} // verus!
