//! Paths compared the way `std::path::Path` compares them on Unix: by their components,
//! so that repeated separators, a trailing separator and `.` components make no
//! difference.

use vstd::prelude::*;

use crate::text::{chars_of, join_path, join_relative, owned, piece_views, split_chars, split_on, views};

verus! {

/// What a Unix path compares by: whether it starts at the root, whether it starts with
/// a `.` component (kept only at the start of a relative path), and its other components.
pub ghost struct PathKey {
    pub root: bool,
    pub cur_dir: bool,
    pub parts: Seq<Seq<char>>,
}

/// The pieces of a path that are components: empty pieces and `.` are dropped.
pub open spec fn kept_parts(pieces: Seq<Seq<char>>) -> Seq<Seq<char>>
    decreases pieces.len(),
{
    if pieces.len() == 0 {
        Seq::empty()
    } else {
        let k = kept_parts(pieces.drop_last());
        let x = pieces.last();
        if x.len() == 0 || x == seq!['.'] {
            k
        } else {
            k.push(x)
        }
    }
}

/// What the Unix path `p` compares by.
pub closed spec fn path_key(p: Seq<char>) -> PathKey {
    let root = p.len() > 0 && p[0] == '/';
    PathKey {
        root,
        cur_dir: !root && p.len() > 0 && p[0] == '.' && (p.len() == 1 || p[1] == '/'),
        parts: kept_parts(split_on(p, '/')),
    }
}

/// Whether two Unix paths are equal as `Path` compares them.
pub open spec fn same_path(a: Seq<char>, b: Seq<char>) -> bool {
    path_key(a) == path_key(b)
}

/// What each path of a list compares by.
pub open spec fn path_keys(v: Seq<String>) -> Seq<PathKey> {
    v.map_values(|s: String| path_key(s@))
}

/// What each path of a list of texts compares by.
pub open spec fn keys_of(v: Seq<Seq<char>>) -> Seq<PathKey> {
    v.map_values(|s: Seq<char>| path_key(s))
}

/// The components of a Unix path, with whether it starts at the root and whether it
/// starts with a `.` component.
fn components(p: &str) -> (r: (bool, bool, Vec<Vec<char>>))
    ensures
        r.0 == path_key(p@).root,
        r.1 == path_key(p@).cur_dir,
        piece_views(r.2@) == path_key(p@).parts,
{
    let chars = chars_of(p);
    let n = chars.len();
    let root = n > 0 && chars[0] == '/';
    let cur_dir = !root && n > 0 && chars[0] == '.' && (n == 1 || chars[1] == '/');
    let pieces = split_chars(&chars, '/');
    let ghost pv = piece_views(pieces@);
    let mut parts: Vec<Vec<char>> = Vec::new();
    let mut i: usize = 0;
    assert(pv.subrange(0, 0) =~= Seq::<Seq<char>>::empty());
    assert(piece_views(parts@) =~= Seq::<Seq<char>>::empty());
    while i < pieces.len()
        invariant
            i <= pieces.len(),
            pv == piece_views(pieces@),
            piece_views(parts@) == kept_parts(pv.subrange(0, i as int)),
        decreases pieces.len() - i,
    {
        let piece = &pieces[i];
        assert(pv.subrange(0, i + 1).drop_last() =~= pv.subrange(0, i as int));
        assert(pv.subrange(0, i + 1).last() == piece@);
        let dot = piece.len() == 1 && piece[0] == '.';
        assert(dot <==> piece@ == seq!['.']) by {
            if piece@ == seq!['.'] {
                assert(piece@[0] == '.');
            }
            if dot {
                assert(piece@ =~= seq!['.']);
            }
        }
        if !(piece.len() == 0 || dot) {
            let ghost before = piece_views(parts@);
            parts.push(piece.clone());
            assert(piece_views(parts@) =~= before.push(piece@));
        }
        i = i + 1;
    }
    assert(pv.subrange(0, pieces.len() as int) =~= pv);
    (root, cur_dir, parts)
}

/// Whether two character vectors hold the same characters.
fn chars_equal(a: &Vec<char>, b: &Vec<char>) -> (r: bool)
    ensures
        r == (a@ == b@),
{
    if a.len() != b.len() {
        return false;
    }
    let mut i: usize = 0;
    while i < a.len()
        invariant
            a.len() == b.len(),
            i <= a.len(),
            forall|j: int| 0 <= j < i ==> a@[j] == b@[j],
        decreases a.len() - i,
    {
        if a[i] != b[i] {
            return false;
        }
        i = i + 1;
    }
    assert(a@ =~= b@);
    true
}

/// Whether two Unix paths are equal as `Path` compares them.
pub fn paths_equal(a: &str, b: &str) -> (r: bool)
    ensures
        r == same_path(a@, b@),
{
    let (ra, ca, pa) = components(a);
    let (rb, cb, pb) = components(b);
    if ra != rb || ca != cb || pa.len() != pb.len() {
        assert(piece_views(pa@).len() == pa.len() && piece_views(pb@).len() == pb.len());
        return false;
    }
    let mut i: usize = 0;
    while i < pa.len()
        invariant
            pa.len() == pb.len(),
            i <= pa.len(),
            piece_views(pa@) == path_key(a@).parts,
            piece_views(pb@) == path_key(b@).parts,
            forall|j: int| 0 <= j < i ==> pa@[j]@ == pb@[j]@,
        decreases pa.len() - i,
    {
        if !chars_equal(&pa[i], &pb[i]) {
            assert(piece_views(pa@)[i as int] != piece_views(pb@)[i as int]);
            assert(path_key(a@).parts != path_key(b@).parts);
            return false;
        }
        i = i + 1;
    }
    assert(piece_views(pa@) =~= piece_views(pb@));
    true
}

/// Index of the first path of `v` equal to `p` as `Path` compares them, if any.
pub fn find_path(v: &Vec<String>, p: &str) -> (r: Option<usize>)
    ensures
        match r {
            Some(i) => i < v.len() && same_path(v@[i as int]@, p@),
            None => !path_keys(v@).contains(path_key(p@)),
        },
{
    let mut i: usize = 0;
    while i < v.len()
        invariant
            i <= v.len(),
            forall|j: int| 0 <= j < i ==> !same_path(v@[j]@, p@),
        decreases v.len() - i,
    {
        if paths_equal(v[i].as_str(), p) {
            return Some(i);
        }
        i = i + 1;
    }
    proof {
        if path_keys(v@).contains(path_key(p@)) {
            let k = choose|k: int| 0 <= k < path_keys(v@).len() && path_keys(v@)[k] == path_key(p@);
            assert(same_path(v@[k]@, p@));
        }
    }
    None
}

/// Adds `p` to a list of paths unless an equal path is there already.
pub fn path_insert(v: &mut Vec<String>, p: &str)
    requires
        path_keys(old(v)@).no_duplicates(),
    ensures
        path_keys(final(v)@).no_duplicates(),
        path_keys(final(v)@).to_set() == path_keys(old(v)@).to_set().insert(path_key(p@)),
{
    match find_path(v, p) {
        Some(i) => {
            assert(path_keys(v@)[i as int] == path_key(p@));
            assert(path_keys(v@).to_set() =~= path_keys(v@).to_set().insert(path_key(p@)));
        },
        None => {
            let ghost before = v@;
            v.push(crate::text::owned(p));
            assert(path_keys(v@) =~= path_keys(before).push(path_key(p@)));
            proof {
                path_keys(before).lemma_push_to_set_commute(path_key(p@));
                assert forall|a: int, b: int|
                    0 <= a < path_keys(v@).len() && 0 <= b < path_keys(v@).len() && a != b implies path_keys(
                    v@,
                )[a] != path_keys(v@)[b] by {
                    if a == before.len() {
                        assert(path_keys(before).contains(path_keys(v@)[b]));
                    }
                    if b == before.len() {
                        assert(path_keys(before).contains(path_keys(v@)[a]));
                    }
                }
            }
        },
    }
}

/// Splitting `x`, a separator, then `y` gives the pieces of `x` followed by those of `y`.
proof fn lemma_split_at_sep(x: Seq<char>, y: Seq<char>, sep: char)
    ensures
        split_on(x.push(sep) + y, sep) == split_on(x, sep) + split_on(y, sep),
    decreases y.len(),
{
    if y.len() == 0 {
        assert(x.push(sep) + y =~= x.push(sep));
        assert(x.push(sep).drop_last() =~= x);
        assert(split_on(x, sep) + split_on(y, sep) =~= split_on(x, sep).push(Seq::empty()));
    } else {
        let y0 = y.drop_last();
        let c = y.last();
        lemma_split_at_sep(x, y0, sep);
        lemma_split_nonempty(y0, sep);
        let whole = x.push(sep) + y;
        assert(whole.drop_last() =~= x.push(sep) + y0);
        assert(whole.last() == c);
        let a = split_on(x, sep);
        let b = split_on(y0, sep);
        if c == sep {
            assert((a + b).push(Seq::empty()) =~= a + b.push(Seq::empty()));
        } else {
            assert((a + b).update((a + b).len() - 1, (a + b).last().push(c)) =~= a + b.update(
                b.len() - 1,
                b.last().push(c),
            ));
        }
    }
}

proof fn lemma_split_nonempty(s: Seq<char>, sep: char)
    ensures
        split_on(s, sep).len() >= 1,
    decreases s.len(),
{
    if s.len() > 0 {
        lemma_split_nonempty(s.drop_last(), sep);
    }
}

/// Keeping the components of two lists of pieces one after the other keeps them of each.
proof fn lemma_kept_concat(a: Seq<Seq<char>>, b: Seq<Seq<char>>)
    ensures
        kept_parts(a + b) == kept_parts(a) + kept_parts(b),
    decreases b.len(),
{
    if b.len() == 0 {
        assert(a + b =~= a);
        assert(kept_parts(a) + kept_parts(b) =~= kept_parts(a));
    } else {
        lemma_kept_concat(a, b.drop_last());
        assert((a + b).drop_last() =~= a + b.drop_last());
        assert((a + b).last() == b.last());
        let x = b.last();
        if !(x.len() == 0 || x == seq!['.']) {
            assert(kept_parts(a) + kept_parts(b.drop_last()).push(x) =~= (kept_parts(a) + kept_parts(
                b.drop_last(),
            )).push(x));
        }
    }
}

proof fn lemma_kept_empty_piece()
    ensures
        kept_parts(seq![Seq::<char>::empty()]) == Seq::<Seq<char>>::empty(),
{
    let e = Seq::<char>::empty();
    let none = Seq::<Seq<char>>::empty();
    assert(seq![e].drop_last() =~= none);
    assert(seq![e].last() == e);
    assert(kept_parts(none) == none);
    assert(kept_parts(seq![e]) == kept_parts(seq![e].drop_last()));
}

/// The path that is only the root.
pub open spec fn root_key() -> PathKey {
    PathKey { root: true, cur_dir: false, parts: Seq::empty() }
}

/// What the parent of a path compares by: the path without its last component. A path
/// that is only `.` has the empty path as parent; the root and the empty path have none.
pub open spec fn parent_key(k: PathKey) -> Option<PathKey> {
    if k.parts.len() > 0 {
        Some(PathKey { root: k.root, cur_dir: k.cur_dir, parts: k.parts.drop_last() })
    } else if k.cur_dir {
        Some(PathKey { root: false, cur_dir: false, parts: Seq::empty() })
    } else {
        None
    }
}

/// The parent of a path, or the root when it has none.
pub open spec fn parent_or_root(k: PathKey) -> PathKey {
    match parent_key(k) {
        Some(q) => q,
        None => root_key(),
    }
}

/// Calls `Path::parent`, which gives the path without its final component, and nothing
/// when the path ends in the root or is empty. The contract states that over the
/// components the path compares by, as `Path::components` documents them; the text of
/// the result (a prefix of `p`) is not stated.
#[verifier::external_body]
pub fn parent_of(p: &str) -> (r: Option<String>)
    ensures
        match r {
            Some(q) => parent_key(path_key(p@)) == Some(path_key(q@)),
            None => parent_key(path_key(p@)) is None,
        },
{
    match std::path::Path::new(p).parent() {
        Some(q) => Some(q.to_string_lossy().into_owned()),
        None => None,
    }
}

/// What a path with the components of `comp` added after those of `base` compares by.
pub open spec fn joined_key(base: PathKey, comp: PathKey) -> PathKey {
    PathKey { root: base.root, cur_dir: base.cur_dir, parts: base.parts + comp.parts }
}

/// Joining a relative path that does not start with `.` adds its components.
proof fn lemma_join_key(base: Seq<char>, comp: Seq<char>)
    requires
        comp.len() > 0,
        comp[0] != '/',
        comp[0] != '.',
    ensures
        path_key(join_path(base, comp)) == joined_key(path_key(base), path_key(comp)),
{
    let j = join_path(base, comp);
    if base.len() == 0 {
        assert(j =~= comp);
        assert(split_on(base, '/') == seq![Seq::<char>::empty()]);
        lemma_kept_empty_piece();
        assert(path_key(base).parts =~= Seq::<Seq<char>>::empty());
        assert(path_key(base).parts + path_key(comp).parts =~= path_key(comp).parts);
    } else if base.last() == '/' {
        let x = base.drop_last();
        assert(base =~= x.push('/'));
        assert(j =~= x.push('/') + comp);
        lemma_split_at_sep(x, comp, '/');
        lemma_kept_concat(split_on(x, '/'), split_on(comp, '/'));
        assert(split_on(base, '/') == split_on(x, '/').push(Seq::empty()));
        assert(split_on(x, '/').push(Seq::empty()).drop_last() =~= split_on(x, '/'));
        assert(j[0] == base[0]);
        if base.len() > 1 {
            assert(j[1] == base[1]);
        }
    } else {
        assert(j =~= base.push('/') + comp);
        lemma_split_at_sep(base, comp, '/');
        lemma_kept_concat(split_on(base, '/'), split_on(comp, '/'));
        assert(j[0] == base[0]);
        assert(j[base.len() as int] == '/');
        if base.len() > 1 {
            assert(j[1] == base[1]);
        }
    }
}

/// `comp` joined under `base`, as `Path::join` joins a relative path.
pub fn path_join(base: &str, comp: &str) -> (r: String)
    requires
        comp@.len() > 0,
        comp@[0] != '/',
        comp@[0] != '.',
    ensures
        r@ == join_path(base@, comp@),
        path_key(r@) == joined_key(path_key(base@), path_key(comp@)),
{
    proof {
        lemma_join_key(base@, comp@);
    }
    join_relative(base, comp)
}

/// The root path.
pub fn root_path() -> (r: String)
    ensures
        path_key(r@) == root_key(),
{
    let r = owned("/");
    proof {
        reveal_strlit("/");
        let e = Seq::<char>::empty();
        assert(r@ =~= seq!['/']);
        assert(seq!['/'].drop_last() =~= e);
        assert(seq!['/'].last() == '/');
        assert(split_on(e, '/') == seq![e]);
        assert(split_on(seq!['/'], '/') == seq![e].push(e));
        assert(seq![e].push(e) =~= seq![e, e]);
        assert(seq![e, e].drop_last() =~= seq![e]);
        lemma_kept_empty_piece();
        assert(kept_parts(seq![e, e]) == kept_parts(seq![e]));
    }
    r
}

} // verus!
