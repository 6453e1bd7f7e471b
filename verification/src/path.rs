//! Path normalization and decomposition.
//!
//! A normalized root is absolute: exactly one leading slash and no
//! trailing slash except for the root itself. Relative paths are joined
//! against the root by the facade before any backend call.

use vstd::prelude::*;

verus! {

/// The sequence with its leading slashes removed.
pub open spec fn spec_trim_leading(s: Seq<char>) -> Seq<char>
    decreases s.len(),
{
    if s.len() > 0 && s[0] == '/' {
        spec_trim_leading(s.drop_first())
    } else {
        s
    }
}

/// The sequence with its trailing slashes removed.
pub open spec fn spec_trim_trailing(s: Seq<char>) -> Seq<char>
    decreases s.len(),
{
    if s.len() > 0 && s[s.len() - 1] == '/' {
        spec_trim_trailing(s.drop_last())
    } else {
        s
    }
}

/// The sequence with slashes removed at both ends.
pub open spec fn spec_trim_slashes(s: Seq<char>) -> Seq<char> {
    spec_trim_trailing(spec_trim_leading(s))
}

/// True when no character of the sequence is a slash.
pub open spec fn spec_no_slash(s: Seq<char>) -> bool {
    forall|j: int| 0 <= j < s.len() ==> s[j] != '/'
}

proof fn lemma_trim_leading_subrange(s: Seq<char>, i: int)
    requires
        0 <= i <= s.len(),
        forall|k: int| 0 <= k < i ==> s[k] == '/',
        i < s.len() ==> s[i] != '/',
    ensures
        spec_trim_leading(s) == s.subrange(i, s.len() as int),
    decreases i,
{
    if i == 0 {
        assert(s.subrange(0, s.len() as int) =~= s);
    } else {
        assert(s[0] == '/');
        lemma_trim_leading_subrange(s.drop_first(), i - 1);
        assert(s.drop_first().subrange(i - 1, s.drop_first().len() as int) =~= s.subrange(
            i,
            s.len() as int,
        ));
    }
}

proof fn lemma_trim_trailing_subrange(s: Seq<char>, j: int)
    requires
        0 <= j <= s.len(),
        forall|k: int| j <= k < s.len() ==> s[k] == '/',
        j > 0 ==> s[j - 1] != '/',
    ensures
        spec_trim_trailing(s) == s.subrange(0, j),
    decreases s.len() - j,
{
    if j == s.len() {
        if s.len() > 0 && s[s.len() - 1] == '/' {
            assert(s[j - 1] == '/');
            assert(false);
        }
        assert(s.subrange(0, j) =~= s);
    } else {
        assert(s[s.len() - 1] == '/');
        lemma_trim_trailing_subrange(s.drop_last(), j);
        assert(s.drop_last().subrange(0, j) =~= s.subrange(0, j));
    }
}

/// Remove leading slashes and say where the kept part begins.
fn trim_leading_index(s: &str) -> (i: usize)
    ensures
        i <= s@.len(),
        forall|k: int| 0 <= k < i ==> s@[k] == '/',
        i < s@.len() ==> s@[i as int] != '/',
        spec_trim_leading(s@) == s@.subrange(i as int, s@.len() as int),
{
    let n: usize = s.unicode_len();
    let mut i: usize = 0;
    while i < n && s.get_char(i) == '/'
        invariant
            i <= n,
            n == s@.len(),
            forall|k: int| 0 <= k < i ==> s@[k] == '/',
        decreases n - i,
    {
        i = i + 1;
    }
    proof {
        lemma_trim_leading_subrange(s@, i as int);
    }
    i
}

/// Remove trailing slashes at or after `from` and say where the kept
/// part ends.
fn trim_trailing_index(s: &str, from: usize) -> (j: usize)
    requires
        from <= s@.len(),
    ensures
        from <= j <= s@.len(),
        forall|k: int| j <= k < s@.len() ==> s@[k] == '/',
        j > from ==> s@[j - 1] != '/',
{
    let n: usize = s.unicode_len();
    let mut j: usize = n;
    while j > from && s.get_char(j - 1) == '/'
        invariant
            from <= j <= n,
            n == s@.len(),
            forall|k: int| j <= k < s@.len() ==> s@[k] == '/',
        decreases j,
    {
        j = j - 1;
    }
    j
}

/// Normalize a configured root: exactly one leading slash and no
/// trailing slash, the bare root being `/` itself.
pub fn normalize_root(root: &str) -> (r: String)
    ensures
        r@ == seq!['/'] + spec_trim_slashes(root@),
        spec_root_normalized(r@),
{
    let i: usize = trim_leading_index(root);
    let j: usize = trim_trailing_index(root, i);
    let mid = root.substring_char(i, j);
    proof {
        let t = spec_trim_leading(root@);
        assert(t == root@.subrange(i as int, root@.len() as int));
        lemma_trim_trailing_subrange(t, j - i);
        assert(t.subrange(0, j - i) =~= root@.subrange(i as int, j as int));
        reveal_strlit("/");
    }
    let mut r = "/".to_owned();
    r.append(mid);
    proof {
        assert(r@ =~= seq!['/'] + spec_trim_slashes(root@));
    }
    r
}

/// What joining a relative path against a normalized root yields.
pub open spec fn spec_abs_path(root: Seq<char>, rel: Seq<char>) -> Seq<char> {
    let stripped = spec_trim_leading(rel);
    if stripped.len() == 0 {
        root
    } else if root.len() == 1 {
        seq!['/'] + stripped
    } else {
        root + seq!['/'] + stripped
    }
}

/// True of a root in its normalized form: absolute, no trailing slash
/// except for the bare root.
pub open spec fn spec_root_normalized(root: Seq<char>) -> bool {
    root.len() >= 1 && root[0] == '/' && (root.len() > 1 ==> root[root.len() - 1] != '/')
}

/// Join a relative path against a normalized root. An empty relative
/// path denotes the root itself; a trailing slash of the relative path
/// (a directory marker) is kept.
pub fn build_abs_path(root: &str, rel: &str) -> (r: String)
    requires
        spec_root_normalized(root@),
    ensures
        r@ == spec_abs_path(root@, rel@),
{
    let i: usize = trim_leading_index(rel);
    let n: usize = rel.unicode_len();
    let stripped = rel.substring_char(i, n);
    proof {
        assert(stripped@ =~= spec_trim_leading(rel@));
        reveal_strlit("/");
    }
    if stripped.unicode_len() == 0 {
        let r = root.to_owned();
        proof {
            assert(spec_trim_leading(rel@).len() == 0);
        }
        r
    } else if root.unicode_len() == 1 {
        let mut r = "/".to_owned();
        r.append(stripped);
        proof {
            assert(r@ =~= seq!['/'] + spec_trim_leading(rel@));
        }
        r
    } else {
        let mut r = root.to_owned();
        r.append("/");
        r.append(stripped);
        proof {
            assert(r@ =~= root@ + seq!['/'] + spec_trim_leading(rel@));
        }
        r
    }
}

/// The text with its leading slashes removed.
pub fn trim_leading_slashes(s: &str) -> (r: String)
    ensures
        r@ == spec_trim_leading(s@),
{
    let i: usize = trim_leading_index(s);
    let n: usize = s.unicode_len();
    let r = s.substring_char(i, n);
    r.to_owned()
}

/// The part after the last slash, the whole sequence when it has none.
pub open spec fn spec_after_last_slash(s: Seq<char>) -> Seq<char>
    decreases s.len(),
{
    if s.len() == 0 {
        s
    } else if s[s.len() - 1] == '/' {
        Seq::<char>::empty()
    } else {
        spec_after_last_slash(s.drop_last()).push(s[s.len() - 1])
    }
}

/// The part before the last slash, empty when it has none.
pub open spec fn spec_before_last_slash(s: Seq<char>) -> Seq<char>
    decreases s.len(),
{
    if s.len() == 0 {
        s
    } else if s[s.len() - 1] == '/' {
        s.drop_last()
    } else {
        spec_before_last_slash(s.drop_last())
    }
}

/// The base name of a path: what follows the last slash once trailing
/// slashes are ignored.
pub open spec fn spec_basename(s: Seq<char>) -> Seq<char> {
    spec_after_last_slash(spec_trim_trailing(s))
}

/// The parent of a path: what precedes the last slash once trailing
/// slashes are ignored, the bare root when nothing does.
pub open spec fn spec_parent(s: Seq<char>) -> Seq<char> {
    if spec_before_last_slash(spec_trim_trailing(s)).len() == 0 {
        seq!['/']
    } else {
        spec_before_last_slash(spec_trim_trailing(s))
    }
}

proof fn lemma_split_last_slash(s: Seq<char>, k: int)
    requires
        -1 <= k < s.len(),
        forall|m: int| k < m < s.len() ==> s[m] != '/',
        k >= 0 ==> s[k] == '/',
    ensures
        spec_after_last_slash(s) == s.subrange(k + 1, s.len() as int),
        spec_before_last_slash(s) == if k >= 0 {
            s.subrange(0, k)
        } else {
            Seq::<char>::empty()
        },
    decreases s.len(),
{
    if s.len() == 0 {
        assert(s.subrange(0, 0) =~= s);
    } else if s[s.len() - 1] == '/' {
        assert(k == s.len() - 1);
        assert(s.subrange(k + 1, s.len() as int) =~= Seq::<char>::empty());
        assert(s.drop_last() =~= s.subrange(0, k));
    } else {
        assert(k < s.len() - 1);
        lemma_split_last_slash(s.drop_last(), k);
        assert(s.drop_last().subrange(k + 1, s.drop_last().len() as int).push(s[s.len() - 1])
            =~= s.subrange(k + 1, s.len() as int));
        if k >= 0 {
            assert(s.drop_last().subrange(0, k) =~= s.subrange(0, k));
        }
    }
}

/// Find the last slash strictly before `j`, reporting `j` itself when
/// there is none. The result `k` is shifted by one: `k == 0` means no
/// slash, otherwise the slash sits at `k - 1`.
fn last_slash_before(s: &str, j: usize) -> (k: usize)
    requires
        j <= s@.len(),
    ensures
        k <= j,
        forall|m: int| k <= m < j ==> s@[m] != '/',
        k > 0 ==> s@[k - 1] == '/',
{
    let mut k: usize = j;
    while k > 0 && s.get_char(k - 1) != '/'
        invariant
            k <= j <= s@.len(),
            forall|m: int| k <= m < j ==> s@[m] != '/',
        decreases k,
    {
        k = k - 1;
    }
    k
}

/// The base name of a path, trailing slashes ignored.
pub fn get_basename(path: &str) -> (r: String)
    ensures
        r@ == spec_basename(path@),
{
    let j: usize = trim_trailing_index(path, 0);
    let k: usize = last_slash_before(path, j);
    let r = path.substring_char(k, j);
    proof {
        lemma_trim_trailing_subrange(path@, j as int);
        let t = path@.subrange(0, j as int);
        lemma_split_last_slash(t, k - 1);
        assert(t.subrange(k as int, j as int) =~= path@.subrange(k as int, j as int));
    }
    r.to_owned()
}

/// The parent path, trailing slashes ignored; the parent of a top-level
/// name is the root itself.
pub fn get_parent(path: &str) -> (r: String)
    ensures
        r@ == spec_parent(path@),
{
    let j: usize = trim_trailing_index(path, 0);
    let k: usize = last_slash_before(path, j);
    proof {
        lemma_trim_trailing_subrange(path@, j as int);
        let t = path@.subrange(0, j as int);
        lemma_split_last_slash(t, k - 1);
        reveal_strlit("/");
    }
    if k <= 1 {
        proof {
            let t = path@.subrange(0, j as int);
            if k == 1 {
                assert(t.subrange(0, 0) =~= Seq::<char>::empty());
            }
        }
        "/".to_owned()
    } else {
        let r = path.substring_char(0, k - 1);
        proof {
            let t = path@.subrange(0, j as int);
            assert(t.subrange(0, k - 1) =~= path@.subrange(0, k - 1));
        }
        r.to_owned()
    }
}

/// True when the path has a parent-directory segment `..` beginning at
/// the given position.
pub open spec fn spec_parent_seg_at(s: Seq<char>, i: int) -> bool {
    &&& 0 <= i
    &&& i + 2 <= s.len()
    &&& s[i] == '.'
    &&& s[i + 1] == '.'
    &&& (i == 0 || s[i - 1] == '/')
    &&& (i + 2 == s.len() || s[i + 2] == '/')
}

/// True when some `/`-separated segment of the path is `..`: such a
/// path could ascend above the root and is refused by the facade.
pub open spec fn spec_has_parent_segment(s: Seq<char>) -> bool {
    exists|i: int| spec_parent_seg_at(s, i)
}

/// Whether the path holds a `..` segment.
pub fn has_parent_segment(path: &str) -> (r: bool)
    ensures
        r == spec_has_parent_segment(path@),
{
    let n: usize = path.unicode_len();
    let mut i: usize = 0;
    if n < 2 {
        return false;
    }
    while i <= n - 2
        invariant
            2 <= n,
            i <= n,
            n == path@.len(),
            forall|k: int| 0 <= k < i ==> !spec_parent_seg_at(path@, k),
        decreases n - i,
    {
        let c0 = path.get_char(i);
        let c1 = path.get_char(i + 1);
        let prev_ok = i == 0 || path.get_char(i - 1) == '/';
        let next_ok = i + 2 == n || path.get_char(i + 2) == '/';
        if c0 == '.' && c1 == '.' && prev_ok && next_ok {
            proof {
                assert(spec_parent_seg_at(path@, i as int));
            }
            return true;
        }
        proof {
            assert(!spec_parent_seg_at(path@, i as int));
        }
        i = i + 1;
    }
    proof {
        assert forall|k: int| !spec_parent_seg_at(path@, k) by {
            if 0 <= k < i {
            } else {
                assert(k < 0 || k + 2 > path@.len());
            }
        }
    }
    false
}

/// The names joined with single slashes, no slash at either end.
pub open spec fn spec_join_slash(names: Seq<Seq<char>>) -> Seq<char>
    decreases names.len(),
{
    if names.len() == 0 {
        Seq::<char>::empty()
    } else if names.len() == 1 {
        names[0]
    } else {
        names[0] + seq!['/'] + spec_join_slash(names.drop_first())
    }
}

pub proof fn lemma_join_push(names: Seq<Seq<char>>, y: Seq<char>)
    ensures
        spec_join_slash(names.push(y)) == if names.len() == 0 {
            y
        } else {
            spec_join_slash(names) + seq!['/'] + y
        },
    decreases names.len(),
{
    if names.len() == 0 {
        assert(names.push(y)[0] =~= y);
    } else if names.len() == 1 {
        let p = names.push(y);
        assert(p.len() == 2);
        assert(p[0] == names[0]);
        assert(p.drop_first() =~= seq![y]);
        assert(seq![y].len() == 1 && seq![y][0] == y);
        assert(spec_join_slash(p.drop_first()) == y);
        assert(spec_join_slash(p) == p[0] + seq!['/'] + spec_join_slash(p.drop_first()));
        assert(spec_join_slash(names.push(y)) =~= spec_join_slash(names) + seq!['/'] + y);
    } else {
        lemma_join_push(names.drop_first(), y);
        assert(names.push(y).drop_first() =~= names.drop_first().push(y));
        assert(spec_join_slash(names.push(y)) =~= spec_join_slash(names) + seq!['/'] + y);
    }
}

/// One folder to create on the way down a directory path: its bare name
/// and the absolute path up to and including it.
#[derive(Clone, Debug, PartialEq, Eq)]
pub struct DirSegment {
    pub name: String,
    pub path: String,
}

/// The name sequences of a segment run.
pub open spec fn seg_names(ss: Seq<DirSegment>) -> Seq<Seq<char>> {
    ss.map_values(|seg: DirSegment| seg.name@)
}

/// Split a directory path into the folders to create, outermost first.
/// Each segment carries a slash-free name and the cumulative absolute
/// path; joining the names with slashes restores the trimmed input, so
/// the decomposition is exact.
pub fn dir_path_segments(path: &str) -> (r: Vec<DirSegment>)
    ensures
        ({
            let t = spec_trim_slashes(path@);
            &&& t.len() == 0 ==> r@.len() == 0
            &&& t.len() > 0 ==> {
                &&& r@.len() >= 1
                &&& spec_join_slash(seg_names(r@)) == t
                &&& (forall|k: int|
                    0 <= k < r@.len() ==> spec_no_slash(#[trigger] seg_names(r@)[k]))
                &&& (forall|k: int|
                    0 <= k < r@.len() ==> (#[trigger] r@[k]).path@ == seq!['/']
                        + spec_join_slash(seg_names(r@).take(k + 1)))
            }
        }),
{
    let i: usize = trim_leading_index(path);
    let j: usize = trim_trailing_index(path, i);
    let m = path.substring_char(i, j);
    proof {
        let t = spec_trim_leading(path@);
        lemma_trim_trailing_subrange(t, j - i);
        assert(t.subrange(0, j - i) =~= path@.subrange(i as int, j as int));
        assert(m@ == spec_trim_slashes(path@));
        reveal_strlit("/");
    }
    let n: usize = m.unicode_len();
    let mut segs: Vec<DirSegment> = Vec::new();
    if n == 0 {
        return segs;
    }
    let mut start: usize = 0;
    let mut acc_path = String::new();
    let mut idx: usize = 0;
    while idx < n
        invariant
            idx <= n,
            start <= idx,
            n == m@.len(),
            forall|q: int| start <= q < idx ==> m@[q] != '/',
            spec_join_slash(seg_names(segs@).push(m@.subrange(start as int, idx as int)))
                == m@.subrange(0, idx as int),
            forall|k: int| 0 <= k < segs@.len() ==> spec_no_slash(#[trigger] seg_names(segs@)[k]),
            forall|k: int|
                0 <= k < segs@.len() ==> (#[trigger] segs@[k]).path@ == seq!['/']
                    + spec_join_slash(seg_names(segs@).take(k + 1)),
            acc_path@ == if segs@.len() == 0 {
                Seq::<char>::empty()
            } else {
                seq!['/'] + spec_join_slash(seg_names(segs@))
            },
        decreases n - idx,
    {
        let ghost old_segs = segs@;
        let ghost cur = m@.subrange(start as int, idx as int);
        let c = m.get_char(idx);
        if c == '/' {
            let name = m.substring_char(start, idx).to_owned();
            acc_path.append("/");
            acc_path.append(name.as_str());
            let seg = DirSegment { name, path: acc_path.clone() };
            segs.push(seg);
            proof {
                reveal_strlit("/");
                let names = seg_names(old_segs);
                let names2 = seg_names(segs@);
                assert(names2 =~= names.push(cur));
                lemma_join_push(names, cur);
                assert(names2.take(names2.len() as int) =~= names2);
                assert(seq!['/'] + spec_join_slash(names2) =~= acc_path@);
                assert forall|k: int| 0 <= k < old_segs.len() implies (#[trigger] segs@[k]).path@
                    == seq!['/'] + spec_join_slash(names2.take(k + 1)) by {
                    assert(names2.take(k + 1) =~= names.take(k + 1));
                }
                // the fresh segment begins empty just past the slash
                lemma_join_push(names2, Seq::<char>::empty());
                assert(spec_join_slash(names2.push(Seq::<char>::empty())) =~= m@.subrange(
                    0,
                    idx + 1,
                ));
                assert(m@.subrange(idx + 1, idx + 1) =~= Seq::<char>::empty());
            }
            start = idx + 1;
        } else {
            proof {
                let names = seg_names(old_segs);
                lemma_join_push(names, cur);
                let cur2 = m@.subrange(start as int, idx + 1);
                assert(cur2 =~= cur.push(m@[idx as int]));
                lemma_join_push(names, cur2);
                assert(m@.subrange(0, idx + 1) =~= m@.subrange(0, idx as int).push(
                    m@[idx as int],
                ));
                if names.len() == 0 {
                    assert(spec_join_slash(names.push(cur)) == cur);
                    assert(spec_join_slash(names.push(cur2)) == cur2);
                    assert(spec_join_slash(names.push(cur2)) =~= m@.subrange(0, idx + 1));
                } else {
                    assert(spec_join_slash(names.push(cur)) == spec_join_slash(names)
                        + seq!['/'] + cur);
                    assert(spec_join_slash(names.push(cur2)) == spec_join_slash(names)
                        + seq!['/'] + cur2);
                    assert(spec_join_slash(names.push(cur2)) =~= m@.subrange(0, idx + 1));
                }
            }
        }
        idx = idx + 1;
    }
    let ghost old_segs = segs@;
    let name = m.substring_char(start, n).to_owned();
    acc_path.append("/");
    acc_path.append(name.as_str());
    let seg = DirSegment { name, path: acc_path.clone() };
    segs.push(seg);
    proof {
        reveal_strlit("/");
        let names = seg_names(old_segs);
        let names2 = seg_names(segs@);
        let cur = m@.subrange(start as int, n as int);
        assert(names2 =~= names.push(cur));
        lemma_join_push(names, cur);
        assert(m@.subrange(0, m@.len() as int) =~= m@);
        if names.len() == 0 {
            assert(spec_join_slash(names2) == cur);
        } else {
            assert(spec_join_slash(names2) == spec_join_slash(names) + seq!['/'] + cur);
        }
        assert(spec_join_slash(names2) =~= m@);
        assert(names2.take(names2.len() as int) =~= names2);
        assert(seq!['/'] + spec_join_slash(names2) =~= acc_path@);
        assert forall|k: int| 0 <= k < old_segs.len() implies (#[trigger] segs@[k]).path@
            == seq!['/'] + spec_join_slash(names2.take(k + 1)) by {
            assert(names2.take(k + 1) =~= names.take(k + 1));
        }
    }
    segs
}

} // verus!
