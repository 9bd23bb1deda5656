use vstd::prelude::*;
use vstd::string::*;
use crate::error::Error;
use crate::proxy_core::models::filesystem::SafePath;

verus! {

/// The pieces of `s` between `'/'` separators, read left to right, empty pieces included.
pub open spec fn split_slash(s: Seq<char>) -> Seq<Seq<char>>
    decreases s.len(),
{
    if s.len() == 0 {
        seq![Seq::<char>::empty()]
    } else {
        let parts = split_slash(s.drop_last());
        if s.last() == '/' {
            parts.push(Seq::<char>::empty())
        } else {
            parts.update(parts.len() - 1, parts.last().push(s.last()))
        }
    }
}

pub open spec fn is_current_dir(seg: Seq<char>) -> bool {
    seg == seq!['.']
}

pub open spec fn is_parent_dir(seg: Seq<char>) -> bool {
    seg == seq!['.', '.']
}

/// One normalisation step: empty pieces and `.` are dropped, `..` removes the last kept
/// component (and fails when there is none), anything else is kept.
pub open spec fn push_segment(stack: Option<Seq<Seq<char>>>, seg: Seq<char>) -> Option<
    Seq<Seq<char>>,
> {
    match stack {
        None => None,
        Some(st) => if seg.len() == 0 || is_current_dir(seg) {
            Some(st)
        } else if is_parent_dir(seg) {
            if st.len() == 0 {
                None
            } else {
                Some(st.drop_last())
            }
        } else {
            Some(st.push(seg))
        },
    }
}

/// The components that remain of a path after normalisation, or `None` when the
/// path climbs above its starting point.
pub open spec fn normalize_segments(segs: Seq<Seq<char>>) -> Option<Seq<Seq<char>>>
    decreases segs.len(),
{
    if segs.len() == 0 {
        Some(Seq::<Seq<char>>::empty())
    } else {
        push_segment(normalize_segments(segs.drop_last()), segs.last())
    }
}

/// Components joined with single `'/'` separators.
pub open spec fn join_slash(cs: Seq<Seq<char>>) -> Seq<char>
    decreases cs.len(),
{
    if cs.len() == 0 {
        Seq::<char>::empty()
    } else if cs.len() == 1 {
        cs[0]
    } else {
        join_slash(cs.drop_last()) + seq!['/'] + cs.last()
    }
}

/// The separator put between a base directory and a relative path joined onto it.
pub open spec fn base_separator(base: Seq<char>) -> Seq<char> {
    if base.len() > 0 && base.last() != '/' {
        seq!['/']
    } else {
        Seq::<char>::empty()
    }
}

/// The normalised components of `file_path` relative to a base directory.
pub open spec fn relative_components(file_path: Seq<char>) -> Option<Seq<Seq<char>>> {
    normalize_segments(split_slash(file_path))
}

/// `base` joined with the normalised `file_path`, or `None` when `file_path` leaves `base`.
pub open spec fn spec_safe_path(base: Seq<char>, file_path: Seq<char>) -> Option<Seq<char>> {
    match relative_components(file_path) {
        Some(cs) => Some(base + base_separator(base) + join_slash(cs)),
        None => None,
    }
}

/// A component that names an entry inside its directory: not empty, not `.`, not `..`,
/// and without a separator.
pub open spec fn is_plain_component(seg: Seq<char>) -> bool {
    &&& seg.len() > 0
    &&& !is_current_dir(seg)
    &&& !is_parent_dir(seg)
    &&& forall|k: int| 0 <= k < seg.len() ==> seg[k] != '/'
}

pub open spec fn ranges_view(s: Seq<char>, r: Seq<(usize, usize)>) -> Seq<Seq<char>> {
    Seq::new(r.len(), |k: int| s.subrange(r[k].0 as int, r[k].1 as int))
}

pub open spec fn ranges_valid(r: Seq<(usize, usize)>, n: nat) -> bool {
    forall|k: int| 0 <= k < r.len() ==> (#[trigger] r[k]).0 <= r[k].1 <= n
}

proof fn lemma_split_slash_nonempty(s: Seq<char>)
    ensures
        split_slash(s).len() >= 1,
    decreases s.len(),
{
    if s.len() > 0 {
        lemma_split_slash_nonempty(s.drop_last());
    }
}

/// Splitting one character further: a separator opens a new piece, any other
/// character extends the last one.
proof fn lemma_split_slash_step(s: Seq<char>, i: int, done: Seq<Seq<char>>, start: int)
    requires
        0 <= start <= i < s.len(),
        split_slash(s.subrange(0, i)) == done.push(s.subrange(start, i)),
    ensures
        s[i] == '/' ==> split_slash(s.subrange(0, i + 1)) == done.push(s.subrange(start, i)).push(
            s.subrange(i + 1, i + 1),
        ),
        s[i] != '/' ==> split_slash(s.subrange(0, i + 1)) == done.push(s.subrange(start, i + 1)),
{
    let t = s.subrange(0, i + 1);
    assert(t.drop_last() =~= s.subrange(0, i));
    assert(t.last() == s[i]);
    if s[i] == '/' {
        assert(s.subrange(i + 1, i + 1) =~= Seq::<char>::empty());
    } else {
        assert(s.subrange(start, i).push(s[i]) =~= s.subrange(start, i + 1));
        assert(done.push(s.subrange(start, i)).update(done.len() as int, s.subrange(start, i + 1))
            =~= done.push(s.subrange(start, i + 1)));
    }
}

/// Every component that survives normalisation is a plain component.
proof fn lemma_normalize_plain(segs: Seq<Seq<char>>)
    requires
        forall|k: int| 0 <= k < segs.len() ==> forall|j: int|
            0 <= j < (#[trigger] segs[k]).len() ==> segs[k][j] != '/',
    ensures
        normalize_segments(segs) matches Some(cs) ==> forall|k: int|
            0 <= k < cs.len() ==> is_plain_component(#[trigger] cs[k]),
    decreases segs.len(),
{
    if segs.len() > 0 {
        let prefix = segs.drop_last();
        assert forall|k: int| 0 <= k < prefix.len() implies forall|j: int|
            0 <= j < (#[trigger] prefix[k]).len() ==> prefix[k][j] != '/' by {
            assert(prefix[k] == segs[k]);
        }
        lemma_normalize_plain(prefix);
        let last = segs.last();
        assert(last == segs[segs.len() - 1]);
        match normalize_segments(segs) {
            Some(cs) => {
                let st = normalize_segments(prefix).unwrap();
                assert forall|k: int| 0 <= k < cs.len() implies is_plain_component(
                    #[trigger] cs[k],
                ) by {
                    if last.len() == 0 || is_current_dir(last) {
                        assert(cs == st);
                    } else if is_parent_dir(last) {
                        assert(cs == st.drop_last());
                        assert(cs[k] == st[k]);
                    } else {
                        assert(cs == st.push(last));
                        if k < st.len() {
                            assert(cs[k] == st[k]);
                        } else {
                            assert(cs[k] == last);
                        }
                    }
                }
            },
            None => {},
        }
    }
}

/// The pieces of a split never hold a separator.
proof fn lemma_split_slash_no_separator(s: Seq<char>)
    ensures
        forall|k: int| 0 <= k < split_slash(s).len() ==> forall|j: int|
            0 <= j < (#[trigger] split_slash(s)[k]).len() ==> split_slash(s)[k][j] != '/',
    decreases s.len(),
{
    lemma_split_slash_nonempty(s);
    if s.len() > 0 {
        let p = s.drop_last();
        lemma_split_slash_no_separator(p);
        lemma_split_slash_nonempty(p);
        let parts = split_slash(p);
        if s.last() == '/' {
            assert forall|k: int| 0 <= k < split_slash(s).len() implies forall|j: int|
                0 <= j < (#[trigger] split_slash(s)[k]).len() ==> split_slash(s)[k][j] != '/' by {
                if k < parts.len() {
                    assert(split_slash(s)[k] == parts[k]);
                }
            }
        } else {
            assert forall|k: int| 0 <= k < split_slash(s).len() implies forall|j: int|
                0 <= j < (#[trigger] split_slash(s)[k]).len() ==> split_slash(s)[k][j] != '/' by {
                if k < parts.len() - 1 {
                    assert(split_slash(s)[k] == parts[k]);
                } else {
                    assert(split_slash(s)[k] == parts.last().push(s.last()));
                    assert(parts.last() == parts[parts.len() - 1]);
                }
            }
        }
    }
}

/// `p` names an entry inside `base`: `base`, a separator where `base` lacks one, and then only
/// plain components joined by `'/'`.
pub open spec fn lies_inside(base: Seq<char>, p: Seq<char>) -> bool {
    exists|cs: Seq<Seq<char>>|
        {
            &&& p == base + base_separator(base) + join_slash(cs)
            &&& forall|k: int| 0 <= k < cs.len() ==> is_plain_component(#[trigger] cs[k])
        }
}

/// Whatever `safe_path` accepts lies inside `base`: the result is `base`, a separator where
/// `base` lacks one, and then only plain components joined by `'/'`. No `..`, no `.`, no empty
/// component survives, so the path cannot climb out of `base`.
pub proof fn lemma_safe_path_stays_inside(base: Seq<char>, file_path: Seq<char>)
    ensures
        spec_safe_path(base, file_path) matches Some(p) ==> lies_inside(base, p),
{
    lemma_split_slash_no_separator(file_path);
    lemma_normalize_plain(split_slash(file_path));
    if let Some(cs) = relative_components(file_path) {
        assert(spec_safe_path(base, file_path) == Some(base + base_separator(base) + join_slash(cs)));
    }
}

proof fn lemma_split_slash_leading_separator(p: Seq<char>)
    ensures
        split_slash(seq!['/'] + p) == seq![Seq::<char>::empty()] + split_slash(p),
    decreases p.len(),
{
    lemma_split_slash_nonempty(p);
    if p.len() == 0 {
        assert(p =~= Seq::<char>::empty());
        assert(seq!['/'] + p =~= seq!['/']);
        assert(seq!['/'].drop_last() =~= Seq::<char>::empty());
        assert(seq!['/'].last() == '/');
        assert(split_slash(Seq::<char>::empty()) == seq![Seq::<char>::empty()]);
        assert(split_slash(seq!['/']) == seq![Seq::<char>::empty()].push(Seq::<char>::empty()));
        assert(split_slash(seq!['/']) =~= seq![Seq::<char>::empty()] + split_slash(p));
    } else {
        let q = p.drop_last();
        lemma_split_slash_leading_separator(q);
        lemma_split_slash_nonempty(q);
        let full = seq!['/'] + p;
        assert(full.drop_last() =~= seq!['/'] + q);
        assert(full.last() == p.last());
        let e = seq![Seq::<char>::empty()];
        if p.last() == '/' {
            assert(split_slash(full) =~= e + split_slash(p));
        } else {
            let parts = split_slash(q);
            assert((e + parts).last() == parts.last());
            assert(split_slash(full) =~= e + split_slash(p));
        }
    }
}

proof fn lemma_normalize_skip_empty_head(segs: Seq<Seq<char>>)
    ensures
        normalize_segments(seq![Seq::<char>::empty()] + segs) == normalize_segments(segs),
    decreases segs.len(),
{
    let e = seq![Seq::<char>::empty()];
    if segs.len() == 0 {
        assert(segs =~= Seq::<Seq<char>>::empty());
        assert(e + segs =~= e);
        assert(e.drop_last() =~= Seq::<Seq<char>>::empty());
        assert(normalize_segments(Seq::<Seq<char>>::empty()) == Some(Seq::<Seq<char>>::empty()));
        assert(e.last() == Seq::<char>::empty());
        assert(normalize_segments(e) == Some(Seq::<Seq<char>>::empty()));
    } else {
        lemma_normalize_skip_empty_head(segs.drop_last());
        assert((e + segs).drop_last() =~= e + segs.drop_last());
        assert((e + segs).last() == segs.last());
    }
}

/// A leading `/` does not make a path absolute: it is read relative to the base, so
/// `/etc/passwd` lands at `<base>/etc/passwd`.
pub proof fn lemma_safe_path_leading_separator(base: Seq<char>, file_path: Seq<char>)
    ensures
        spec_safe_path(base, seq!['/'] + file_path) == spec_safe_path(base, file_path),
{
    lemma_split_slash_leading_separator(file_path);
    lemma_normalize_skip_empty_head(split_slash(file_path));
}

proof fn lemma_split_slash_single(a: Seq<char>)
    requires
        forall|k: int| 0 <= k < a.len() ==> a[k] != '/',
    ensures
        split_slash(a) == seq![a],
    decreases a.len(),
{
    if a.len() == 0 {
        assert(a =~= Seq::<char>::empty());
    } else {
        let q = a.drop_last();
        lemma_split_slash_single(q);
        assert(a.last() == a[a.len() - 1]);
        assert(q.push(a.last()) =~= a);
        assert(seq![q].update(0, q.push(a.last())) =~= seq![a]);
    }
}

/// A first component `a` followed by a separator splits off as its own piece.
proof fn lemma_split_slash_after_component(a: Seq<char>, p: Seq<char>)
    requires
        forall|k: int| 0 <= k < a.len() ==> a[k] != '/',
    ensures
        split_slash(a + seq!['/'] + p) == seq![a] + split_slash(p),
    decreases p.len(),
{
    lemma_split_slash_nonempty(p);
    let head = a + seq!['/'];
    if p.len() == 0 {
        assert(p =~= Seq::<char>::empty());
        assert(head + p =~= head);
        assert(head.drop_last() =~= a);
        assert(head.last() == '/');
        lemma_split_slash_single(a);
        assert(split_slash(Seq::<char>::empty()) == seq![Seq::<char>::empty()]);
        assert(split_slash(head) == seq![a].push(Seq::<char>::empty()));
        assert(split_slash(head + p) =~= seq![a] + split_slash(p));
    } else {
        let q = p.drop_last();
        lemma_split_slash_after_component(a, q);
        lemma_split_slash_nonempty(q);
        let full = head + p;
        assert(full.drop_last() =~= head + q);
        assert(full.last() == p.last());
        let e = seq![a];
        if p.last() == '/' {
            assert(split_slash(full) =~= e + split_slash(p));
        } else {
            let parts = split_slash(q);
            assert((e + parts).last() == parts.last());
            assert(split_slash(full) =~= e + split_slash(p));
        }
    }
}

/// Pieces that normalise to nothing can be dropped from the front.
proof fn lemma_normalize_drop_neutral_prefix(pre: Seq<Seq<char>>, segs: Seq<Seq<char>>)
    requires
        normalize_segments(pre) == Some(Seq::<Seq<char>>::empty()),
    ensures
        normalize_segments(pre + segs) == normalize_segments(segs),
    decreases segs.len(),
{
    if segs.len() == 0 {
        assert(segs =~= Seq::<Seq<char>>::empty());
        assert(pre + segs =~= pre);
        assert(normalize_segments(segs) == Some(Seq::<Seq<char>>::empty()));
    } else {
        lemma_normalize_drop_neutral_prefix(pre, segs.drop_last());
        assert((pre + segs).drop_last() =~= pre + segs.drop_last());
        assert((pre + segs).last() == segs.last());
    }
}

/// A component followed by `..` cancels out: `c/../rest` lands where `rest` does, and is
/// refused exactly when `rest` is.
pub proof fn lemma_safe_path_parent_cancels(base: Seq<char>, c: Seq<char>, file_path: Seq<char>)
    requires
        is_plain_component(c),
    ensures
        spec_safe_path(base, c + seq!['/', '.', '.', '/'] + file_path) == spec_safe_path(
            base,
            file_path,
        ),
{
    let dd = seq!['.', '.'];
    let rest = dd + seq!['/'] + file_path;
    assert(c + seq!['/', '.', '.', '/'] + file_path =~= c + seq!['/'] + rest);
    lemma_split_slash_after_component(c, rest);
    lemma_split_slash_after_component(dd, file_path);
    let pre = seq![c, dd];
    assert(seq![c] + (seq![dd] + split_slash(file_path)) =~= pre + split_slash(file_path));
    assert(pre.drop_last() =~= seq![c]);
    assert(seq![c].drop_last() =~= Seq::<Seq<char>>::empty());
    assert(normalize_segments(Seq::<Seq<char>>::empty()) == Some(Seq::<Seq<char>>::empty()));
    assert(normalize_segments(seq![c]) == Some(seq![c])) by {
        assert(Seq::<Seq<char>>::empty().push(c) =~= seq![c]);
    }
    assert(is_parent_dir(dd));
    assert(seq![c].drop_last() =~= Seq::<Seq<char>>::empty());
    assert(normalize_segments(pre) == Some(Seq::<Seq<char>>::empty()));
    lemma_normalize_drop_neutral_prefix(pre, split_slash(file_path));
}

/// Two prefixes that normalise alike stay alike whatever follows them.
proof fn lemma_normalize_same_prefix(pre1: Seq<Seq<char>>, pre2: Seq<Seq<char>>, segs: Seq<Seq<char>>)
    requires
        normalize_segments(pre1) == normalize_segments(pre2),
    ensures
        normalize_segments(pre1 + segs) == normalize_segments(pre2 + segs),
    decreases segs.len(),
{
    if segs.len() == 0 {
        assert(pre1 + segs =~= pre1);
        assert(pre2 + segs =~= pre2);
    } else {
        lemma_normalize_same_prefix(pre1, pre2, segs.drop_last());
        assert((pre1 + segs).drop_last() =~= pre1 + segs.drop_last());
        assert((pre1 + segs).last() == segs.last());
        assert((pre2 + segs).drop_last() =~= pre2 + segs.drop_last());
        assert((pre2 + segs).last() == segs.last());
    }
}

/// `..` removes exactly the one component before it and keeps the ones before that:
/// `c1/c2/../rest` lands where `c1/rest` does, and is refused exactly when `c1/rest` is.
pub proof fn lemma_safe_path_parent_removes_one(
    base: Seq<char>,
    c1: Seq<char>,
    c2: Seq<char>,
    file_path: Seq<char>,
)
    requires
        is_plain_component(c1),
        is_plain_component(c2),
    ensures
        spec_safe_path(base, c1 + seq!['/'] + c2 + seq!['/', '.', '.', '/'] + file_path)
            == spec_safe_path(base, c1 + seq!['/'] + file_path),
{
    let dd = seq!['.', '.'];
    let rest2 = dd + seq!['/'] + file_path;
    let rest1 = c2 + seq!['/'] + rest2;
    let full = c1 + seq!['/'] + c2 + seq!['/', '.', '.', '/'] + file_path;
    assert(full =~= c1 + seq!['/'] + rest1);
    lemma_split_slash_after_component(c1, rest1);
    lemma_split_slash_after_component(c2, rest2);
    lemma_split_slash_after_component(dd, file_path);
    lemma_split_slash_after_component(c1, file_path);
    let tail = split_slash(file_path);
    let pre = seq![c1, c2, dd];
    assert(split_slash(full) =~= pre + tail);
    let empty = Seq::<Seq<char>>::empty();
    assert(seq![c1].drop_last() =~= empty);
    assert(normalize_segments(empty) == Some(empty));
    assert(normalize_segments(seq![c1]) == Some(seq![c1])) by {
        assert(empty.push(c1) =~= seq![c1]);
    }
    assert(seq![c1, c2].drop_last() =~= seq![c1]);
    assert(normalize_segments(seq![c1, c2]) == Some(seq![c1, c2])) by {
        assert(seq![c1].push(c2) =~= seq![c1, c2]);
    }
    assert(pre.drop_last() =~= seq![c1, c2]);
    assert(is_parent_dir(dd));
    assert(seq![c1, c2].drop_last() =~= seq![c1]);
    assert(normalize_segments(pre) == Some(seq![c1]));
    lemma_normalize_same_prefix(pre, seq![c1], tail);
}

/// Processes the piece `path[start..end]` onto the kept components.
fn apply_segment(path: &str, start: usize, end: usize, stack: &mut Vec<(usize, usize)>) -> (ok:
    bool)
    requires
        start <= end <= path@.len(),
        ranges_valid(old(stack)@, path@.len()),
    ensures
        ranges_valid(final(stack)@, path@.len()),
        ok ==> push_segment(Some(ranges_view(path@, old(stack)@)), path@.subrange(start as int, end as int))
            == Some(ranges_view(path@, final(stack)@)),
        !ok ==> push_segment(Some(ranges_view(path@, old(stack)@)), path@.subrange(start as int, end as int))
            is None,
{
    let ghost s = path@;
    let ghost seg = s.subrange(start as int, end as int);
    let ghost before = ranges_view(s, stack@);
    let len = end - start;
    if len == 0 {
        assert(seg.len() == 0);
        return true;
    }
    let c0 = path.get_char(start);
    if len == 1 && c0 == '.' {
        assert(seg =~= seq!['.']);
        return true;
    }
    if len == 2 && c0 == '.' && path.get_char(start + 1) == '.' {
        assert(seg =~= seq!['.', '.']);
        if stack.len() == 0 {
            return false;
        }
        stack.pop();
        assert(ranges_view(s, stack@) =~= before.drop_last());
        return true;
    }
    assert(!is_current_dir(seg)) by {
        if is_current_dir(seg) {
            assert(seq!['.'].len() == 1);
            assert(seg.len() == 1);
            assert(seg[0] == s[start as int]);
        }
    }
    assert(!is_parent_dir(seg)) by {
        if is_parent_dir(seg) {
            assert(seq!['.', '.'].len() == 2);
            assert(seg.len() == 2);
            assert(seg[0] == s[start as int]);
            assert(seg[1] == s[start + 1]);
        }
    }
    stack.push((start, end));
    assert(ranges_view(s, stack@) =~= before.push(seg));
    true
}

/// Joins `base` and `file_path` after normalising `file_path` without touching the file
/// system: empty pieces and `.` are dropped, `..` removes the previous component, and a
/// leading `/` is read as relative to `base`. A `file_path` that climbs above `base` is refused.
pub fn safe_path(base: &str, file_path: &str) -> (res: Result<SafePath, Error>)
    ensures
        match spec_safe_path(base@, file_path@) {
            Some(p) => res matches Ok(sp) && sp@ == p,
            None => res matches Err(Error::FileSystem(m)) && m@
                == "Path traverses above the base directory"@,
        },
{
    let ghost s = file_path@;
    let n = file_path.unicode_len();
    let mut stack: Vec<(usize, usize)> = Vec::new();
    let mut start: usize = 0;
    let mut i: usize = 0;
    let ghost mut done: Seq<Seq<char>> = Seq::empty();
    assert(s.subrange(0, 0) =~= Seq::<char>::empty());
    assert(split_slash(s.subrange(0, 0)) =~= done.push(s.subrange(0, 0)));
    assert(ranges_view(s, stack@) =~= Seq::<Seq<char>>::empty());
    let mut failed = false;
    while i < n
        invariant
            n == s.len(),
            s == file_path@,
            start <= i <= n,
            split_slash(s.subrange(0, i as int)) == done.push(s.subrange(start as int, i as int)),
            !failed ==> normalize_segments(done) == Some(ranges_view(s, stack@)),
            failed ==> normalize_segments(done) is None,
            ranges_valid(stack@, n as nat),
        decreases n - i,
    {
        let c = file_path.get_char(i);
        proof {
            lemma_split_slash_step(s, i as int, done, start as int);
        }
        if c == '/' {
            if !failed {
                let ok = apply_segment(file_path, start, i, &mut stack);
                failed = !ok;
            }
            proof {
                let d2 = done.push(s.subrange(start as int, i as int));
                assert(d2.drop_last() =~= done);
                assert(d2.last() == s.subrange(start as int, i as int));
                done = d2;
            }
            start = i + 1;
        }
        i = i + 1;
    }
    assert(s.subrange(0, n as int) =~= s);
    if !failed {
        let ok = apply_segment(file_path, start, n, &mut stack);
        failed = !ok;
    }
    proof {
        let d2 = done.push(s.subrange(start as int, n as int));
        assert(d2.drop_last() =~= done);
        assert(d2.last() == s.subrange(start as int, n as int));
    }
    if failed {
        return Err(Error::FileSystem("Path traverses above the base directory".to_owned()));
    }
    let ghost cs = ranges_view(s, stack@);
    assert(relative_components(s) == Some(cs));
    let mut out = base.to_owned();
    let bl = base.unicode_len();
    if bl > 0 && base.get_char(bl - 1) != '/' {
        out.append("/");
        proof {
            reveal_strlit("/");
        }
    }
    assert(out@ == base@ + base_separator(base@));
    let ghost prefix = out@;
    let mut k: usize = 0;
    assert(cs.take(0) =~= Seq::<Seq<char>>::empty());
    while k < stack.len()
        invariant
            k <= stack.len(),
            cs == ranges_view(s, stack@),
            ranges_valid(stack@, s.len()),
            s == file_path@,
            out@ == prefix + join_slash(cs.take(k as int)),
        decreases stack.len() - k,
    {
        let (a, b) = stack[k];
        let piece = file_path.substring_char(a, b);
        if k > 0 {
            out.append("/");
            proof {
                reveal_strlit("/");
            }
        }
        out.append(piece);
        proof {
            let t = cs.take(k as int + 1);
            assert(t.drop_last() =~= cs.take(k as int));
            assert(t.last() == cs[k as int]);
            if k == 0 {
                assert(join_slash(t) == t[0]);
                assert(join_slash(cs.take(0)) =~= Seq::<char>::empty());
            }
        }
        k = k + 1;
    }
    assert(cs.take(stack.len() as int) =~= cs);
    Ok(SafePath::from(out))
}

} // verus!
