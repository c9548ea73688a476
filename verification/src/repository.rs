//! Putting a review together from what the Git commands printed: where each
//! changed path's content lives, and the sorted list of changed files.
use vstd::prelude::*;
use crate::git::{ChangeOrigin, ChangedFile, nul_fields, split_paths, name_status_of, parse_name_status};
use crate::changes::same_bytes;
use crate::app::owned;
use crate::text::{chars_of, push_all, push_str, string_of, trim, trim_of};

verus! {

/// The rank of a byte when paths are compared component by component: the
/// separator `/` comes before every other byte.
pub open spec fn byte_rank(b: u8) -> int {
    if b == 47u8 {
        -1
    } else {
        b as int
    }
}

/// Whether path `a` sorts before path `b`, component by component.
pub open spec fn path_lt(a: Seq<u8>, b: Seq<u8>) -> bool
    decreases a.len(),
{
    if a.len() == 0 {
        b.len() > 0
    } else if b.len() == 0 {
        false
    } else if a[0] != b[0] {
        byte_rank(a[0]) < byte_rank(b[0])
    } else {
        path_lt(a.skip(1), b.skip(1))
    }
}

/// `path_lt` is a strict total order.
pub proof fn lemma_path_order(a: Seq<u8>, b: Seq<u8>, c: Seq<u8>)
    ensures
        !path_lt(a, a),
        path_lt(a, b) ==> !path_lt(b, a),
        a != b ==> path_lt(a, b) || path_lt(b, a),
        path_lt(a, b) && path_lt(b, c) ==> path_lt(a, c),
    decreases a.len(),
{
    if a.len() > 0 {
        lemma_path_order(a.skip(1), a.skip(1), a.skip(1));
        if b.len() > 0 {
            lemma_path_order(a.skip(1), b.skip(1), b.skip(1));
            if c.len() > 0 {
                lemma_path_order(a.skip(1), b.skip(1), c.skip(1));
            }
            if a != b && a[0] == b[0] {
                assert(a.skip(1) != b.skip(1)) by {
                    if a.skip(1) == b.skip(1) {
                        assert(a =~= seq![a[0]] + a.skip(1));
                        assert(b =~= seq![b[0]] + b.skip(1));
                    }
                }
            }
        }
    } else {
        if a != b && b.len() == 0 {
            assert(a =~= b);
        }
    }
}

/// Whether path `a` sorts before path `b`, component by component.
pub fn path_less(a: &Vec<u8>, b: &Vec<u8>) -> (r: bool)
    ensures
        r == path_lt(a@, b@),
{
    let mut i: usize = 0;
    assert(a@.skip(0) =~= a@);
    assert(b@.skip(0) =~= b@);
    while i < a.len() && i < b.len() && a[i] == b[i]
        invariant
            i <= a@.len(),
            i <= b@.len(),
            path_lt(a@, b@) == path_lt(a@.skip(i as int), b@.skip(i as int)),
        decreases a.len() - i,
    {
        proof {
            assert(a@.skip(i as int).skip(1) =~= a@.skip(i + 1));
            assert(b@.skip(i as int).skip(1) =~= b@.skip(i + 1));
        }
        i = i + 1;
    }
    if i == a.len() {
        i < b.len()
    } else if i == b.len() {
        false
    } else {
        let x = a[i];
        let y = b[i];
        let rx: i32 = if x == 47u8 { -1 } else { x as i32 };
        let ry: i32 = if y == 47u8 { -1 } else { y as i32 };
        rx < ry
    }
}

/// Paths in strictly increasing order.
pub open spec fn sorted_paths(ps: Seq<Seq<u8>>) -> bool {
    forall|i: int, j: int| 0 <= i < j < ps.len() ==> path_lt(#[trigger] ps[i], #[trigger] ps[j])
}

/// The (origin, path) pairs that the origin commands printed, in order: each
/// command's output is NUL separated paths.
pub open spec fn origin_events(outputs: Seq<(ChangeOrigin, Seq<u8>)>) -> Seq<(ChangeOrigin, Seq<u8>)>
    decreases outputs.len(),
{
    if outputs.len() == 0 {
        Seq::empty()
    } else {
        let last = outputs.last();
        origin_events(outputs.drop_last()) + nul_fields(last.1).map_values(|p: Seq<u8>| (last.0, p))
    }
}

/// The places where `p` differs, each once, in the order first reported.
pub open spec fn origins_of(ev: Seq<(ChangeOrigin, Seq<u8>)>, p: Seq<u8>) -> Seq<ChangeOrigin>
    decreases ev.len(),
{
    if ev.len() == 0 {
        Seq::empty()
    } else {
        let acc = origins_of(ev.drop_last(), p);
        let e = ev.last();
        if e.1 == p && !acc.contains(e.0) {
            acc.push(e.0)
        } else {
            acc
        }
    }
}

/// Whether some event names path `p`.
pub open spec fn reported(ev: Seq<(ChangeOrigin, Seq<u8>)>, p: Seq<u8>) -> bool {
    exists|j: int| 0 <= j < ev.len() && (#[trigger] ev[j]).1 == p
}

/// An origin table as plain values.
pub open spec fn table_view(m: Seq<(Vec<u8>, Vec<ChangeOrigin>)>) -> Seq<(Seq<u8>, Seq<ChangeOrigin>)> {
    m.map_values(|e: (Vec<u8>, Vec<ChangeOrigin>)| (e.0@, e.1@))
}

/// Whether table `m` holds, sorted by path and each path once, exactly the
/// paths of `ev` with their origins.
pub open spec fn tabulates(m: Seq<(Seq<u8>, Seq<ChangeOrigin>)>, ev: Seq<(ChangeOrigin, Seq<u8>)>) -> bool {
    &&& sorted_paths(m.map_values(|e: (Seq<u8>, Seq<ChangeOrigin>)| e.0))
    &&& forall|p: Seq<u8>|
        (exists|k: int| 0 <= k < m.len() && (#[trigger] m[k]).0 == p) <==> #[trigger] reported(ev, p)
    &&& forall|k: int| 0 <= k < m.len() ==> (#[trigger] m[k]).1 == origins_of(ev, m[k].0)
}

proof fn lemma_origins_unreported(ev: Seq<(ChangeOrigin, Seq<u8>)>, p: Seq<u8>)
    requires
        !reported(ev, p),
    ensures
        origins_of(ev, p) == Seq::<ChangeOrigin>::empty(),
    decreases ev.len(),
{
    if ev.len() > 0 {
        let d = ev.drop_last();
        assert(!reported(d, p)) by {
            if reported(d, p) {
                let j = choose|j: int| 0 <= j < d.len() && (#[trigger] d[j]).1 == p;
                assert(ev[j] == d[j]);
            }
        }
        lemma_origins_unreported(d, p);
        assert(ev[ev.len() - 1] == ev.last());
    }
}

proof fn lemma_origins_other(ev: Seq<(ChangeOrigin, Seq<u8>)>, e: (ChangeOrigin, Seq<u8>), q: Seq<u8>)
    requires
        e.1 != q,
    ensures
        origins_of(ev.push(e), q) == origins_of(ev, q),
{
    assert(ev.push(e).drop_last() =~= ev);
}

proof fn lemma_reported_push(ev: Seq<(ChangeOrigin, Seq<u8>)>, e: (ChangeOrigin, Seq<u8>), q: Seq<u8>)
    ensures
        reported(ev.push(e), q) == (reported(ev, q) || e.1 == q),
{
    let s = ev.push(e);
    if reported(ev, q) {
        let j = choose|j: int| 0 <= j < ev.len() && (#[trigger] ev[j]).1 == q;
        assert(s[j] == ev[j]);
    }
    if e.1 == q {
        assert(s[ev.len() as int] == e);
    }
    if reported(s, q) && !reported(ev, q) {
        let j = choose|j: int| 0 <= j < s.len() && (#[trigger] s[j]).1 == q;
        if j < ev.len() {
            assert(s[j] == ev[j]);
        }
    }
}

/// Where in table `m` path `p` stands: the first entry not before it, and
/// whether that entry is `p` itself.
fn table_slot(m: &Vec<(Vec<u8>, Vec<ChangeOrigin>)>, p: &Vec<u8>) -> (r: (usize, bool))
    requires
        sorted_paths(table_view(m@).map_values(|e: (Seq<u8>, Seq<ChangeOrigin>)| e.0)),
    ensures
        r.0 <= m@.len(),
        forall|k: int| 0 <= k < r.0 ==> path_lt((#[trigger] m@[k]).0@, p@),
        r.1 ==> r.0 < m@.len() && m@[r.0 as int].0@ == p@,
        !r.1 ==> forall|k: int| r.0 <= k < m@.len() ==> path_lt(p@, (#[trigger] m@[k]).0@),
{
    let ghost ps = table_view(m@).map_values(|e: (Seq<u8>, Seq<ChangeOrigin>)| e.0);
    let mut i: usize = 0;
    while i < m.len() && path_less(&m[i].0, p)
        invariant
            i <= m@.len(),
            ps == table_view(m@).map_values(|e: (Seq<u8>, Seq<ChangeOrigin>)| e.0),
            forall|k: int| 0 <= k < i ==> path_lt((#[trigger] m@[k]).0@, p@),
        decreases m.len() - i,
    {
        i = i + 1;
    }
    if i < m.len() && same_bytes(&m[i].0, p) {
        return (i, true);
    }
    proof {
        if i < m@.len() {
            lemma_path_order(m@[i as int].0@, p@, p@);
            assert forall|k: int| i <= k < m@.len() implies path_lt(p@, (#[trigger] m@[k]).0@) by {
                if k > i {
                    assert(ps[i as int] == m@[i as int].0@);
                    assert(ps[k] == m@[k].0@);
                    lemma_path_order(p@, m@[i as int].0@, m@[k].0@);
                }
            }
        }
    }
    (i, false)
}

/// A copy of a byte string.
fn copy_bytes(s: &Vec<u8>) -> (r: Vec<u8>)
    ensures
        r@ == s@,
{
    let mut out: Vec<u8> = Vec::new();
    let mut k: usize = 0;
    while k < s.len()
        invariant
            k <= s@.len(),
            out@ == s@.subrange(0, k as int),
        decreases s.len() - k,
    {
        out.push(s[k]);
        k = k + 1;
        assert(out@ =~= s@.subrange(0, k as int));
    }
    assert(out@ =~= s@);
    out
}

/// Whether `os` lists `o`.
fn lists_origin(os: &Vec<ChangeOrigin>, o: ChangeOrigin) -> (r: bool)
    ensures
        r == os@.contains(o),
{
    let mut k: usize = 0;
    while k < os.len()
        invariant
            k <= os@.len(),
            forall|j: int| 0 <= j < k ==> os@[j] != o,
        decreases os.len() - k,
    {
        if os[k] == o {
            assert(os@[k as int] == o);
            return true;
        }
        k = k + 1;
    }
    false
}

/// Record one more reported (origin, path) pair in the table.
fn record(m: &mut Vec<(Vec<u8>, Vec<ChangeOrigin>)>, o: ChangeOrigin, p: &Vec<u8>, Ghost(ev): Ghost<
    Seq<(ChangeOrigin, Seq<u8>)>,
>)
    requires
        tabulates(table_view(old(m)@), ev),
    ensures
        tabulates(table_view(final(m)@), ev.push((o, p@))),
{
    let ghost e = (o, p@);
    let ghost ev2 = ev.push(e);
    let ghost old_m = table_view(m@);
    let ghost om = m@;
    let (i, found) = table_slot(m, p);
    assert(forall|k: int| 0 <= k < om.len() ==> (#[trigger] old_m[k]).0 == om[k].0@);
    if found {
        let mut entry = m.remove(i);
        if !lists_origin(&entry.1, o) {
            entry.1.push(o);
        }
        m.insert(i, entry);
        proof {
            let nm = table_view(m@);
            assert(nm =~= old_m.update(i as int, (p@, if old_m[i as int].1.contains(o) {
                old_m[i as int].1
            } else {
                old_m[i as int].1.push(o)
            })));
            assert(ev2.drop_last() =~= ev);
            assert(ev2.last() == e);
            assert(old_m[i as int].1 == origins_of(ev, p@));
            assert(nm.map_values(|x: (Seq<u8>, Seq<ChangeOrigin>)| x.0) =~= old_m.map_values(
                |x: (Seq<u8>, Seq<ChangeOrigin>)| x.0,
            ));
            assert forall|k: int| 0 <= k < nm.len() implies (#[trigger] nm[k]).1 == origins_of(ev2, nm[k].0) by {
                if k != i {
                    assert(nm[k] == old_m[k]);
                    let ps = old_m.map_values(|x: (Seq<u8>, Seq<ChangeOrigin>)| x.0);
                    assert(ps[k] == old_m[k].0);
                    assert(ps[i as int] == old_m[i as int].0);
                    if k < i {
                        lemma_path_order(ps[k], ps[i as int], ps[i as int]);
                    } else {
                        lemma_path_order(ps[i as int], ps[k], ps[k]);
                    }
                    lemma_origins_other(ev, e, nm[k].0);
                }
            }
            assert forall|q: Seq<u8>|
                (exists|k: int| 0 <= k < nm.len() && (#[trigger] nm[k]).0 == q) <==> #[trigger] reported(ev2, q) by {
                lemma_reported_push(ev, e, q);
                if exists|k: int| 0 <= k < nm.len() && (#[trigger] nm[k]).0 == q {
                    let k = choose|k: int| 0 <= k < nm.len() && (#[trigger] nm[k]).0 == q;
                    if k != i {
                        assert(old_m[k] == nm[k]);
                    }
                }
                if reported(ev, q) {
                    let k = choose|k: int| 0 <= k < old_m.len() && (#[trigger] old_m[k]).0 == q;
                    if k != i {
                        assert(old_m[k] == nm[k]);
                    }
                }
                if q == p@ {
                    assert(nm[i as int].0 == q);
                }
            }
        }
    } else {
        let mut os: Vec<ChangeOrigin> = Vec::new();
        os.push(o);
        let key = copy_bytes(p);
        m.insert(i, (key, os));
        proof {
            let nm = table_view(m@);
            assert(nm =~= old_m.insert(i as int, (p@, seq![o])));
            assert(!reported(ev, p@)) by {
                if reported(ev, p@) {
                    let k = choose|k: int| 0 <= k < old_m.len() && (#[trigger] old_m[k]).0 == p@;
                    assert(old_m[k].0 == om[k].0@);
                    lemma_path_order(p@, p@, p@);
                }
            }
            lemma_origins_unreported(ev, p@);
            assert(ev2.drop_last() =~= ev);
            assert(ev2.last() == e);
            assert(origins_of(ev2, p@) =~= seq![o]);
            let ps = old_m.map_values(|x: (Seq<u8>, Seq<ChangeOrigin>)| x.0);
            let nps = nm.map_values(|x: (Seq<u8>, Seq<ChangeOrigin>)| x.0);
            assert(nps =~= ps.insert(i as int, p@));
            assert forall|a: int, b: int| 0 <= a < b < nps.len() implies path_lt(
                #[trigger] nps[a],
                #[trigger] nps[b],
            ) by {
                if a < i && b > i {
                    assert(nps[a] == ps[a]);
                    assert(nps[b] == ps[b - 1]);
                    assert(ps[a] == old_m[a].0);
                    assert(ps[b - 1] == old_m[b - 1].0);
                    lemma_path_order(ps[a], p@, ps[b - 1]);
                } else if a < i && b == i {
                    assert(nps[a] == ps[a]);
                    assert(ps[a] == old_m[a].0);
                } else if a == i {
                    assert(nps[b] == ps[b - 1]);
                    assert(ps[b - 1] == old_m[b - 1].0);
                } else if b < i {
                    assert(nps[a] == ps[a]);
                    assert(nps[b] == ps[b]);
                } else {
                    assert(nps[a] == ps[a - 1]);
                    assert(nps[b] == ps[b - 1]);
                }
            }
            assert forall|k: int| 0 <= k < nm.len() implies (#[trigger] nm[k]).1 == origins_of(ev2, nm[k].0) by {
                if k != i {
                    let j = if k < i { k } else { k - 1 };
                    assert(nm[k] == old_m[j]);
                    assert(ps[j] == old_m[j].0);
                    assert(old_m[j].0 != p@) by {
                        assert(old_m[j].0 == om[j].0@);
                        lemma_path_order(p@, p@, p@);
                    }
                    lemma_origins_other(ev, e, nm[k].0);
                }
            }
            assert forall|q: Seq<u8>|
                (exists|k: int| 0 <= k < nm.len() && (#[trigger] nm[k]).0 == q) <==> #[trigger] reported(ev2, q) by {
                lemma_reported_push(ev, e, q);
                if exists|k: int| 0 <= k < nm.len() && (#[trigger] nm[k]).0 == q {
                    let k = choose|k: int| 0 <= k < nm.len() && (#[trigger] nm[k]).0 == q;
                    if k != i {
                        let j = if k < i { k } else { k - 1 };
                        assert(old_m[j] == nm[k]);
                    }
                }
                if reported(ev, q) {
                    let k = choose|k: int| 0 <= k < old_m.len() && (#[trigger] old_m[k]).0 == q;
                    let j = if k < i { k } else { k + 1 };
                    assert(nm[j] == old_m[k]);
                }
                if q == p@ {
                    assert(nm[i as int].0 == q);
                }
            }
        }
    }
}

/// The origin commands' outputs as plain values.
pub open spec fn outputs_view(outputs: Seq<(ChangeOrigin, Vec<u8>)>) -> Seq<(ChangeOrigin, Seq<u8>)> {
    outputs.map_values(|x: (ChangeOrigin, Vec<u8>)| (x.0, x.1@))
}

/// Classify where each changed path's content currently lives, from the
/// NUL separated outputs of the commands that list committed, staged,
/// unstaged and untracked paths, each tagged with its origin. A path is
/// listed once, with every place it differs, in the order first reported.
pub fn origins(outputs: &Vec<(ChangeOrigin, Vec<u8>)>) -> (r: Vec<(Vec<u8>, Vec<ChangeOrigin>)>)
    ensures
        tabulates(table_view(r@), origin_events(outputs_view(outputs@))),
{
    let mut m: Vec<(Vec<u8>, Vec<ChangeOrigin>)> = Vec::new();
    let ghost ov = outputs_view(outputs@);
    proof {
        assert(ov.take(0) =~= Seq::<(ChangeOrigin, Seq<u8>)>::empty());
        assert(table_view(m@) =~= Seq::<(Seq<u8>, Seq<ChangeOrigin>)>::empty());
        assert(table_view(m@).map_values(|e: (Seq<u8>, Seq<ChangeOrigin>)| e.0) =~= Seq::<Seq<u8>>::empty());
    }
    let mut i: usize = 0;
    while i < outputs.len()
        invariant
            i <= outputs@.len(),
            ov == outputs_view(outputs@),
            tabulates(table_view(m@), origin_events(ov.take(i as int))),
        decreases outputs.len() - i,
    {
        let o = outputs[i].0;
        let paths = split_paths(&outputs[i].1);
        let ghost base = origin_events(ov.take(i as int));
        let ghost pv = paths@.map_values(|q: Vec<u8>| (o, q@));
        let mut j: usize = 0;
        proof {
            assert(base + pv.take(0) =~= base);
        }
        while j < paths.len()
            invariant
                j <= paths@.len(),
                pv == paths@.map_values(|q: Vec<u8>| (o, q@)),
                tabulates(table_view(m@), base + pv.take(j as int)),
            decreases paths.len() - j,
        {
            let ghost cur = base + pv.take(j as int);
            record(&mut m, o, &paths[j], Ghost(cur));
            proof {
                assert(cur.push((o, paths@[j as int]@)) =~= base + pv.take(j + 1));
            }
            j = j + 1;
        }
        proof {
            assert(ov.take(i + 1).drop_last() =~= ov.take(i as int));
            assert(ov.take(i + 1).last() == ov[i as int]);
            assert(ov[i as int] == (o, outputs@[i as int].1@));
            assert(pv.take(j as int) =~= pv);
            assert(pv =~= nul_fields(outputs@[i as int].1@).map_values(|q: Seq<u8>| (o, q))) by {
                let f = paths@.map_values(|q: Vec<u8>| q@);
                assert forall|k: int| 0 <= k < pv.len() implies pv[k] == nul_fields(outputs@[i as int].1@).map_values(
                    |q: Seq<u8>| (o, q),
                )[k] by {
                    assert(f[k] == paths@[k]@);
                }
            }
        }
        i = i + 1;
    }
    proof {
        assert(ov.take(i as int) =~= ov);
    }
    m
}

/// The files the diff and the untracked listing name, in the order printed:
/// each with its status letter, `?` for an untracked path.
pub open spec fn listed_files(name_status: Seq<u8>, untracked: Seq<u8>) -> Seq<(char, Seq<u8>)> {
    name_status_of(nul_fields(name_status)) + nul_fields(untracked).map_values(|p: Seq<u8>| ('?', p))
}

/// The status of the first listed file at path `p`, if any is.
pub open spec fn first_status(files: Seq<(char, Seq<u8>)>, p: Seq<u8>) -> Option<char>
    decreases files.len(),
{
    if files.len() == 0 {
        None
    } else {
        match first_status(files.drop_last(), p) {
            Some(c) => Some(c),
            None => if files.last().1 == p {
                Some(files.last().0)
            } else {
                None
            },
        }
    }
}

/// Whether some origin other than untracked is among `os`.
pub open spec fn has_tracked(os: Seq<ChangeOrigin>) -> bool {
    exists|k: int| 0 <= k < os.len() && os[k] != ChangeOrigin::Untracked
}

/// The status shown for path `p`: that of its first listed file, or `M` for
/// a path that only the origin commands report.
pub open spec fn status_for(files: Seq<(char, Seq<u8>)>, p: Seq<u8>) -> char {
    match first_status(files, p) {
        Some(c) => c,
        None => 'M',
    }
}

/// A change list as plain values: status, path, origins.
pub open spec fn files_view(r: Seq<ChangedFile>) -> Seq<(char, Seq<u8>, Seq<ChangeOrigin>)> {
    r.map_values(|f: ChangedFile| (f.status, f.path@, f.origins@))
}

/// The paths of a change list.
pub open spec fn file_paths(r: Seq<ChangedFile>) -> Seq<Seq<u8>> {
    r.map_values(|f: ChangedFile| f.path@)
}

/// Whether some file of `r` is at `q`.
pub open spec fn lists_path(r: Seq<ChangedFile>, q: Seq<u8>) -> bool {
    exists|k: int| 0 <= k < r.len() && (#[trigger] r[k]).path@ == q
}

/// Whether `r` is the review of `files` and origin events `ev`: sorted by
/// path and each path once, it lists every listed path and every path with a
/// committed, staged or unstaged origin; each with the status of its first
/// listing (`M` when unlisted) and all its origins.
pub open spec fn reviews(r: Seq<ChangedFile>, files: Seq<(char, Seq<u8>)>, ev: Seq<(ChangeOrigin, Seq<u8>)>) -> bool {
    &&& sorted_paths(file_paths(r))
    &&& forall|p: Seq<u8>|
        #![trigger lists_path(r, p)]
        #![trigger reported(ev, p)]
        lists_path(r, p) <==> (first_status(files, p) is Some || (reported(ev, p) && has_tracked(origins_of(ev, p))))
    &&& forall|k: int|
        0 <= k < r.len() ==> (#[trigger] r[k]).status == status_for(files, r[k].path@) && r[k].origins@
            == origins_of(ev, r[k].path@)
}

/// Where in list `r` path `p` stands: the first file not before it, and
/// whether that file is at `p` itself.
fn file_slot(r: &Vec<ChangedFile>, p: &Vec<u8>) -> (s: (usize, bool))
    requires
        sorted_paths(file_paths(r@)),
    ensures
        s.0 <= r@.len(),
        forall|k: int| 0 <= k < s.0 ==> path_lt((#[trigger] r@[k]).path@, p@),
        s.1 ==> s.0 < r@.len() && r@[s.0 as int].path@ == p@,
        !s.1 ==> forall|k: int| s.0 <= k < r@.len() ==> path_lt(p@, (#[trigger] r@[k]).path@),
{
    let ghost ps = file_paths(r@);
    let mut i: usize = 0;
    while i < r.len() && path_less(&r[i].path, p)
        invariant
            i <= r@.len(),
            ps == file_paths(r@),
            forall|k: int| 0 <= k < i ==> path_lt((#[trigger] r@[k]).path@, p@),
        decreases r.len() - i,
    {
        i = i + 1;
    }
    if i < r.len() && same_bytes(&r[i].path, p) {
        return (i, true);
    }
    proof {
        if i < r@.len() {
            lemma_path_order(r@[i as int].path@, p@, p@);
            assert forall|k: int| i <= k < r@.len() implies path_lt(p@, (#[trigger] r@[k]).path@) by {
                if k > i {
                    assert(ps[i as int] == r@[i as int].path@);
                    assert(ps[k] == r@[k].path@);
                    lemma_path_order(p@, r@[i as int].path@, r@[k].path@);
                }
            }
        }
    }
    (i, false)
}

/// Inserting a path where the slot says keeps the paths sorted.
proof fn lemma_sorted_insert(ps: Seq<Seq<u8>>, i: int, p: Seq<u8>)
    requires
        sorted_paths(ps),
        0 <= i <= ps.len(),
        forall|k: int| 0 <= k < i ==> path_lt(#[trigger] ps[k], p),
        forall|k: int| i <= k < ps.len() ==> path_lt(p, #[trigger] ps[k]),
    ensures
        sorted_paths(ps.insert(i, p)),
{
    let nps = ps.insert(i, p);
    assert forall|a: int, b: int| 0 <= a < b < nps.len() implies path_lt(#[trigger] nps[a], #[trigger] nps[b]) by {
        if a < i && b > i {
            lemma_path_order(ps[a], p, ps[b - 1]);
        } else if a < i && b == i {
        } else if a == i {
            assert(nps[b] == ps[b - 1]);
        } else if b < i {
        } else {
            assert(nps[a] == ps[a - 1]);
            assert(nps[b] == ps[b - 1]);
        }
    }
}

/// A copy of an origin list.
fn copy_origins(os: &Vec<ChangeOrigin>) -> (r: Vec<ChangeOrigin>)
    ensures
        r@ == os@,
{
    let mut out: Vec<ChangeOrigin> = Vec::new();
    let mut k: usize = 0;
    while k < os.len()
        invariant
            k <= os@.len(),
            out@ == os@.subrange(0, k as int),
        decreases os.len() - k,
    {
        out.push(os[k]);
        k = k + 1;
        assert(out@ =~= os@.subrange(0, k as int));
    }
    assert(out@ =~= os@);
    out
}

/// Whether `r` lists, sorted and each once, the paths of `files` with the
/// status of their first listing and no origins yet.
pub open spec fn lists_files(r: Seq<ChangedFile>, files: Seq<(char, Seq<u8>)>) -> bool {
    &&& sorted_paths(file_paths(r))
    &&& forall|p: Seq<u8>|
        (exists|k: int| 0 <= k < r.len() && (#[trigger] r[k]).path@ == p) <==> (#[trigger] first_status(files, p)) is Some
    &&& forall|k: int|
        0 <= k < r.len() ==> first_status(files, (#[trigger] r[k]).path@) == Some(r[k].status) && r[k].origins@.len() == 0
}

proof fn lemma_first_status_push(files: Seq<(char, Seq<u8>)>, x: (char, Seq<u8>), q: Seq<u8>)
    ensures
        first_status(files.push(x), q) == (match first_status(files, q) {
            Some(c) => Some(c),
            None => if x.1 == q {
                Some(x.0)
            } else {
                None
            },
        }),
{
    assert(files.push(x).drop_last() =~= files);
}

/// List one more file, unless its path is listed already.
fn list_file(r: &mut Vec<ChangedFile>, status: char, p: &Vec<u8>, Ghost(files): Ghost<Seq<(char, Seq<u8>)>>)
    requires
        lists_files(old(r)@, files),
    ensures
        lists_files(final(r)@, files.push((status, p@))),
{
    let ghost x = (status, p@);
    let ghost or = r@;
    let (i, found) = file_slot(r, p);
    proof {
        assert forall|q: Seq<u8>| #[trigger] first_status(files.push(x), q) == (match first_status(files, q) {
            Some(c) => Some(c),
            None => if x.1 == q {
                Some(x.0)
            } else {
                None
            },
        }) by {
            lemma_first_status_push(files, x, q);
        }
    }
    if !found {
        let f = ChangedFile { status, path: copy_bytes(p), origins: Vec::new() };
        r.insert(i, f);
        proof {
            let ops = file_paths(or);
            assert(forall|k: int| 0 <= k < or.len() ==> #[trigger] ops[k] == or[k].path@);
            assert(first_status(files, p@) is None) by {
                if first_status(files, p@) is Some {
                    let k = choose|k: int| 0 <= k < or.len() && (#[trigger] or[k]).path@ == p@;
                    lemma_path_order(p@, p@, p@);
                }
            }
            lemma_sorted_insert(ops, i as int, p@);
            assert(file_paths(r@) =~= ops.insert(i as int, p@));
            assert forall|q: Seq<u8>|
                (exists|k: int| 0 <= k < r@.len() && (#[trigger] r@[k]).path@ == q) <==> (#[trigger] first_status(
                    files.push(x),
                    q,
                )) is Some by {
                if lists_path(r@, q) {
                    let k = choose|k: int| 0 <= k < r@.len() && (#[trigger] r@[k]).path@ == q;
                    if k < i {
                        assert(r@[k] == or[k]);
                    } else if k > i {
                        assert(r@[k] == or[k - 1]);
                    }
                }
                if first_status(files, q) is Some {
                    let k = choose|k: int| 0 <= k < or.len() && (#[trigger] or[k]).path@ == q;
                    if k < i {
                        assert(r@[k] == or[k]);
                    } else {
                        assert(r@[k + 1] == or[k]);
                    }
                }
                if q == p@ {
                    assert(r@[i as int].path@ == q);
                }
            }
            assert forall|k: int| 0 <= k < r@.len() implies first_status(files.push(x), (#[trigger] r@[k]).path@)
                == Some(r@[k].status) && r@[k].origins@.len() == 0 by {
                if k < i {
                    assert(r@[k] == or[k]);
                } else if k > i {
                    assert(r@[k] == or[k - 1]);
                }
            }
        }
    } else {
        proof {
            assert forall|q: Seq<u8>|
                (exists|k: int| 0 <= k < r@.len() && (#[trigger] r@[k]).path@ == q) <==> (#[trigger] first_status(
                    files.push(x),
                    q,
                )) is Some by {
                if q == p@ {
                    assert(r@[i as int].path@ == q);
                }
            }
        }
    }
}

/// The origins that the first `n` table entries give path `p`: those of
/// the last entry at `p`, none if no entry is.
spec fn table_origins(mv: Seq<(Seq<u8>, Seq<ChangeOrigin>)>, n: int, p: Seq<u8>) -> Seq<ChangeOrigin>
    decreases n,
{
    if n <= 0 {
        Seq::empty()
    } else if mv[n - 1].0 == p {
        mv[n - 1].1
    } else {
        table_origins(mv, n - 1, p)
    }
}

/// Whether one of the first `n` table entries is at `p` with a committed,
/// staged or unstaged origin.
spec fn tracked_upto(mv: Seq<(Seq<u8>, Seq<ChangeOrigin>)>, n: int, p: Seq<u8>) -> bool {
    exists|j: int| 0 <= j < n && (#[trigger] mv[j]).0 == p && has_tracked(mv[j].1)
}

/// The list after the first `n` table entries were merged into it.
spec fn merged(r: Seq<ChangedFile>, files: Seq<(char, Seq<u8>)>, mv: Seq<(Seq<u8>, Seq<ChangeOrigin>)>, n: int) -> bool {
    &&& sorted_paths(file_paths(r))
    &&& forall|q: Seq<u8>|
        #![trigger lists_path(r, q)]
        #![trigger tracked_upto(mv, n, q)]
        lists_path(r, q) <==> (first_status(files, q) is Some || tracked_upto(mv, n, q))
    &&& forall|k: int|
        0 <= k < r.len() ==> (#[trigger] r[k]).status == status_for(files, r[k].path@) && r[k].origins@
            == table_origins(mv, n, r[k].path@)
}

/// Whether some origin in `os` is not `Untracked`.
fn any_tracked(os: &Vec<ChangeOrigin>) -> (r: bool)
    ensures
        r == has_tracked(os@),
{
    let mut k: usize = 0;
    while k < os.len()
        invariant
            k <= os@.len(),
            forall|j: int| 0 <= j < k ==> os@[j] == ChangeOrigin::Untracked,
        decreases os.len() - k,
    {
        if os[k] != ChangeOrigin::Untracked {
            return true;
        }
        k = k + 1;
    }
    false
}

/// Merge table entry `n`, path `p` with origins `os`, into the list: a
/// listed path takes the origins, an unlisted one with a tracked origin is
/// added as modified.
fn merge_entry(
    r: &mut Vec<ChangedFile>,
    p: &Vec<u8>,
    os: &Vec<ChangeOrigin>,
    Ghost(files): Ghost<Seq<(char, Seq<u8>)>>,
    Ghost(mv): Ghost<Seq<(Seq<u8>, Seq<ChangeOrigin>)>>,
    Ghost(n): Ghost<int>,
)
    requires
        merged(old(r)@, files, mv, n),
        0 <= n < mv.len(),
        mv[n] == (p@, os@),
    ensures
        merged(final(r)@, files, mv, n + 1),
{
    let ghost or = r@;
    let (i, found) = file_slot(r, p);
    let keeps = any_tracked(os);
    proof {
        assert forall|q: Seq<u8>| #[trigger] tracked_upto(mv, n + 1, q) == (tracked_upto(mv, n, q) || (q == p@
            && has_tracked(os@))) by {
            if tracked_upto(mv, n + 1, q) {
                let j = choose|j: int| 0 <= j < n + 1 && (#[trigger] mv[j]).0 == q && has_tracked(mv[j].1);
            }
            if q == p@ && has_tracked(os@) {
                assert(mv[n].0 == q);
            }
        }
        assert forall|q: Seq<u8>| q != p@ implies #[trigger] table_origins(mv, n + 1, q) == table_origins(mv, n, q) by {
        }
        assert(table_origins(mv, n + 1, p@) == os@);
    }
    if found {
        let status = r[i].status;
        let f = ChangedFile { status, path: copy_bytes(p), origins: copy_origins(os) };
        r.set(i, f);
        proof {
            assert(file_paths(r@) =~= file_paths(or));
            assert forall|q: Seq<u8>|
                #[trigger] lists_path(r@, q) <==> (first_status(files, q) is Some || tracked_upto(mv, n + 1, q)) by {
                assert(tracked_upto(mv, n + 1, q) == (tracked_upto(mv, n, q) || (q == p@ && has_tracked(os@))));
                if lists_path(r@, q) {
                    let k = choose|k: int| 0 <= k < r@.len() && (#[trigger] r@[k]).path@ == q;
                    if k != i {
                        assert(r@[k] == or[k]);
                    }
                }
                if lists_path(or, q) {
                    let k = choose|k: int| 0 <= k < or.len() && (#[trigger] or[k]).path@ == q;
                    if k != i {
                        assert(r@[k] == or[k]);
                    }
                }
                if q == p@ {
                    assert(r@[i as int].path@ == q);
                }
            }
            assert forall|k: int| 0 <= k < r@.len() implies (#[trigger] r@[k]).status == status_for(files, r@[k].path@)
                && r@[k].origins@ == table_origins(mv, n + 1, r@[k].path@) by {
                if k != i {
                    assert(r@[k] == or[k]);
                    let ps = file_paths(or);
                    assert(ps[k] == or[k].path@);
                    assert(ps[i as int] == or[i as int].path@);
                    if k < i {
                        lemma_path_order(ps[k], ps[i as int], ps[i as int]);
                    } else {
                        lemma_path_order(ps[i as int], ps[k], ps[k]);
                    }
                }
            }
        }
    } else {
        proof {
            assert(forall|k: int| 0 <= k < or.len() ==> (#[trigger] or[k]).path@ != p@) by {
                lemma_path_order(p@, p@, p@);
            }
            assert(!(exists|k: int| 0 <= k < or.len() && (#[trigger] or[k]).path@ == p@));
            assert(lists_path(or, p@) == (first_status(files, p@) is Some || tracked_upto(mv, n, p@)));
            assert(first_status(files, p@) is None);
        }
        if keeps {
            let f = ChangedFile { status: 'M', path: copy_bytes(p), origins: copy_origins(os) };
            r.insert(i, f);
            proof {
                let ops = file_paths(or);
                assert(forall|k: int| 0 <= k < or.len() ==> #[trigger] ops[k] == or[k].path@);
                lemma_sorted_insert(ops, i as int, p@);
                assert(file_paths(r@) =~= ops.insert(i as int, p@));
                assert forall|q: Seq<u8>|
                    #[trigger] lists_path(r@, q) <==> (first_status(files, q) is Some || tracked_upto(mv, n + 1, q)) by {
                    assert(tracked_upto(mv, n + 1, q) == (tracked_upto(mv, n, q) || (q == p@ && has_tracked(os@))));
                    if lists_path(r@, q) {
                        let k = choose|k: int| 0 <= k < r@.len() && (#[trigger] r@[k]).path@ == q;
                        if k < i {
                            assert(r@[k] == or[k]);
                        } else if k > i {
                            assert(r@[k] == or[k - 1]);
                        }
                    }
                    if lists_path(or, q) {
                        let k = choose|k: int| 0 <= k < or.len() && (#[trigger] or[k]).path@ == q;
                        if k < i {
                            assert(r@[k] == or[k]);
                        } else {
                            assert(r@[k + 1] == or[k]);
                        }
                    }
                    if q == p@ {
                        assert(r@[i as int].path@ == q);
                    }
                }
                assert forall|k: int| 0 <= k < r@.len() implies (#[trigger] r@[k]).status == status_for(
                    files,
                    r@[k].path@,
                ) && r@[k].origins@ == table_origins(mv, n + 1, r@[k].path@) by {
                    if k < i {
                        assert(r@[k] == or[k]);
                    } else if k > i {
                        assert(r@[k] == or[k - 1]);
                    }
                }
            }
        } else {
            proof {
                assert forall|q: Seq<u8>|
                    #[trigger] lists_path(r@, q) <==> (first_status(files, q) is Some || tracked_upto(mv, n + 1, q)) by {
                    assert(tracked_upto(mv, n + 1, q) == (tracked_upto(mv, n, q) || (q == p@ && has_tracked(os@))));
                }
                assert forall|k: int| 0 <= k < r@.len() implies (#[trigger] r@[k]).status == status_for(
                    files,
                    r@[k].path@,
                ) && r@[k].origins@ == table_origins(mv, n + 1, r@[k].path@) by {
                    assert(r@[k].path@ != p@);
                }
            }
        }
    }
}

/// What the first `n` entries of a table of `ev` give a path is its origins
/// if one of them is at it, and nothing otherwise.
proof fn lemma_table_origins(
    mv: Seq<(Seq<u8>, Seq<ChangeOrigin>)>,
    ev: Seq<(ChangeOrigin, Seq<u8>)>,
    n: int,
    q: Seq<u8>,
)
    requires
        tabulates(mv, ev),
        0 <= n <= mv.len(),
    ensures
        table_origins(mv, n, q) == (if exists|j: int| 0 <= j < n && (#[trigger] mv[j]).0 == q {
            origins_of(ev, q)
        } else {
            Seq::empty()
        }),
    decreases n,
{
    if n > 0 {
        lemma_table_origins(mv, ev, n - 1, q);
        if mv[n - 1].0 == q {
        } else {
            if exists|j: int| 0 <= j < n && (#[trigger] mv[j]).0 == q {
                let j = choose|j: int| 0 <= j < n && (#[trigger] mv[j]).0 == q;
                assert(j < n - 1);
            }
        }
    }
}

/// The Changes review from what Git printed: `name_status` from the diff
/// against the baseline (`--name-status -z`), `untracked` from the untracked
/// listing (`-z`), and `origin_outputs` from the origin commands, each tagged
/// with its origin. Every listed path appears once, sorted component by
/// component, with the status of its first listing; a path that only the
/// origin commands report appears as modified when some origin other than
/// untracked reports it; each path carries all its origins.
pub fn changed_files(name_status: &Vec<u8>, untracked: &Vec<u8>, origin_outputs: &Vec<(ChangeOrigin, Vec<u8>)>) -> (r: Vec<
    ChangedFile,
>)
    ensures
        reviews(r@, listed_files(name_status@, untracked@), origin_events(outputs_view(origin_outputs@))),
{
    let diffed = parse_name_status(name_status);
    let others = split_paths(untracked);
    let ghost files = listed_files(name_status@, untracked@);
    let ghost d = diffed@.map_values(|f: ChangedFile| (f.status, f.path@));
    let ghost u = others@.map_values(|q: Vec<u8>| ('?', q@));
    let mut r: Vec<ChangedFile> = Vec::new();
    proof {
        assert(file_paths(r@) =~= Seq::<Seq<u8>>::empty());
        assert(d.take(0) =~= Seq::<(char, Seq<u8>)>::empty());
    }
    let mut i: usize = 0;
    while i < diffed.len()
        invariant
            i <= diffed@.len(),
            d == diffed@.map_values(|f: ChangedFile| (f.status, f.path@)),
            lists_files(r@, d.take(i as int)),
        decreases diffed.len() - i,
    {
        list_file(&mut r, diffed[i].status, &diffed[i].path, Ghost(d.take(i as int)));
        proof {
            assert(d.take(i as int).push((diffed@[i as int].status, diffed@[i as int].path@)) =~= d.take(i + 1));
        }
        i = i + 1;
    }
    proof {
        assert(d.take(i as int) =~= d);
        assert(d + u.take(0) =~= d);
    }
    let mut j: usize = 0;
    while j < others.len()
        invariant
            j <= others@.len(),
            u == others@.map_values(|q: Vec<u8>| ('?', q@)),
            lists_files(r@, d + u.take(j as int)),
        decreases others.len() - j,
    {
        list_file(&mut r, '?', &others[j], Ghost(d + u.take(j as int)));
        proof {
            assert((d + u.take(j as int)).push(('?', others@[j as int]@)) =~= d + u.take(j + 1));
        }
        j = j + 1;
    }
    proof {
        assert(u.take(j as int) =~= u);
        let f = others@.map_values(|q: Vec<u8>| q@);
        assert(u =~= nul_fields(untracked@).map_values(|q: Seq<u8>| ('?', q))) by {
            assert forall|k: int| 0 <= k < u.len() implies u[k] == nul_fields(untracked@).map_values(
                |q: Seq<u8>| ('?', q),
            )[k] by {
                assert(f[k] == others@[k]@);
            }
        }
        assert(d + u =~= files);
    }
    let table = origins(origin_outputs);
    let ghost mv = table_view(table@);
    let ghost ev = origin_events(outputs_view(origin_outputs@));
    proof {
        assert forall|k: int| 0 <= k < r@.len() implies (#[trigger] r@[k]).status == status_for(files, r@[k].path@)
            && r@[k].origins@ == table_origins(mv, 0, r@[k].path@) by {
            assert(r@[k].origins@ =~= Seq::<ChangeOrigin>::empty());
        }
    }
    let mut n: usize = 0;
    while n < table.len()
        invariant
            n <= table@.len(),
            mv == table_view(table@),
            merged(r@, files, mv, n as int),
        decreases table.len() - n,
    {
        merge_entry(&mut r, &table[n].0, &table[n].1, Ghost(files), Ghost(mv), Ghost(n as int));
        n = n + 1;
    }
    proof {
        assert forall|q: Seq<u8>| table_origins(mv, mv.len() as int, q) == #[trigger] origins_of(ev, q) by {
            lemma_table_origins(mv, ev, mv.len() as int, q);
            if !(exists|j: int| 0 <= j < mv.len() && (#[trigger] mv[j]).0 == q) {
                lemma_origins_unreported(ev, q);
            }
        }
        assert forall|q: Seq<u8>| #[trigger] tracked_upto(mv, mv.len() as int, q) == (reported(ev, q) && has_tracked(
            origins_of(ev, q),
        )) by {
            if reported(ev, q) {
                let k = choose|k: int| 0 <= k < mv.len() && (#[trigger] mv[k]).0 == q;
            }
        }
        assert forall|p: Seq<u8>|
            #![trigger lists_path(r@, p)]
            #![trigger reported(ev, p)]
            lists_path(r@, p) <==> (first_status(files, p) is Some || (reported(ev, p) && has_tracked(origins_of(ev, p)))) by {
            assert(tracked_upto(mv, mv.len() as int, p) == (reported(ev, p) && has_tracked(origins_of(ev, p))));
            assert(lists_path(r@, p) == (first_status(files, p) is Some || tracked_upto(mv, mv.len() as int, p)));
        }
        assert forall|k: int| 0 <= k < r@.len() implies (#[trigger] r@[k]).status == status_for(files, r@[k].path@)
            && r@[k].origins@ == origins_of(ev, r@[k].path@) by {
            assert(table_origins(mv, mv.len() as int, r@[k].path@) == origins_of(ev, r@[k].path@));
        }
    }
    r
}

/// What a Git exit code answers: yes for success (0), no for the code `no`
/// that the command uses for "no", and nothing (a failure to report) for
/// any other code or none. `rev-parse --verify HEAD` answers no with 128 in
/// a repository without commits; `ls-files --error-unmatch` on an untracked
/// path and `diff --quiet` on a changed path answer with 1.
pub fn exit_verdict(code: Option<i32>, no: i32) -> (r: Option<bool>)
    requires
        no != 0,
    ensures
        r == (if code == Some(0i32) {
            Some(true)
        } else if code == Some(no) {
            Some(false)
        } else {
            None
        }),
{
    match code {
        Some(c) => if c == 0 {
            Some(true)
        } else if c == no {
            Some(false)
        } else {
            None
        },
        None => None,
    }
}

/// The message for a failed Git command: what it printed on its error
/// stream, trimmed, or a fixed sentence when that is blank.
pub fn command_error(stderr: &Vec<char>) -> (r: String)
    ensures
        r@ == (if trim(stderr@).len() == 0 {
            "Git command failed"@
        } else {
            trim(stderr@)
        }),
{
    let t = trim_of(stderr);
    if t.len() == 0 {
        owned("Git command failed")
    } else {
        string_of(t.as_slice())
    }
}

/// Whether `needle` occurs in `hay` as a run of consecutive characters.
pub open spec fn mentions(hay: Seq<char>, needle: Seq<char>) -> bool {
    exists|i: int| 0 <= i && i + needle.len() <= hay.len() && #[trigger] hay.subrange(i, i + needle.len()) == needle
}

/// Whether `needle` occurs in `hay` as a run of consecutive characters.
pub fn occurs_in(hay: &Vec<char>, needle: &Vec<char>) -> (r: bool)
    ensures
        r == mentions(hay@, needle@),
{
    if needle.len() > hay.len() {
        return false;
    }
    let last = hay.len() - needle.len();
    let mut i: usize = 0;
    while i <= last
        invariant
            last + needle@.len() == hay@.len(),
            hay@.len() <= usize::MAX,
            i <= last,
            forall|k: int| 0 <= k < i ==> #[trigger] hay@.subrange(k, k + needle@.len()) != needle@,
        decreases last + 1 - i,
    {
        let mut j: usize = 0;
        while j < needle.len() && hay[i + j] == needle[j]
            invariant
                i <= last,
                last + needle@.len() == hay@.len(),
                hay@.len() <= usize::MAX,
                j <= needle@.len(),
                forall|m: int| 0 <= m < j ==> hay@[i + m] == needle@[m],
            decreases needle.len() - j,
        {
            j = j + 1;
        }
        if j == needle.len() {
            assert(hay@.subrange(i as int, i + needle@.len()) =~= needle@);
            return true;
        }
        assert(hay@.subrange(i as int, i + needle@.len())[j as int] != needle@[j as int]);
        if i == last {
            proof {
                assert forall|k: int| 0 <= k && k + needle@.len() <= hay@.len() implies #[trigger] hay@.subrange(
                    k,
                    k + needle@.len(),
                ) != needle@ by {
                }
            }
            return false;
        }
        i = i + 1;
    }
    false
}

/// The Unicode lower case of `s`, as `str::to_lowercase` gives it.
pub uninterp spec fn unicode_lowercase(s: Seq<char>) -> Seq<char>;

/// `str::to_lowercase`: the result is the lower case of `s`, which depends
/// on `s` alone.
#[verifier::external_body]
fn lowercase_of(s: &str) -> (r: String)
    ensures
        r@ == unicode_lowercase(s@),
{
    s.to_lowercase()
}

/// What discovering a repository reports when Git refused: a short sentence
/// when Git says the directory is outside any repository (whatever the
/// case of its words), and Git's own message otherwise.
pub fn discovery_error(error: String) -> (r: String)
    ensures
        r@ == (if mentions(unicode_lowercase(error@), "not a git repository"@) {
            "Not a Git repository · nothing to review here"@
        } else {
            error@
        }),
{
    let lower = lowercase_of(error.as_str());
    let hay = chars_of(lower.as_str());
    let needle = chars_of("not a git repository");
    if occurs_in(&hay, &needle) {
        owned("Not a Git repository · nothing to review here")
    } else {
        error
    }
}

/// The revision argument that asks Git for the commit `revision` names: the
/// trimmed revision followed by `^{commit}`, so that trees, blobs and typos
/// are refused; a blank revision is refused before asking.
pub fn commit_query(revision: &Vec<char>) -> (r: Result<Vec<char>, String>)
    ensures
        match r {
            Ok(q) => trim(revision@).len() > 0 && q@ == trim(revision@) + "^{commit}"@,
            Err(e) => trim(revision@).len() == 0 && e@ == "Enter a commit id or revision"@,
        },
{
    let t = trim_of(revision);
    if t.len() == 0 {
        return Err(owned("Enter a commit id or revision"));
    }
    let mut q = t;
    push_str(&mut q, "^{commit}");
    Ok(q)
}

/// The commit a revision resolved to, from Git's answer to the
/// [`commit_query`]: the full id it printed, trimmed, or, when Git refused,
/// a message naming the trimmed revision.
pub fn resolved_commit(revision: &Vec<char>, answer: Result<Vec<char>, String>) -> (r: Result<String, String>)
    ensures
        match answer {
            Ok(out) => r matches Ok(id) && id@ == trim(out@),
            Err(_) => r matches Err(e) && e@ == "Unknown commit or revision: "@ + trim(revision@),
        },
{
    match answer {
        Ok(out) => {
            let id = trim_of(&out);
            Ok(string_of(id.as_slice()))
        },
        Err(_) => {
            let mut msg = chars_of("Unknown commit or revision: ");
            let t = trim_of(revision);
            push_all(&mut msg, &t);
            Err(string_of(msg.as_slice()))
        },
    }
}

} // verus!
