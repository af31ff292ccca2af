//! The tree synchronizer's plan: from a walk of the source tree, the
//! directories to create (deduplicated and sorted, all created before any
//! file is copied) and the file copies to perform.
use vstd::prelude::*;
use crate::paths::{join_spec, join_path};

verus! {

/// The kind of a walked entry; symlinks, sockets, FIFOs and devices are
/// `Other` and are not copied.
#[derive(Clone, Copy, Debug, PartialEq, Eq, Structural)]
pub enum WalkKind {
    Directory,
    File,
    Other,
}

/// One entry found below the source root, by its path relative to the root.
#[derive(Clone, Debug)]
pub struct WalkEntry {
    pub rel: String,
    pub kind: WalkKind,
}

/// One file copy of a plan.
#[derive(Clone, Debug)]
pub struct FileCopy {
    pub from: String,
    pub to: String,
}

/// What a recursive copy does: create `dirs`, then perform `files`.
#[derive(Clone, Debug)]
pub struct TreePlan {
    pub dirs: Vec<String>,
    pub files: Vec<FileCopy>,
}

/// Strict lexicographic order on paths, by code point.
pub open spec fn lex_lt(a: Seq<char>, b: Seq<char>) -> bool
    decreases a.len(),
{
    if a.len() == 0 {
        b.len() > 0
    } else if b.len() == 0 {
        false
    } else if a[0] != b[0] {
        (a[0] as u32) < (b[0] as u32)
    } else {
        lex_lt(a.drop_first(), b.drop_first())
    }
}

/// No path precedes itself.
pub proof fn lemma_lex_irreflexive(a: Seq<char>)
    ensures
        !lex_lt(a, a),
    decreases a.len(),
{
    if a.len() > 0 {
        lemma_lex_irreflexive(a.drop_first());
    }
}

/// Of two distinct paths, one precedes the other.
pub proof fn lemma_lex_total(a: Seq<char>, b: Seq<char>)
    ensures
        a == b || lex_lt(a, b) || lex_lt(b, a),
    decreases a.len(),
{
    if a.len() > 0 && b.len() > 0 && a[0] == b[0] {
        lemma_lex_total(a.drop_first(), b.drop_first());
        if a.drop_first() == b.drop_first() {
            assert(a =~= seq![a[0]] + a.drop_first());
            assert(b =~= seq![b[0]] + b.drop_first());
        }
    } else if a.len() > 0 && b.len() > 0 {
        vstd::utf8::char_u32_cast(a[0], a[0] as u32);
        vstd::utf8::char_u32_cast(b[0], b[0] as u32);
    } else if a.len() == 0 && b.len() == 0 {
        assert(a =~= b);
    }
}

/// The order is transitive.
pub proof fn lemma_lex_trans(a: Seq<char>, b: Seq<char>, c: Seq<char>)
    requires
        lex_lt(a, b),
        lex_lt(b, c),
    ensures
        lex_lt(a, c),
    decreases a.len(),
{
    if a.len() > 0 && b.len() > 0 && c.len() > 0 && a[0] == b[0] && b[0] == c[0] {
        lemma_lex_trans(a.drop_first(), b.drop_first(), c.drop_first());
    }
}

/// Compares two paths in `lex_lt` order.
pub fn path_less(a: &str, b: &str) -> (r: bool)
    ensures
        r == lex_lt(a@, b@),
{
    let al = a.unicode_len();
    let bl = b.unicode_len();
    let mut i: usize = 0;
    proof {
        assert(a@.subrange(0, al as int) =~= a@);
        assert(b@.subrange(0, bl as int) =~= b@);
    }
    while i < al && i < bl && a.get_char(i) == b.get_char(i)
        invariant
            al == a@.len(),
            bl == b@.len(),
            i <= al,
            i <= bl,
            lex_lt(a@, b@) == lex_lt(a@.subrange(i as int, al as int), b@.subrange(i as int, bl as int)),
        decreases al - i,
    {
        proof {
            let sa = a@.subrange(i as int, al as int);
            let sb = b@.subrange(i as int, bl as int);
            assert(sa.drop_first() =~= a@.subrange(i + 1, al as int));
            assert(sb.drop_first() =~= b@.subrange(i + 1, bl as int));
        }
        i = i + 1;
    }
    let ghost sa = a@.subrange(i as int, al as int);
    let ghost sb = b@.subrange(i as int, bl as int);
    if i == al {
        proof {
            assert(sa.len() == 0);
        }
        i < bl
    } else if i == bl {
        false
    } else {
        proof {
            assert(sa[0] == a@[i as int]);
            assert(sb[0] == b@[i as int]);
        }
        (a.get_char(i) as u32) < (b.get_char(i) as u32)
    }
}

/// Sorted without repetition.
pub open spec fn strictly_sorted(s: Seq<String>) -> bool {
    forall|i: int, j: int| 0 <= i < j < s.len() ==> lex_lt(#[trigger] s[i]@, #[trigger] s[j]@)
}

/// The paths held by a sequence of strings.
pub open spec fn path_set(s: Seq<String>) -> Set<Seq<char>> {
    Set::new(|p: Seq<char>| exists|k: int| 0 <= k < s.len() && s[k]@ == p)
}

/// Inserts `p` into a sorted list of distinct paths, unless it is there.
pub fn insert_sorted(v: &mut Vec<String>, p: String)
    requires
        strictly_sorted(old(v)@),
    ensures
        strictly_sorted(final(v)@),
        path_set(final(v)@) == path_set(old(v)@).insert(p@),
{
    let n = v.len();
    let mut i: usize = 0;
    while i < n && path_less(v[i].as_str(), p.as_str())
        invariant
            n == v@.len(),
            i <= n,
            v@ == old(v)@,
            strictly_sorted(v@),
            forall|k: int| 0 <= k < i ==> lex_lt(#[trigger] v@[k]@, p@),
        decreases n - i,
    {
        i = i + 1;
    }
    if i < n && !path_less(p.as_str(), v[i].as_str()) {
        proof {
            lemma_lex_total(v@[i as int]@, p@);
            assert(path_set(v@).insert(p@) =~= path_set(v@));
        }
        return;
    }
    let ghost before = v@;
    v.insert(i, p);
    proof {
        assert forall|a: int, b: int| 0 <= a < b < v@.len() implies lex_lt(
            #[trigger] v@[a]@,
            #[trigger] v@[b]@,
        ) by {
            if b < i {
            } else if a < i && b == i {
            } else if a < i {
                if b > i + 1 {
                    lemma_lex_trans(p@, before[i as int]@, v@[b]@);
                }
                lemma_lex_trans(v@[a]@, p@, v@[b]@);
            } else if a == i {
                if b > i + 1 {
                    lemma_lex_trans(p@, before[i as int]@, v@[b]@);
                }
            }
        }
        assert forall|q: Seq<char>| path_set(v@).contains(q) <==> path_set(before).insert(
            p@,
        ).contains(q) by {
            if path_set(v@).contains(q) {
                let k = choose|k: int| 0 <= k < v@.len() && v@[k]@ == q;
                if k < i {
                    assert(before[k]@ == q);
                } else if k > i {
                    assert(before[k - 1]@ == q);
                }
            }
            if path_set(before).contains(q) {
                let k = choose|k: int| 0 <= k < before.len() && before[k]@ == q;
                if k < i {
                    assert(v@[k]@ == q);
                } else {
                    assert(v@[k + 1]@ == q);
                }
            }
            if q == p@ {
                assert(v@[i as int]@ == q);
            }
        }
        assert(path_set(v@) =~= path_set(before).insert(p@));
    }
}

/// Destination paths of the walked directories, one per directory entry.
pub open spec fn dir_targets(entries: Seq<WalkEntry>, dst: Seq<char>) -> Set<Seq<char>>
    decreases entries.len(),
{
    if entries.len() == 0 {
        Set::empty()
    } else {
        let rest = dir_targets(entries.drop_last(), dst);
        if entries.last().kind == WalkKind::Directory {
            rest.insert(join_spec(dst, entries.last().rel@))
        } else {
            rest
        }
    }
}

/// The file copies of a walk, in walk order: each regular file goes from its
/// place under `src` to the same relative place under `dst`.
pub open spec fn file_copies(entries: Seq<WalkEntry>, src: Seq<char>, dst: Seq<char>) -> Seq<
    (Seq<char>, Seq<char>),
>
    decreases entries.len(),
{
    if entries.len() == 0 {
        Seq::empty()
    } else {
        let rest = file_copies(entries.drop_last(), src, dst);
        let e = entries.last();
        if e.kind == WalkKind::File {
            rest.push((join_spec(src, e.rel@), join_spec(dst, e.rel@)))
        } else {
            rest
        }
    }
}

/// The view of a plan's file copies.
pub open spec fn copies_view(files: Seq<FileCopy>) -> Seq<(Seq<char>, Seq<char>)> {
    files.map_values(|f: FileCopy| (f.from@, f.to@))
}

/// Plans the copy of the tree at `src` to `dst` from a walk of `src`.
pub fn plan_tree_copy(src: &str, dst: &str, entries: &Vec<WalkEntry>) -> (r: TreePlan)
    ensures
        strictly_sorted(r.dirs@),
        path_set(r.dirs@) == dir_targets(entries@, dst@),
        copies_view(r.files@) == file_copies(entries@, src@, dst@),
{
    let mut dirs: Vec<String> = Vec::new();
    let mut files: Vec<FileCopy> = Vec::new();
    let mut i: usize = 0;
    proof {
        assert(path_set(dirs@) =~= Set::<Seq<char>>::empty());
        assert(copies_view(files@) =~= Seq::<(Seq<char>, Seq<char>)>::empty());
    }
    while i < entries.len()
        invariant
            i <= entries@.len(),
            strictly_sorted(dirs@),
            path_set(dirs@) == dir_targets(entries@.subrange(0, i as int), dst@),
            copies_view(files@) == file_copies(entries@.subrange(0, i as int), src@, dst@),
        decreases entries@.len() - i,
    {
        let e = &entries[i];
        let ghost pre = entries@.subrange(0, i as int);
        proof {
            assert(entries@.subrange(0, i + 1).drop_last() =~= pre);
            assert(entries@.subrange(0, i + 1).last() == entries@[i as int]);
        }
        match e.kind {
            WalkKind::Directory => {
                let target = join_path(dst, e.rel.as_str());
                insert_sorted(&mut dirs, target);
            },
            WalkKind::File => {
                let from = join_path(src, e.rel.as_str());
                let to = join_path(dst, e.rel.as_str());
                let ghost old_files = files@;
                files.push(FileCopy { from, to });
                proof {
                    assert(copies_view(files@) =~= copies_view(old_files).push(
                        (join_spec(src@, e.rel@), join_spec(dst@, e.rel@)),
                    ));
                }
            },
            WalkKind::Other => {},
        }
        i = i + 1;
    }
    proof {
        assert(entries@.subrange(0, i as int) =~= entries@);
    }
    TreePlan { dirs, files }
}

/// Every destination path that a plan creates: its directories and the
/// targets of its file copies.
pub open spec fn planned_targets(entries: Seq<WalkEntry>, src: Seq<char>, dst: Seq<char>) -> Set<
    Seq<char>,
> {
    dir_targets(entries, dst).union(
        Set::new(
            |p: Seq<char>|
                exists|k: int|
                    0 <= k < file_copies(entries, src, dst).len() && #[trigger] file_copies(
                        entries,
                        src,
                        dst,
                    )[k].1 == p,
        ),
    )
}

/// The destination paths of every walked entry.
pub open spec fn mirrored(entries: Seq<WalkEntry>, dst: Seq<char>) -> Set<Seq<char>> {
    Set::new(
        |p: Seq<char>|
            exists|k: int| 0 <= k < entries.len() && p == join_spec(dst, #[trigger] entries[k].rel@),
    )
}

proof fn lemma_copies_members(entries: Seq<WalkEntry>, src: Seq<char>, dst: Seq<char>, p: Seq<char>)
    ensures
        (exists|k: int|
            0 <= k < file_copies(entries, src, dst).len() && #[trigger] file_copies(
                entries,
                src,
                dst,
            )[k].1 == p) <==> (exists|k: int|
            0 <= k < entries.len() && entries[k].kind == WalkKind::File && p == join_spec(
                dst,
                #[trigger] entries[k].rel@,
            )),
        dir_targets(entries, dst).contains(p) <==> (exists|k: int|
            0 <= k < entries.len() && entries[k].kind == WalkKind::Directory && p == join_spec(
                dst,
                #[trigger] entries[k].rel@,
            )),
    decreases entries.len(),
{
    if entries.len() > 0 {
        let init = entries.drop_last();
        lemma_copies_members(init, src, dst, p);
        let fc = file_copies(entries, src, dst);
        let fi = file_copies(init, src, dst);
        if exists|k: int| 0 <= k < fc.len() && #[trigger] fc[k].1 == p {
            let k = choose|k: int| 0 <= k < fc.len() && #[trigger] fc[k].1 == p;
            if k < fi.len() {
                assert(fi[k].1 == p);
                let j = choose|j: int|
                    0 <= j < init.len() && init[j].kind == WalkKind::File && p == join_spec(
                        dst,
                        #[trigger] init[j].rel@,
                    );
                assert(entries[j] == init[j]);
            } else {
                assert(entries[entries.len() - 1] == entries.last());
            }
        }
        if exists|k: int|
            0 <= k < entries.len() && entries[k].kind == WalkKind::File && p == join_spec(
                dst,
                #[trigger] entries[k].rel@,
            ) {
            let k = choose|k: int|
                0 <= k < entries.len() && entries[k].kind == WalkKind::File && p == join_spec(
                    dst,
                    #[trigger] entries[k].rel@,
                );
            if k < init.len() {
                assert(init[k] == entries[k]);
                let j = choose|j: int| 0 <= j < fi.len() && #[trigger] fi[j].1 == p;
                assert(fc[j] == fi[j]);
            } else {
                assert(fc[fc.len() - 1].1 == p);
            }
        }
        if dir_targets(entries, dst).contains(p) && !dir_targets(init, dst).contains(p) {
            assert(entries[entries.len() - 1] == entries.last());
        }
        if exists|k: int|
            0 <= k < entries.len() && entries[k].kind == WalkKind::Directory && p == join_spec(
                dst,
                #[trigger] entries[k].rel@,
            ) {
            let k = choose|k: int|
                0 <= k < entries.len() && entries[k].kind == WalkKind::Directory && p == join_spec(
                    dst,
                    #[trigger] entries[k].rel@,
                );
            if k < init.len() {
                assert(init[k] == entries[k]);
            }
        }
    }
}

/// Tree equivalence: for a tree holding only regular files and directories,
/// the plan creates under `dst` exactly the relative paths found under
/// `src`, and copies each file to the same relative path it had.
pub proof fn lemma_tree_equivalence(entries: Seq<WalkEntry>, src: Seq<char>, dst: Seq<char>)
    requires
        forall|k: int| 0 <= k < entries.len() ==> #[trigger] entries[k].kind != WalkKind::Other,
    ensures
        planned_targets(entries, src, dst) == mirrored(entries, dst),
{
    assert forall|p: Seq<char>| planned_targets(entries, src, dst).contains(p) <==> mirrored(
        entries,
        dst,
    ).contains(p) by {
        lemma_copies_members(entries, src, dst, p);
        if mirrored(entries, dst).contains(p) {
            let k = choose|k: int| 0 <= k < entries.len() && p == join_spec(dst, #[trigger] entries[k].rel@);
            assert(entries[k].kind != WalkKind::Other);
        }
    }
    assert(planned_targets(entries, src, dst) =~= mirrored(entries, dst));
}

/// Each file copy of a plan keeps the relative path: the `i`th copy of the
/// plan goes from `src` joined with some walked file's relative path to `dst`
/// joined with the same relative path.
pub proof fn lemma_copies_keep_relative_paths(entries: Seq<WalkEntry>, src: Seq<char>, dst: Seq<char>, i: int)
    requires
        0 <= i < file_copies(entries, src, dst).len(),
    ensures
        exists|k: int|
            0 <= k < entries.len() && entries[k].kind == WalkKind::File && file_copies(
                entries,
                src,
                dst,
            )[i] == (join_spec(src, #[trigger] entries[k].rel@), join_spec(dst, entries[k].rel@)),
    decreases entries.len(),
{
    let init = entries.drop_last();
    let fi = file_copies(init, src, dst);
    if i < fi.len() {
        lemma_copies_keep_relative_paths(init, src, dst, i);
        let k = choose|k: int|
            0 <= k < init.len() && init[k].kind == WalkKind::File && fi[i] == (
                join_spec(src, #[trigger] init[k].rel@),
                join_spec(dst, init[k].rel@),
            );
        assert(entries[k] == init[k]);
    } else {
        let k = entries.len() - 1;
        assert(entries[k] == entries.last());
    }
}

} // verus!
