//! Ordering a directory listing by the panel's sort key.
use vstd::prelude::*;
use vstd::multiset::Multiset;
use crate::panel::Entry;
use crate::tree::{lex_lt, lemma_lex_trans, lemma_lex_irreflexive};

verus! {

/// How listings are ordered.
#[derive(Clone, Copy, Debug, PartialEq, Eq, Structural)]
pub enum SortKey {
    /// Directories first, then by case-folded name.
    Name,
    Size,
    Modified,
}

/// Name of the result of `str::to_lowercase`.
pub uninterp spec fn lower_of(s: Seq<char>) -> Seq<char>;

/// Relies on `str::to_lowercase`: the result depends on the characters alone.
#[verifier::external_body]
fn lowercase(s: &str) -> (r: String)
    ensures
        r@ == lower_of(s@),
{
    s.to_lowercase()
}

/// Strict order of two entries under `sort`.
pub open spec fn entry_lt(sort: SortKey, a: Entry, b: Entry) -> bool {
    match sort {
        SortKey::Name => (a.is_dir && !b.is_dir) || (a.is_dir == b.is_dir && lex_lt(
            lower_of(a.name@),
            lower_of(b.name@),
        )),
        SortKey::Size => a.size < b.size,
        SortKey::Modified => match (a.modified, b.modified) {
            (None, Some(_)) => true,
            (Some(x), Some(y)) => x < y,
            _ => false,
        },
    }
}

/// No entry is followed by a smaller one.
pub open spec fn sorted_by(sort: SortKey, s: Seq<Entry>) -> bool {
    forall|i: int, j: int| 0 <= i < j < s.len() ==> !entry_lt(sort, #[trigger] s[j], #[trigger] s[i])
}

/// No entry is followed by a larger one.
pub open spec fn sorted_desc_by(sort: SortKey, s: Seq<Entry>) -> bool {
    forall|i: int, j: int| 0 <= i < j < s.len() ==> !entry_lt(sort, #[trigger] s[i], #[trigger] s[j])
}

proof fn lemma_entry_lt_trans(sort: SortKey, a: Entry, b: Entry, c: Entry)
    requires
        entry_lt(sort, a, b),
        entry_lt(sort, b, c),
    ensures
        entry_lt(sort, a, c),
{
    if sort == SortKey::Name && a.is_dir == b.is_dir && b.is_dir == c.is_dir {
        lemma_lex_trans(lower_of(a.name@), lower_of(b.name@), lower_of(c.name@));
    }
}

proof fn lemma_entry_lt_irreflexive(sort: SortKey, a: Entry)
    ensures
        !entry_lt(sort, a, a),
{
    lemma_lex_irreflexive(lower_of(a.name@));
}

fn entry_less(sort: SortKey, a: &Entry, la: &String, b: &Entry, lb: &String) -> (r: bool)
    requires
        la@ == lower_of(a.name@),
        lb@ == lower_of(b.name@),
    ensures
        r == entry_lt(sort, *a, *b),
{
    match sort {
        SortKey::Name => (a.is_dir && !b.is_dir) || (a.is_dir == b.is_dir
            && crate::tree::path_less(la.as_str(), lb.as_str())),
        SortKey::Size => a.size < b.size,
        SortKey::Modified => match (a.modified, b.modified) {
            (None, Some(_)) => true,
            (Some(x), Some(y)) => x < y,
            _ => false,
        },
    }
}

/// Orders `ents` by `sort`, keeping entries of equal key in their order.
pub fn sort_entries(ents: Vec<Entry>, sort: SortKey) -> (r: Vec<Entry>)
    ensures
        r@.to_multiset() == ents@.to_multiset(),
        sorted_by(sort, r@),
{
    broadcast use vstd::seq_lib::group_to_multiset_ensures, vstd::seq_lib::to_multiset_insert,
        vstd::multiset::group_multiset_axioms, vstd::multiset::group_multiset_properties;

    let mut rest = ents;
    let mut out: Vec<Entry> = Vec::new();
    let mut keys: Vec<String> = Vec::new();
    let ghost all = rest@.to_multiset();
    proof {
        assert(out@.to_multiset() =~= Multiset::<Entry>::empty());
    }
    while rest.len() > 0
        invariant
            out@.to_multiset().add(rest@.to_multiset()) == all,
            keys@.len() == out@.len(),
            forall|k: int| 0 <= k < out@.len() ==> (#[trigger] keys@[k])@ == lower_of(out@[k].name@),
            sorted_by(sort, out@),
        decreases rest@.len(),
    {
        let ghost before_rest = rest@;
        let e = rest.remove(0);
        proof {
            assert(before_rest.remove(0) =~= rest@);
            before_rest.to_multiset_ensures();
            vstd::seq_lib::to_multiset_remove(before_rest, 0);
            assert(before_rest.contains(e));
            assert(before_rest.to_multiset().count(e) > 0);
        }
        let le = lowercase(e.name.as_str());
        let n = out.len();
        let mut p: usize = 0;
        while p < n && !entry_less(sort, &e, &le, &out[p], &keys[p])
            invariant
                n == out@.len(),
                keys@.len() == n,
                p <= n,
                le@ == lower_of(e.name@),
                forall|k: int| 0 <= k < n ==> (#[trigger] keys@[k])@ == lower_of(out@[k].name@),
                forall|k: int| 0 <= k < p ==> !entry_lt(sort, e, #[trigger] out@[k]),
            decreases n - p,
        {
            p = p + 1;
        }
        let ghost before = out@;
        out.insert(p, e);
        keys.insert(p, le);
        proof {
            assert forall|i: int, j: int| 0 <= i < j < out@.len() implies !entry_lt(
                sort,
                #[trigger] out@[j],
                #[trigger] out@[i],
            ) by {
                if j < p {
                    assert(out@[i] == before[i] && out@[j] == before[j]);
                } else if j == p {
                    assert(out@[i] == before[i]);
                } else if i == p {
                    assert(out@[j] == before[j - 1]);
                    if j - 1 > p {
                        assert(!entry_lt(sort, before[j - 1], before[p as int]));
                    }
                    if entry_lt(sort, before[j - 1], e) {
                        lemma_entry_lt_trans(sort, before[j - 1], e, before[p as int]);
                        if j - 1 == p {
                            lemma_entry_lt_irreflexive(sort, before[p as int]);
                        }
                    }
                } else if i < p {
                    assert(out@[i] == before[i] && out@[j] == before[j - 1]);
                } else {
                    assert(out@[i] == before[i - 1] && out@[j] == before[j - 1]);
                }
            }
            vstd::seq_lib::to_multiset_insert(before, p as int, e);
            assert(out@ == before.insert(p as int, e));
            let m_out = out@.to_multiset();
            let m_rest = rest@.to_multiset();
            assert(m_out == before.to_multiset().insert(e));
            assert(m_rest == before_rest.to_multiset().remove(e));
            assert(before.to_multiset().add(before_rest.to_multiset()) == all);
            assert forall|x: Entry| #[trigger] m_out.add(m_rest).count(x) == all.count(x) by {
                if x == e {
                    assert(before_rest.to_multiset().count(e) > 0);
                }
            }
            assert(m_out.add(m_rest) =~= all);
        }
    }
    proof {
        assert(rest@.to_multiset() =~= Multiset::<Entry>::empty());
        assert(out@.to_multiset() =~= all);
    }
    out
}

/// `s` back to front.
pub fn reverse_entries(s: Vec<Entry>) -> (r: Vec<Entry>)
    ensures
        r@ == s@.reverse(),
{
    let mut rest = s;
    let mut out: Vec<Entry> = Vec::new();
    let ghost orig = rest@;
    let ghost n = orig.len();
    while rest.len() > 0
        invariant
            rest@ =~= orig.subrange(0, rest@.len() as int),
            out@.len() + rest@.len() == n,
            n == orig.len(),
            forall|k: int| 0 <= k < out@.len() ==> #[trigger] out@[k] == orig[n - 1 - k],
        decreases rest@.len(),
    {
        let ghost m = rest@.len();
        let e = rest.pop().unwrap();
        proof {
            assert(e == orig[m - 1]);
        }
        out.push(e);
    }
    proof {
        assert(out@ =~= orig.reverse());
    }
    out
}

} // verus!
