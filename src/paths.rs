//! Paths as character sequences with `/` as the separator.
use vstd::prelude::*;

verus! {

/// The separator between path components.
pub open spec fn is_sep(c: char) -> bool {
    c == '/'
}

/// `true` when the path ends with a separator.
pub open spec fn ends_with_sep(p: Seq<char>) -> bool {
    p.len() > 0 && is_sep(p.last())
}

/// The path with every trailing separator removed.
pub open spec fn trim_trailing_seps(p: Seq<char>) -> Seq<char>
    decreases p.len(),
{
    if ends_with_sep(p) {
        trim_trailing_seps(p.drop_last())
    } else {
        p
    }
}

/// The characters after the last separator.
pub open spec fn last_segment(p: Seq<char>) -> Seq<char>
    decreases p.len(),
{
    if p.len() == 0 {
        p
    } else if is_sep(p.last()) {
        Seq::empty()
    } else {
        last_segment(p.drop_last()).push(p.last())
    }
}

/// `Path::join`: an absolute `name` replaces `base`; otherwise one separator
/// stands between them.
pub open spec fn join_spec(base: Seq<char>, name: Seq<char>) -> Seq<char> {
    if name.len() > 0 && is_sep(name[0]) {
        name
    } else if base.len() == 0 || ends_with_sep(base) {
        base + name
    } else {
        base + seq!['/'] + name
    }
}

/// The final component of a path, when it names something.
pub open spec fn file_name_spec(p: Seq<char>) -> Option<Seq<char>> {
    let seg = last_segment(trim_trailing_seps(p));
    if seg.len() == 0 || seg == seq!['.'] || seg == seq!['.', '.'] {
        None
    } else {
        Some(seg)
    }
}

/// The path without its final component; `None` for the root and the empty
/// path.
pub open spec fn parent_spec(p: Seq<char>) -> Option<Seq<char>> {
    let t = trim_trailing_seps(p);
    if t.len() == 0 {
        None
    } else {
        let rest = t.subrange(0, t.len() - last_segment(t).len());
        if rest.len() == 0 {
            Some(Seq::empty())
        } else if trim_trailing_seps(rest).len() == 0 {
            Some(seq!['/'])
        } else {
            Some(trim_trailing_seps(rest))
        }
    }
}

/// Component-wise prefix: `base` is `p` itself or one of its ancestors.
pub open spec fn starts_with_path(p: Seq<char>, base: Seq<char>) -> bool {
    &&& base.len() <= p.len()
    &&& p.subrange(0, base.len() as int) == base
    &&& (base.len() == p.len() || base.len() == 0 || ends_with_sep(base) || is_sep(
        p[base.len() as int],
    ))
}

/// Relies on `String::push`: the character is appended at the end.
#[verifier::external_body]
pub(crate) fn push_char(s: &mut String, c: char)
    ensures
        final(s)@ == old(s)@.push(c),
{
    s.push(c);
}

proof fn lemma_trim_len(p: Seq<char>)
    ensures
        trim_trailing_seps(p).len() <= p.len(),
        trim_trailing_seps(p) == p.subrange(0, trim_trailing_seps(p).len() as int),
    decreases p.len(),
{
    if ends_with_sep(p) {
        lemma_trim_len(p.drop_last());
    } else {
        assert(p == p.subrange(0, p.len() as int));
    }
}

proof fn lemma_last_segment_suffix(p: Seq<char>)
    ensures
        last_segment(p).len() <= p.len(),
        last_segment(p) == p.subrange(p.len() - last_segment(p).len(), p.len() as int),
    decreases p.len(),
{
    if p.len() > 0 && !is_sep(p.last()) {
        lemma_last_segment_suffix(p.drop_last());
        assert(last_segment(p) =~= p.subrange(p.len() - last_segment(p).len(), p.len() as int));
    } else if p.len() > 0 {
        assert(last_segment(p) =~= p.subrange(p.len() as int, p.len() as int));
    }
}

/// Number of characters left once trailing separators are dropped.
fn trimmed_len(p: &str) -> (r: usize)
    ensures
        r <= p@.len(),
        r as int == trim_trailing_seps(p@).len(),
        trim_trailing_seps(p@) == p@.subrange(0, r as int),
{
    let mut i: usize = p.unicode_len();
    proof {
        assert(p@.subrange(0, i as int) =~= p@);
    }
    while i > 0 && p.get_char(i - 1) == '/'
        invariant
            i <= p@.len(),
            trim_trailing_seps(p@.subrange(0, i as int)) == trim_trailing_seps(p@),
        decreases i,
    {
        proof {
            assert(p@.subrange(0, i as int).drop_last() =~= p@.subrange(0, i - 1));
        }
        i = i - 1;
    }
    proof {
        lemma_trim_len(p@);
    }
    i
}

/// Start of the last segment of `p[..end]`.
fn segment_start(p: &str, end: usize) -> (r: usize)
    requires
        end <= p@.len(),
    ensures
        r <= end,
        last_segment(p@.subrange(0, end as int)) == p@.subrange(r as int, end as int),
{
    let mut j: usize = end;
    proof {
        assert(p@.subrange(0, end as int) =~= p@.subrange(0, j as int) + p@.subrange(
            j as int,
            end as int,
        ));
    }
    while j > 0 && p.get_char(j - 1) != '/'
        invariant
            j <= end <= p@.len(),
            last_segment(p@.subrange(0, end as int)) == last_segment(p@.subrange(0, j as int))
                + p@.subrange(j as int, end as int),
        decreases j,
    {
        proof {
            let a = p@.subrange(0, j as int);
            assert(a.drop_last() =~= p@.subrange(0, j - 1));
            assert(last_segment(a) == last_segment(a.drop_last()).push(a.last()));
            assert(last_segment(a.drop_last()).push(a.last()) + p@.subrange(j as int, end as int)
                =~= last_segment(p@.subrange(0, j - 1)) + p@.subrange(j - 1, end as int));
        }
        j = j - 1;
    }
    proof {
        assert(last_segment(p@.subrange(0, j as int)) =~= Seq::<char>::empty());
        assert(Seq::<char>::empty() + p@.subrange(j as int, end as int) =~= p@.subrange(
            j as int,
            end as int,
        ));
    }
    j
}

/// Copies `p[from..to]` into a new string.
fn slice_string(p: &str, from: usize, to: usize) -> (r: String)
    requires
        from <= to <= p@.len(),
    ensures
        r@ == p@.subrange(from as int, to as int),
{
    let s = p.substring_char(from, to);
    s.to_owned()
}

/// `Path::join` on strings.
pub fn join_path(base: &str, name: &str) -> (r: String)
    ensures
        r@ == join_spec(base@, name@),
{
    let bl = base.unicode_len();
    let nl = name.unicode_len();
    if nl > 0 && name.get_char(0) == '/' {
        return name.to_owned();
    }
    let mut out = base.to_owned();
    if bl > 0 && base.get_char(bl - 1) != '/' {
        push_char(&mut out, '/');
    }
    out.append(name);
    proof {
        if bl > 0 && base@.last() != '/' {
            assert(out@ =~= base@ + seq!['/'] + name@);
        }
    }
    out
}

/// The final component of `p`, if it names something.
pub fn file_name(p: &str) -> (r: Option<String>)
    ensures
        r matches Some(s) ==> file_name_spec(p@) == Some(s@),
        r is None ==> file_name_spec(p@) is None,
{
    let end = trimmed_len(p);
    let start = segment_start(p, end);
    proof {
        assert(p@.subrange(0, end as int) == trim_trailing_seps(p@));
    }
    let seg = slice_string(p, start, end);
    let n = end - start;
    let dot_only = (n == 1 && p.get_char(start) == '.') || (n == 2 && p.get_char(start) == '.'
        && p.get_char(start + 1) == '.');
    proof {
        if n >= 1 {
            assert(seg@[0] == p@[start as int]);
        }
        if n >= 2 {
            assert(seg@[1] == p@[start + 1]);
        }
        if n == 1 {
            assert(dot_only == (seg@ =~= seq!['.']));
        } else if n == 2 {
            assert(dot_only == (seg@ =~= seq!['.', '.']));
        } else {
            assert(seg@.len() != 1 && seg@.len() != 2);
            assert(seg@ != seq!['.']);
            assert(seg@ != seq!['.', '.']);
        }
    }
    if n == 0 || dot_only {
        None
    } else {
        Some(seg)
    }
}

/// The parent of `p`; `None` for the root and the empty path.
pub fn parent(p: &str) -> (r: Option<String>)
    ensures
        r matches Some(s) ==> parent_spec(p@) == Some(s@),
        r is None ==> parent_spec(p@) is None,
{
    let end = trimmed_len(p);
    if end == 0 {
        return None;
    }
    let start = segment_start(p, end);
    let ghost t = trim_trailing_seps(p@);
    proof {
        assert(p@.subrange(0, end as int) == t);
        lemma_last_segment_suffix(t);
        assert(t.subrange(0, t.len() - last_segment(t).len()) =~= p@.subrange(0, start as int));
    }
    if start == 0 {
        return Some(String::new());
    }
    let rest = slice_string(p, 0, start);
    let rest_end = trimmed_len(rest.as_str());
    if rest_end == 0 {
        let mut root = String::new();
        push_char(&mut root, '/');
        proof {
            assert(root@ =~= seq!['/']);
        }
        Some(root)
    } else {
        Some(slice_string(rest.as_str(), 0, rest_end))
    }
}

/// `true` when the path ends with a separator.
pub fn has_trailing_sep(p: &str) -> (r: bool)
    ensures
        r == ends_with_sep(p@),
{
    let n = p.unicode_len();
    n > 0 && p.get_char(n - 1) == '/'
}

/// Component-wise prefix test, as `Path::starts_with`.
pub fn path_starts_with(p: &str, base: &str) -> (r: bool)
    ensures
        r == starts_with_path(p@, base@),
{
    let pl = p.unicode_len();
    let bl = base.unicode_len();
    if bl > pl {
        return false;
    }
    let mut i: usize = 0;
    while i < bl
        invariant
            bl <= pl,
            pl == p@.len(),
            bl == base@.len(),
            i <= bl,
            forall|k: int| 0 <= k < i ==> p@[k] == base@[k],
        decreases bl - i,
    {
        if p.get_char(i) != base.get_char(i) {
            proof {
                assert(p@.subrange(0, bl as int)[i as int] != base@[i as int]);
            }
            return false;
        }
        i = i + 1;
    }
    proof {
        assert(p@.subrange(0, bl as int) =~= base@);
    }
    bl == pl || bl == 0 || base.get_char(bl - 1) == '/' || p.get_char(bl) == '/'
}

/// Resolve the destination of a copy or move: a destination that is a
/// directory (or is written with a trailing separator) receives the source's
/// name; any other destination is used verbatim.
pub fn resolve_target(dst: &str, dst_is_dir: bool, src_name: &str) -> (r: String)
    ensures
        r@ == (if dst_is_dir || ends_with_sep(dst@) {
            join_spec(dst@, src_name@)
        } else {
            dst@
        }),
{
    if dst_is_dir || has_trailing_sep(dst) {
        join_path(dst, src_name)
    } else {
        dst.to_owned()
    }
}

} // verus!
