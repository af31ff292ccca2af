//! Deciding whether sampled file content is text, and the preview texts.
use vstd::prelude::*;
use vstd::std_specs::iter::IteratorSpec;
use vstd::utf8::{valid_utf8, decode_utf8};

verus! {

/// Why a file has no text preview.
#[derive(Clone, Copy, Debug, PartialEq, Eq, Structural)]
pub enum PreviewError {
    /// The sample looks binary.
    Binary,
    /// The file could not be opened or read.
    Unreadable,
}

impl PreviewError {
    /// The message shown to the user.
    pub fn describe(&self) -> (r: String)
        ensures
            *self == PreviewError::Binary ==> r@ == "file appears to be binary"@,
            *self == PreviewError::Unreadable ==> r@ == "file could not be read"@,
    {
        match self {
            PreviewError::Binary => String::from_str("file appears to be binary"),
            PreviewError::Unreadable => String::from_str("file could not be read"),
        }
    }
}

/// Most bytes read for a file preview (100 KiB).
pub const MAX_PREVIEW_BYTES: usize = 102400;

/// Most entries listed in a directory preview.
pub const MAX_DIR_PREVIEW_ENTRIES: usize = 50;

/// A control character other than tab, line feed and carriage return.
pub open spec fn is_control(c: char) -> bool {
    let u = c as u32;
    ((u <= 0x1f) || (0x7f <= u <= 0x9f)) && c != '\t' && c != '\n' && c != '\r'
}

pub open spec fn count_control(s: Seq<char>) -> nat
    decreases s.len(),
{
    if s.len() == 0 {
        0
    } else {
        count_control(s.drop_last()) + if is_control(s.last()) {
            1nat
        } else {
            0nat
        }
    }
}

/// More than 30% of the characters are control characters.
pub open spec fn control_heavy(s: Seq<char>) -> bool {
    s.len() > 0 && 10 * count_control(s) > 3 * s.len()
}

/// A sample is binary when it holds a NUL byte, is not valid UTF-8, or
/// decodes to text that is mostly control characters.
pub open spec fn binary_spec(b: Seq<u8>) -> bool {
    b.contains(0u8) || (b.len() > 0 && (!valid_utf8(b) || control_heavy(decode_utf8(b))))
}

/// Relies on `std::str::from_utf8`: it succeeds exactly on valid UTF-8 and
/// then holds the decoded characters.
#[verifier::external_body]
fn utf8_str(b: &[u8]) -> (r: Option<&str>)
    ensures
        r is Some <==> valid_utf8(b@),
        r matches Some(s) ==> s@ == decode_utf8(b@),
{
    std::str::from_utf8(b).ok()
}

fn is_control_exec(c: char) -> (r: bool)
    ensures
        r == is_control(c),
{
    let u = c as u32;
    (u <= 0x1f || (0x7f <= u && u <= 0x9f)) && c != '\t' && c != '\n' && c != '\r'
}

proof fn lemma_count_control_bound(s: Seq<char>)
    ensures
        count_control(s) <= s.len(),
    decreases s.len(),
{
    if s.len() > 0 {
        lemma_count_control_bound(s.drop_last());
    }
}

/// Whether `text` is mostly control characters.
pub fn is_control_heavy(text: &str) -> (r: bool)
    ensures
        r == control_heavy(text@),
{
    broadcast use vstd::string::group_string_axioms;

    let ghost full = text@;
    let total = text.unicode_len();
    let mut it = text.chars();
    let mut seen: usize = 0;
    let mut ctrl: usize = 0;
    loop
        invariant
            it.obeys_prophetic_iter_laws(),
            it.remaining() == full.subrange(seen as int, full.len() as int),
            seen <= full.len(),
            ctrl == count_control(full.subrange(0, seen as int)),
            ctrl <= seen,
            total == full.len(),
        ensures
            seen == full.len(),
            ctrl == count_control(full.subrange(0, seen as int)),
        decreases full.len() - seen,
    {
        match it.next() {
            Some(c) => {
                proof {
                    assert(full.subrange(0, seen + 1).drop_last() =~= full.subrange(0, seen as int));
                    assert(full.subrange(seen + 1, full.len() as int) =~= full.subrange(
                        seen as int,
                        full.len() as int,
                    ).drop_first());
                }
                if is_control_exec(c) {
                    ctrl = ctrl + 1;
                }
                seen = seen + 1;
            },
            None => {
                break ;
            },
        }
    }
    proof {
        assert(full.subrange(0, seen as int) =~= full);
        lemma_count_control_bound(full);
    }
    seen > 0 && (ctrl as u128) * 10 > (seen as u128) * 3
}

/// Whether a sample of file content looks binary rather than text.
pub fn is_binary(buffer: &[u8]) -> (r: bool)
    ensures
        r == binary_spec(buffer@),
{
    let n = buffer.len();
    let mut i: usize = 0;
    while i < n
        invariant
            n == buffer@.len(),
            i <= n,
            forall|k: int| 0 <= k < i ==> buffer@[k] != 0u8,
        decreases n - i,
    {
        if buffer[i] == 0 {
            proof {
                assert(buffer@.contains(0u8));
            }
            return true;
        }
        i = i + 1;
    }
    if n == 0 {
        return false;
    }
    match utf8_str(buffer) {
        None => true,
        Some(text) => is_control_heavy(text),
    }
}

/// Leading byte-order marks removed.
pub open spec fn strip_bom(s: Seq<char>) -> Seq<char>
    decreases s.len(),
{
    if s.len() > 0 && s[0] == '\u{feff}' {
        strip_bom(s.drop_first())
    } else {
        s
    }
}

/// The note appended when the file is longer than the sample.
pub open spec fn truncation_note() -> Seq<char> {
    "\n... (truncated)"@
}

/// The text preview of a sample: its characters without leading byte-order
/// marks, with a note when the file holds more than the sample.
pub open spec fn file_preview_spec(b: Seq<u8>, truncated: bool) -> Seq<char> {
    strip_bom(decode_utf8(b)) + if truncated {
        truncation_note()
    } else {
        Seq::<char>::empty()
    }
}

/// The preview of a file from a sample of its first bytes; `truncated` tells
/// whether the file is longer than the sample.
pub fn file_preview_text(sample: &[u8], truncated: bool) -> (r: Result<String, PreviewError>)
    ensures
        binary_spec(sample@) ==> r == Err::<String, PreviewError>(PreviewError::Binary),
        !binary_spec(sample@) ==> (r matches Ok(s) && s@ == file_preview_spec(sample@, truncated)),
{
    if is_binary(sample) {
        return Err(PreviewError::Binary);
    }
    let text: &str = match utf8_str(sample) {
        Some(t) => t,
        None => {
            proof {
                assert(sample@.len() == 0);
                assert(valid_utf8(sample@)) by {
                    reveal_with_fuel(valid_utf8, 1);
                }
            }
            return Err(PreviewError::Binary);
        },
    };
    let n = text.unicode_len();
    let mut i: usize = 0;
    proof {
        assert(text@.subrange(0, n as int) =~= text@);
    }
    while i < n && text.get_char(i) == '\u{feff}'
        invariant
            i <= n,
            n == text@.len(),
            strip_bom(text@) == strip_bom(text@.subrange(i as int, n as int)),
        decreases n - i,
    {
        proof {
            let r = text@.subrange(i as int, n as int);
            assert(r[0] == text@[i as int]);
            assert(r.drop_first() =~= text@.subrange(i + 1, n as int));
        }
        i = i + 1;
    }
    proof {
        let r = text@.subrange(i as int, n as int);
        if r.len() > 0 {
            assert(r[0] == text@[i as int]);
        }
    }
    let mut out = text.substring_char(i, n).to_owned();
    if truncated {
        out.append("\n... (truncated)");
    } else {
        proof {
            assert(out@ + Seq::<char>::empty() =~= out@);
        }
    }
    Ok(out)
}

/// The message shown in place of a preview that failed.
pub fn preview_failure_message(path: &str, err: PreviewError) -> (r: String)
    ensures
        err == PreviewError::Binary ==> r@ == "Binary file: "@ + path@ + " (preview not available)"@,
        err == PreviewError::Unreadable ==> r@ == "Cannot preview file: "@ + path@ + " (unreadable)"@,
{
    match err {
        PreviewError::Binary => {
            let mut s = String::from_str("Binary file: ");
            s.append(path);
            s.append(" (preview not available)");
            s
        },
        PreviewError::Unreadable => {
            let mut s = String::from_str("Cannot preview file: ");
            s.append(path);
            s.append(" (unreadable)");
            s
        },
    }
}

/// The lines of a directory preview after its header: the first
/// `MAX_DIR_PREVIEW_ENTRIES` of `names`, each followed by a line feed.
pub open spec fn listed_lines(names: Seq<String>, k: nat) -> Seq<char>
    decreases k,
{
    if k == 0 || names.len() == 0 {
        Seq::empty()
    } else {
        let m = if k <= names.len() { k } else { names.len() };
        listed_lines(names, (m - 1) as nat) + names[m - 1]@ + seq!['\n']
    }
}

/// The preview of a directory: a header naming it, then (when it is a
/// directory) its entry names in sorted order, at most
/// `MAX_DIR_PREVIEW_ENTRIES` of them, one per line.
pub fn directory_preview_text(path: &str, is_dir: bool, names: Vec<String>) -> (r: String)
    ensures
        !is_dir ==> r@ == "Directory: "@ + path@ + "\n"@,
        is_dir ==> exists|sorted: Seq<String>|
            #![trigger crate::tree::strictly_sorted(sorted)]
            crate::tree::strictly_sorted(sorted) && crate::tree::path_set(sorted)
                == crate::tree::path_set(names@) && r@ == "Directory: "@ + path@ + "\n"@
                + listed_lines(sorted, MAX_DIR_PREVIEW_ENTRIES as nat),
{
    let mut out = String::from_str("Directory: ");
    out.append(path);
    out.append("\n");
    if !is_dir {
        return out;
    }
    let mut sorted: Vec<String> = Vec::new();
    let mut rest = names;
    let ghost all = crate::tree::path_set(rest@);
    proof {
        assert(crate::tree::path_set(sorted@) =~= Set::<Seq<char>>::empty());
    }
    while rest.len() > 0
        invariant
            crate::tree::strictly_sorted(sorted@),
            crate::tree::path_set(sorted@).union(crate::tree::path_set(rest@)) == all,
        decreases rest@.len(),
    {
        let ghost before = rest@;
        let name = rest.pop().unwrap();
        proof {
            assert(rest@ =~= before.drop_last());
            assert forall|q: Seq<char>| crate::tree::path_set(before).contains(q) <==> (
            crate::tree::path_set(rest@).contains(q) || q == name@) by {
                if crate::tree::path_set(before).contains(q) {
                    let k = choose|k: int| 0 <= k < before.len() && before[k]@ == q;
                    if k < rest@.len() {
                        assert(rest@[k] == before[k]);
                    }
                }
                if crate::tree::path_set(rest@).contains(q) {
                    let k = choose|k: int| 0 <= k < rest@.len() && rest@[k]@ == q;
                    assert(before[k] == rest@[k]);
                }
                if q == name@ {
                    assert(before[before.len() - 1] == name);
                }
            }
        }
        crate::tree::insert_sorted(&mut sorted, name);
        proof {
            assert(crate::tree::path_set(sorted@).union(crate::tree::path_set(rest@)) =~= all);
        }
    }
    proof {
        assert(crate::tree::path_set(rest@) =~= Set::<Seq<char>>::empty());
        assert(crate::tree::path_set(sorted@) =~= all);
    }
    let ghost head = out@;
    let n = sorted.len();
    let mut i: usize = 0;
    while i < n && i < MAX_DIR_PREVIEW_ENTRIES
        invariant
            n == sorted@.len(),
            i <= n,
            i <= MAX_DIR_PREVIEW_ENTRIES,
            out@ == head + listed_lines(sorted@, i as nat),
        decreases n - i,
    {
        out.append(sorted[i].as_str());
        out.append("\n");
        proof {
            reveal_strlit("\n");
            assert(listed_lines(sorted@, (i + 1) as nat) == listed_lines(sorted@, i as nat)
                + sorted@[i as int]@ + seq!['\n']);
            assert(out@ =~= head + listed_lines(sorted@, (i + 1) as nat));
        }
        i = i + 1;
    }
    proof {
        if i == n && n < MAX_DIR_PREVIEW_ENTRIES {
            assert(listed_lines(sorted@, MAX_DIR_PREVIEW_ENTRIES as nat) == listed_lines(
                sorted@,
                n as nat,
            )) by {
                if n > 0 {
                    assert(listed_lines(sorted@, MAX_DIR_PREVIEW_ENTRIES as nat) == listed_lines(
                        sorted@,
                        (n - 1) as nat,
                    ) + sorted@[n - 1]@ + seq!['\n']);
                }
            }
        }
    }
    out
}

} // verus!
