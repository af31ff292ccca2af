//! The plain-text details of an entry, shown when no preview is available.
use vstd::prelude::*;
use crate::panel::Entry;
use crate::paths::push_char;

verus! {

/// Decimal digits of `n`, without leading zeros.
pub open spec fn dec_spec(n: nat) -> Seq<char>
    decreases n,
{
    if n < 10 {
        seq![(('0' as u32) + n) as char]
    } else {
        dec_spec(n / 10).push((('0' as u32) + n % 10) as char)
    }
}

/// Appends the decimal digits of `n` to `out`.
pub fn push_decimal(out: &mut String, n: u64)
    ensures
        final(out)@ == old(out)@ + dec_spec(n as nat),
    decreases n,
{
    if n < 10 {
        push_char(out, (('0' as u8) + (n as u8)) as char);
        proof {
            assert(dec_spec(n as nat) =~= seq![(('0' as u32) + n) as char]);
        }
    } else {
        push_decimal(out, n / 10);
        push_char(out, (('0' as u8) + ((n % 10) as u8)) as char);
    }
}

/// Relies on `chrono::DateTime::from_timestamp` and the `Display` of
/// `DateTime<Local>`: the time `secs` seconds after the Unix epoch, in the
/// machine's time zone. What it reads depends on that zone, so nothing is
/// stated of it.
#[verifier::external_body]
fn local_time_text(secs: i64) -> (r: Option<String>)
{
    match chrono::DateTime::from_timestamp(secs, 0) {
        Some(d) => Some(d.with_timezone(&chrono::Local).to_string()),
        None => None,
    }
}

/// The lines describing an entry whose modification time reads
/// `modified` (or is unknown): name, path, type, size and that time.
pub open spec fn file_stats_spec(e: Entry, modified: Option<Seq<char>>) -> Seq<Seq<char>> {
    seq![
        "Name: "@ + e.name@,
        "Path: "@ + e.path@,
        if e.is_dir { "Type: directory"@ } else { "Type: file"@ },
        "Size: "@ + dec_spec(e.size as nat) + " bytes"@,
        "Modified: "@ + match modified {
            Some(t) => t,
            None => "(unknown)"@,
        },
    ]
}

pub open spec fn opt_string_view(o: Option<String>) -> Option<Seq<char>> {
    match o {
        Some(s) => Some(s@),
        None => None,
    }
}

/// The details of `e`, one line each, with its modification time already
/// rendered as `modified`.
pub fn format_file_stats_with(e: &Entry, modified: Option<String>) -> (r: Vec<String>)
    ensures
        r@.len() == 5,
        forall|i: int| 0 <= i < 5 ==> #[trigger] r@[i]@ == file_stats_spec(*e, opt_string_view(modified))[i],
{
    let mut name = String::from_str("Name: ");
    name.append(e.name.as_str());
    let mut path = String::from_str("Path: ");
    path.append(e.path.as_str());
    let kind = if e.is_dir {
        String::from_str("Type: directory")
    } else {
        String::from_str("Type: file")
    };
    let mut size = String::from_str("Size: ");
    push_decimal(&mut size, e.size);
    size.append(" bytes");
    let mut when = String::from_str("Modified: ");
    match &modified {
        Some(t) => when.append(t.as_str()),
        None => when.append("(unknown)"),
    }
    let lines: Vec<String> = vec![name, path, kind, size, when];
    lines
}

/// The details of `e`, one line each; the modification time is shown in
/// the machine's time zone, or as unknown.
pub fn format_file_stats(e: &Entry) -> (r: Vec<String>)
    ensures
        r@.len() == 5,
        forall|i: int| 0 <= i < 4 ==> #[trigger] r@[i]@ == file_stats_spec(*e, None)[i],
        e.modified is None ==> r@[4]@ == "Modified: "@ + "(unknown)"@,
        r@[4]@.len() >= "Modified: "@.len() && r@[4]@.subrange(0, "Modified: "@.len() as int)
            == "Modified: "@,
{
    let modified = match e.modified {
        Some(t) => local_time_text(t),
        None => None,
    };
    let r = format_file_stats_with(e, modified);
    proof {
        let m = opt_string_view(modified);
        let line = file_stats_spec(*e, m)[4];
        assert(line.subrange(0, "Modified: "@.len() as int) =~= "Modified: "@);
    }
    r
}

} // verus!
