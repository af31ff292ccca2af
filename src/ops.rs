//! Decisions of the single-entry operations: where a copy, move or rename
//! lands, what a removal does, how a user-typed path resolves, and the
//! errors each reports. The filesystem probes are the caller's: they come in
//! as plain values.
use vstd::prelude::*;
use crate::paths::{file_name, file_name_spec, join_path, join_spec, parent, parent_spec};

verus! {

/// Classification of a filesystem path.
#[derive(Clone, Copy, Debug, PartialEq, Eq, Structural)]
pub enum PathType {
    NotFound,
    Directory,
    File,
    /// Exists but is neither a regular file nor a directory.
    Other,
}

impl PathType {
    /// Classifies a path from its probes.
    pub fn of(exists: bool, is_dir: bool, is_file: bool) -> (r: PathType)
        ensures
            r == (if !exists {
                PathType::NotFound
            } else if is_dir {
                PathType::Directory
            } else if is_file {
                PathType::File
            } else {
                PathType::Other
            }),
    {
        if !exists {
            PathType::NotFound
        } else if is_dir {
            PathType::Directory
        } else if is_file {
            PathType::File
        } else {
            PathType::Other
        }
    }
}

/// Whether a path of this type exists.
pub fn path_exists(t: PathType) -> (r: bool)
    ensures
        r == (t != PathType::NotFound),
{
    match t {
        PathType::NotFound => false,
        _ => true,
    }
}

/// Whether a path of this type is a directory.
pub fn is_dir(t: PathType) -> (r: bool)
    ensures
        r == (t == PathType::Directory),
{
    match t {
        PathType::Directory => true,
        _ => false,
    }
}

/// Whether a path of this type is a regular file.
pub fn is_file(t: PathType) -> (r: bool)
    ensures
        r == (t == PathType::File),
{
    match t {
        PathType::File => true,
        _ => false,
    }
}

/// Errors of resolving a user-supplied path.
#[derive(Clone, Debug, PartialEq, Eq)]
pub enum PathError {
    Empty,
    HomeNotFound,
    NotFound(String),
    NotDirectory(String),
}

impl PathError {
    /// The message shown to the user.
    pub fn describe(&self) -> (r: String)
        ensures
            *self == PathError::Empty ==> r@ == "empty path"@,
            *self == PathError::HomeNotFound ==> r@ == "could not determine home directory"@,
            self matches PathError::NotFound(p) ==> r@ == "path does not exist: "@ + p@,
            self matches PathError::NotDirectory(p) ==> r@ == "not a directory: "@ + p@,
    {
        match self {
            PathError::Empty => String::from_str("empty path"),
            PathError::HomeNotFound => String::from_str("could not determine home directory"),
            PathError::NotFound(p) => {
                let mut s = String::from_str("path does not exist: ");
                s.append(p.as_str());
                s
            },
            PathError::NotDirectory(p) => {
                let mut s = String::from_str("not a directory: ");
                s.append(p.as_str());
                s
            },
        }
    }
}

/// `char::is_whitespace`: the Unicode White_Space property.
pub open spec fn is_ws(c: char) -> bool {
    let u = c as u32;
    (0x9 <= u <= 0xd) || u == 0x20 || u == 0x85 || u == 0xa0 || u == 0x1680 || (0x2000 <= u
        <= 0x200a) || u == 0x2028 || u == 0x2029 || u == 0x202f || u == 0x205f || u == 0x3000
}

fn is_ws_exec(c: char) -> (r: bool)
    ensures
        r == is_ws(c),
{
    let u = c as u32;
    (0x9 <= u && u <= 0xd) || u == 0x20 || u == 0x85 || u == 0xa0 || u == 0x1680 || (0x2000 <= u
        && u <= 0x200a) || u == 0x2028 || u == 0x2029 || u == 0x202f || u == 0x205f || u == 0x3000
}

pub open spec fn trim_start_ws(s: Seq<char>) -> Seq<char>
    decreases s.len(),
{
    if s.len() > 0 && is_ws(s[0]) {
        trim_start_ws(s.drop_first())
    } else {
        s
    }
}

pub open spec fn trim_end_ws(s: Seq<char>) -> Seq<char>
    decreases s.len(),
{
    if s.len() > 0 && is_ws(s.last()) {
        trim_end_ws(s.drop_last())
    } else {
        s
    }
}

/// `str::trim`: leading and trailing whitespace removed.
pub open spec fn trim_spec(s: Seq<char>) -> Seq<char> {
    trim_end_ws(trim_start_ws(s))
}

/// The string with leading and trailing whitespace removed.
pub fn trim(s: &str) -> (r: String)
    ensures
        r@ == trim_spec(s@),
{
    let n = s.unicode_len();
    let mut i: usize = 0;
    proof {
        assert(s@.subrange(0, n as int) =~= s@);
    }
    while i < n && is_ws_exec(s.get_char(i))
        invariant
            i <= n,
            n == s@.len(),
            trim_start_ws(s@) == trim_start_ws(s@.subrange(i as int, n as int)),
        decreases n - i,
    {
        proof {
            let r = s@.subrange(i as int, n as int);
            assert(r[0] == s@[i as int]);
            assert(r.drop_first() =~= s@.subrange(i + 1, n as int));
        }
        i = i + 1;
    }
    proof {
        let r = s@.subrange(i as int, n as int);
        if r.len() > 0 {
            assert(r[0] == s@[i as int]);
        }
        assert(trim_start_ws(r) == r);
    }
    let mut j: usize = n;
    while j > i && is_ws_exec(s.get_char(j - 1))
        invariant
            i <= j <= n,
            n == s@.len(),
            trim_spec(s@) == trim_end_ws(s@.subrange(i as int, j as int)),
        decreases j,
    {
        proof {
            let r = s@.subrange(i as int, j as int);
            assert(r.last() == s@[j - 1]);
            assert(r.drop_last() =~= s@.subrange(i as int, j - 1));
        }
        j = j - 1;
    }
    proof {
        let r = s@.subrange(i as int, j as int);
        if r.len() > 0 {
            assert(r.last() == s@[j - 1]);
        }
    }
    s.substring_char(i, j).to_owned()
}

/// Drops leading characters equal to `c`.
pub open spec fn drop_leading(s: Seq<char>, c: char) -> Seq<char>
    decreases s.len(),
{
    if s.len() > 0 && s[0] == c {
        drop_leading(s.drop_first(), c)
    } else {
        s
    }
}

/// Drops leading `/` and `\` characters.
pub open spec fn drop_leading_seps_any(s: Seq<char>) -> Seq<char>
    decreases s.len(),
{
    if s.len() > 0 && (s[0] == '/' || s[0] == '\\') {
        drop_leading_seps_any(s.drop_first())
    } else {
        s
    }
}

fn skippable(c: char, tilde: bool) -> (r: bool)
    ensures
        r == if tilde {
            c == '~'
        } else {
            c == '/' || c == '\\'
        },
{
    if tilde {
        c == '~'
    } else {
        c == '/' || c == '\\'
    }
}

fn skip_leading(s: &str, from: usize, tilde: bool) -> (r: usize)
    requires
        from <= s@.len(),
    ensures
        from <= r <= s@.len(),
        tilde ==> drop_leading(s@.subrange(from as int, s@.len() as int), '~') == s@.subrange(
            r as int,
            s@.len() as int,
        ),
        !tilde ==> drop_leading_seps_any(s@.subrange(from as int, s@.len() as int)) == s@.subrange(
            r as int,
            s@.len() as int,
        ),
{
    let n = s.unicode_len();
    let mut i: usize = from;
    while i < n && skippable(s.get_char(i), tilde)
        invariant
            from <= i <= n,
            n == s@.len(),
            tilde ==> drop_leading(s@.subrange(from as int, n as int), '~') == drop_leading(
                s@.subrange(i as int, n as int),
                '~',
            ),
            !tilde ==> drop_leading_seps_any(s@.subrange(from as int, n as int))
                == drop_leading_seps_any(s@.subrange(i as int, n as int)),
        decreases n - i,
    {
        proof {
            let r = s@.subrange(i as int, n as int);
            assert(r[0] == s@[i as int]);
            assert(r.drop_first() =~= s@.subrange(i + 1, n as int));
        }
        i = i + 1;
    }
    proof {
        let r = s@.subrange(i as int, n as int);
        if r.len() > 0 {
            assert(r[0] == s@[i as int]);
        }
    }
    i
}

/// Where a user-typed path points before the filesystem is consulted.
pub ghost enum Candidate {
    Empty,
    NoHome,
    Path(Seq<char>),
}

/// Trimmed input: empty is an error; a leading `~` stands for the home
/// directory (all leading `~` dropped, then leading separators, the rest
/// joined to home); an absolute path stands as it is; a relative one is
/// joined to `base`.
pub open spec fn candidate_spec(input: Seq<char>, base: Seq<char>, home: Option<Seq<char>>) -> Candidate {
    let t = trim_spec(input);
    if t.len() == 0 {
        Candidate::Empty
    } else if t[0] == '~' {
        match home {
            None => Candidate::NoHome,
            Some(h) => {
                let rest = drop_leading(t, '~');
                if rest.len() == 0 {
                    Candidate::Path(h)
                } else {
                    Candidate::Path(join_spec(h, drop_leading_seps_any(rest)))
                }
            },
        }
    } else if t[0] == '/' {
        Candidate::Path(t)
    } else {
        Candidate::Path(join_spec(base, t))
    }
}

pub open spec fn opt_view(o: Option<&str>) -> Option<Seq<char>> {
    match o {
        Some(s) => Some(s@),
        None => None,
    }
}

/// Resolves a user-supplied path for changing a panel's directory, given the
/// home directory if one is known. The result still has to be checked
/// against the filesystem with `check_directory`.
pub fn resolve_path(input: &str, base: &str, home: Option<&str>) -> (r: Result<String, PathError>)
    ensures
        match candidate_spec(input@, base@, opt_view(home)) {
            Candidate::Empty => r == Err::<String, PathError>(PathError::Empty),
            Candidate::NoHome => r == Err::<String, PathError>(PathError::HomeNotFound),
            Candidate::Path(p) => r matches Ok(s) && s@ == p,
        },
{
    let t = trim(input);
    let ts = t.as_str();
    let n = ts.unicode_len();
    if n == 0 {
        return Err(PathError::Empty);
    }
    if ts.get_char(0) == '~' {
        match home {
            None => Err(PathError::HomeNotFound),
            Some(h) => {
                let after = skip_leading(ts, 0, true);
                proof {
                    assert(t@.subrange(0, n as int) =~= t@);
                }
                if after == n {
                    Ok(h.to_owned())
                } else {
                    let start = skip_leading(ts, after, false);
                    let rest = ts.substring_char(start, n);
                    Ok(join_path(h, rest))
                }
            },
        }
    } else if ts.get_char(0) == '/' {
        Ok(t)
    } else {
        Ok(join_path(base, ts))
    }
}

/// The final check of a resolved path against what the filesystem holds.
pub fn check_directory(candidate: String, kind: PathType) -> (r: Result<String, PathError>)
    ensures
        kind == PathType::NotFound ==> r == Err::<String, PathError>(
            PathError::NotFound(candidate),
        ),
        kind == PathType::Directory ==> r == Ok::<String, PathError>(candidate),
        (kind == PathType::File || kind == PathType::Other) ==> r == Err::<String, PathError>(
            PathError::NotDirectory(candidate),
        ),
{
    match kind {
        PathType::NotFound => Err(PathError::NotFound(candidate)),
        PathType::Directory => Ok(candidate),
        _ => Err(PathError::NotDirectory(candidate)),
    }
}

/// Errors of the move, copy and rename helpers.
#[derive(Clone, Debug, PartialEq, Eq)]
pub enum MvError {
    Io(String),
    MissingFilename,
}

impl MvError {
    /// The message shown to the user.
    pub fn describe(&self) -> (r: String)
        ensures
            self matches MvError::Io(m) ==> r@ == "IO error: "@ + m@,
            *self == MvError::MissingFilename ==> r@ == "path has no filename"@,
    {
        match self {
            MvError::Io(m) => {
                let mut s = String::from_str("IO error: ");
                s.append(m.as_str());
                s
            },
            MvError::MissingFilename => String::from_str("path has no filename"),
        }
    }
}

/// Where a copy or move of `src` to `dst` lands: into `dst` under the
/// source's name when `dst` is an existing directory, else at `dst`.
pub fn move_destination(src: &str, dst: &str, dst_is_dir: bool) -> (r: Result<String, MvError>)
    ensures
        !dst_is_dir ==> (r matches Ok(s) && s@ == dst@),
        dst_is_dir && file_name_spec(src@) is None ==> r == Err::<String, MvError>(
            MvError::MissingFilename,
        ),
        dst_is_dir && file_name_spec(src@) is Some ==> (r matches Ok(s) && s@ == join_spec(
            dst@,
            file_name_spec(src@)->0,
        )),
{
    if dst_is_dir {
        match file_name(src) {
            Some(name) => Ok(join_path(dst, name.as_str())),
            None => Err(MvError::MissingFilename),
        }
    } else {
        Ok(dst.to_owned())
    }
}

/// Where renaming `path` to `new_name` lands: beside it, in its parent.
pub fn rename_destination(path: &str, new_name: &str) -> (r: Result<String, MvError>)
    ensures
        parent_spec(path@) is None ==> r == Err::<String, MvError>(MvError::MissingFilename),
        parent_spec(path@) matches Some(p) ==> (r matches Ok(s) && s@ == join_spec(p, new_name@)),
{
    match parent(path) {
        Some(p) => Ok(join_path(p.as_str(), new_name)),
        None => Err(MvError::MissingFilename),
    }
}

/// What removing a path does.
#[derive(Clone, Copy, Debug, PartialEq, Eq, Structural)]
pub enum RemoveAction {
    /// The path is absent: removal is a no-op that succeeds.
    Nothing,
    /// Remove the directory and everything below it.
    RemoveTree,
    /// Remove the file.
    RemoveFile,
}

/// Decides how `remove_path` removes a path of type `kind`.
pub fn remove_action(kind: PathType) -> (r: RemoveAction)
    ensures
        r == (match kind {
            PathType::NotFound => RemoveAction::Nothing,
            PathType::Directory => RemoveAction::RemoveTree,
            _ => RemoveAction::RemoveFile,
        }),
{
    match kind {
        PathType::NotFound => RemoveAction::Nothing,
        PathType::Directory => RemoveAction::RemoveTree,
        _ => RemoveAction::RemoveFile,
    }
}

/// A failed removal, with the underlying I/O message.
#[derive(Clone, Debug, PartialEq, Eq)]
pub struct RemoveError(pub String);

impl RemoveError {
    /// The message shown to the user.
    pub fn describe(&self) -> (r: String)
        ensures
            r@ == "filesystem remove error: "@ + self.0@,
    {
        let mut s = String::from_str("filesystem remove error: ");
        s.append(self.0.as_str());
        s
    }
}

/// Errors of the create helpers.
#[derive(Clone, Debug, PartialEq, Eq)]
pub enum CreateError {
    Io(String),
    /// The target exists and was not overwritten.
    AlreadyExists(String),
}

impl CreateError {
    /// The message shown to the user.
    pub fn describe(&self) -> (r: String)
        ensures
            self matches CreateError::Io(m) ==> r@ == m@,
            self matches CreateError::AlreadyExists(p) ==> r@ == "already exists: "@ + p@,
    {
        match self {
            CreateError::Io(m) => m.clone(),
            CreateError::AlreadyExists(p) => {
                let mut s = String::from_str("already exists: ");
                s.append(p.as_str());
                s
            },
        }
    }

    /// The error of a failed create of `path`: an "already exists" failure
    /// names the path, any other keeps the I/O message.
    pub fn from_write_failure(path: &str, already_exists: bool, message: String) -> (r: CreateError)
        ensures
            already_exists ==> (r matches CreateError::AlreadyExists(p) && p@ == path@),
            !already_exists ==> r == CreateError::Io(message),
    {
        if already_exists {
            CreateError::AlreadyExists(path.to_owned())
        } else {
            CreateError::Io(message)
        }
    }
}

/// Errors of the high-level file operations.
#[derive(Clone, Debug, PartialEq, Eq)]
pub enum FsOpError {
    Io(String),
    Message(String),
    /// A failure between two paths, both named for reporting.
    PathContext { src: String, dst: String, msg: String },
}

impl FsOpError {
    /// A failure between `src` and `dst`.
    pub fn path_context(src: &str, dst: &str, msg: &str) -> (r: FsOpError)
        ensures
            r matches FsOpError::PathContext { src: s, dst: d, msg: m } && s@ == src@ && d@
                == dst@ && m@ == msg@,
    {
        FsOpError::PathContext { src: src.to_owned(), dst: dst.to_owned(), msg: msg.to_owned() }
    }

    /// The message shown to the user.
    pub fn describe(&self) -> (r: String)
        ensures
            self matches FsOpError::Io(m) ==> r@ == "I/O error: "@ + m@,
            self matches FsOpError::Message(m) ==> r@ == "Filesystem operation failed: "@ + m@,
            self matches FsOpError::PathContext { src, dst, msg } ==> r@ == "Operation failed from `"@
                + src@ + "` to `"@ + dst@ + "`: "@ + msg@,
    {
        match self {
            FsOpError::Io(m) => {
                let mut s = String::from_str("I/O error: ");
                s.append(m.as_str());
                s
            },
            FsOpError::Message(m) => {
                let mut s = String::from_str("Filesystem operation failed: ");
                s.append(m.as_str());
                s
            },
            FsOpError::PathContext { src, dst, msg } => {
                let mut s = String::from_str("Operation failed from `");
                s.append(src.as_str());
                s.append("` to `");
                s.append(dst.as_str());
                s.append("`: ");
                s.append(msg.as_str());
                s
            },
        }
    }
}

/// Errors of setting up or restoring the terminal.
#[derive(Clone, Debug, PartialEq, Eq)]
pub enum TerminalError {
    Io(String),
}

impl TerminalError {
    /// The message shown to the user.
    pub fn describe(&self) -> (r: String)
        ensures
            self matches TerminalError::Io(m) ==> r@ == "IO error: "@ + m@,
    {
        match self {
            TerminalError::Io(m) => {
                let mut s = String::from_str("IO error: ");
                s.append(m.as_str());
                s
            },
        }
    }
}

} // verus!
