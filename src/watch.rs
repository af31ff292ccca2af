//! Filesystem watcher events and which panels they concern.
use vstd::prelude::*;
use crate::app::Side;
use crate::paths::{path_starts_with, starts_with_path};

verus! {

/// A filesystem change reported by a watcher.
#[derive(Clone, Debug, PartialEq, Eq)]
pub enum FsEvent {
    Create(String),
    Modify(String),
    Remove(String),
    /// A rename, from the first path to the second.
    Rename(String, String),
    Other,
}

/// The kind of change a watcher reported, before its paths are considered.
#[derive(Clone, Copy, Debug, PartialEq, Eq, Structural)]
pub enum ChangeKind {
    Create,
    Modify,
    Remove,
    Other,
}

/// The event for a watcher notification of `kind` on `paths`: two or more
/// paths make a rename of the first to the second, whatever the kind; one
/// path is mapped by kind; none is `Other`.
pub fn fs_event_from(kind: ChangeKind, paths: Vec<String>) -> (r: FsEvent)
    ensures
        paths@.len() >= 2 ==> r == FsEvent::Rename(paths@[0], paths@[1]),
        paths@.len() == 1 ==> r == (match kind {
            ChangeKind::Create => FsEvent::Create(paths@[0]),
            ChangeKind::Modify => FsEvent::Modify(paths@[0]),
            ChangeKind::Remove => FsEvent::Remove(paths@[0]),
            ChangeKind::Other => FsEvent::Other,
        }),
        paths@.len() == 0 ==> r == FsEvent::Other,
{
    let mut paths = paths;
    let n = paths.len();
    if n >= 2 {
        let ghost p = paths@;
        paths.truncate(2);
        let to = paths.pop().unwrap();
        let from = paths.pop().unwrap();
        proof {
            assert(from == p[0] && to == p[1]);
        }
        FsEvent::Rename(from, to)
    } else if n == 1 {
        let p = paths.pop().unwrap();
        match kind {
            ChangeKind::Create => FsEvent::Create(p),
            ChangeKind::Modify => FsEvent::Modify(p),
            ChangeKind::Remove => FsEvent::Remove(p),
            ChangeKind::Other => FsEvent::Other,
        }
    } else {
        FsEvent::Other
    }
}

/// Whether the event touches something below `root`.
pub open spec fn touches(evt: FsEvent, root: Seq<char>) -> bool {
    match evt {
        FsEvent::Create(p) | FsEvent::Modify(p) | FsEvent::Remove(p) => starts_with_path(p@, root),
        FsEvent::Rename(a, b) => starts_with_path(a@, root) || starts_with_path(b@, root),
        FsEvent::Other => false,
    }
}

fn touches_exec(evt: &FsEvent, root: &str) -> (r: bool)
    ensures
        r == touches(*evt, root@),
{
    match evt {
        FsEvent::Create(p) | FsEvent::Modify(p) | FsEvent::Remove(p) => path_starts_with(
            p.as_str(),
            root,
        ),
        FsEvent::Rename(a, b) => path_starts_with(a.as_str(), root) || path_starts_with(
            b.as_str(),
            root,
        ),
        FsEvent::Other => false,
    }
}

/// The panels to refresh after `evt`, left before right, each at most once.
pub fn affected_sides_from_fs_event(evt: &FsEvent, left: &str, right: &str) -> (r: Vec<Side>)
    ensures
        r@ == (if touches(*evt, left@) {
            seq![Side::Left]
        } else {
            Seq::empty()
        }) + (if touches(*evt, right@) {
            seq![Side::Right]
        } else {
            Seq::empty()
        }),
{
    let mut affected: Vec<Side> = Vec::new();
    if touches_exec(evt, left) {
        affected.push(Side::Left);
    }
    if touches_exec(evt, right) {
        affected.push(Side::Right);
    }
    proof {
        let l = if touches(*evt, left@) {
            seq![Side::Left]
        } else {
            Seq::<Side>::empty()
        };
        let rr = if touches(*evt, right@) {
            seq![Side::Right]
        } else {
            Seq::<Side>::empty()
        };
        assert(affected@ =~= l + rr);
    }
    affected
}

} // verus!
