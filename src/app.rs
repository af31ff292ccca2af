//! The application state: two panels, which one is active, the sort order,
//! the foreground mode and the user's settings.
//!
//! Directory listings are read by the caller and installed here; file
//! operations are returned as `Operation` values for the caller to perform.
use vstd::prelude::*;
use crate::listing::{SortKey, sort_entries, reverse_entries, sorted_by, sorted_desc_by};
use crate::mode::{Mode, Operation, OperationKind};
use crate::preview::{PreviewError, preview_failure_message};
use crate::panel::{Entry, EntryKind, Panel, visible_offset};
use crate::paths::{join_path, join_spec, parent, parent_spec, ends_with_sep};

verus! {

/// Which panel.
#[derive(Clone, Copy, Debug, PartialEq, Eq, Structural)]
pub enum Side {
    Left,
    Right,
}

/// User settings edited in the settings dialog.
#[derive(Clone, Copy, Debug, PartialEq, Eq, Structural)]
pub struct Settings {
    pub mouse_enabled: bool,
    /// Double-click interval in milliseconds.
    pub mouse_double_click_ms: u64,
}

pub struct App {
    pub left: Panel,
    pub right: Panel,
    pub active: Side,
    pub mode: Mode,
    pub sort: SortKey,
    pub sort_desc: bool,
    pub settings: Settings,
}

/// `p` with the selection moved to `sel` and scrolled into a viewport of
/// `height` rows.
pub open spec fn moved(p: Panel, sel: usize, height: usize) -> Panel {
    Panel { selected: sel, offset: visible_offset(sel, p.offset, p.entries@.len() as usize, height), ..p }
}

/// `s` clamped to the rows of a listing of `len` rows.
pub open spec fn clamp_spec(s: usize, len: nat) -> usize {
    if len == 0 {
        0
    } else if s < len {
        s
    } else {
        (len - 1) as usize
    }
}

/// Index of the first real row under the synthetic rows of a panel at `cwd`.
pub open spec fn listing_start(cwd: Seq<char>) -> int {
    if parent_spec(cwd) is Some {
        2
    } else {
        1
    }
}

/// The synthetic rows of a panel at `cwd`: the header, then `..` when the
/// directory has a parent.
pub open spec fn has_synthetic_rows(entries: Seq<Entry>, cwd: Seq<char>) -> bool {
    &&& entries.len() >= listing_start(cwd)
    &&& entries[0].kind == EntryKind::Header
    &&& entries[0].name@ == cwd
    &&& entries[0].path@ == cwd
    &&& !entries[0].is_dir
    &&& (parent_spec(cwd) matches Some(p) ==> entries[1].kind == EntryKind::Parent
        && entries[1].name@ == ".."@ && entries[1].path@ == p && entries[1].is_dir)
}

/// Selection after moving down one row.
pub open spec fn next_sel(p: Panel) -> usize {
    if p.selected + 1 < p.entries@.len() {
        (p.selected + 1) as usize
    } else {
        p.selected
    }
}

/// Selection after moving up one row.
pub open spec fn prev_sel(p: Panel) -> usize {
    if p.entries@.len() > 0 && p.selected > 0 {
        (p.selected - 1) as usize
    } else {
        p.selected
    }
}

/// Selection after moving down a page of `h` rows.
pub open spec fn page_down_sel(p: Panel, h: usize) -> usize {
    let want = p.selected + h;
    let last = p.entries@.len() - 1;
    if p.entries@.len() == 0 {
        p.selected
    } else if want <= last {
        want as usize
    } else {
        last as usize
    }
}

/// Selection after moving up a page of `h` rows.
pub open spec fn page_up_sel(p: Panel, h: usize) -> usize {
    if p.entries@.len() == 0 {
        p.selected
    } else if p.selected >= h {
        (p.selected - h) as usize
    } else {
        0
    }
}

impl App {
    pub open spec fn panel_spec(self, side: Side) -> Panel {
        match side {
            Side::Left => self.left,
            Side::Right => self.right,
        }
    }

    pub open spec fn active_spec(self) -> Panel {
        self.panel_spec(self.active)
    }

    /// This state with the panel of `side` replaced.
    pub open spec fn with_panel(self, side: Side, p: Panel) -> App {
        match side {
            Side::Left => App { left: p, ..self },
            Side::Right => App { right: p, ..self },
        }
    }

    /// The selected row of the active panel, if within its listing.
    pub open spec fn selected_spec(self) -> Option<Entry> {
        let p = self.active_spec();
        if p.selected < p.entries@.len() {
            Some(p.entries@[p.selected as int])
        } else {
            None
        }
    }

    /// Both panels at `cwd`, nothing listed, the left one active.
    pub fn new(cwd: String) -> (r: App)
        ensures
            r.left.cwd == cwd,
            r.right.cwd == cwd,
            r.left.entries@.len() == 0,
            r.right.entries@.len() == 0,
            r.active == Side::Left,
            r.mode is Normal,
            r.sort == SortKey::Name,
            !r.sort_desc,
            r.settings == (Settings { mouse_enabled: true, mouse_double_click_ms: 500 }),
    {
        let c2 = cwd.clone();
        App {
            left: Panel::new(cwd),
            right: Panel::new(c2),
            active: Side::Left,
            mode: Mode::Normal,
            sort: SortKey::Name,
            sort_desc: false,
            settings: Settings { mouse_enabled: true, mouse_double_click_ms: 500 },
        }
    }

    /// The active panel.
    pub fn active_panel(&self) -> (r: &Panel)
        ensures
            *r == self.active_spec(),
    {
        match self.active {
            Side::Left => &self.left,
            Side::Right => &self.right,
        }
    }

    /// The active panel, for changing it.
    pub fn active_panel_mut(&mut self) -> (r: &mut Panel)
        ensures
            *r == old(self).active_spec(),
            *final(self) == old(self).with_panel(old(self).active, *final(r)),
    {
        match self.active {
            Side::Left => &mut self.left,
            Side::Right => &mut self.right,
        }
    }

    /// The panel of `side`, for changing it.
    pub fn panel_mut(&mut self, side: Side) -> (r: &mut Panel)
        ensures
            *r == old(self).panel_spec(side),
            *final(self) == old(self).with_panel(side, *final(r)),
    {
        match side {
            Side::Left => &mut self.left,
            Side::Right => &mut self.right,
        }
    }

    /// The selected index of the active panel.
    pub fn selected_index(&self) -> (r: usize)
        ensures
            r == self.active_spec().selected,
    {
        self.active_panel().selected
    }

    /// Keep the active panel's selection within its viewport.
    pub fn ensure_selection_visible(&mut self, list_height: usize)
        ensures
            *final(self) == old(self).with_panel(
                old(self).active,
                moved(old(self).active_spec(), old(self).active_spec().selected, list_height),
            ),
    {
        let p = self.active_panel_mut();
        p.ensure_selected_visible(list_height);
    }

    /// Move the active selection down one row.
    pub fn next(&mut self, list_height: usize)
        ensures
            *final(self) == old(self).with_panel(
                old(self).active,
                moved(old(self).active_spec(), next_sel(old(self).active_spec()), list_height),
            ),
    {
        let p = self.active_panel_mut();
        if p.entries.len() > 0 {
            p.select_next();
        }
        p.ensure_selected_visible(list_height);
    }

    /// Move the active selection up one row.
    pub fn previous(&mut self, list_height: usize)
        ensures
            *final(self) == old(self).with_panel(
                old(self).active,
                moved(old(self).active_spec(), prev_sel(old(self).active_spec()), list_height),
            ),
    {
        let p = self.active_panel_mut();
        if p.entries.len() > 0 {
            p.select_prev();
        }
        p.ensure_selected_visible(list_height);
    }

    /// Move the active selection down a page, stopping at the last row.
    pub fn page_down(&mut self, list_height: usize)
        ensures
            *final(self) == old(self).with_panel(
                old(self).active,
                moved(old(self).active_spec(), page_down_sel(old(self).active_spec(), list_height), list_height),
            ),
    {
        let p = self.active_panel_mut();
        if p.entries.len() > 0 {
            let last = p.entries.len() - 1;
            let want = if p.selected <= usize::MAX - list_height {
                p.selected + list_height
            } else {
                usize::MAX
            };
            p.selected = if want <= last {
                want
            } else {
                last
            };
        }
        p.ensure_selected_visible(list_height);
    }

    /// Move the active selection up a page, stopping at the first row.
    pub fn page_up(&mut self, list_height: usize)
        ensures
            *final(self) == old(self).with_panel(
                old(self).active,
                moved(old(self).active_spec(), page_up_sel(old(self).active_spec(), list_height), list_height),
            ),
    {
        let p = self.active_panel_mut();
        if p.entries.len() > 0 {
            p.selected = if p.selected >= list_height {
                p.selected - list_height
            } else {
                0
            };
        }
        p.ensure_selected_visible(list_height);
    }

    /// Install a fresh listing `ents` of the panel's directory: ordered by
    /// the sort key (reversed when descending), under the header row and the
    /// `..` row, with the selection clamped to the new listing.
    pub fn refresh_panel(&mut self, side: Side, ents: Vec<Entry>)
        ensures
            ({
                let p = final(self).panel_spec(side);
                let o = old(self).panel_spec(side);
                let start = listing_start(o.cwd@);
                let l = p.entries@.subrange(start, p.entries@.len() as int);
                &&& has_synthetic_rows(p.entries@, o.cwd@)
                &&& l.to_multiset() == ents@.to_multiset()
                &&& (if old(self).sort_desc {
                    sorted_desc_by(old(self).sort, l)
                } else {
                    sorted_by(old(self).sort, l)
                })
                &&& p.selected == clamp_spec(o.selected, p.entries@.len())
                &&& *final(self) == old(self).with_panel(side, Panel { entries: p.entries, selected: p.selected, ..o })
            }),
    {
        let sort = self.sort;
        let desc = self.sort_desc;
        let sorted = sort_entries(ents, sort);
        let ghost s = sorted@;
        let mut listing = if desc {
            reverse_entries(sorted)
        } else {
            sorted
        };
        proof {
            if desc {
                s.lemma_reverse_to_multiset();
                assert forall|i: int, j: int| 0 <= i < j < listing@.len() implies !crate::listing::entry_lt(
                    sort,
                    #[trigger] listing@[i],
                    #[trigger] listing@[j],
                ) by {
                    assert(listing@[i] == s[s.len() - 1 - i]);
                    assert(listing@[j] == s[s.len() - 1 - j]);
                }
            }
        }
        let ghost l = listing@;
        let panel = self.panel_mut(side);
        let mut wrapped: Vec<Entry> = Vec::new();
        wrapped.push(Entry::header(panel.cwd.as_str()));
        match parent(panel.cwd.as_str()) {
            Some(par) => wrapped.push(Entry::parent(par.as_str())),
            None => {},
        }
        let ghost start = wrapped@.len();
        wrapped.append(&mut listing);
        proof {
            assert(wrapped@.subrange(start as int, wrapped@.len() as int) =~= l);
        }
        panel.entries = wrapped;
        panel.clamp_selected();
    }

    /// Install fresh listings of both panels.
    pub fn refresh(&mut self, left: Vec<Entry>, right: Vec<Entry>)
        ensures
            final(self).left.cwd == old(self).left.cwd,
            final(self).right.cwd == old(self).right.cwd,
            has_synthetic_rows(final(self).left.entries@, old(self).left.cwd@),
            has_synthetic_rows(final(self).right.entries@, old(self).right.cwd@),
            final(self).left.entries@.subrange(
                listing_start(old(self).left.cwd@),
                final(self).left.entries@.len() as int,
            ).to_multiset() == left@.to_multiset(),
            final(self).right.entries@.subrange(
                listing_start(old(self).right.cwd@),
                final(self).right.entries@.len() as int,
            ).to_multiset() == right@.to_multiset(),
            final(self).active == old(self).active,
    {
        self.refresh_panel(Side::Left, left);
        self.refresh_panel(Side::Right, right);
    }

    /// Install a fresh listing of the active panel.
    pub fn refresh_active(&mut self, ents: Vec<Entry>)
        ensures
            final(self).active_spec().cwd == old(self).active_spec().cwd,
            has_synthetic_rows(final(self).active_spec().entries@, old(self).active_spec().cwd@),
            final(self).active_spec().entries@.subrange(
                listing_start(old(self).active_spec().cwd@),
                final(self).active_spec().entries@.len() as int,
            ).to_multiset() == ents@.to_multiset(),
            final(self).panel_spec(
                if old(self).active == Side::Left {
                    Side::Right
                } else {
                    Side::Left
                },
            ) == old(self).panel_spec(
                if old(self).active == Side::Left {
                    Side::Right
                } else {
                    Side::Left
                },
            ),
    {
        let side = self.active;
        self.refresh_panel(side, ents);
    }

    /// Enter the selected directory: the active panel's directory becomes
    /// the entry's path. Returns whether it changed (the listing must then be
    /// read again).
    pub fn enter(&mut self) -> (r: bool)
        ensures
            (old(self).selected_spec() matches Some(e) && e.is_dir) ==> r && *final(self)
                == old(self).with_panel(
                old(self).active,
                Panel { cwd: old(self).selected_spec()->0.path, ..old(self).active_spec() },
            ),
            !(old(self).selected_spec() matches Some(e) && e.is_dir) ==> !r && *final(self)
                == *old(self),
    {
        let panel = self.active_panel_mut();
        if panel.selected < panel.entries.len() && panel.entries[panel.selected].is_dir {
            let p = panel.entries[panel.selected].path.clone();
            panel.cwd = p;
            true
        } else {
            false
        }
    }

    /// Go to the parent of the active panel's directory. Returns whether the
    /// directory changed.
    pub fn go_up(&mut self) -> (r: bool)
        ensures
            parent_spec(old(self).active_spec().cwd@) is None ==> !r && *final(self) == *old(self),
            parent_spec(old(self).active_spec().cwd@) matches Some(par) ==> r && final(self).active_spec().cwd@ == par && *final(self) == old(self).with_panel(
                old(self).active,
                Panel { cwd: final(self).active_spec().cwd, ..old(self).active_spec() },
            ),
    {
        let panel = self.active_panel_mut();
        match parent(panel.cwd.as_str()) {
            Some(p) => {
                panel.cwd = p;
                true
            },
            None => false,
        }
    }

    /// Delete the selected entry.
    pub fn delete_selected(&self) -> (r: Option<Operation>)
        ensures
            self.selected_spec() is None ==> r is None,
            self.selected_spec() matches Some(e) ==> (r matches Some(op) && op.kind
                == OperationKind::Delete && op.source == e.path && op.destination@.len() == 0
                && op.recursive == e.is_dir),
    {
        let panel = self.active_panel();
        if panel.selected < panel.entries.len() {
            let e = &panel.entries[panel.selected];
            Some(
                Operation {
                    kind: OperationKind::Delete,
                    source: e.path.clone(),
                    destination: String::new(),
                    recursive: e.is_dir,
                },
            )
        } else {
            None
        }
    }

    /// Copy the selected entry to `dst` (into it when it is a directory, as
    /// `dst_is_dir` tells, or is written with a trailing separator).
    pub fn copy_selected_to(&self, dst: &str, dst_is_dir: bool) -> (r: Option<Operation>)
        ensures
            self.selected_spec() is None ==> r is None,
            self.selected_spec() matches Some(e) ==> (r matches Some(op) && op.kind
                == OperationKind::Copy && op.source == e.path && op.destination@ == (if dst_is_dir
                || ends_with_sep(dst@) {
                join_spec(dst@, e.name@)
            } else {
                dst@
            }) && op.recursive == e.is_dir),
    {
        self.transfer_selected(OperationKind::Copy, dst, dst_is_dir)
    }

    /// Move the selected entry to `dst`, resolved as for a copy.
    pub fn move_selected_to(&self, dst: &str, dst_is_dir: bool) -> (r: Option<Operation>)
        ensures
            self.selected_spec() is None ==> r is None,
            self.selected_spec() matches Some(e) ==> (r matches Some(op) && op.kind
                == OperationKind::Move && op.source == e.path && op.destination@ == (if dst_is_dir
                || ends_with_sep(dst@) {
                join_spec(dst@, e.name@)
            } else {
                dst@
            }) && op.recursive == e.is_dir),
    {
        self.transfer_selected(OperationKind::Move, dst, dst_is_dir)
    }

    fn transfer_selected(&self, kind: OperationKind, dst: &str, dst_is_dir: bool) -> (r: Option<Operation>)
        ensures
            self.selected_spec() is None ==> r is None,
            self.selected_spec() matches Some(e) ==> (r matches Some(op) && op.kind == kind
                && op.source == e.path && op.destination@ == (if dst_is_dir || ends_with_sep(
                dst@,
            ) {
                join_spec(dst@, e.name@)
            } else {
                dst@
            }) && op.recursive == e.is_dir),
    {
        let panel = self.active_panel();
        if panel.selected < panel.entries.len() {
            let e = &panel.entries[panel.selected];
            let target = crate::paths::resolve_target(dst, dst_is_dir, e.name.as_str());
            Some(Operation { kind, source: e.path.clone(), destination: target, recursive: e.is_dir })
        } else {
            None
        }
    }

    /// Rename the selected entry to `name` within the panel's directory.
    pub fn rename_selected_to(&self, name: &str) -> (r: Option<Operation>)
        ensures
            self.selected_spec() is None ==> r is None,
            self.selected_spec() matches Some(e) ==> (r matches Some(op) && op.kind
                == OperationKind::Rename && op.source == e.path && op.destination@ == join_spec(
                self.active_spec().cwd@,
                name@,
            ) && op.recursive == e.is_dir),
    {
        let panel = self.active_panel();
        if panel.selected < panel.entries.len() {
            let e = &panel.entries[panel.selected];
            Some(
                Operation {
                    kind: OperationKind::Rename,
                    source: e.path.clone(),
                    destination: join_path(panel.cwd.as_str(), name),
                    recursive: e.is_dir,
                },
            )
        } else {
            None
        }
    }

    /// Create an empty file `name` in the active panel's directory.
    pub fn new_file(&self, name: &str) -> (r: Operation)
        ensures
            r.kind == OperationKind::CreateFile,
            r.source@.len() == 0,
            r.destination@ == join_spec(self.active_spec().cwd@, name@),
            !r.recursive,
    {
        let panel = self.active_panel();
        Operation {
            kind: OperationKind::CreateFile,
            source: String::new(),
            destination: join_path(panel.cwd.as_str(), name),
            recursive: false,
        }
    }

    /// Create a directory `name` (and its missing parents) in the active
    /// panel's directory.
    pub fn new_dir(&self, name: &str) -> (r: Operation)
        ensures
            r.kind == OperationKind::CreateDir,
            r.source@.len() == 0,
            r.destination@ == join_spec(self.active_spec().cwd@, name@),
            r.recursive,
    {
        let panel = self.active_panel();
        Operation {
            kind: OperationKind::CreateDir,
            source: String::new(),
            destination: join_path(panel.cwd.as_str(), name),
            recursive: true,
        }
    }

    /// Show the preview of the selected entry of `side`, given what reading
    /// it gave: the text itself, or for a failure a message naming the
    /// entry's path. With nothing selected the preview is emptied. The
    /// preview scrolls back to the top either way.
    pub fn update_preview_for(&mut self, side: Side, outcome: Result<String, PreviewError>)
        ensures
            ({
                let o = old(self).panel_spec(side);
                let p = final(self).panel_spec(side);
                &&& *final(self) == old(self).with_panel(
                    side,
                    Panel { preview: p.preview, preview_offset: 0, ..o },
                )
                &&& o.selected >= o.entries@.len() ==> p.preview@.len() == 0
                &&& o.selected < o.entries@.len() ==> match outcome {
                    Ok(text) => p.preview == text,
                    Err(PreviewError::Binary) => p.preview@ == "Binary file: "@ + o.entries@[o.selected as int].path@
                        + " (preview not available)"@,
                    Err(PreviewError::Unreadable) => p.preview@ == "Cannot preview file: "@
                        + o.entries@[o.selected as int].path@ + " (unreadable)"@,
                }
            }),
    {
        let panel = self.panel_mut(side);
        let text = if panel.selected < panel.entries.len() {
            match outcome {
                Ok(t) => t,
                Err(e) => preview_failure_message(panel.entries[panel.selected].path.as_str(), e),
            }
        } else {
            String::new()
        };
        panel.set_preview(text);
    }
}

} // verus!
