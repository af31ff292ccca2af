//! One side of the dual-pane view: the listed entries, the selection, the
//! scroll offset and the preview text.
use vstd::prelude::*;

verus! {

/// What a listed row stands for.
#[derive(Clone, Copy, Debug, PartialEq, Eq, Structural)]
pub enum EntryKind {
    File,
    Directory,
    /// The synthetic first row naming the panel's directory.
    Header,
    /// The synthetic `..` row leading to the parent directory.
    Parent,
}

/// A listed filesystem object.
#[derive(Clone, Debug, PartialEq, Eq)]
pub struct Entry {
    pub name: String,
    pub path: String,
    pub kind: EntryKind,
    /// Whether entering the row changes directory.
    pub is_dir: bool,
    pub size: u64,
    /// Last modification, in seconds since the Unix epoch, when known.
    pub modified: Option<i64>,
}

impl Entry {
    pub fn file(name: String, path: String, size: u64, modified: Option<i64>) -> (r: Entry)
        ensures
            r == (Entry { name, path, kind: EntryKind::File, is_dir: false, size, modified }),
    {
        Entry { name, path, kind: EntryKind::File, is_dir: false, size, modified }
    }

    pub fn directory(name: String, path: String, modified: Option<i64>) -> (r: Entry)
        ensures
            r == (Entry { name, path, kind: EntryKind::Directory, is_dir: true, size: 0, modified }),
    {
        Entry { name, path, kind: EntryKind::Directory, is_dir: true, size: 0, modified }
    }

    /// The header row: its name is the full path; it cannot be entered.
    pub fn header(cwd: &str) -> (r: Entry)
        ensures
            r.name@ == cwd@,
            r.path@ == cwd@,
            r.kind == EntryKind::Header,
            !r.is_dir,
            r.size == 0,
            r.modified is None,
    {
        Entry {
            name: cwd.to_owned(),
            path: cwd.to_owned(),
            kind: EntryKind::Header,
            is_dir: false,
            size: 0,
            modified: None,
        }
    }

    /// The `..` row leading to `parent`.
    pub fn parent(parent: &str) -> (r: Entry)
        ensures
            r.name@ == ".."@,
            r.path@ == parent@,
            r.kind == EntryKind::Parent,
            r.is_dir,
            r.size == 0,
            r.modified is None,
    {
        Entry {
            name: String::from_str(".."),
            path: parent.to_owned(),
            kind: EntryKind::Parent,
            is_dir: true,
            size: 0,
            modified: None,
        }
    }
}

/// The offset that keeps `selected` within a viewport of `height` rows.
pub open spec fn visible_offset(selected: usize, offset: usize, len: usize, height: usize) -> usize {
    let max_offset = if len >= height {
        (len - height) as usize
    } else {
        0usize
    };
    if height == 0 || len == 0 {
        0
    } else if selected < offset {
        selected
    } else if selected - offset >= height {
        let want = (selected + 1 - height) as usize;
        if want <= max_offset {
            want
        } else {
            max_offset
        }
    } else if offset > max_offset {
        max_offset
    } else {
        offset
    }
}

/// State of one panel.
pub struct Panel {
    /// Directory shown by this panel.
    pub cwd: String,
    /// The listing; the first rows may be synthetic.
    pub entries: Vec<Entry>,
    /// Index of the selected row.
    pub selected: usize,
    /// Index of the top-most visible row.
    pub offset: usize,
    /// Preview text of the selected entry.
    pub preview: String,
    /// Scroll offset of the preview text.
    pub preview_offset: usize,
}

impl Panel {
    /// A panel at `cwd` with nothing listed yet.
    pub fn new(cwd: String) -> (r: Panel)
        ensures
            r.cwd == cwd,
            r.entries@.len() == 0,
            r.selected == 0,
            r.offset == 0,
            r.preview@.len() == 0,
            r.preview_offset == 0,
    {
        Panel {
            cwd,
            entries: Vec::new(),
            selected: 0,
            offset: 0,
            preview: String::new(),
            preview_offset: 0,
        }
    }

    /// The selected row, if the selection is within the listing.
    pub fn selected_entry(&self) -> (r: Option<&Entry>)
        ensures
            self.selected < self.entries@.len() ==> r == Some(&self.entries@[self.selected as int]),
            self.selected >= self.entries@.len() ==> r is None,
    {
        if self.selected < self.entries.len() {
            Some(&self.entries[self.selected])
        } else {
            None
        }
    }

    /// Move the selection down one row, stopping at the last.
    pub fn select_next(&mut self)
        ensures
            final(self).selected == (if old(self).selected + 1 < old(self).entries@.len() {
                old(self).selected + 1
            } else {
                old(self).selected as int
            }),
            final(self).entries == old(self).entries,
            final(self).offset == old(self).offset,
            final(self).cwd == old(self).cwd,
            final(self).preview == old(self).preview,
            final(self).preview_offset == old(self).preview_offset,
    {
        if self.selected < self.entries.len() && self.selected + 1 < self.entries.len() {
            self.selected = self.selected + 1;
        }
    }

    /// Move the selection up one row, stopping at the first.
    pub fn select_prev(&mut self)
        ensures
            final(self).selected == (if old(self).selected > 0 {
                old(self).selected - 1
            } else {
                0
            }),
            final(self).entries == old(self).entries,
            final(self).offset == old(self).offset,
            final(self).cwd == old(self).cwd,
            final(self).preview == old(self).preview,
            final(self).preview_offset == old(self).preview_offset,
    {
        if self.selected > 0 {
            self.selected = self.selected - 1;
        }
    }

    /// Bring the selection within the listing (the first row when empty).
    pub fn clamp_selected(&mut self)
        ensures
            final(self).selected == (if old(self).entries@.len() == 0 {
                0
            } else if old(self).selected < old(self).entries@.len() {
                old(self).selected as int
            } else {
                old(self).entries@.len() - 1
            }),
            final(self).entries == old(self).entries,
            final(self).offset == old(self).offset,
            final(self).cwd == old(self).cwd,
            final(self).preview == old(self).preview,
            final(self).preview_offset == old(self).preview_offset,
    {
        let last = if self.entries.len() > 0 {
            self.entries.len() - 1
        } else {
            0
        };
        if self.selected > last {
            self.selected = last;
        }
    }

    /// Scroll so that the selected row is within a viewport of `height` rows.
    pub fn ensure_selected_visible(&mut self, height: usize)
        ensures
            final(self).offset == visible_offset(
                old(self).selected,
                old(self).offset,
                old(self).entries@.len() as usize,
                height,
            ),
            final(self).entries == old(self).entries,
            final(self).selected == old(self).selected,
            final(self).cwd == old(self).cwd,
            final(self).preview == old(self).preview,
            final(self).preview_offset == old(self).preview_offset,
    {
        let len = self.entries.len();
        if height == 0 || len == 0 {
            self.offset = 0;
            return;
        }
        if self.selected < self.offset {
            self.offset = self.selected;
            return;
        }
        let max_offset = if len >= height {
            len - height
        } else {
            0
        };
        if self.selected - self.offset >= height {
            let want = self.selected - height + 1;
            self.offset = if want <= max_offset {
                want
            } else {
                max_offset
            };
        } else if self.offset > max_offset {
            self.offset = max_offset;
        }
    }

    /// Replace the preview text and scroll it back to the top.
    pub fn set_preview(&mut self, text: String)
        ensures
            final(self).preview == text,
            final(self).preview_offset == 0,
            final(self).entries == old(self).entries,
            final(self).selected == old(self).selected,
            final(self).offset == old(self).offset,
            final(self).cwd == old(self).cwd,
    {
        self.preview = text;
        self.preview_offset = 0;
    }
}

} // verus!
