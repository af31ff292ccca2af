//! Keys as the interaction loop sees them, and the default key table.
use vstd::prelude::*;

verus! {

/// A key press, independent of any terminal library.
#[derive(Clone, Copy, Debug, PartialEq, Eq, Structural)]
pub enum KeyCode {
    Char(char),
    Enter,
    Esc,
    Backspace,
    Tab,
    Left,
    Right,
    Up,
    Down,
    PageUp,
    PageDown,
    Home,
    End,
    Delete,
    F(u8),
    Other,
}

/// The named actions that keys are bound to.
#[derive(Clone, Copy, Debug, PartialEq, Eq, Structural)]
pub enum Binding {
    Quit,
    Down,
    Up,
    PageDown,
    PageUp,
    Enter,
    Backspace,
    Refresh,
    Delete,
    Copy,
    Move,
    NewFile,
    NewDir,
    Rename,
    Sort,
    ToggleSortDirection,
    ToggleSelection,
    Tab,
    F5,
    F6,
    Left,
    Right,
    Esc,
}

/// The default key table: which keys trigger each action.
pub open spec fn bound_spec(action: Binding, code: KeyCode) -> bool {
    match action {
        Binding::Quit => code == KeyCode::Char('q'),
        Binding::Down => code == KeyCode::Down || code == KeyCode::Char('j'),
        Binding::Up => code == KeyCode::Up || code == KeyCode::Char('k'),
        Binding::PageDown => code == KeyCode::PageDown,
        Binding::PageUp => code == KeyCode::PageUp,
        Binding::Enter => code == KeyCode::Enter,
        Binding::Backspace => code == KeyCode::Backspace,
        Binding::Refresh => code == KeyCode::Char('r'),
        Binding::Delete => code == KeyCode::Delete || code == KeyCode::Char('d'),
        Binding::Copy => code == KeyCode::Char('c') || code == KeyCode::F(5),
        Binding::Move => code == KeyCode::Char('m') || code == KeyCode::F(6),
        Binding::NewFile => code == KeyCode::Char('n'),
        Binding::NewDir => code == KeyCode::Char('N'),
        Binding::Rename => code == KeyCode::Char('R'),
        Binding::Sort => code == KeyCode::Char('s'),
        Binding::ToggleSortDirection => code == KeyCode::Char('S'),
        Binding::ToggleSelection => code == KeyCode::Char(' '),
        Binding::Tab => code == KeyCode::Tab,
        Binding::F5 => code == KeyCode::F(5),
        Binding::F6 => code == KeyCode::F(6),
        Binding::Left => code == KeyCode::Left || code == KeyCode::Char('h'),
        Binding::Right => code == KeyCode::Right || code == KeyCode::Char('l'),
        Binding::Esc => code == KeyCode::Esc,
    }
}

/// Whether `code` triggers `action` under the key table.
pub fn is_bound(action: Binding, code: &KeyCode) -> (r: bool)
    ensures
        r == bound_spec(action, *code),
{
    let c = *code;
    match action {
        Binding::Quit => c == KeyCode::Char('q'),
        Binding::Down => c == KeyCode::Down || c == KeyCode::Char('j'),
        Binding::Up => c == KeyCode::Up || c == KeyCode::Char('k'),
        Binding::PageDown => c == KeyCode::PageDown,
        Binding::PageUp => c == KeyCode::PageUp,
        Binding::Enter => c == KeyCode::Enter,
        Binding::Backspace => c == KeyCode::Backspace,
        Binding::Refresh => c == KeyCode::Char('r'),
        Binding::Delete => c == KeyCode::Delete || c == KeyCode::Char('d'),
        Binding::Copy => c == KeyCode::Char('c') || c == KeyCode::F(5),
        Binding::Move => c == KeyCode::Char('m') || c == KeyCode::F(6),
        Binding::NewFile => c == KeyCode::Char('n'),
        Binding::NewDir => c == KeyCode::Char('N'),
        Binding::Rename => c == KeyCode::Char('R'),
        Binding::Sort => c == KeyCode::Char('s'),
        Binding::ToggleSortDirection => c == KeyCode::Char('S'),
        Binding::ToggleSelection => c == KeyCode::Char(' '),
        Binding::Tab => c == KeyCode::Tab,
        Binding::F5 => c == KeyCode::F(5),
        Binding::F6 => c == KeyCode::F(6),
        Binding::Left => c == KeyCode::Left || c == KeyCode::Char('h'),
        Binding::Right => c == KeyCode::Right || c == KeyCode::Char('l'),
        Binding::Esc => c == KeyCode::Esc,
    }
}

/// Whether `code` triggers the quit action.
pub fn is_quit(code: &KeyCode) -> (r: bool)
    ensures
        r == bound_spec(Binding::Quit, *code),
{
    is_bound(Binding::Quit, code)
}

/// Whether `code` triggers the down action.
pub fn is_down(code: &KeyCode) -> (r: bool)
    ensures
        r == bound_spec(Binding::Down, *code),
{
    is_bound(Binding::Down, code)
}

/// Whether `code` triggers the up action.
pub fn is_up(code: &KeyCode) -> (r: bool)
    ensures
        r == bound_spec(Binding::Up, *code),
{
    is_bound(Binding::Up, code)
}

/// Whether `code` triggers the page down action.
pub fn is_page_down(code: &KeyCode) -> (r: bool)
    ensures
        r == bound_spec(Binding::PageDown, *code),
{
    is_bound(Binding::PageDown, code)
}

/// Whether `code` triggers the page up action.
pub fn is_page_up(code: &KeyCode) -> (r: bool)
    ensures
        r == bound_spec(Binding::PageUp, *code),
{
    is_bound(Binding::PageUp, code)
}

/// Whether `code` triggers the enter action.
pub fn is_enter(code: &KeyCode) -> (r: bool)
    ensures
        r == bound_spec(Binding::Enter, *code),
{
    is_bound(Binding::Enter, code)
}

/// Whether `code` triggers the backspace action.
pub fn is_backspace(code: &KeyCode) -> (r: bool)
    ensures
        r == bound_spec(Binding::Backspace, *code),
{
    is_bound(Binding::Backspace, code)
}

/// Whether `code` triggers the refresh action.
pub fn is_refresh(code: &KeyCode) -> (r: bool)
    ensures
        r == bound_spec(Binding::Refresh, *code),
{
    is_bound(Binding::Refresh, code)
}

/// Whether `code` triggers the delete action.
pub fn is_delete(code: &KeyCode) -> (r: bool)
    ensures
        r == bound_spec(Binding::Delete, *code),
{
    is_bound(Binding::Delete, code)
}

/// Whether `code` triggers the copy action.
pub fn is_copy(code: &KeyCode) -> (r: bool)
    ensures
        r == bound_spec(Binding::Copy, *code),
{
    is_bound(Binding::Copy, code)
}

/// Whether `code` triggers the move action.
pub fn is_move(code: &KeyCode) -> (r: bool)
    ensures
        r == bound_spec(Binding::Move, *code),
{
    is_bound(Binding::Move, code)
}

/// Whether `code` triggers the new file action.
pub fn is_new_file(code: &KeyCode) -> (r: bool)
    ensures
        r == bound_spec(Binding::NewFile, *code),
{
    is_bound(Binding::NewFile, code)
}

/// Whether `code` triggers the new dir action.
pub fn is_new_dir(code: &KeyCode) -> (r: bool)
    ensures
        r == bound_spec(Binding::NewDir, *code),
{
    is_bound(Binding::NewDir, code)
}

/// Whether `code` triggers the rename action.
pub fn is_rename(code: &KeyCode) -> (r: bool)
    ensures
        r == bound_spec(Binding::Rename, *code),
{
    is_bound(Binding::Rename, code)
}

/// Whether `code` triggers the sort action.
pub fn is_sort(code: &KeyCode) -> (r: bool)
    ensures
        r == bound_spec(Binding::Sort, *code),
{
    is_bound(Binding::Sort, code)
}

/// Whether `code` triggers the toggle sort direction action.
pub fn is_toggle_sort_direction(code: &KeyCode) -> (r: bool)
    ensures
        r == bound_spec(Binding::ToggleSortDirection, *code),
{
    is_bound(Binding::ToggleSortDirection, code)
}

/// Whether `code` triggers the toggle selection action.
pub fn is_toggle_selection(code: &KeyCode) -> (r: bool)
    ensures
        r == bound_spec(Binding::ToggleSelection, *code),
{
    is_bound(Binding::ToggleSelection, code)
}

/// Whether `code` triggers the tab action.
pub fn is_tab(code: &KeyCode) -> (r: bool)
    ensures
        r == bound_spec(Binding::Tab, *code),
{
    is_bound(Binding::Tab, code)
}

/// Whether `code` triggers the f5 action.
pub fn is_f5(code: &KeyCode) -> (r: bool)
    ensures
        r == bound_spec(Binding::F5, *code),
{
    is_bound(Binding::F5, code)
}

/// Whether `code` triggers the f6 action.
pub fn is_f6(code: &KeyCode) -> (r: bool)
    ensures
        r == bound_spec(Binding::F6, *code),
{
    is_bound(Binding::F6, code)
}

/// Whether `code` triggers the left action.
pub fn is_left(code: &KeyCode) -> (r: bool)
    ensures
        r == bound_spec(Binding::Left, *code),
{
    is_bound(Binding::Left, code)
}

/// Whether `code` triggers the right action.
pub fn is_right(code: &KeyCode) -> (r: bool)
    ensures
        r == bound_spec(Binding::Right, *code),
{
    is_bound(Binding::Right, code)
}

/// Whether `code` triggers the esc action.
pub fn is_esc(code: &KeyCode) -> (r: bool)
    ensures
        r == bound_spec(Binding::Esc, *code),
{
    is_bound(Binding::Esc, code)
}

/// Whether `code` is the character `want`.
pub fn is_char(code: &KeyCode, want: char) -> (r: bool)
    ensures
        r == (*code == KeyCode::Char(want)),
{
    match code {
        KeyCode::Char(c) => *c == want,
        _ => false,
    }
}

} // verus!
