//! Key handling per foreground mode. Each handler changes the mode and the
//! panels, and returns the one effect its caller must carry out (send a
//! decision, raise the cancellation flag, perform an action, ...).
use vstd::prelude::*;
use crate::panel::Panel;
use crate::app::{App, Settings, Side, moved, next_sel, prev_sel, page_down_sel, page_up_sel};
use crate::listing::SortKey;
use crate::coordinator::Decision;
use crate::keys::{
    bound_spec, Binding, KeyCode, is_backspace, is_char, is_copy, is_delete, is_down, is_enter,
    is_esc, is_left, is_move, is_new_dir, is_new_file, is_page_down, is_page_up, is_quit,
    is_refresh, is_rename, is_right, is_sort, is_tab, is_toggle_selection,
    is_toggle_sort_direction, is_up,
};
use crate::mode::{Action, InputKind, Mode, is_resolving, resolving};
use crate::paths::{parent_spec, push_char};

verus! {

/// What the caller of a handler must do after it returns.
#[derive(Clone, Debug, PartialEq, Eq)]
pub enum Effect {
    Nothing,
    /// Leave the application.
    Quit,
    /// Read the active panel's listing again.
    Reload,
    /// Send this decision to the waiting worker.
    SendDecision(Decision),
    /// Set the operation's cancellation flag.
    RaiseCancel,
    /// Perform the confirmed action; show the error dialog if it fails.
    Perform(Action),
    /// The prompt of this kind was submitted with this text.
    Submit(InputKind, String),
    /// Persist these settings.
    SaveSettings(Settings),
    /// Run the context-menu command with this label on the selected entry.
    Choose(String),
}

/// Relies on `String::pop`: the last character, if any, is removed.
#[verifier::external_body]
fn pop_char(s: &mut String)
    ensures
        old(s)@.len() > 0 ==> final(s)@ == old(s)@.drop_last(),
        old(s)@.len() == 0 ==> final(s)@ == old(s)@,
{
    s.pop();
}

/// Everything but the mode is unchanged.
pub open spec fn same_but_mode(a: App, b: App) -> bool {
    &&& a.left == b.left
    &&& a.right == b.right
    &&& a.active == b.active
    &&& a.sort == b.sort
    &&& a.sort_desc == b.sort_desc
    &&& a.settings == b.settings
}

fn take_mode(app: &mut App) -> (r: Mode)
    ensures
        r == old(app).mode,
        final(app).mode is Normal,
        same_but_mode(*final(app), *old(app)),
{
    let mut m = Mode::Normal;
    std::mem::swap(&mut app.mode, &mut m);
    m
}

/// The decision that the cursor position and the apply-to-all mark stand for.
pub open spec fn decision_for(selected: usize, apply_all: bool) -> Decision {
    if selected == 0 {
        if apply_all {
            Decision::OverwriteAll
        } else {
            Decision::Overwrite
        }
    } else if selected == 1 {
        if apply_all {
            Decision::SkipAll
        } else {
            Decision::Skip
        }
    } else {
        Decision::Cancel
    }
}

/// Result of a key in the decision mode.
pub ghost enum ConflictOutcome {
    /// Stay, with this cursor and mark.
    Stay { selected: usize, apply_all: bool },
    /// Send the decision and show the running mode with this message.
    Send { decision: Decision, message: Seq<char>, cancelled: bool },
}

pub open spec fn conflict_outcome(selected: usize, apply_all: bool, code: KeyCode) -> ConflictOutcome {
    let applying = "Applying decision"@;
    let cancelling = "Cancelling"@;
    if bound_spec(Binding::Left, code) {
        ConflictOutcome::Stay {
            selected: if selected > 0 {
                (selected - 1) as usize
            } else {
                selected
            },
            apply_all,
        }
    } else if bound_spec(Binding::Right, code) {
        ConflictOutcome::Stay {
            selected: if selected < 2 {
                (selected + 1) as usize
            } else {
                selected
            },
            apply_all,
        }
    } else if bound_spec(Binding::ToggleSelection, code) {
        ConflictOutcome::Stay { selected, apply_all: !apply_all }
    } else if bound_spec(Binding::Enter, code) {
        ConflictOutcome::Send {
            decision: decision_for(selected, apply_all),
            message: applying,
            cancelled: false,
        }
    } else if bound_spec(Binding::Esc, code) {
        ConflictOutcome::Send { decision: Decision::Cancel, message: cancelling, cancelled: true }
    } else if code == KeyCode::Char('o') || code == KeyCode::Char('O') {
        ConflictOutcome::Send {
            decision: decision_for(0, apply_all),
            message: applying,
            cancelled: false,
        }
    } else if code == KeyCode::Char('s') || code == KeyCode::Char('S') {
        ConflictOutcome::Send {
            decision: decision_for(1, apply_all),
            message: applying,
            cancelled: false,
        }
    } else if code == KeyCode::Char('a') || code == KeyCode::Char('A') {
        ConflictOutcome::Stay { selected, apply_all: !apply_all }
    } else if code == KeyCode::Char('c') || code == KeyCode::Char('C') {
        ConflictOutcome::Send { decision: Decision::Cancel, message: cancelling, cancelled: true }
    } else {
        ConflictOutcome::Stay { selected, apply_all }
    }
}

fn send(d: Decision, message: &str, cancelled: bool) -> (r: (Mode, Effect))
    ensures
        is_resolving(r.0, message@, cancelled),
        r.1 == Effect::SendDecision(d),
{
    (resolving(message, cancelled), Effect::SendDecision(d))
}

fn pick(selected: usize, apply_all: bool) -> (r: Decision)
    ensures
        r == decision_for(selected, apply_all),
{
    if selected == 0 {
        if apply_all {
            Decision::OverwriteAll
        } else {
            Decision::Overwrite
        }
    } else if selected == 1 {
        if apply_all {
            Decision::SkipAll
        } else {
            Decision::Skip
        }
    } else {
        Decision::Cancel
    }
}

/// What `handle_conflict` does with the key `code`, from `o` to `f`, returning `r`.
pub open spec fn conflict_post(o: App, f: App, code: KeyCode, r: Effect) -> bool {
    &&& same_but_mode(f, o)
    &&& !(o.mode is Conflict) ==> f.mode == o.mode && r == Effect::Nothing
    &&& o.mode matches Mode::Conflict { path, selected, apply_all } ==> match conflict_outcome(
                selected,
                apply_all,
                code,
            ) {
                ConflictOutcome::Stay { selected: s, apply_all: a } => r == Effect::Nothing && (f.mode matches Mode::Conflict { path: p, selected: s2, apply_all: a2 } && p == path
                    && s2 == s && a2 == a),
                ConflictOutcome::Send { decision, message, cancelled } => r == Effect::SendDecision(
                    decision,
                ) && is_resolving(f.mode, message, cancelled),
            }
}

/// Keys in the decision mode: the cursor moves between Overwrite, Skip and
/// Cancel, the apply-to-all mark toggles, and confirming sends exactly one
/// decision and returns to the running mode. In any other mode nothing
/// happens.
pub fn handle_conflict(app: &mut App, code: KeyCode) -> (r: Effect)
    ensures
        conflict_post(*old(app), *final(app), code, r),
{
    let m = take_mode(app);
    match m {
        Mode::Conflict { path, selected, apply_all } => {
            let (mode, eff) = if is_left(&code) {
                (
                    Mode::Conflict {
                        path,
                        selected: if selected > 0 {
                            selected - 1
                        } else {
                            selected
                        },
                        apply_all,
                    },
                    Effect::Nothing,
                )
            } else if is_right(&code) {
                (
                    Mode::Conflict {
                        path,
                        selected: if selected < 2 {
                            selected + 1
                        } else {
                            selected
                        },
                        apply_all,
                    },
                    Effect::Nothing,
                )
            } else if is_toggle_selection(&code) {
                (Mode::Conflict { path, selected, apply_all: !apply_all }, Effect::Nothing)
            } else if is_enter(&code) {
                send(pick(selected, apply_all), "Applying decision", false)
            } else if is_esc(&code) {
                send(Decision::Cancel, "Cancelling", true)
            } else if is_char(&code, 'o') || is_char(&code, 'O') {
                send(pick(0, apply_all), "Applying decision", false)
            } else if is_char(&code, 's') || is_char(&code, 'S') {
                send(pick(1, apply_all), "Applying decision", false)
            } else if is_char(&code, 'a') || is_char(&code, 'A') {
                (Mode::Conflict { path, selected, apply_all: !apply_all }, Effect::Nothing)
            } else if is_char(&code, 'c') || is_char(&code, 'C') {
                send(Decision::Cancel, "Cancelling", true)
            } else {
                (Mode::Conflict { path, selected, apply_all }, Effect::Nothing)
            };
            app.mode = mode;
            eff
        },
        other => {
            app.mode = other;
            Effect::Nothing
        },
    }
}

/// What `handle_progress` does with the key `code`, from `o` to `f`, returning `r`.
pub open spec fn progress_post(o: App, f: App, code: KeyCode, r: Effect) -> bool {
    &&& same_but_mode(f, o)
    &&& o.mode matches Mode::Progress { title, processed, total, .. } ==> ((bound_spec(
                Binding::Esc,
                code,
            ) || code == KeyCode::Char('c') || code == KeyCode::Char('C')) ==> (r == Effect::RaiseCancel
                && (f.mode matches Mode::Progress {
                title: t,
                processed: p,
                total: n,
                message,
                cancelled,
            } && t == title && p == processed && n == total && message@ == "Cancelling"@ && cancelled)))
    &&& !(o.mode is Progress && (bound_spec(Binding::Esc, code) || code
                == KeyCode::Char('c') || code == KeyCode::Char('C'))) ==> (r == Effect::Nothing
                && f.mode == o.mode)
}

/// Keys while an operation runs: Esc or `c` asks for cancellation (the
/// flag is raised once; the worker acknowledges by completing).
pub fn handle_progress(app: &mut App, code: KeyCode) -> (r: Effect)
    ensures
        progress_post(*old(app), *final(app), code, r),
{
    let m = take_mode(app);
    let wants = is_esc(&code) || is_char(&code, 'c') || is_char(&code, 'C');
    match m {
        Mode::Progress { title, processed, total, message, cancelled } => {
            if wants {
                let (mode, _) = crate::mode::request_cancel(
                    Mode::Progress { title, processed, total, message, cancelled },
                );
                app.mode = mode;
                Effect::RaiseCancel
            } else {
                app.mode = Mode::Progress { title, processed, total, message, cancelled };
                Effect::Nothing
            }
        },
        other => {
            app.mode = other;
            Effect::Nothing
        },
    }
}

/// A copy of an action.
pub fn duplicate_action(a: &Action) -> (r: Action)
    ensures
        r == *a,
{
    match a {
        Action::DeleteSelected => Action::DeleteSelected,
        Action::CopyTo(p) => Action::CopyTo(p.clone()),
        Action::MoveTo(p) => Action::MoveTo(p.clone()),
        Action::RenameTo(p) => Action::RenameTo(p.clone()),
        Action::NewFile(p) => Action::NewFile(p.clone()),
        Action::NewDir(p) => Action::NewDir(p.clone()),
    }
}

/// Result of a key in the confirmation mode.
pub ghost enum ConfirmOutcome {
    Stay { selected: usize },
    /// Leave the dialog, performing the guarded action or not.
    Leave { perform: bool },
}

pub open spec fn confirm_outcome(selected: usize, code: KeyCode) -> ConfirmOutcome {
    if bound_spec(Binding::Left, code) {
        ConfirmOutcome::Stay {
            selected: if selected > 0 {
                (selected - 1) as usize
            } else {
                1
            },
        }
    } else if bound_spec(Binding::Right, code) {
        ConfirmOutcome::Stay { selected: ((selected + 1) % 2) as usize }
    } else if bound_spec(Binding::Enter, code) {
        ConfirmOutcome::Leave { perform: selected == 0 }
    } else if code == KeyCode::Char('y') || code == KeyCode::Char('Y') {
        ConfirmOutcome::Leave { perform: true }
    } else if code == KeyCode::Char('n') || bound_spec(Binding::Esc, code) {
        ConfirmOutcome::Leave { perform: false }
    } else {
        ConfirmOutcome::Stay { selected }
    }
}

/// What `handle_confirm` does with the key `code`, from `o` to `f`, returning `r`.
pub open spec fn confirm_post(o: App, f: App, code: KeyCode, r: Effect) -> bool {
    &&& same_but_mode(f, o)
    &&& !(o.mode is Confirm) ==> f.mode == o.mode && r == Effect::Nothing
    &&& o.mode matches Mode::Confirm { msg, on_yes, selected } ==> match confirm_outcome(
                selected,
                code,
            ) {
                ConfirmOutcome::Stay { selected: s } => r == Effect::Nothing && (f.mode matches Mode::Confirm { msg: m, on_yes: a, selected: s2 } && m == msg && a
                    == on_yes && s2 == s),
                ConfirmOutcome::Leave { perform } => f.mode is Normal && (perform ==> r
                    == Effect::Perform(on_yes)) && (!perform ==> r == Effect::Nothing),
            }
}

/// Keys in the confirmation dialog: Yes (cursor 0) and No (cursor 1);
/// confirming Yes, or `y`, leaves the dialog and asks for the guarded
/// action; No, `n` or Esc leave it without.
pub fn handle_confirm(app: &mut App, code: KeyCode) -> (r: Effect)
    ensures
        confirm_post(*old(app), *final(app), code, r),
{
    let m = take_mode(app);
    match m {
        Mode::Confirm { msg, on_yes, selected } => {
            if is_left(&code) {
                app.mode = Mode::Confirm {
                    msg,
                    on_yes,
                    selected: if selected > 0 {
                        selected - 1
                    } else {
                        1
                    },
                };
                Effect::Nothing
            } else if is_right(&code) {
                app.mode = Mode::Confirm { msg, on_yes, selected: (selected % 2 + 1) % 2 };
                proof {
                    assert((selected % 2 + 1) % 2 == (selected + 1) % 2) by (nonlinear_arith);
                }
                Effect::Nothing
            } else if is_enter(&code) {
                if selected == 0 {
                    Effect::Perform(on_yes)
                } else {
                    Effect::Nothing
                }
            } else if is_char(&code, 'y') || is_char(&code, 'Y') {
                Effect::Perform(on_yes)
            } else if is_char(&code, 'n') || is_esc(&code) {
                Effect::Nothing
            } else {
                app.mode = Mode::Confirm { msg, on_yes, selected };
                Effect::Nothing
            }
        },
        other => {
            app.mode = other;
            Effect::Nothing
        },
    }
}

/// What `handle_input` does with the key `code`, from `o` to `f`, returning `r`.
pub open spec fn input_post(o: App, f: App, code: KeyCode, r: Effect) -> bool {
    &&& same_but_mode(f, o)
    &&& !(o.mode is Input) ==> f.mode == o.mode && r == Effect::Nothing
    &&& o.mode matches Mode::Input { prompt, buffer, kind } ==> (if bound_spec(
                Binding::Enter,
                code,
            ) {
                f.mode is Normal && r == Effect::Submit(kind, buffer)
            } else if bound_spec(Binding::Backspace, code) {
                r == Effect::Nothing && (f.mode matches Mode::Input { prompt: p, buffer: b, kind: k }
                    && p == prompt && k == kind && b@ == (if buffer@.len() > 0 {
                    buffer@.drop_last()
                } else {
                    buffer@
                }))
            } else if bound_spec(Binding::Esc, code) {
                f.mode is Normal && r == Effect::Nothing
            } else if code is Char {
                r == Effect::Nothing && (f.mode matches Mode::Input { prompt: p, buffer: b, kind: k }
                    && p == prompt && k == kind && b@ == buffer@.push(code->Char_0))
            } else {
                r == Effect::Nothing && f.mode == o.mode
            })
}

/// Keys in a text prompt: Enter submits the text (the prompt closes),
/// Backspace deletes the last character, Esc closes the prompt, any other
/// character is typed.
pub fn handle_input(app: &mut App, code: KeyCode) -> (r: Effect)
    ensures
        input_post(*old(app), *final(app), code, r),
{
    let m = take_mode(app);
    match m {
        Mode::Input { prompt, buffer, kind } => {
            let mut buffer = buffer;
            if is_enter(&code) {
                Effect::Submit(kind, buffer)
            } else if is_backspace(&code) {
                pop_char(&mut buffer);
                app.mode = Mode::Input { prompt, buffer, kind };
                Effect::Nothing
            } else if is_esc(&code) {
                Effect::Nothing
            } else {
                match code {
                    KeyCode::Char(c) => {
                        push_char(&mut buffer, c);
                    },
                    _ => {},
                }
                app.mode = Mode::Input { prompt, buffer, kind };
                Effect::Nothing
            }
        },
        other => {
            app.mode = other;
            Effect::Nothing
        },
    }
}

/// Smallest double-click interval offered, in milliseconds.
pub const MIN_DOUBLE_CLICK_MS: u64 = 100;

/// Largest double-click interval offered, in milliseconds.
pub const MAX_DOUBLE_CLICK_MS: u64 = 5000;

/// Step of the double-click interval, in milliseconds.
pub const DOUBLE_CLICK_STEP_MS: u64 = 50;

pub open spec fn slower(ms: u64) -> u64 {
    if ms + 50 <= 5000 {
        (ms + 50) as u64
    } else {
        5000
    }
}

pub open spec fn faster(ms: u64) -> u64 {
    if ms > 100 {
        (ms - 50) as u64
    } else {
        ms
    }
}

/// Result of a key in the settings dialog.
pub ghost enum SettingsOutcome {
    Close,
    Stay { selected: usize, settings: Settings },
    Save,
}

/// Rows: 0 mouse on/off, 1 double-click interval, 2 Save, 3 Cancel.
pub open spec fn settings_outcome(selected: usize, s: Settings, code: KeyCode) -> SettingsOutcome {
    if bound_spec(Binding::Esc, code) {
        SettingsOutcome::Close
    } else if bound_spec(Binding::Up, code) {
        SettingsOutcome::Stay {
            selected: if selected > 0 {
                (selected - 1) as usize
            } else {
                3
            },
            settings: s,
        }
    } else if bound_spec(Binding::Down, code) {
        SettingsOutcome::Stay { selected: ((selected + 1) % 4) as usize, settings: s }
    } else if bound_spec(Binding::Left, code) || code == KeyCode::Char('-') {
        SettingsOutcome::Stay {
            selected,
            settings: if selected == 1 {
                Settings { mouse_double_click_ms: faster(s.mouse_double_click_ms), ..s }
            } else {
                s
            },
        }
    } else if bound_spec(Binding::Right, code) || code == KeyCode::Char('+') {
        SettingsOutcome::Stay {
            selected,
            settings: if selected == 1 {
                Settings { mouse_double_click_ms: slower(s.mouse_double_click_ms), ..s }
            } else {
                s
            },
        }
    } else if bound_spec(Binding::Enter, code) || bound_spec(Binding::ToggleSelection, code) {
        if selected == 0 {
            SettingsOutcome::Stay {
                selected,
                settings: Settings { mouse_enabled: !s.mouse_enabled, ..s },
            }
        } else if selected == 2 {
            SettingsOutcome::Save
        } else if selected == 3 {
            SettingsOutcome::Close
        } else {
            SettingsOutcome::Stay { selected, settings: s }
        }
    } else {
        SettingsOutcome::Stay { selected, settings: s }
    }
}

/// What `handle_settings` does with the key `code`, from `o` to `f`, returning `r`.
pub open spec fn settings_post(o: App, f: App, code: KeyCode, r: Effect) -> bool {
    &&& f.left == o.left
    &&& f.right == o.right
    &&& f.active == o.active
    &&& f.sort == o.sort
    &&& f.sort_desc == o.sort_desc
    &&& !(o.mode is Settings) ==> f == o && r == Effect::Nothing
    &&& o.mode matches Mode::Settings { selected } ==> match settings_outcome(
                selected,
                o.settings,
                code,
            ) {
                SettingsOutcome::Close => r == Effect::Nothing && f.mode is Normal && f.settings == o.settings,
                SettingsOutcome::Stay { selected: s, settings } => r == Effect::Nothing && f.mode == Mode::Settings { selected: s } && f.settings == settings,
                SettingsOutcome::Save => r == Effect::SaveSettings(o.settings) && f.mode == o.mode && f.settings == o.settings,
            }
}

/// Keys in the settings dialog. Saving asks the caller to persist the
/// settings (the dialog stays until the caller reports the outcome).
pub fn handle_settings(app: &mut App, code: KeyCode) -> (r: Effect)
    ensures
        settings_post(*old(app), *final(app), code, r),
{
    let selected = match app.mode {
        Mode::Settings { selected } => selected,
        _ => {
            return Effect::Nothing;
        },
    };
    let ms = app.settings.mouse_double_click_ms;
    if is_esc(&code) {
        app.mode = Mode::Normal;
    } else if is_up(&code) {
        app.mode = Mode::Settings {
            selected: if selected > 0 {
                selected - 1
            } else {
                3
            },
        };
    } else if is_down(&code) {
        app.mode = Mode::Settings { selected: (selected % 4 + 1) % 4 };
        proof {
            assert((selected % 4 + 1) % 4 == (selected + 1) % 4) by (nonlinear_arith);
        }
    } else if is_left(&code) || is_char(&code, '-') {
        if selected == 1 && ms > MIN_DOUBLE_CLICK_MS {
            app.settings.mouse_double_click_ms = ms - DOUBLE_CLICK_STEP_MS;
        }
    } else if is_right(&code) || is_char(&code, '+') {
        if selected == 1 {
            app.settings.mouse_double_click_ms = if ms <= MAX_DOUBLE_CLICK_MS - DOUBLE_CLICK_STEP_MS {
                ms + DOUBLE_CLICK_STEP_MS
            } else {
                MAX_DOUBLE_CLICK_MS
            };
        }
    } else if is_enter(&code) || is_toggle_selection(&code) {
        if selected == 0 {
            app.settings.mouse_enabled = !app.settings.mouse_enabled;
        } else if selected == 2 {
            return Effect::SaveSettings(app.settings);
        } else if selected == 3 {
            app.mode = Mode::Normal;
        }
    }
    Effect::Nothing
}

/// What `handle_message` does with the key `code`, from `o` to `f`, returning `r`.
pub open spec fn message_post(o: App, f: App, code: KeyCode, r: Effect) -> bool {
    &&& same_but_mode(f, o)
    &&& !(o.mode is Message) ==> f.mode == o.mode && r == Effect::Nothing
    &&& o.mode matches Mode::Message { title, content, buttons, selected, actions } ==> {
        let n = buttons@.len();
        if bound_spec(Binding::Left, code) || bound_spec(Binding::Right, code) {
            let s = if bound_spec(Binding::Left, code) {
                if selected > 0 {
                    selected - 1
                } else if n > 0 {
                    n - 1
                } else {
                    0
                }
            } else if n == 0 {
                0
            } else {
                (selected + 1) % (n as int)
            };
            r == Effect::Nothing && (f.mode matches Mode::Message {
                title: t,
                content: c,
                buttons: b,
                selected: s2,
                actions: a,
            } && t == title && c == content && b == buttons && a == actions && s2 == s)
        } else if bound_spec(Binding::Enter, code) {
            f.mode is Normal && (if actions matches Some(acts) && selected < acts@.len() {
                r == Effect::Perform(actions->0@[selected as int])
            } else {
                r == Effect::Nothing
            })
        } else if bound_spec(Binding::Esc, code) || code is Char {
            f.mode is Normal && r == Effect::Nothing
        } else {
            f.mode == o.mode && r == Effect::Nothing
        }
    }
}

/// Keys in a message dialog: the cursor cycles through the buttons; Enter
/// closes the dialog and asks for the action mapped to the chosen button, if
/// any; Esc or any character closes it.
pub fn handle_message(app: &mut App, code: KeyCode) -> (r: Effect)
    ensures
        message_post(*old(app), *final(app), code, r),
{
    let m = take_mode(app);
    match m {
        Mode::Message { title, content, buttons, selected, actions } => {
            let n = buttons.len();
            if is_left(&code) {
                let s = if selected > 0 {
                    selected - 1
                } else if n > 0 {
                    n - 1
                } else {
                    0
                };
                app.mode = Mode::Message { title, content, buttons, selected: s, actions };
                Effect::Nothing
            } else if is_right(&code) {
                let s = if n == 0 {
                    0
                } else {
                    (selected % n + 1) % n
                };
                proof {
                    if n > 0 {
                        let (a, b) = (selected as int, n as int);
                        assert((a % b + 1) % b == (a + 1) % b) by (nonlinear_arith)
                            requires b > 0;
                    }
                }
                app.mode = Mode::Message { title, content, buttons, selected: s, actions };
                Effect::Nothing
            } else if is_enter(&code) {
                match actions {
                    Some(acts) => {
                        if selected < acts.len() {
                            Effect::Perform(duplicate_action(&acts[selected]))
                        } else {
                            Effect::Nothing
                        }
                    },
                    None => Effect::Nothing,
                }
            } else if is_esc(&code) {
                Effect::Nothing
            } else {
                match code {
                    KeyCode::Char(_) => Effect::Nothing,
                    _ => {
                        app.mode = Mode::Message { title, content, buttons, selected, actions };
                        Effect::Nothing
                    },
                }
            }
        },
        other => {
            app.mode = other;
            Effect::Nothing
        },
    }
}

/// A text prompt of `kind` asking `prompt`, with nothing typed.
pub open spec fn is_prompt(m: Mode, prompt: Seq<char>, kind: InputKind) -> bool {
    m matches Mode::Input { prompt: p, buffer, kind: k } && p@ == prompt && buffer@.len() == 0
        && k == kind
}

fn prompt(text: &str, kind: InputKind) -> (r: Mode)
    ensures
        is_prompt(r, text@, kind),
{
    Mode::Input { prompt: text.to_owned(), buffer: String::new(), kind }
}

/// The sort key after `k` in the cycle Name, Size, Modified.
pub open spec fn next_sort(k: SortKey) -> SortKey {
    match k {
        SortKey::Name => SortKey::Size,
        SortKey::Size => SortKey::Modified,
        SortKey::Modified => SortKey::Name,
    }
}

/// What `handle_normal` does with the key `code` and page size `h`, from `o`
/// to `f`, returning `r`.
pub open spec fn normal_post(o: App, f: App, code: KeyCode, h: usize, r: Effect) -> bool {
    let p = o.active_spec();
    if !(o.mode is Normal) {
        f == o && r == Effect::Nothing
    } else if bound_spec(Binding::Quit, code) {
        f == o && r == Effect::Quit
    } else if bound_spec(Binding::Down, code) {
        f == o.with_panel(o.active, moved(p, next_sel(p), h)) && r == Effect::Nothing
    } else if bound_spec(Binding::Up, code) {
        f == o.with_panel(o.active, moved(p, prev_sel(p), h)) && r == Effect::Nothing
    } else if bound_spec(Binding::PageDown, code) {
        f == o.with_panel(o.active, moved(p, page_down_sel(p, h), h)) && r == Effect::Nothing
    } else if bound_spec(Binding::PageUp, code) {
        f == o.with_panel(o.active, moved(p, page_up_sel(p, h), h)) && r == Effect::Nothing
    } else if bound_spec(Binding::Tab, code) {
        f == (App { active: if o.active == Side::Left {
            Side::Right
        } else {
            Side::Left
        }, ..o }) && r == Effect::Nothing
    } else if bound_spec(Binding::Enter, code) {
        if o.selected_spec() matches Some(e) && e.is_dir {
            r == Effect::Reload && f == o.with_panel(
                o.active,
                Panel { cwd: o.selected_spec()->0.path, ..p },
            )
        } else {
            r == Effect::Nothing && f == o
        }
    } else if bound_spec(Binding::Backspace, code) {
        if parent_spec(p.cwd@) is Some {
            r == Effect::Reload && f.active_spec().cwd@ == parent_spec(p.cwd@)->0 && f == o.with_panel(
                o.active,
                Panel { cwd: f.active_spec().cwd, ..p },
            )
        } else {
            r == Effect::Nothing && f == o
        }
    } else if bound_spec(Binding::Refresh, code) {
        f == o && r == Effect::Reload
    } else if bound_spec(Binding::Delete, code) {
        same_but_mode(f, o) && r == Effect::Nothing && (f.mode matches Mode::Confirm {
            msg,
            on_yes,
            selected,
        } && msg@ == "Delete the selected entry?"@ && on_yes == Action::DeleteSelected && selected
            == 0)
    } else if bound_spec(Binding::Copy, code) {
        same_but_mode(f, o) && r == Effect::Nothing && is_prompt(f.mode, "Copy to: "@, InputKind::Copy)
    } else if bound_spec(Binding::Move, code) {
        same_but_mode(f, o) && r == Effect::Nothing && is_prompt(f.mode, "Move to: "@, InputKind::Move)
    } else if bound_spec(Binding::NewFile, code) {
        same_but_mode(f, o) && r == Effect::Nothing && is_prompt(
            f.mode,
            "New file: "@,
            InputKind::NewFile,
        )
    } else if bound_spec(Binding::NewDir, code) {
        same_but_mode(f, o) && r == Effect::Nothing && is_prompt(
            f.mode,
            "New directory: "@,
            InputKind::NewDir,
        )
    } else if bound_spec(Binding::Rename, code) {
        same_but_mode(f, o) && r == Effect::Nothing && is_prompt(
            f.mode,
            "Rename to: "@,
            InputKind::Rename,
        )
    } else if bound_spec(Binding::Sort, code) {
        f == (App { sort: next_sort(o.sort), ..o }) && r == Effect::Reload
    } else if bound_spec(Binding::ToggleSortDirection, code) {
        f == (App { sort_desc: !o.sort_desc, ..o }) && r == Effect::Reload
    } else {
        f == o && r == Effect::Nothing
    }
}

/// Keys with no dialog open: navigation, panel switching, entering and
/// leaving directories, sorting, and the prompts that start operations.
pub fn handle_normal(app: &mut App, code: KeyCode, page_size: usize) -> (r: Effect)
    ensures
        normal_post(*old(app), *final(app), code, page_size, r),
{
    match app.mode {
        Mode::Normal => {},
        _ => {
            return Effect::Nothing;
        },
    }
    if is_quit(&code) {
        Effect::Quit
    } else if is_down(&code) {
        app.next(page_size);
        Effect::Nothing
    } else if is_up(&code) {
        app.previous(page_size);
        Effect::Nothing
    } else if is_page_down(&code) {
        app.page_down(page_size);
        Effect::Nothing
    } else if is_page_up(&code) {
        app.page_up(page_size);
        Effect::Nothing
    } else if is_tab(&code) {
        app.active = match app.active {
            Side::Left => Side::Right,
            Side::Right => Side::Left,
        };
        Effect::Nothing
    } else if is_enter(&code) {
        if app.enter() {
            Effect::Reload
        } else {
            Effect::Nothing
        }
    } else if is_backspace(&code) {
        if app.go_up() {
            Effect::Reload
        } else {
            Effect::Nothing
        }
    } else if is_refresh(&code) {
        Effect::Reload
    } else if is_delete(&code) {
        app.mode = Mode::Confirm {
            msg: String::from_str("Delete the selected entry?"),
            on_yes: Action::DeleteSelected,
            selected: 0,
        };
        Effect::Nothing
    } else if is_copy(&code) {
        app.mode = prompt("Copy to: ", InputKind::Copy);
        Effect::Nothing
    } else if is_move(&code) {
        app.mode = prompt("Move to: ", InputKind::Move);
        Effect::Nothing
    } else if is_new_file(&code) {
        app.mode = prompt("New file: ", InputKind::NewFile);
        Effect::Nothing
    } else if is_new_dir(&code) {
        app.mode = prompt("New directory: ", InputKind::NewDir);
        Effect::Nothing
    } else if is_rename(&code) {
        app.mode = prompt("Rename to: ", InputKind::Rename);
        Effect::Nothing
    } else if is_sort(&code) {
        app.sort = match app.sort {
            SortKey::Name => SortKey::Size,
            SortKey::Size => SortKey::Modified,
            SortKey::Modified => SortKey::Name,
        };
        Effect::Reload
    } else if is_toggle_sort_direction(&code) {
        app.sort_desc = !app.sort_desc;
        Effect::Reload
    } else {
        Effect::Nothing
    }
}

/// Top-level key handling: dispatches on the current mode.
pub fn handle_key(app: &mut App, code: KeyCode, page_size: usize) -> (r: Effect)
    ensures
        old(app).mode is Normal ==> normal_post(*old(app), *final(app), code, page_size, r),
        old(app).mode is Progress ==> progress_post(*old(app), *final(app), code, r),
        old(app).mode is Conflict ==> conflict_post(*old(app), *final(app), code, r),
        old(app).mode is Message ==> message_post(*old(app), *final(app), code, r),
        old(app).mode is Confirm ==> confirm_post(*old(app), *final(app), code, r),
        old(app).mode is Input ==> input_post(*old(app), *final(app), code, r),
        old(app).mode is Settings ==> settings_post(*old(app), *final(app), code, r),
        old(app).mode is ContextMenu ==> context_menu_post(*old(app), *final(app), code, r),
{
    match app.mode {
        Mode::Normal => handle_normal(app, code, page_size),
        Mode::Progress { .. } => handle_progress(app, code),
        Mode::Conflict { .. } => handle_conflict(app, code),
        Mode::Message { .. } => handle_message(app, code),
        Mode::Confirm { .. } => handle_confirm(app, code),
        Mode::Input { .. } => handle_input(app, code),
        Mode::Settings { .. } => handle_settings(app, code),
        Mode::ContextMenu { .. } => handle_context_menu(app, code),
    }
}

/// What `handle_context_menu` does with the key `code`, from `o` to `f`,
/// returning `r`.
pub open spec fn context_menu_post(o: App, f: App, code: KeyCode, r: Effect) -> bool {
    &&& same_but_mode(f, o)
    &&& !(o.mode is ContextMenu) ==> f.mode == o.mode && r == Effect::Nothing
    &&& o.mode matches Mode::ContextMenu { title, options, selected, path } ==> {
        if bound_spec(Binding::Left, code) || bound_spec(Binding::Up, code) || bound_spec(
            Binding::Right,
            code,
        ) || bound_spec(Binding::Down, code) {
            let s = if bound_spec(Binding::Left, code) || bound_spec(Binding::Up, code) {
                if selected > 0 {
                    selected - 1
                } else {
                    selected as int
                }
            } else if selected + 1 < options@.len() {
                selected + 1
            } else {
                selected as int
            };
            r == Effect::Nothing && (f.mode matches Mode::ContextMenu {
                title: t,
                options: opts,
                selected: s2,
                path: p,
            } && t == title && opts == options && p == path && s2 == s)
        } else if code == KeyCode::Char('q') || bound_spec(Binding::Esc, code) {
            f.mode is Normal && r == Effect::Nothing
        } else if bound_spec(Binding::Enter, code) {
            f.mode is Normal && (if selected < options@.len() {
                r == Effect::Choose(options@[selected as int])
            } else {
                r == Effect::Nothing
            })
        } else {
            f.mode == o.mode && r == Effect::Nothing
        }
    }
}

/// Keys in a context menu: the cursor moves through the options; Enter
/// closes the menu and asks for the chosen command; `q` or Esc close it.
pub fn handle_context_menu(app: &mut App, code: KeyCode) -> (r: Effect)
    ensures
        context_menu_post(*old(app), *final(app), code, r),
{
    let m = take_mode(app);
    match m {
        Mode::ContextMenu { title, options, selected, path } => {
            if is_left(&code) || is_up(&code) {
                let s = if selected > 0 {
                    selected - 1
                } else {
                    selected
                };
                app.mode = Mode::ContextMenu { title, options, selected: s, path };
                Effect::Nothing
            } else if is_right(&code) || is_down(&code) {
                let s = if selected < options.len() && selected + 1 < options.len() {
                    selected + 1
                } else {
                    selected
                };
                app.mode = Mode::ContextMenu { title, options, selected: s, path };
                Effect::Nothing
            } else if is_char(&code, 'q') || is_esc(&code) {
                Effect::Nothing
            } else if is_enter(&code) {
                if selected < options.len() {
                    Effect::Choose(options[selected].clone())
                } else {
                    Effect::Nothing
                }
            } else {
                app.mode = Mode::ContextMenu { title, options, selected, path };
                Effect::Nothing
            }
        },
        other => {
            app.mode = other;
            Effect::Nothing
        },
    }
}

} // verus!
