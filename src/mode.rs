//! The foreground's interaction modes and the operations it requests.
use vstd::prelude::*;

verus! {

/// A filesystem action awaiting the user's confirmation.
#[derive(Clone, Debug, PartialEq, Eq)]
pub enum Action {
    DeleteSelected,
    CopyTo(String),
    MoveTo(String),
    RenameTo(String),
    NewFile(String),
    NewDir(String),
}

/// What a text prompt is for.
#[derive(Clone, Copy, Debug, PartialEq, Eq, Structural)]
pub enum InputKind {
    Copy,
    Move,
    Rename,
    NewFile,
    NewDir,
    ChangePath,
}

/// The foreground's mode; exactly one is active.
#[derive(Clone, Debug)]
pub enum Mode {
    /// No operation in flight.
    Normal,
    /// A bulk operation runs; the worker reports progress.
    Progress { title: String, processed: usize, total: usize, message: String, cancelled: bool },
    /// The worker waits for a decision on a colliding destination.
    Conflict { path: String, selected: usize, apply_all: bool },
    /// A dismissible message (errors among them).
    Message {
        title: String,
        content: String,
        buttons: Vec<String>,
        selected: usize,
        actions: Option<Vec<Action>>,
    },
    /// A yes/no question guarding an action.
    Confirm { msg: String, on_yes: Action, selected: usize },
    /// A text prompt.
    Input { prompt: String, buffer: String, kind: InputKind },
    /// The settings dialog.
    Settings { selected: usize },
    /// A menu of commands for the entry at `path`.
    ContextMenu { title: String, options: Vec<String>, selected: usize, path: String },
}

/// Kind of a requested filesystem operation.
#[derive(Clone, Copy, Debug, PartialEq, Eq, Structural)]
pub enum OperationKind {
    Copy,
    Move,
    Rename,
    Delete,
    CreateFile,
    CreateDir,
}

/// A requested filesystem operation, performed once by the driver.
#[derive(Clone, Debug, PartialEq, Eq)]
pub struct Operation {
    pub kind: OperationKind,
    /// The entry acted on (empty for creations).
    pub source: String,
    /// Where the result lands (empty for deletions).
    pub destination: String,
    /// Whether a directory tree is involved.
    pub recursive: bool,
}

/// A message from the background worker to the foreground.
#[derive(Clone, Debug, PartialEq, Eq)]
pub enum WorkerEvent {
    Progress { processed: usize, total: usize, message: String },
    Conflict { path: String },
    Completed,
    Failed { message: String },
}

/// The error dialog showing `content`.
pub open spec fn is_error_dialog(m: Mode, content: Seq<char>) -> bool {
    m matches Mode::Message { title, content: c, buttons, selected, actions } && title@ == "Error"@
        && c@ == content && buttons@.len() == 1 && buttons@[0]@ == "OK"@ && selected == 0
        && actions is None
}

/// The dialog shown for an unrecoverable failure.
pub fn error_dialog(content: String) -> (r: Mode)
    ensures
        is_error_dialog(r, content@),
{
    let buttons: Vec<String> = vec![String::from_str("OK")];
    Mode::Message {
        title: String::from_str("Error"),
        content,
        buttons,
        selected: 0,
        actions: None,
    }
}

/// The running mode shown after a decision was sent.
pub open spec fn is_resolving(m: Mode, message: Seq<char>, cancelled: bool) -> bool {
    m matches Mode::Progress { title, processed, total, message: msg, cancelled: c } && title@
        == "Resolving"@ && processed == 0 && total == 0 && msg@ == message && c == cancelled
}

pub fn resolving(message: &str, cancelled: bool) -> (r: Mode)
    ensures
        is_resolving(r, message@, cancelled),
{
    Mode::Progress {
        title: String::from_str("Resolving"),
        processed: 0,
        total: 0,
        message: message.to_owned(),
        cancelled,
    }
}

/// `a` when it does not exceed `b`, else `b`.
pub open spec fn min_spec(a: usize, b: usize) -> usize {
    if a <= b {
        a
    } else {
        b
    }
}

/// The foreground's reaction to a worker message. While an operation is in
/// flight (running or awaiting a decision): progress updates the counters
/// (clamped so that `processed <= total`) and keeps the cancellation mark; a
/// conflict enters the decision mode; completion returns to `Normal`; a
/// failure opens the error dialog. In any other mode the message is ignored.
pub fn apply_worker_event(mode: Mode, ev: WorkerEvent) -> (r: Mode)
    ensures
        !(mode is Progress || mode is Conflict) ==> r == mode,
        (mode is Progress || mode is Conflict) ==> match ev {
            WorkerEvent::Progress { processed, total, message } => r matches Mode::Progress {
                processed: p,
                total: t,
                message: m,
                cancelled,
                ..
            } && p == min_spec(processed, total) && t == total && m == message && (
            cancelled <==> (mode matches Mode::Progress { cancelled: c, .. } && c)),
            WorkerEvent::Conflict { path } => r matches Mode::Conflict {
                path: p,
                selected,
                apply_all,
            } && p == path && selected == 0 && !apply_all,
            WorkerEvent::Completed => r is Normal,
            WorkerEvent::Failed { message } => is_error_dialog(r, message@),
        },
{
    match mode {
        Mode::Progress { title, cancelled, .. } => match ev {
            WorkerEvent::Progress { processed, total, message } => Mode::Progress {
                title,
                processed: if processed <= total {
                    processed
                } else {
                    total
                },
                total,
                message,
                cancelled,
            },
            WorkerEvent::Conflict { path } => Mode::Conflict { path, selected: 0, apply_all: false },
            WorkerEvent::Completed => Mode::Normal,
            WorkerEvent::Failed { message } => error_dialog(message),
        },
        Mode::Conflict { .. } => match ev {
            WorkerEvent::Progress { processed, total, message } => Mode::Progress {
                title: String::from_str("Resolving"),
                processed: if processed <= total {
                    processed
                } else {
                    total
                },
                total,
                message,
                cancelled: false,
            },
            WorkerEvent::Conflict { path } => Mode::Conflict { path, selected: 0, apply_all: false },
            WorkerEvent::Completed => Mode::Normal,
            WorkerEvent::Failed { message } => error_dialog(message),
        },
        other => other,
    }
}

/// The running mode once the user asked to cancel: the mark is set and the
/// message says so; the counters stay.
pub fn request_cancel(mode: Mode) -> (r: (Mode, bool))
    ensures
        mode matches Mode::Progress { title, processed, total, .. } ==> (r.1 && (r.0 matches Mode::Progress {
            title: t,
            processed: p,
            total: n,
            message,
            cancelled,
        } && t == title && p == processed && n == total && message@ == "Cancelling"@ && cancelled)),
        !(mode is Progress) ==> r.0 == mode && !r.1,
{
    match mode {
        Mode::Progress { title, processed, total, .. } => (
            Mode::Progress {
                title,
                processed,
                total,
                message: String::from_str("Cancelling"),
                cancelled: true,
            },
            true,
        ),
        other => (other, false),
    }
}

} // verus!
