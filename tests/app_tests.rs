use filezoom::app::{App, Side};
use filezoom::atomic::{FaultInjection, MoveAction, RenameOrCopy};
use filezoom::coordinator::Decision;
use filezoom::handlers::{
    handle_conflict, handle_confirm, handle_context_menu, handle_input, handle_key,
    handle_progress, handle_settings, Effect,
};
use filezoom::keys::{is_char, is_copy, is_down, is_quit, KeyCode};
use filezoom::listing::{reverse_entries, sort_entries, SortKey};
use filezoom::mode::{apply_worker_event, Action, InputKind, Mode, OperationKind, WorkerEvent};
use filezoom::panel::{Entry, EntryKind, Panel};
use filezoom::stats::{format_file_stats, format_file_stats_with};
use filezoom::watch::{affected_sides_from_fs_event, fs_event_from, ChangeKind, FsEvent};

fn dirs(prefix: &str, n: usize) -> Vec<Entry> {
    (0..n)
        .map(|i| Entry::directory(format!("{}{}", prefix, i), format!("/{}{}", prefix, i), None))
        .collect()
}

fn file(name: &str, size: u64) -> Entry {
    Entry::file(name.to_string(), format!("/tmp/{}", name), size, None)
}

#[test]
fn app_navigation_next_prev_and_paging() {
    let mut app = App::new("/".to_string());
    app.left.entries = dirs("f", 10);

    assert_eq!(app.left.selected, 0);
    app.next(3);
    assert_eq!(app.left.selected, 1);
    app.page_down(3);
    assert_eq!(app.left.selected, 4);
    app.page_up(2);
    assert_eq!(app.left.selected, 2);
    app.previous(3);
    assert_eq!(app.left.selected, 1);

    app.active = Side::Right;
    app.right.entries = dirs("r", 3);
    assert_eq!(app.right.selected, 0);
    app.next(3);
    assert_eq!(app.right.selected, 1);
}

#[test]
fn app_navigation_ensure_selection_visible() {
    let mut app = App::new("/".to_string());
    app.left.entries = dirs("f", 10);

    let h = 3;
    app.left.offset = 0;
    app.left.selected = 0;
    app.ensure_selection_visible(h);
    assert_eq!(app.left.offset, 0);

    app.left.selected = 2;
    app.ensure_selection_visible(h);
    assert_eq!(app.left.offset, 0);

    app.left.selected = 3;
    app.ensure_selection_visible(h);
    assert_eq!(app.left.offset, 1);

    app.left.selected = 9;
    app.ensure_selection_visible(h);
    assert!(app.left.offset + h > app.left.selected);
}

#[test]
fn paging_stops_at_the_ends() {
    let mut app = App::new("/".to_string());
    app.left.entries = dirs("f", 5);
    app.page_down(100);
    assert_eq!(app.left.selected, 4);
    app.next(3);
    assert_eq!(app.left.selected, 4);
    app.page_up(100);
    assert_eq!(app.left.selected, 0);
    app.previous(3);
    assert_eq!(app.left.selected, 0);
}

#[test]
fn selected_index_reflects_active_panel_unit() {
    let mut app = App::new("/tmp/t".to_string());
    app.refresh(vec![file("a.txt", 1), file("b.txt", 1), file("c.txt", 1)], vec![
        file("a.txt", 1),
        file("b.txt", 1),
        file("c.txt", 1),
    ]);

    let left_idx = app.left.entries.iter().position(|e| e.name == "a.txt");
    assert!(left_idx.is_some());
    app.left.selected = left_idx.unwrap();
    app.active = Side::Left;
    assert_eq!(app.selected_index(), app.left.selected);

    let right_idx = app.right.entries.iter().position(|e| e.name == "b.txt");
    assert!(right_idx.is_some());
    app.right.selected = right_idx.unwrap();
    app.active = Side::Right;
    assert_eq!(app.selected_index(), app.right.selected);
}

#[test]
fn panel_mut_match() {
    let mut app = App::new("/tmp/t".to_string());
    app.refresh(vec![file("a.txt", 1)], vec![]);
    let left_name_before = app.left.cwd.clone();
    let panel_mut = app.panel_mut(Side::Left);
    panel_mut.cwd = ".".to_string();
    let left_name_after = app.left.cwd.clone();
    assert_eq!(left_name_after, ".".to_string());
    assert_ne!(left_name_before, left_name_after);
}

#[test]
fn refresh_lists_directories_first_then_names_case_folded() {
    let mut app = App::new("/tmp/t".to_string());
    let ents = vec![
        file("b.txt", 3),
        file("B0", 1),
        Entry::directory("zdir".to_string(), "/tmp/t/zdir".to_string(), None),
        file("a.txt", 2),
    ];
    app.refresh_active(ents);
    let names: Vec<&str> = app.left.entries.iter().map(|e| e.name.as_str()).collect();
    assert_eq!(names, vec!["/tmp/t", "..", "zdir", "a.txt", "b.txt", "B0"]);
    assert_eq!(app.left.entries[0].kind, EntryKind::Header);
    assert_eq!(app.left.entries[1].kind, EntryKind::Parent);
    assert_eq!(app.left.entries[1].path, "/tmp");
}

#[test]
fn refresh_by_size_descending_and_root_has_no_parent_row() {
    let mut app = App::new("/".to_string());
    app.sort = SortKey::Size;
    app.sort_desc = true;
    app.left.selected = 99;
    app.refresh_active(vec![file("s", 1), file("l", 30), file("m", 7)]);
    let names: Vec<&str> = app.left.entries.iter().map(|e| e.name.as_str()).collect();
    assert_eq!(names, vec!["/", "l", "m", "s"]);
    assert_eq!(app.left.selected, 3);
}

#[test]
fn sort_and_reverse_helpers() {
    let sorted = sort_entries(vec![file("B", 0), file("a", 0)], SortKey::Name);
    let names: Vec<&str> = sorted.iter().map(|e| e.name.as_str()).collect();
    assert_eq!(names, vec!["a", "B"]);
    let rev = reverse_entries(sorted);
    assert_eq!(rev[0].name, "B");
}

#[test]
fn enter_and_go_up_change_directory() {
    let mut app = App::new("/tmp".to_string());
    app.refresh_active(vec![Entry::directory("sub".to_string(), "/tmp/sub".to_string(), None)]);
    app.left.selected = 2;
    assert!(app.enter());
    assert_eq!(app.left.cwd, "/tmp/sub");
    assert!(app.go_up());
    assert_eq!(app.left.cwd, "/tmp");
    app.left.cwd = "/".to_string();
    assert!(!app.go_up());
}

#[test]
fn operations_on_the_selection() {
    let mut app = App::new("/tmp/t".to_string());
    app.refresh_active(vec![file("mv_force.txt", 7)]);
    app.left.selected = 2;
    let op = app.copy_selected_to("/tmp/dest_force", true).unwrap();
    assert_eq!(op.kind, OperationKind::Copy);
    assert_eq!(op.source, "/tmp/mv_force.txt");
    assert_eq!(op.destination, "/tmp/dest_force/mv_force.txt");
    let op = app.move_selected_to("/tmp/other.txt", false).unwrap();
    assert_eq!(op.kind, OperationKind::Move);
    assert_eq!(op.destination, "/tmp/other.txt");
    let op = app.rename_selected_to("rnm_forced_renamed.txt").unwrap();
    assert_eq!(op.destination, "/tmp/t/rnm_forced_renamed.txt");
    let op = app.delete_selected().unwrap();
    assert_eq!(op.kind, OperationKind::Delete);
    assert!(!op.recursive);
    let op = app.new_file("created.txt");
    assert_eq!(op.destination, "/tmp/t/created.txt");
    assert_eq!(app.new_dir("d").kind, OperationKind::CreateDir);
    app.left.selected = 50;
    assert!(app.copy_selected_to("/x", true).is_none());
}

#[test]
fn panel_selection_helpers() {
    let mut p = Panel::new("/".to_string());
    p.clamp_selected();
    assert_eq!(p.selected, 0);
    assert!(p.selected_entry().is_none());
    p.entries = dirs("e", 2);
    p.select_next();
    p.select_next();
    assert_eq!(p.selected, 1);
    assert_eq!(p.selected_entry().unwrap().name, "e1");
    p.select_prev();
    p.select_prev();
    assert_eq!(p.selected, 0);
    p.selected = 9;
    p.clamp_selected();
    assert_eq!(p.selected, 1);
    p.preview_offset = 4;
    p.set_preview("text".to_string());
    assert_eq!(p.preview, "text");
    assert_eq!(p.preview_offset, 0);
    p.ensure_selected_visible(0);
    assert_eq!(p.offset, 0);
}

fn conflict_app(selected: usize, apply_all: bool) -> App {
    let mut app = App::new("/".to_string());
    app.mode = Mode::Conflict { path: "/d/x".to_string(), selected, apply_all };
    app
}

#[test]
fn conflict_keys_send_one_decision() {
    let mut app = conflict_app(0, false);
    assert_eq!(handle_conflict(&mut app, KeyCode::Right), Effect::Nothing);
    assert!(matches!(app.mode, Mode::Conflict { selected: 1, apply_all: false, .. }));
    assert_eq!(handle_conflict(&mut app, KeyCode::Char(' ')), Effect::Nothing);
    assert!(matches!(app.mode, Mode::Conflict { selected: 1, apply_all: true, .. }));
    assert_eq!(handle_conflict(&mut app, KeyCode::Enter), Effect::SendDecision(Decision::SkipAll));
    assert!(matches!(&app.mode, Mode::Progress { message, cancelled: false, .. } if message == "Applying decision"));

    let mut app = conflict_app(0, true);
    assert_eq!(handle_conflict(&mut app, KeyCode::Char('o')), Effect::SendDecision(Decision::OverwriteAll));
    let mut app = conflict_app(2, false);
    assert_eq!(handle_conflict(&mut app, KeyCode::Enter), Effect::SendDecision(Decision::Cancel));
    let mut app = conflict_app(1, false);
    assert_eq!(handle_conflict(&mut app, KeyCode::Esc), Effect::SendDecision(Decision::Cancel));
    assert!(matches!(&app.mode, Mode::Progress { message, cancelled: true, .. } if message == "Cancelling"));
}

#[test]
fn progress_cancel_and_worker_events() {
    let mut app = App::new("/".to_string());
    app.mode = Mode::Progress {
        title: "Copy".to_string(),
        processed: 1,
        total: 4,
        message: "copying".to_string(),
        cancelled: false,
    };
    assert_eq!(handle_progress(&mut app, KeyCode::Esc), Effect::RaiseCancel);
    assert!(matches!(&app.mode, Mode::Progress { processed: 1, total: 4, cancelled: true, message, .. } if message == "Cancelling"));
    let m = apply_worker_event(app.mode.clone(), WorkerEvent::Progress { processed: 9, total: 4, message: "m".to_string() });
    assert!(matches!(m, Mode::Progress { processed: 4, total: 4, cancelled: true, .. }));
    let m = apply_worker_event(m, WorkerEvent::Conflict { path: "/p".to_string() });
    assert!(matches!(&m, Mode::Conflict { path, selected: 0, apply_all: false } if path == "/p"));
    let m = apply_worker_event(m, WorkerEvent::Failed { message: "disk full".to_string() });
    assert!(matches!(&m, Mode::Message { title, content, .. } if title == "Error" && content == "disk full"));
    let m = apply_worker_event(Mode::Progress {
        title: "t".to_string(), processed: 0, total: 0, message: String::new(), cancelled: false,
    }, WorkerEvent::Completed);
    assert!(matches!(m, Mode::Normal));
    let m = apply_worker_event(Mode::Normal, WorkerEvent::Completed);
    assert!(matches!(m, Mode::Normal));
}

#[test]
fn confirm_input_and_settings_dialogs() {
    let mut app = App::new("/".to_string());
    app.mode = Mode::Confirm { msg: "Delete?".to_string(), on_yes: Action::DeleteSelected, selected: 0 };
    assert_eq!(handle_confirm(&mut app, KeyCode::Right), Effect::Nothing);
    assert!(matches!(app.mode, Mode::Confirm { selected: 1, .. }));
    assert_eq!(handle_confirm(&mut app, KeyCode::Char('y')), Effect::Perform(Action::DeleteSelected));
    assert!(matches!(app.mode, Mode::Normal));

    app.mode = Mode::Input { prompt: "Copy to: ".to_string(), buffer: String::new(), kind: InputKind::Copy };
    handle_input(&mut app, KeyCode::Char('/'));
    handle_input(&mut app, KeyCode::Char('x'));
    handle_input(&mut app, KeyCode::Char('y'));
    handle_input(&mut app, KeyCode::Backspace);
    assert_eq!(handle_input(&mut app, KeyCode::Enter), Effect::Submit(InputKind::Copy, "/x".to_string()));
    assert!(matches!(app.mode, Mode::Normal));

    app.mode = Mode::Settings { selected: 0 };
    handle_settings(&mut app, KeyCode::Enter);
    assert!(!app.settings.mouse_enabled);
    handle_settings(&mut app, KeyCode::Down);
    handle_settings(&mut app, KeyCode::Char('+'));
    assert_eq!(app.settings.mouse_double_click_ms, 550);
    handle_settings(&mut app, KeyCode::Char('-'));
    handle_settings(&mut app, KeyCode::Char('-'));
    assert_eq!(app.settings.mouse_double_click_ms, 450);
    handle_settings(&mut app, KeyCode::Down);
    assert!(matches!(handle_settings(&mut app, KeyCode::Enter), Effect::SaveSettings(_)));
    handle_settings(&mut app, KeyCode::Esc);
    assert!(matches!(app.mode, Mode::Normal));
}

#[test]
fn normal_mode_keys() {
    let mut app = App::new("/tmp".to_string());
    app.refresh_active(dirs("d", 4));
    assert_eq!(handle_key(&mut app, KeyCode::Down, 3), Effect::Nothing);
    assert_eq!(app.left.selected, 1);
    assert_eq!(handle_key(&mut app, KeyCode::Tab, 3), Effect::Nothing);
    assert_eq!(app.active, Side::Right);
    assert_eq!(handle_key(&mut app, KeyCode::Char('s'), 3), Effect::Reload);
    assert_eq!(app.sort, SortKey::Size);
    assert_eq!(handle_key(&mut app, KeyCode::F(5), 3), Effect::Nothing);
    assert!(matches!(&app.mode, Mode::Input { kind: InputKind::Copy, prompt, .. } if prompt == "Copy to: "));
    assert_eq!(handle_key(&mut app, KeyCode::Esc, 3), Effect::Nothing);
    assert_eq!(handle_key(&mut app, KeyCode::Char('q'), 3), Effect::Quit);
    app.mode = Mode::Message {
        title: "Error".to_string(),
        content: "x".to_string(),
        buttons: vec!["OK".to_string(), "Retry".to_string()],
        selected: 0,
        actions: Some(vec![Action::DeleteSelected, Action::NewDir("n".to_string())]),
    };
    handle_key(&mut app, KeyCode::Left, 3);
    assert!(matches!(app.mode, Mode::Message { selected: 1, .. }));
    assert_eq!(handle_key(&mut app, KeyCode::Enter, 3), Effect::Perform(Action::NewDir("n".to_string())));
    assert!(matches!(app.mode, Mode::Normal));
}

#[test]
fn key_table() {
    assert!(is_quit(&KeyCode::Char('q')));
    assert!(is_down(&KeyCode::Char('j')));
    assert!(is_copy(&KeyCode::F(5)));
    assert!(is_char(&KeyCode::Char('x'), 'x'));
    assert!(!is_char(&KeyCode::Enter, 'x'));
}

#[test]
fn affected_sides_create_left() {
    let ev = FsEvent::Create("/tmp/left/file.txt".to_string());
    let sides = affected_sides_from_fs_event(&ev, "/tmp/left", "/tmp/right");
    assert_eq!(sides, vec![Side::Left]);
}

#[test]
fn affected_sides_rename_both() {
    let ev = FsEvent::Rename("/tmp/left/a".to_string(), "/tmp/right/b".to_string());
    let mut sides = affected_sides_from_fs_event(&ev, "/tmp/left", "/tmp/right");
    sides.sort_by_key(|s| match s {
        Side::Left => 0,
        Side::Right => 1,
    });
    assert_eq!(sides, vec![Side::Left, Side::Right]);
}

#[test]
fn map_create() {
    assert_eq!(fs_event_from(ChangeKind::Create, vec!["/tmp/a.txt".to_string()]), FsEvent::Create("/tmp/a.txt".to_string()));
}

#[test]
fn map_modify() {
    assert_eq!(fs_event_from(ChangeKind::Modify, vec!["/tmp/b.txt".to_string()]), FsEvent::Modify("/tmp/b.txt".to_string()));
}

#[test]
fn map_remove() {
    assert_eq!(fs_event_from(ChangeKind::Remove, vec!["/tmp/c.txt".to_string()]), FsEvent::Remove("/tmp/c.txt".to_string()));
}

#[test]
fn map_rename() {
    assert_eq!(
        fs_event_from(ChangeKind::Modify, vec!["/tmp/from".to_string(), "/tmp/to".to_string()]),
        FsEvent::Rename("/tmp/from".to_string(), "/tmp/to".to_string())
    );
    assert_eq!(fs_event_from(ChangeKind::Create, vec![]), FsEvent::Other);
}

#[test]
fn format_file_stats_contains_expected_fields() {
    let entry = Entry::file("foo.txt".to_string(), "/tmp/foo.txt".to_string(), 42, Some(1_700_000_000));
    let lines = format_file_stats(&entry);
    assert!(lines.iter().any(|l| l.starts_with("Name:")));
    assert!(lines.iter().any(|l| l.starts_with("Path:")));
    assert!(lines.iter().any(|l| l.starts_with("Size:")));
    assert_eq!(lines[..4].to_vec(), vec![
        "Name: foo.txt".to_string(),
        "Path: /tmp/foo.txt".to_string(),
        "Type: file".to_string(),
        "Size: 42 bytes".to_string(),
    ]);
    // 1 700 000 000 s after the epoch is in November 2023 in every time zone.
    assert!(lines[4].starts_with("Modified: 2023-11-"));
    let u = Entry::file("u".to_string(), "/u".to_string(), 0, None);
    assert_eq!(format_file_stats(&u)[4], "Modified: (unknown)");
}

#[test]
fn file_stats_with_rendered_time() {
    let d = Entry::directory("d".to_string(), "/d".to_string(), Some(5));
    let lines = format_file_stats_with(&d, Some("then".to_string()));
    assert_eq!(lines, vec![
        "Name: d".to_string(),
        "Path: /d".to_string(),
        "Type: directory".to_string(),
        "Size: 0 bytes".to_string(),
        "Modified: then".to_string(),
    ]);
}

#[test]
fn greets_by_name() {
    assert_eq!(filezoom::greet("Ann"), "Hello, Ann!");
}

#[test]
fn context_menu_keys() {
    let mut app = App::new("/".to_string());
    app.mode = Mode::ContextMenu {
        title: "f".to_string(),
        options: vec!["View".to_string(), "Edit".to_string()],
        selected: 0,
        path: "/f".to_string(),
    };
    assert_eq!(handle_context_menu(&mut app, KeyCode::Down), Effect::Nothing);
    assert_eq!(handle_context_menu(&mut app, KeyCode::Down), Effect::Nothing);
    assert!(matches!(app.mode, Mode::ContextMenu { selected: 1, .. }));
    assert_eq!(handle_key(&mut app, KeyCode::Enter, 3), Effect::Choose("Edit".to_string()));
    assert!(matches!(app.mode, Mode::Normal));
}

#[test]
fn new_file_creates_file_and_refreshes_panel() {
    let app = App::new("/tmp/td".to_string());
    let op = app.new_file("created.txt");
    assert_eq!(op.kind, OperationKind::CreateFile);
    assert_eq!(op.destination, "/tmp/td/created.txt");
}

#[test]
fn delete_selected_removes_file() {
    let mut app = App::new("/tmp/td".to_string());
    app.refresh_active(vec![file("to_delete.txt", 1)]);
    let entry_index = app.active_panel().entries.iter().position(|e| e.name == "to_delete.txt").expect("entry present");
    app.active_panel_mut().selected = entry_index;
    let op = app.delete_selected().expect("delete_selected");
    assert_eq!(op.kind, OperationKind::Delete);
    assert_eq!(op.source, "/tmp/to_delete.txt");
}

#[test]
fn move_falls_back_to_copy_and_remove_when_rename_forced_to_fail() {
    let mut hooks = FaultInjection::new();
    let lock = hooks.acquire_test_lock();
    lock.set_force_rename_fail_in_rename_or_copy(true);

    let mut app = App::new("/tmp/td".to_string());
    app.refresh_active(vec![Entry::file("mv_force.txt".to_string(), "/tmp/td/mv_force.txt".to_string(), 7, None)]);
    let idx = app.left.entries.iter().position(|e| e.name == "mv_force.txt").expect("entry present");
    app.left.selected = idx;
    let op = app.move_selected_to("/tmp/td/dest_force", true).expect("move_selected_to");
    assert_eq!(op.destination, "/tmp/td/dest_force/mv_force.txt");

    let (mut m, a) = RenameOrCopy::start(lock.should_force_rename_fail_in_rename_or_copy(), op.recursive);
    assert_eq!(a, MoveAction::CopyFile);
    assert_eq!(m.on_copied(true), MoveAction::RemoveFile);
    assert_eq!(m.on_removed(true), MoveAction::Succeed);
    lock.set_force_rename_fail_in_rename_or_copy(false);
}

#[test]
fn rename_falls_back_to_copy_when_rename_forced_to_fail() {
    let mut hooks = FaultInjection::new();
    hooks.set_force_rename_fail_in_rename_or_copy(true);

    let mut app = App::new("/tmp/td".to_string());
    app.refresh_active(vec![Entry::file("rnm_force.txt".to_string(), "/tmp/td/rnm_force.txt".to_string(), 1, None)]);
    let idx = app.left.entries.iter().position(|e| e.name == "rnm_force.txt").expect("entry");
    app.left.selected = idx;
    let op = app.rename_selected_to("rnm_forced_renamed.txt").expect("rename");
    assert_eq!(op.source, "/tmp/td/rnm_force.txt");
    assert_eq!(op.destination, "/tmp/td/rnm_forced_renamed.txt");

    let (mut m, a) = RenameOrCopy::start(hooks.should_force_rename_fail_in_rename_or_copy(), false);
    assert_eq!(a, MoveAction::CopyFile);
    assert_eq!(m.on_copied(true), MoveAction::RemoveFile);
    assert_eq!(m.on_removed(true), MoveAction::Succeed);
}
