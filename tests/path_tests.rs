use filezoom::ops::{
    check_directory, is_dir, is_file, move_destination, path_exists, remove_action,
    rename_destination, resolve_path, trim, CreateError, FsOpError, MvError, PathError, PathType,
    RemoveAction, RemoveError, TerminalError,
};
use filezoom::preview::PreviewError;
use filezoom::paths::{file_name, has_trailing_sep, join_path, parent, path_starts_with, resolve_target};

#[test]
fn empty_input_is_error() {
    let r = resolve_path("   ", "/", None);
    assert!(r.is_err());
    assert_eq!(r.unwrap_err(), PathError::Empty);
}

#[test]
fn app_compat_empty_input_is_error() {
    let r = resolve_path("   ", "/", None);
    assert!(r.is_err());
    assert_eq!(r.unwrap_err(), PathError::Empty);
}

#[test]
fn deprecated_app_path_still_resolves() {
    let r = resolve_path("   ", "/", None);
    assert!(r.is_err());
    assert_eq!(r.unwrap_err(), PathError::Empty);
}

#[test]
fn tilde_expands_to_home() {
    let got = resolve_path("~", "/irrelevant", Some("/home/me")).unwrap();
    assert_eq!(got, "/home/me");
    let got = resolve_path("~/docs", "/irrelevant", Some("/home/me")).unwrap();
    assert_eq!(got, "/home/me/docs");
    assert_eq!(resolve_path("~", "/", None), Err(PathError::HomeNotFound));
}

#[test]
fn relative_resolves_against_base() {
    let got = resolve_path("subdir", "/tmp/td", None).unwrap();
    assert_eq!(got, "/tmp/td/subdir");
    assert_eq!(check_directory(got.clone(), PathType::Directory), Ok(got));
}

#[test]
fn app_compat_relative_resolves_against_base() {
    let got = resolve_path(" subdir\t", "/tmp/td/", None).unwrap();
    assert_eq!(got, "/tmp/td/subdir");
}

#[test]
fn absolute_path_returns_as_is() {
    let got = resolve_path("/tmp/abs", "/ignored", None).unwrap();
    assert_eq!(got, "/tmp/abs");
}

#[test]
fn file_is_not_directory() {
    let f = "/tmp/td/file.txt".to_string();
    let err = check_directory(f.clone(), PathType::File).unwrap_err();
    assert!(matches!(err, PathError::NotDirectory(p) if p == f));
}

#[test]
fn nonexistent_path_errors() {
    let p = "/tmp/td/no-such-dir".to_string();
    let err = check_directory(p.clone(), PathType::NotFound).unwrap_err();
    assert!(matches!(err, PathError::NotFound(q) if q == p));
}

#[test]
fn trim_removes_unicode_whitespace() {
    assert_eq!(trim("\u{3000} a b \u{a0}\n"), "a b");
    assert_eq!(trim("   "), "");
}

#[test]
fn path_type_nonexistent() {
    let t = PathType::of(false, false, false);
    assert_eq!(t, PathType::NotFound);
    assert!(!path_exists(t));
    assert!(!is_file(t));
    assert!(!is_dir(t));
}

#[test]
fn path_type_file_and_dir() {
    let f = PathType::of(true, false, true);
    assert_eq!(f, PathType::File);
    assert!(path_exists(f));
    assert!(is_file(f));
    assert!(!is_dir(f));

    let d = PathType::of(true, true, false);
    assert_eq!(d, PathType::Directory);
    assert!(path_exists(d));
    assert!(is_dir(d));
    assert!(!is_file(d));

    assert_eq!(PathType::of(true, false, false), PathType::Other);
}

#[test]
fn remove_nonexistent_is_ok() {
    assert_eq!(remove_action(PathType::NotFound), RemoveAction::Nothing);
}

#[test]
fn remove_file_and_dir_ok() {
    assert_eq!(remove_action(PathType::File), RemoveAction::RemoveFile);
    assert_eq!(remove_action(PathType::Directory), RemoveAction::RemoveTree);
}

#[test]
fn join_and_components() {
    assert_eq!(join_path("/a", "b"), "/a/b");
    assert_eq!(join_path("/a/", "b"), "/a/b");
    assert_eq!(join_path("/a", "/b"), "/b");
    assert_eq!(join_path("", "b"), "b");
    assert_eq!(file_name("/a/b.txt"), Some("b.txt".to_string()));
    assert_eq!(file_name("/a/b/"), Some("b".to_string()));
    assert_eq!(file_name("/"), None);
    assert_eq!(file_name("/a/.."), None);
    assert_eq!(parent("/a/b"), Some("/a".to_string()));
    assert_eq!(parent("/a"), Some("/".to_string()));
    assert_eq!(parent("a"), Some("".to_string()));
    assert_eq!(parent("/"), None);
    assert_eq!(parent(""), None);
    assert!(has_trailing_sep("/x/"));
    assert!(!has_trailing_sep("/x"));
}

#[test]
fn starts_with_is_component_wise() {
    assert!(path_starts_with("/tmp/left/file.txt", "/tmp/left"));
    assert!(path_starts_with("/tmp/left", "/tmp/left"));
    assert!(!path_starts_with("/tmp/leftover", "/tmp/left"));
    assert!(path_starts_with("/tmp/left/x", "/tmp/left/"));
}

#[test]
fn resolve_target_into_directory() {
    assert_eq!(resolve_target("/dst", true, "a.txt"), "/dst/a.txt");
    assert_eq!(resolve_target("/dst/", false, "a.txt"), "/dst/a.txt");
    assert_eq!(resolve_target("/dst/new.txt", false, "a.txt"), "/dst/new.txt");
}

#[test]
fn move_and_rename_destinations() {
    assert_eq!(move_destination("/s/a.txt", "/d", true), Ok("/d/a.txt".to_string()));
    assert_eq!(move_destination("/s/a.txt", "/d/b.txt", false), Ok("/d/b.txt".to_string()));
    assert_eq!(move_destination("/", "/d", true), Err(MvError::MissingFilename));
    assert_eq!(
        rename_destination("/tmp/rnm_force.txt", "rnm_forced_renamed.txt"),
        Ok("/tmp/rnm_forced_renamed.txt".to_string())
    );
    assert_eq!(rename_destination("/", "x"), Err(MvError::MissingFilename));
}

#[test]
fn error_constructors() {
    let e = FsOpError::path_context("/a", "/b", "boom");
    assert_eq!(
        e,
        FsOpError::PathContext { src: "/a".to_string(), dst: "/b".to_string(), msg: "boom".to_string() }
    );
    assert_eq!(e.describe(), "Operation failed from `/a` to `/b`: boom");
    assert_eq!(FsOpError::Io("x".to_string()).describe(), "I/O error: x");
    assert_eq!(
        CreateError::from_write_failure("/p", true, "exists".to_string()),
        CreateError::AlreadyExists("/p".to_string())
    );
    assert_eq!(
        CreateError::from_write_failure("/p", false, "denied".to_string()),
        CreateError::Io("denied".to_string())
    );
}

#[test]
fn error_messages() {
    assert_eq!(PathError::Empty.describe(), "empty path");
    assert_eq!(PathError::HomeNotFound.describe(), "could not determine home directory");
    assert_eq!(PathError::NotFound("/x".to_string()).describe(), "path does not exist: /x");
    assert_eq!(PathError::NotDirectory("/f".to_string()).describe(), "not a directory: /f");
    assert_eq!(MvError::MissingFilename.describe(), "path has no filename");
    assert_eq!(MvError::Io("boom".to_string()).describe(), "IO error: boom");
    assert_eq!(RemoveError("gone".to_string()).describe(), "filesystem remove error: gone");
    assert_eq!(CreateError::AlreadyExists("/p".to_string()).describe(), "already exists: /p");
    assert_eq!(TerminalError::Io("tty".to_string()).describe(), "IO error: tty");
    assert_eq!(PreviewError::Binary.describe(), "file appears to be binary");
    assert_eq!(PreviewError::Unreadable.describe(), "file could not be read");
}
