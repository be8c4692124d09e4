use libmm::{ensure_valid_folder, ErrorCategory};

#[test]
fn empty_folder_name_is_rejected() {
    let r = ensure_valid_folder("");
    let err = r.unwrap_err();
    assert_eq!(err.category(), ErrorCategory::Repo);
    assert_eq!(err.description(), "invalid folder name: ''");
}

#[test]
fn folder_name_with_forward_slash_is_rejected() {
    let r = ensure_valid_folder("a/b");
    let err = r.unwrap_err();
    assert_eq!(err.category(), ErrorCategory::Repo);
    assert_eq!(err.description(), "invalid folder name: 'a/b'");
}

#[test]
fn folder_name_with_backslash_is_rejected() {
    let r = ensure_valid_folder("a\\b");
    let err = r.unwrap_err();
    assert_eq!(err.category(), ErrorCategory::Repo);
    assert_eq!(err.description(), "invalid folder name: 'a\\b'");
}

#[test]
fn plain_folder_name_is_accepted() {
    assert!(ensure_valid_folder("notes").is_ok());
}

#[test]
fn leading_slash_is_rejected() {
    assert!(ensure_valid_folder("/notes").is_err());
}

#[test]
fn trailing_slash_is_rejected() {
    assert!(ensure_valid_folder("notes/").is_err());
}
