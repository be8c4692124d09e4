use libmm::{Error, ErrorCategory};

#[test]
fn from_string_keeps_description_and_category() {
    let e = Error::from_string("something broke", ErrorCategory::Os);
    assert_eq!(e.description(), "something broke");
    assert_eq!(e.category(), ErrorCategory::Os);
}

#[test]
fn from_error_files_under_generic() {
    let e = Error::from_error("wrapped failure");
    assert_eq!(e.description(), "wrapped failure");
    assert_eq!(e.category(), ErrorCategory::Generic);
}

#[test]
fn describe_renders_description_and_category() {
    let e = Error::from_string("boom", ErrorCategory::Git);
    assert_eq!(e.describe(), "Description: boom (category: Git)");
}

#[test]
fn describe_names_each_category() {
    let cases = vec![
        (ErrorCategory::Generic, "Description: x (category: Generic)"),
        (ErrorCategory::Git, "Description: x (category: Git)"),
        (ErrorCategory::Os, "Description: x (category: Os)"),
        (ErrorCategory::Repo, "Description: x (category: Repo)"),
    ];
    for (category, expected) in cases {
        assert_eq!(Error::from_string("x", category).describe(), expected);
    }
}
