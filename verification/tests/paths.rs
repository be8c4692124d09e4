use libmm::{
    data_folder_of, get_data_folder, get_repo_path, get_repos_folder, join_path, note_path_for,
    MM_DATA_FOLDER, MM_MAIN_REPO_NAME, MM_REPOS_SUBFOLDER,
};

#[test]
fn join_inserts_a_separator() {
    assert_eq!(join_path("/a", "b"), "/a/b");
}

#[test]
fn join_adds_no_second_separator() {
    assert_eq!(join_path("/a/", "b"), "/a/b");
}

#[test]
fn join_with_empty_component_keeps_base() {
    assert_eq!(join_path("/a", ""), "/a");
    assert_eq!(join_path("/a/", ""), "/a/");
}

#[test]
fn join_with_empty_base_keeps_component() {
    assert_eq!(join_path("", "b"), "b");
}

#[test]
fn data_folder_hangs_off_the_home_folder() {
    assert_eq!(data_folder_of("/home/u"), "/home/u/.mm/");
    assert_eq!(data_folder_of("/home/u/"), "/home/u/.mm/");
}

#[test]
fn constants_have_their_documented_values() {
    assert_eq!(MM_DATA_FOLDER, ".mm/");
    assert_eq!(MM_REPOS_SUBFOLDER, "repos/");
    assert_eq!(MM_MAIN_REPO_NAME, "mm_main_local");
}

#[test]
fn repos_folder_extends_the_data_folder() {
    let data = get_data_folder().expect("a home folder exists in this environment");
    let repos = get_repos_folder().expect("a home folder exists in this environment");
    assert_eq!(repos, format!("{}repos/", data));
    assert!(data.ends_with("/.mm/"));
}

#[test]
fn repo_path_appends_the_chosen_name() {
    let repos = get_repos_folder().expect("a home folder exists in this environment");
    let named = get_repo_path(Some("alpha")).unwrap();
    assert_eq!(named, format!("{}alpha", repos));
}

#[test]
fn repo_path_defaults_to_the_main_repository() {
    let unnamed = get_repo_path(None).unwrap();
    let named = get_repo_path(Some("mm_main_local")).unwrap();
    assert_eq!(unnamed, named);
}

#[test]
fn note_path_in_working_directory() {
    assert_eq!(note_path_for("/wd/", None, "x"), "/wd/x");
    assert_eq!(note_path_for("/wd", None, "x"), "/wd/x");
}

#[test]
fn note_path_in_folder() {
    assert_eq!(note_path_for("/wd/", Some("notes"), "x"), "/wd/notes/x");
}
