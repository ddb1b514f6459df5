use gatherfiles::paths::destination_for;
use gatherfiles::paths::file_name_component;
use gatherfiles::paths::join_path;

#[test]
fn file_name_of_a_bare_name() {
    assert_eq!(file_name_component("a.txt"), "a.txt");
}

#[test]
fn file_name_of_a_nested_path() {
    assert_eq!(file_name_component("dir/sub/c.txt"), "c.txt");
}

#[test]
fn file_name_after_a_trailing_separator_is_empty() {
    assert_eq!(file_name_component("dir/"), "");
}

#[test]
fn file_name_of_an_empty_path_is_empty() {
    assert_eq!(file_name_component(""), "");
}

#[test]
fn join_inserts_a_separator() {
    assert_eq!(join_path("out", "a.txt"), "out/a.txt");
}

#[test]
fn join_keeps_an_existing_separator() {
    assert_eq!(join_path("out/", "a.txt"), "out/a.txt");
}

#[test]
fn join_of_an_empty_name_is_the_directory() {
    assert_eq!(join_path("out", ""), "out");
}

#[test]
fn join_onto_an_empty_directory_is_the_name() {
    assert_eq!(join_path("", "a.txt"), "a.txt");
}

#[test]
fn destination_keeps_only_the_final_component() {
    assert_eq!(destination_for("out", "some/deep/tree/a.txt"), "out/a.txt");
}

#[test]
fn destination_of_a_nameless_source_is_the_target_directory() {
    assert_eq!(destination_for("out", "dir/"), "out");
}
