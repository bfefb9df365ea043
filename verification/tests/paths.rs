use appzap::paths::{base_name_of, file_name_of, parent_of};

#[test]
fn parent_of_nested_path() {
    assert_eq!(parent_of("/Applications/Foo.app"), Some("/Applications".to_string()));
}

#[test]
fn parent_of_root_child() {
    assert_eq!(parent_of("/Foo.app"), Some("/".to_string()));
}

#[test]
fn parent_of_bare_name() {
    assert_eq!(parent_of("Foo.app"), Some(String::new()));
}

#[test]
fn parent_of_root_is_none() {
    assert_eq!(parent_of("/"), None);
}

#[test]
fn parent_of_ignores_trailing_slash() {
    assert_eq!(parent_of("/Applications/Foo.app/"), Some("/Applications".to_string()));
}

#[test]
fn parent_of_empty_is_none() {
    assert_eq!(parent_of(""), None);
}

#[test]
fn file_name_of_nested_path() {
    assert_eq!(file_name_of("/Applications/Foo.app"), Some("Foo.app".to_string()));
}

#[test]
fn file_name_of_bare_name() {
    assert_eq!(file_name_of("Foo.app"), Some("Foo.app".to_string()));
}

#[test]
fn file_name_of_ignores_trailing_slash() {
    assert_eq!(file_name_of("/Applications/Foo.app/"), Some("Foo.app".to_string()));
}

#[test]
fn file_name_of_root_is_none() {
    assert_eq!(file_name_of("/"), None);
    assert_eq!(file_name_of("///"), None);
}

#[test]
fn file_name_of_empty_is_none() {
    assert_eq!(file_name_of(""), None);
}

#[test]
fn base_name_strips_extension() {
    assert_eq!(base_name_of("Foo.app"), "Foo".to_string());
}

#[test]
fn base_name_stops_at_last_dot() {
    assert_eq!(base_name_of("archive.tar.gz"), "archive.tar".to_string());
    assert_eq!(base_name_of("Foo.bar.app"), "Foo.bar".to_string());
}

#[test]
fn base_name_of_dotless_name() {
    assert_eq!(base_name_of("Foo"), "Foo".to_string());
}

#[test]
fn base_name_of_hidden_file_stays_whole() {
    assert_eq!(base_name_of(".hidden"), ".hidden".to_string());
}

#[test]
fn base_name_of_hidden_file_with_extension() {
    assert_eq!(base_name_of(".config.bak"), ".config".to_string());
}
