use appzap::application::Application;
use appzap::locations::search_locations;

#[test]
fn identifiers_are_bundle_id_and_stem() {
    let app = Application::new(
        "/Applications/Foo.app".to_string(),
        "com.example.foo".to_string(),
    );
    let ids = app.identifiers().expect("path has a file name");
    assert_eq!(ids, vec!["com.example.foo".to_string(), "Foo".to_string()]);
}

#[test]
fn identifiers_keep_an_empty_bundle_id() {
    let app = Application::new("/Applications/Foo.app".to_string(), String::new());
    let ids = app.identifiers().expect("path has a file name");
    assert_eq!(ids, vec![String::new(), "Foo".to_string()]);
}

#[test]
fn identifiers_keep_every_dot_but_the_last() {
    let app = Application::new(
        "/Applications/Foo.bar.app".to_string(),
        "com.example.foo".to_string(),
    );
    let ids = app.identifiers().expect("path has a file name");
    assert_eq!(ids, vec!["com.example.foo".to_string(), "Foo.bar".to_string()]);
}

#[test]
fn identifiers_need_a_file_name() {
    let app = Application::new("/".to_string(), "com.example.foo".to_string());
    assert_eq!(app.identifiers(), None);
}

#[test]
fn plain_locations_in_order() {
    let locs = search_locations("/Users/me", false, &"/tmp/elsewhere".to_string());
    assert_eq!(
        locs,
        vec![
            "/Users/me/Library/Application Support".to_string(),
            "/Users/me/Library/Caches".to_string(),
            "/Users/me/Library/Preferences".to_string(),
            "/Users/me/Applications".to_string(),
            "/Applications".to_string(),
            "/System/Applications".to_string(),
            "/tmp/elsewhere".to_string(),
        ]
    );
}

#[test]
fn deep_mode_widens_support_and_caches() {
    let locs = search_locations("/Users/me", true, &"/tmp/elsewhere".to_string());
    assert_eq!(locs[0], "/Users/me/Library/Application Support/**");
    assert_eq!(locs[1], "/Users/me/Library/Caches/**");
    assert_eq!(locs[2], "/Users/me/Library/Preferences");
    assert_eq!(locs[3], "/Users/me/Applications");
    assert_eq!(locs[4], "/Applications");
    assert_eq!(locs[5], "/System/Applications");
    assert_eq!(locs.len(), 7);
}

#[test]
fn known_parent_is_not_repeated() {
    let locs = search_locations("/Users/me", false, &"/Applications".to_string());
    assert_eq!(locs.len(), 6);
    assert_eq!(locs[4], "/Applications");
}

#[test]
fn user_applications_parent_is_not_repeated() {
    let locs = search_locations("/Users/me", false, &"/Users/me/Applications".to_string());
    assert_eq!(locs.len(), 6);
}

#[test]
fn unknown_parent_comes_last() {
    let locs = search_locations("/Users/me", false, &"/opt/apps".to_string());
    assert_eq!(locs.len(), 7);
    assert_eq!(locs[6], "/opt/apps");
}
