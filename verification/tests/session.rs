use appzap::session::{Phase, Session};

#[test]
fn no_findings_end_before_any_prompt() {
    let s = Session::start(Vec::new());
    assert!(matches!(s.phase, Phase::NoFiles));
    assert!(s.to_delete.is_empty());
}

#[test]
fn findings_open_the_selection() {
    let s = Session::start(vec!["/tmp/a".to_string()]);
    assert!(matches!(s.phase, Phase::Selecting));
}

#[test]
fn selection_picks_by_index_in_order() {
    let mut s = Session::start(vec![
        "/tmp/a".to_string(),
        "/tmp/b".to_string(),
        "/tmp/c".to_string(),
    ]);
    s.select(&vec![2, 0]);
    assert!(matches!(s.phase, Phase::Confirming));
    assert_eq!(s.to_delete, vec!["/tmp/c".to_string(), "/tmp/a".to_string()]);
}

#[test]
fn empty_selection_still_confirms_and_deletes_nothing() {
    let mut s = Session::start(vec!["/tmp/a".to_string()]);
    s.select(&Vec::new());
    assert!(s.to_delete.is_empty());
    assert!(matches!(s.phase, Phase::Confirming));
    s.confirm(false);
    assert!(matches!(s.phase, Phase::Declined));
    assert!(s.to_delete.is_empty());
}

#[test]
fn declining_keeps_the_selection_undeleted() {
    let mut s = Session::start(vec!["/tmp/a".to_string(), "/tmp/b".to_string()]);
    s.select(&vec![0, 1]);
    s.confirm(false);
    assert!(matches!(s.phase, Phase::Declined));
    assert_eq!(s.next, 0);
}

#[test]
fn confirming_hands_out_each_selected_path() {
    let mut s = Session::start(vec![
        "/tmp/a".to_string(),
        "/tmp/b".to_string(),
        "/tmp/c".to_string(),
    ]);
    s.select(&vec![0, 2]);
    s.confirm(true);
    assert!(matches!(s.phase, Phase::Removing));
    assert_eq!(s.next_removal(), Some("/tmp/a".to_string()));
    assert_eq!(s.next_removal(), Some("/tmp/c".to_string()));
    assert_eq!(s.next_removal(), None);
    assert!(matches!(s.phase, Phase::Finished));
}

#[test]
fn a_failed_removal_aborts_the_run() {
    let mut s = Session::start(vec!["/tmp/a".to_string(), "/tmp/b".to_string()]);
    s.select(&vec![0, 1]);
    s.confirm(true);
    assert_eq!(s.next_removal(), Some("/tmp/a".to_string()));
    s.removal_failed();
    assert!(matches!(s.phase, Phase::Failed));
    assert_eq!(s.next, 1);
}

#[test]
fn cache_file_scenario_runs_end_to_end() {
    let found = vec!["/Users/me/Library/Caches/com.example.foo.cache".to_string()];
    let mut s = Session::start(found);
    assert!(matches!(s.phase, Phase::Selecting));
    s.select(&vec![0]);
    s.confirm(true);
    assert_eq!(
        s.next_removal(),
        Some("/Users/me/Library/Caches/com.example.foo.cache".to_string())
    );
    assert_eq!(s.next_removal(), None);
    assert!(matches!(s.phase, Phase::Finished));
}
