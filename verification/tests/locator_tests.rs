use omni_tagger::locator::{candidate_paths, not_found_message, parent_dir, select_first};
use omni_tagger::Platform;

#[test]
fn unix_candidates_in_search_order() {
    let c = candidate_paths("/opt/app/bin", Platform::Unix);
    assert_eq!(
        c,
        vec![
            "/opt/app/bin/omni-tagger".to_string(),
            "/opt/app/omni-tagger".to_string(),
            "/usr/bin/omni-tagger".to_string(),
            "/usr/local/bin/omni-tagger".to_string(),
        ]
    );
}

#[test]
fn windows_candidates_skip_system_directories() {
    let c = candidate_paths("C:\\app\\bin", Platform::Windows);
    assert_eq!(
        c,
        vec![
            "C:\\app\\bin\\omni-tagger.exe".to_string(),
            "C:\\app\\omni-tagger.exe".to_string(),
        ]
    );
}

#[test]
fn parent_directory_climbs_one_level() {
    assert_eq!(parent_dir("/opt/app/bin", Platform::Unix), "/opt/app");
    assert_eq!(parent_dir("/opt", Platform::Unix), "/");
    assert_eq!(parent_dir("plain", Platform::Unix), "plain");
    assert_eq!(parent_dir("C:\\app\\bin", Platform::Windows), "C:\\app");
}

#[test]
fn same_directory_candidate_beats_parent_directory() {
    // Both the same-directory and the parent-directory candidate exist:
    // the same-directory one, which comes first, is chosen.
    let flags = vec![true, true, false, false];
    assert_eq!(select_first(&flags), Some(0));
}

#[test]
fn later_candidates_serve_only_as_fallback() {
    assert_eq!(select_first(&vec![false, true, true, false]), Some(1));
    assert_eq!(select_first(&vec![false, false, false, true]), Some(3));
}

#[test]
fn a_miss_reports_every_searched_path() {
    let searched = vec!["/a/omni-tagger".to_string(), "/b/omni-tagger".to_string()];
    assert_eq!(
        not_found_message(&searched),
        "App executable not found. Searched at /a/omni-tagger, /b/omni-tagger"
    );
}

#[test]
fn no_existing_candidate_selects_nothing() {
    assert_eq!(select_first(&vec![false, false, false, false]), None);
    assert_eq!(select_first(&Vec::new()), None);
}
