use md2png::locator::{
    engine_candidates, locate, registry_queries, RegistryRoot, CHROME_KEY, EDGE_KEY,
    PROFILE_VARIABLE,
};

#[test]
fn registry_is_asked_machine_first_edge_first() {
    let queries = registry_queries();
    assert_eq!(queries.len(), 4);
    assert_eq!(queries[0].root, RegistryRoot::LocalMachine);
    assert_eq!(queries[0].key, EDGE_KEY);
    assert_eq!(queries[1].root, RegistryRoot::LocalMachine);
    assert_eq!(queries[1].key, CHROME_KEY);
    assert_eq!(queries[2].root, RegistryRoot::CurrentUser);
    assert_eq!(queries[2].key, EDGE_KEY);
    assert_eq!(queries[3].root, RegistryRoot::CurrentUser);
    assert_eq!(queries[3].key, CHROME_KEY);
    assert_eq!(EDGE_KEY, "SOFTWARE\\Microsoft\\Windows\\CurrentVersion\\App Paths\\msedge.exe");
    assert_eq!(CHROME_KEY, "SOFTWARE\\Microsoft\\Windows\\CurrentVersion\\App Paths\\chrome.exe");
    assert_eq!(PROFILE_VARIABLE, "LOCALAPPDATA");
}

#[test]
fn candidates_without_registry_or_profile() {
    assert_eq!(
        engine_candidates(&Vec::new(), None),
        vec![
            "C:\\Program Files (x86)\\Microsoft\\Edge\\Application\\msedge.exe".to_string(),
            "C:\\Program Files\\Microsoft\\Edge\\Application\\msedge.exe".to_string(),
            "C:\\Program Files\\Google\\Chrome\\Application\\chrome.exe".to_string(),
        ]
    );
}

#[test]
fn candidates_are_ranked() {
    let registry = vec!["D:\\edge.exe".to_string(), "D:\\chrome.exe".to_string()];
    assert_eq!(
        engine_candidates(&registry, Some("C:\\Users\\u\\AppData\\Local")),
        vec![
            "D:\\edge.exe".to_string(),
            "D:\\chrome.exe".to_string(),
            "C:\\Program Files (x86)\\Microsoft\\Edge\\Application\\msedge.exe".to_string(),
            "C:\\Program Files\\Microsoft\\Edge\\Application\\msedge.exe".to_string(),
            "C:\\Program Files\\Google\\Chrome\\Application\\chrome.exe".to_string(),
            "C:\\Users\\u\\AppData\\Local\\Microsoft\\Edge\\Application\\msedge.exe".to_string(),
            "C:\\Users\\u\\AppData\\Local\\Google\\Chrome\\Application\\chrome.exe".to_string(),
        ]
    );
}

#[test]
fn first_existing_candidate_wins() {
    let candidates = vec!["a".to_string(), "b".to_string(), "c".to_string()];
    assert_eq!(locate(&candidates, &vec![false, true, true]), Some("b".to_string()));
    assert_eq!(locate(&candidates, &vec![true, true, true]), Some("a".to_string()));
    assert_eq!(locate(&candidates, &vec![false, false, true]), Some("c".to_string()));
}

#[test]
fn no_existing_candidate_is_not_found() {
    let candidates = vec!["a".to_string(), "b".to_string()];
    assert_eq!(locate(&candidates, &vec![false, false]), None);
    assert_eq!(locate(&Vec::new(), &Vec::new()), None);
    assert_eq!(locate(&Vec::new(), &vec![true]), None);
}

#[test]
fn unreported_candidates_count_as_missing() {
    let candidates = vec!["a".to_string(), "b".to_string(), "c".to_string()];
    assert_eq!(locate(&candidates, &vec![false]), None);
    assert_eq!(locate(&candidates, &Vec::new()), None);
    assert_eq!(locate(&candidates, &vec![false, true]), Some("b".to_string()));
    assert_eq!(locate(&candidates, &vec![false, false, false, true]), None);
}
