use jump::fs::{arrange_scan, get_safe_parent, DirEntry};

#[test]
fn test_get_safe_parent() {
    assert_eq!(get_safe_parent("/home/user/projects"), Some("/home/user".to_string()));
    assert_eq!(get_safe_parent("/"), None);
    assert_eq!(get_safe_parent("projects"), None);
}

#[test]
fn safe_parent_of_top_level_is_root() {
    assert_eq!(get_safe_parent("/home"), Some("/".to_string()));
    assert_eq!(get_safe_parent("a/b"), Some("a".to_string()));
}

#[test]
fn scan_listing_hides_dot_names_and_sorts_case_insensitively() {
    let raw: Vec<DirEntry> = ["beta", ".git", "Alpha", "alpha", "Zed", "cat"]
        .iter()
        .map(|n| DirEntry { path: format!("/d/{}", n), name: n.to_string() })
        .collect();
    let names = |v: Vec<DirEntry>| v.into_iter().map(|e| e.name).collect::<Vec<_>>();
    assert_eq!(names(arrange_scan(raw.clone(), false)), vec!["Alpha", "alpha", "beta", "cat", "Zed"]);
    assert_eq!(names(arrange_scan(raw, true)), vec![".git", "Alpha", "alpha", "beta", "cat", "Zed"]);
}
