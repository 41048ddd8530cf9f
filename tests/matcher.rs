use jump::rank::FuzzyMatchEngine;

#[test]
fn test_fuzzy_match_engine_new() {
    let matcher = FuzzyMatchEngine::new();
    let result = matcher.match_text("abc", "axbycz").unwrap();
    assert!(result.is_match);
    assert!(result.score > 0);
    assert_eq!(result.indices, vec![0, 2, 4]);
}

#[test]
fn test_match_text_no_match() {
    let matcher = FuzzyMatchEngine::new();
    let result = matcher.match_text("xyz", "abc").unwrap();
    assert!(!result.is_match);
    assert_eq!(result.score, i64::MIN);
}

#[test]
fn test_match_list() {
    let matcher = FuzzyMatchEngine::new();
    let texts = vec!["apple", "apricot", "banana", "cherry"];
    let results = matcher.match_list("ap", &texts);
    assert_eq!(results.len(), 2);
    assert_eq!(results[0].text, "apple");
    assert_eq!(results[1].text, "apricot");
}

#[test]
fn empty_pattern_keeps_everything_in_order() {
    let matcher = FuzzyMatchEngine::new();
    let texts = vec!["b", "a", "c"];
    let results = matcher.match_list("", &texts);
    let order: Vec<&str> = results.iter().map(|r| r.text.as_str()).collect();
    assert_eq!(order, vec!["b", "a", "c"]);
    assert!(results.iter().all(|r| r.score == 0 && r.is_match));
}

#[test]
fn scores_and_positions_agree() {
    let matcher = FuzzyMatchEngine::new();
    assert_eq!(matcher.get_indices("abc", "axbycz"), Some(vec![0, 2, 4]));
    assert_eq!(matcher.get_indices("xyz", "abc"), None);
    assert!(matcher.get_score("abc", "axbycz").unwrap() > 0);
    assert_eq!(matcher.get_score("xyz", "abc"), None);
    let results = matcher.match_list("a", &["xxa", "abc", "bab"]);
    for w in results.windows(2) {
        assert!(w[0].score >= w[1].score);
    }
}
