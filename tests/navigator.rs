use jump::fs::DirEntry;
use jump::navigator::FuzzyState;
use jump::rank::{DbDirEntry, FuzzyMatchEngine};

fn test_entry(name: &str) -> DirEntry {
    DirEntry {
        path: format!("/test/{}", name),
        name: name.to_string(),
    }
}

fn names(state: &FuzzyState) -> Vec<String> {
    state.items.iter().map(|i| i.entry.name.clone()).collect()
}

#[test]
fn test_fuzzy_state_new() {
    let state = FuzzyState::with_entries(vec![]);
    assert!(state.search_query.is_empty());
    assert!(state.items.is_empty());
    assert_eq!(state.selected_index, 0);
}

#[test]
fn test_fuzzy_state_with_entries() {
    let entries = vec![test_entry("apple"), test_entry("apricot"), test_entry("banana")];
    let state = FuzzyState::with_entries(entries);
    assert_eq!(state.items.len(), 3);
    assert_eq!(state.result_count(), 3);
}

#[test]
fn test_fuzzy_state_add_char() {
    let entries = vec![test_entry("apple"), test_entry("apricot"), test_entry("banana")];
    let mut state = FuzzyState::with_entries(entries);
    state.add_char('a');
    state.add_char('p');
    assert_eq!(state.search_query, "ap");
    assert_eq!(state.result_count(), 2);
}

#[test]
fn test_fuzzy_state_pop_char() {
    let entries = vec![test_entry("apple")];
    let mut state = FuzzyState::with_entries(entries);
    state.add_char('a');
    state.add_char('p');
    state.pop_char();
    assert_eq!(state.search_query, "a");
}

#[test]
fn test_fuzzy_state_clear_query_restores_all_items() {
    let entries = vec![test_entry("apple"), test_entry("apricot"), test_entry("banana")];
    let mut state = FuzzyState::with_entries(entries);
    state.add_char('a');
    state.add_char('p');
    assert_eq!(state.result_count(), 2);
    state.clear_query();
    assert!(state.search_query.is_empty());
    assert_eq!(state.result_count(), 3);
}

#[test]
fn test_fuzzy_state_move_up() {
    let entries = vec![test_entry("a"), test_entry("b"), test_entry("c")];
    let mut state = FuzzyState::with_entries(entries);
    state.move_down();
    state.move_down();
    state.move_up();
    assert_eq!(state.selected_index, 1);
}

#[test]
fn test_fuzzy_state_move_down() {
    let entries = vec![test_entry("a"), test_entry("b")];
    let mut state = FuzzyState::with_entries(entries);
    assert_eq!(state.selected_index, 0);
    state.move_down();
    assert_eq!(state.selected_index, 1);
}

#[test]
fn test_fuzzy_state_move_up_from_start() {
    let entries = vec![test_entry("a")];
    let mut state = FuzzyState::with_entries(entries);
    state.move_up();
    assert_eq!(state.selected_index, 0);
}

#[test]
fn test_fuzzy_state_go_to_start() {
    let entries = vec![test_entry("a"), test_entry("b"), test_entry("c")];
    let mut state = FuzzyState::with_entries(entries);
    state.move_down();
    state.move_down();
    state.go_to_start();
    assert_eq!(state.selected_index, 0);
}

#[test]
fn test_fuzzy_state_go_to_end() {
    let entries = vec![test_entry("a"), test_entry("b"), test_entry("c")];
    let mut state = FuzzyState::with_entries(entries);
    state.go_to_end();
    assert_eq!(state.selected_index, 2);
}

#[test]
fn test_fuzzy_state_selected_item() {
    let entries = vec![test_entry("apple"), test_entry("banana")];
    let mut state = FuzzyState::with_entries(entries);
    state.move_down();
    assert_eq!(state.selected_item().unwrap().entry.name, "banana");
}

#[test]
fn test_bookmark_search_results() {
    let entries = vec![test_entry("projects"), test_entry("documents")];
    let mut state = FuzzyState::with_entries(entries);
    state.set_bookmarks(vec![DbDirEntry {
        path: "/home/user/work".to_string(),
        name: "work".to_string(),
        is_bookmark: true,
        bookmark_key: Some("w".to_string()),
    }]);
    state.add_char('w');
    assert!(state
        .items
        .iter()
        .any(|i| i.is_bookmark && i.entry.name == "work"));
}

#[test]
fn empty_query_keeps_scan_order() {
    let entries = vec![test_entry("zeta"), test_entry("alpha"), test_entry("mid")];
    let mut state = FuzzyState::with_entries(entries);
    state.set_query("");
    assert_eq!(names(&state), vec!["zeta", "alpha", "mid"]);
}

#[test]
fn query_matching_nothing_empties_the_list() {
    let entries = vec![test_entry("apple"), test_entry("banana")];
    let mut state = FuzzyState::with_entries(entries);
    state.set_query("xyz");
    assert_eq!(state.result_count(), 0);
    assert!(state.selected_item().is_none());
}

#[test]
fn results_are_ranked_by_score_then_name() {
    let entries = vec![
        test_entry("xax"),
        test_entry("Beta_a"),
        test_entry("a"),
        test_entry("alpha"),
        test_entry("Abc"),
        test_entry("banana"),
    ];
    let mut state = FuzzyState::with_entries(entries);
    state.set_query("a");
    let engine = FuzzyMatchEngine::new();
    assert_eq!(state.result_count(), 6);
    for w in state.items.windows(2) {
        assert!(w[0].match_score >= w[1].match_score);
        if w[0].match_score == w[1].match_score {
            assert!(w[0].entry.name.to_lowercase() <= w[1].entry.name.to_lowercase());
        }
    }
    for item in &state.items {
        assert_eq!(Some(item.match_score), engine.get_score("a", &item.entry.name));
    }
}

#[test]
fn bookmark_already_listed_is_not_added_twice() {
    let entries = vec![test_entry("work"), test_entry("docs")];
    let mut state = FuzzyState::with_entries(entries);
    state.set_bookmarks(vec![DbDirEntry {
        path: "/test/work".to_string(),
        name: "work".to_string(),
        is_bookmark: true,
        bookmark_key: Some("w".to_string()),
    }]);
    assert!(state.all_items[0].is_bookmark);
    assert_eq!(state.all_items[0].bookmark_key, Some("w".to_string()));
    assert!(!state.all_items[1].is_bookmark);
    state.set_query("work");
    assert_eq!(state.result_count(), 1);
}

#[test]
fn bookmark_matches_by_key() {
    let mut state = FuzzyState::with_entries(vec![test_entry("docs")]);
    state.set_bookmarks(vec![DbDirEntry {
        path: "/srv/projects".to_string(),
        name: "projects".to_string(),
        is_bookmark: true,
        bookmark_key: Some("zz".to_string()),
    }]);
    state.set_query("zz");
    assert_eq!(names(&state), vec!["projects"]);
    assert_eq!(state.items[0].bookmark_key, Some("zz".to_string()));
}

#[test]
fn into_then_back_restores_the_listing() {
    let top = vec![test_entry("apple"), test_entry("banana"), test_entry("cherry")];
    let mut state = FuzzyState::new_in_dir("/test".to_string(), true, top.clone());
    let before = names(&state);
    state.move_down();
    state.navigate_into(vec![DirEntry {
        path: "/test/banana/seed".to_string(),
        name: "seed".to_string(),
    }]);
    assert_eq!(state.current_dir, "/test/banana");
    assert_eq!(names(&state), vec!["seed"]);
    assert_eq!(state.parent_dir(), Some("/test".to_string()));
    state.navigate_back(top);
    assert_eq!(state.current_dir, "/test");
    assert_eq!(names(&state), before);
    assert!(state.show_hidden);
    assert_eq!(state.selected_index, 0);
}

#[test]
fn back_at_root_does_nothing() {
    let mut state = FuzzyState::with_entries(vec![test_entry("a")]);
    state.navigate_back(vec![]);
    assert_eq!(state.current_dir, "/");
    assert_eq!(state.result_count(), 1);
}

#[test]
fn toggle_hidden_reloads_in_place() {
    let mut state = FuzzyState::new_in_dir("/test".to_string(), false, vec![test_entry("a")]);
    state.add_char('a');
    state.toggle_hidden(vec![test_entry(".git"), test_entry("a")]);
    assert!(state.show_hidden);
    assert_eq!(state.current_dir, "/test");
    assert!(state.search_query.is_empty());
    assert_eq!(names(&state), vec![".git", "a"]);
}

#[test]
fn repeat_count_moves_that_many_rows() {
    let entries: Vec<DirEntry> = (0..6).map(|i| test_entry(&format!("d{}", i))).collect();
    let mut state = FuzzyState::with_entries(entries);
    state.push_count_digit(3);
    assert_eq!(state.motion_count, Some(3));
    state.move_down_repeated();
    assert_eq!(state.selected_index, 3);
    assert_eq!(state.take_motion_count(), 1);
    state.push_count_digit(1);
    state.push_count_digit(2);
    assert_eq!(state.motion_count, Some(12));
    state.move_down_repeated();
    assert_eq!(state.selected_index, 5);
    state.set_motion_count(2);
    state.move_up_repeated();
    assert_eq!(state.selected_index, 3);
    state.move_up_repeated();
    assert_eq!(state.selected_index, 2);
    state.push_count_digit(4);
    state.clear_motion_count();
    assert_eq!(state.motion_count, None);
}

#[test]
fn paging_and_scrolling_follow_the_cursor() {
    let entries: Vec<DirEntry> = (0..30).map(|i| test_entry(&format!("d{:02}", i))).collect();
    let mut state = FuzzyState::with_entries(entries);
    state.page_down();
    assert_eq!(state.selected_index, 10);
    assert_eq!(state.scroll_offset, 0);
    state.page_down();
    assert_eq!(state.selected_index, 20);
    assert_eq!(state.scroll_offset, 6);
    state.page_down();
    assert_eq!(state.selected_index, 29);
    state.page_up();
    assert_eq!(state.selected_index, 19);
    assert_eq!(state.scroll_offset, 15);
    state.go_to_end();
    assert_eq!(state.scroll_offset, 15);
    state.go_to_start();
    assert_eq!((state.selected_index, state.scroll_offset), (0, 0));
    state.page_up();
    assert_eq!(state.selected_index, 0);
}

#[test]
fn saturating_repeat_count() {
    let mut state = FuzzyState::with_entries(vec![test_entry("a")]);
    state.set_motion_count(usize::MAX / 10 + 1);
    state.push_count_digit(9);
    assert_eq!(state.motion_count, Some(usize::MAX));
    state.move_down_repeated();
    assert_eq!(state.selected_index, 0);
}

#[test]
fn bookmarked_child_is_not_added_by_its_key() {
    let mut state = FuzzyState::with_entries(vec![test_entry("work"), test_entry("docs")]);
    state.set_bookmarks(vec![DbDirEntry {
        path: "/test/work".to_string(),
        name: "work".to_string(),
        is_bookmark: true,
        bookmark_key: Some("zz".to_string()),
    }]);
    state.set_query("zz");
    assert_eq!(state.result_count(), 0);
}
