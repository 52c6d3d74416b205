use browser_core::history::{HistoryEntry, TabHistory};

fn urls(history: &TabHistory) -> Vec<String> {
    history.entries().iter().map(|entry| entry.url.clone()).collect()
}

#[test]
fn test_new_history_is_empty() {
    let history = TabHistory::new();
    assert!(history.is_empty());
    assert_eq!(history.len(), 0);
    assert!(history.current().is_none());
    assert!(!history.can_go_back());
    assert!(!history.can_go_forward());
}

#[test]
fn test_push_first_entry() {
    let mut history = TabHistory::new();
    history.push("https://example.com".to_string(), Some("Example".to_string()));

    assert_eq!(history.len(), 1);
    assert_eq!(history.current_url(), Some("https://example.com"));
    assert_eq!(history.current_title(), Some("Example"));
    assert!(!history.can_go_back());
    assert!(!history.can_go_forward());
}

#[test]
fn test_push_multiple_entries() {
    let mut history = TabHistory::new();
    history.push("https://example.com".to_string(), Some("Example".to_string()));
    history.push("https://wikipedia.org".to_string(), Some("Wikipedia".to_string()));
    history.push("https://github.com".to_string(), Some("GitHub".to_string()));

    assert_eq!(history.len(), 3);
    assert_eq!(history.current_url(), Some("https://github.com"));
    assert_eq!(history.current_title(), Some("GitHub"));
    assert!(history.can_go_back());
    assert!(!history.can_go_forward());
}

#[test]
fn test_go_back() {
    let mut history = TabHistory::new();
    history.push("https://a.com".to_string(), Some("A".to_string()));
    history.push("https://b.com".to_string(), Some("B".to_string()));
    history.push("https://c.com".to_string(), Some("C".to_string()));

    let entry = history.go_back().unwrap();
    assert_eq!(entry.url, "https://b.com");
    assert_eq!(history.current_url(), Some("https://b.com"));
    assert!(history.can_go_back());
    assert!(history.can_go_forward());

    let entry = history.go_back().unwrap();
    assert_eq!(entry.url, "https://a.com");
    assert_eq!(history.current_url(), Some("https://a.com"));
    assert!(!history.can_go_back());
    assert!(history.can_go_forward());

    assert!(history.go_back().is_none());
    assert_eq!(history.current_url(), Some("https://a.com"));
}

#[test]
fn test_go_forward() {
    let mut history = TabHistory::new();
    history.push("https://a.com".to_string(), Some("A".to_string()));
    history.push("https://b.com".to_string(), Some("B".to_string()));
    history.push("https://c.com".to_string(), Some("C".to_string()));

    history.go_back();
    history.go_back();
    assert_eq!(history.current_url(), Some("https://a.com"));

    let entry = history.go_forward().unwrap();
    assert_eq!(entry.url, "https://b.com");
    assert_eq!(history.current_url(), Some("https://b.com"));
    assert!(history.can_go_back());
    assert!(history.can_go_forward());

    let entry = history.go_forward().unwrap();
    assert_eq!(entry.url, "https://c.com");
    assert_eq!(history.current_url(), Some("https://c.com"));
    assert!(history.can_go_back());
    assert!(!history.can_go_forward());

    assert!(history.go_forward().is_none());
    assert_eq!(history.current_url(), Some("https://c.com"));
}

#[test]
fn test_navigate_from_middle_truncates_forward() {
    let mut history = TabHistory::new();
    history.push("https://a.com".to_string(), Some("A".to_string()));
    history.push("https://b.com".to_string(), Some("B".to_string()));
    history.push("https://c.com".to_string(), Some("C".to_string()));

    history.go_back();
    assert_eq!(history.current_url(), Some("https://b.com"));
    assert_eq!(history.len(), 3);

    history.push("https://d.com".to_string(), Some("D".to_string()));
    assert_eq!(history.len(), 3);
    assert_eq!(history.current_url(), Some("https://d.com"));
    assert!(history.can_go_back());
    assert!(!history.can_go_forward());

    history.go_back();
    assert_eq!(history.current_url(), Some("https://b.com"));
    history.go_back();
    assert_eq!(history.current_url(), Some("https://a.com"));
    assert!(!history.can_go_back());
}

#[test]
fn test_back_forward_back_forward_sequence() {
    let mut history = TabHistory::new();
    history.push("https://1.com".to_string(), None);
    history.push("https://2.com".to_string(), None);
    history.push("https://3.com".to_string(), None);

    assert_eq!(history.current_url(), Some("https://3.com"));

    history.go_back();
    assert_eq!(history.current_url(), Some("https://2.com"));

    history.go_forward();
    assert_eq!(history.current_url(), Some("https://3.com"));

    history.go_back();
    assert_eq!(history.current_url(), Some("https://2.com"));

    history.go_back();
    assert_eq!(history.current_url(), Some("https://1.com"));

    history.go_forward();
    assert_eq!(history.current_url(), Some("https://2.com"));
}

#[test]
fn test_can_go_back_forward_edge_cases() {
    let mut history = TabHistory::new();

    assert!(!history.can_go_back());
    assert!(!history.can_go_forward());

    history.push("https://a.com".to_string(), None);
    assert!(!history.can_go_back());
    assert!(!history.can_go_forward());

    history.push("https://b.com".to_string(), None);
    assert!(history.can_go_back());
    assert!(!history.can_go_forward());

    history.go_back();
    assert!(!history.can_go_back());
    assert!(history.can_go_forward());
}

#[test]
fn test_entries_access() {
    let mut history = TabHistory::new();
    history.push("https://a.com".to_string(), Some("A".to_string()));
    history.push("https://b.com".to_string(), Some("B".to_string()));

    let entries = history.entries();
    assert_eq!(entries.len(), 2);
    assert_eq!(entries[0].url, "https://a.com");
    assert_eq!(entries[1].url, "https://b.com");
}

#[test]
fn test_current_index() {
    let mut history = TabHistory::new();
    assert_eq!(history.current_index(), None);

    history.push("https://a.com".to_string(), None);
    assert_eq!(history.current_index(), Some(0));

    history.push("https://b.com".to_string(), None);
    assert_eq!(history.current_index(), Some(1));

    history.go_back();
    assert_eq!(history.current_index(), Some(0));

    history.go_forward();
    assert_eq!(history.current_index(), Some(1));
}

#[test]
fn back_then_forward_restores_the_current_entry() {
    let mut history = TabHistory::new();
    history.push("https://a.com".to_string(), None);
    history.push("https://b.com".to_string(), Some("B".to_string()));
    history.push("https://c.com".to_string(), None);
    history.go_back();

    let before = (history.current_index(), urls(&history));
    assert!(history.go_back().is_some());
    assert!(history.go_forward().is_some());
    assert_eq!((history.current_index(), urls(&history)), before);
    assert_eq!(history.current_url(), Some("https://b.com"));
    assert_eq!(history.current_title(), Some("B"));
}

#[test]
fn forward_then_back_restores_the_current_entry() {
    let mut history = TabHistory::new();
    history.push("https://a.com".to_string(), None);
    history.push("https://b.com".to_string(), None);
    history.go_back();

    assert_eq!(history.go_forward().unwrap().url, "https://b.com");
    assert_eq!(history.go_back().unwrap().url, "https://a.com");
    assert_eq!(history.current_index(), Some(0));
}

#[test]
fn back_on_first_entry_then_forward_moves_on() {
    let mut history = TabHistory::new();
    history.push("https://a.com".to_string(), None);
    history.push("https://b.com".to_string(), None);
    history.go_back();

    assert!(history.go_back().is_none());
    assert_eq!(history.current_url(), Some("https://a.com"));
    assert_eq!(history.go_forward().unwrap().url, "https://b.com");
}

#[test]
fn back_and_forward_on_empty_history_do_nothing() {
    let mut history = TabHistory::new();
    assert!(history.go_back().is_none());
    assert!(history.go_forward().is_none());
    assert!(history.is_empty());
    assert_eq!(history.current_index(), None);
    assert_eq!(history.current_url(), None);
    assert_eq!(history.current_title(), None);
}

#[test]
fn push_from_first_entry_keeps_only_the_first() {
    let mut history = TabHistory::new();
    history.push("https://a.com".to_string(), None);
    history.push("https://b.com".to_string(), None);
    history.push("https://c.com".to_string(), None);
    history.go_back();
    history.go_back();

    history.push("https://d.com".to_string(), None);
    assert_eq!(urls(&history), vec!["https://a.com", "https://d.com"]);
    assert_eq!(history.current_index(), Some(1));
}

#[test]
fn push_at_last_entry_discards_nothing() {
    let mut history = TabHistory::new();
    history.push("https://a.com".to_string(), None);
    history.push("https://b.com".to_string(), None);
    history.push("https://c.com".to_string(), None);
    assert_eq!(urls(&history), vec!["https://a.com", "https://b.com", "https://c.com"]);
    assert_eq!(history.current_index(), Some(2));
}

#[test]
fn browsing_scenario_leaves_exactly_a_b_d() {
    let mut history = TabHistory::new();
    history.push("a.com".to_string(), None);
    history.push("b.com".to_string(), None);
    history.push("c.com".to_string(), None);

    history.go_back();
    history.go_back();
    assert_eq!(history.current_url(), Some("a.com"));
    assert!(history.can_go_forward());

    assert_eq!(history.go_forward().unwrap().url, "b.com");

    history.push("d.com".to_string(), None);
    assert_eq!(urls(&history), vec!["a.com", "b.com", "d.com"]);
    assert_eq!(history.current_url(), Some("d.com"));
    assert!(!history.can_go_forward());
    history.go_back();
    history.go_forward();
    assert_eq!(history.current_url(), Some("d.com"));
}

#[test]
fn title_of_current_entry_may_be_missing() {
    let mut history = TabHistory::new();
    history.push("https://a.com".to_string(), None);
    assert_eq!(history.current_url(), Some("https://a.com"));
    assert_eq!(history.current_title(), None);
}

#[test]
fn entry_keeps_what_it_was_made_of() {
    let entry = HistoryEntry::new("https://a.com".to_string(), Some("A".to_string()));
    assert_eq!(entry.url, "https://a.com");
    assert_eq!(entry.title, Some("A".to_string()));
    let copy = entry.clone();
    assert_eq!(copy.url, entry.url);
    assert_eq!(copy.title, entry.title);
    assert_eq!(copy.visit_time, entry.visit_time);
}

#[test]
fn entries_are_stamped_in_order() {
    let mut history = TabHistory::new();
    history.push("https://a.com".to_string(), None);
    history.push("https://b.com".to_string(), None);
    let entries = history.entries();
    assert!(entries[0].visit_time <= entries[1].visit_time);
}

#[test]
fn clone_and_default_of_history() {
    let mut history = TabHistory::new();
    history.push("https://a.com".to_string(), None);
    history.push("https://b.com".to_string(), None);
    history.go_back();
    let copy = history.clone();
    assert_eq!(urls(&copy), urls(&history));
    assert_eq!(copy.current_index(), Some(0));
    assert!(TabHistory::default().is_empty());
}
