use klippy::clipboard::{hash_image, paste, paste_target, MonitorState};
use klippy::events::{handle_event, AppEvent, Reaction};
use klippy::menu::{format_item_label, menu_labels};
use klippy::storage::{ClipboardContent, ClipboardItem, ClipboardStorage, MAX_ITEMS};
use std::time::SystemTime;

fn text_of(item: &ClipboardItem) -> String {
    match &item.content {
        ClipboardContent::Text(t) => t.clone(),
        ClipboardContent::Image(_) => panic!("expected a text item"),
    }
}

fn texts(storage: &ClipboardStorage) -> Vec<String> {
    storage.get_all().iter().map(text_of).collect()
}

fn text_item(s: &str) -> ClipboardItem {
    ClipboardItem { content: ClipboardContent::Text(s.to_string()), timestamp: SystemTime::now() }
}

#[test]
fn new_store_is_empty() {
    let s = ClipboardStorage::new();
    assert_eq!(s.len(), 0);
    assert!(s.get_all().is_empty());
}

#[test]
fn add_puts_newest_first() {
    let mut s = ClipboardStorage::new();
    s.add(ClipboardContent::Text("a".to_string()));
    s.add(ClipboardContent::Text("b".to_string()));
    assert_eq!(s.len(), 2);
    assert_eq!(texts(&s), vec!["b".to_string(), "a".to_string()]);
}

#[test]
fn store_does_not_dedup() {
    let mut s = ClipboardStorage::new();
    s.add(ClipboardContent::Text("same".to_string()));
    s.add(ClipboardContent::Text("same".to_string()));
    assert_eq!(s.len(), 2);
}

#[test]
fn capacity_holds_after_every_add() {
    let mut s = ClipboardStorage::new();
    for i in 0..120 {
        let t = format!("item{}", i);
        s.add(ClipboardContent::Text(t.clone()));
        assert!(s.len() <= MAX_ITEMS);
        assert_eq!(text_of(&s.get_all()[0]), t);
    }
    assert_eq!(s.len(), 50);
}

#[test]
fn fifty_one_items_evict_the_first() {
    let mut s = ClipboardStorage::new();
    for i in 0..51 {
        s.add(ClipboardContent::Text(format!("t{}", i)));
    }
    assert_eq!(s.len(), 50);
    let expected: Vec<String> = (1..51).rev().map(|i| format!("t{}", i)).collect();
    assert_eq!(texts(&s), expected);
}

#[test]
fn clear_resets_fully() {
    let mut s = ClipboardStorage::new();
    s.add(ClipboardContent::Text("x".to_string()));
    s.add(ClipboardContent::Image(vec![1, 2, 3]));
    s.clear();
    assert_eq!(s.len(), 0);
    assert!(s.get_all().is_empty());
}

#[test]
fn snapshot_twice_is_equal() {
    let mut s = ClipboardStorage::new();
    s.add(ClipboardContent::Text("one".to_string()));
    s.add(ClipboardContent::Text("two".to_string()));
    assert_eq!(texts(&s), texts(&s));
    assert_eq!(menu_labels(s.get_all()), menu_labels(s.get_all()));
}

#[test]
fn long_label_is_cut_at_fifty() {
    let text: String = "abcdefghij".repeat(6);
    assert_eq!(text.chars().count(), 60);
    let label = format_item_label(&text_item(&text), 0);
    assert_eq!(label, format!("{}...", &text[..50]));
}

#[test]
fn fifty_char_label_is_unchanged() {
    let text: String = "0123456789".repeat(5);
    assert_eq!(format_item_label(&text_item(&text), 3), text);
    assert_eq!(format_item_label(&text_item("short"), 0), "short");
    assert_eq!(format_item_label(&text_item(""), 0), "");
}

#[test]
fn label_replaces_line_breaks() {
    assert_eq!(format_item_label(&text_item("a\nb\r\nc"), 0), "a b  c");
}

#[test]
fn label_counts_characters_not_bytes() {
    let text: String = "é".repeat(51);
    let label = format_item_label(&text_item(&text), 0);
    assert_eq!(label, format!("{}...", "é".repeat(50)));
}

#[test]
fn label_cut_then_line_breaks_replaced() {
    let mut text = "\n".repeat(49);
    text.push_str("xy\rz");
    let label = format_item_label(&text_item(&text), 0);
    assert_eq!(label, format!("{}x...", " ".repeat(49)));
}

#[test]
fn image_label_is_placeholder() {
    let item = ClipboardItem { content: ClipboardContent::Image(vec![0, 1, 2, 3]), timestamp: SystemTime::now() };
    assert_eq!(format_item_label(&item, 0), "[Image]");
}

#[test]
fn menu_lists_at_most_twenty_five() {
    let mut s = ClipboardStorage::new();
    assert!(menu_labels(s.get_all()).is_empty());
    for i in 0..40 {
        s.add(ClipboardContent::Text(format!("line{}\nmore", i)));
    }
    let labels = menu_labels(s.get_all());
    assert_eq!(labels.len(), 25);
    assert_eq!(labels[0], "line39 more");
    assert_eq!(labels[24], "line15 more");
}

#[test]
fn new_text_is_recorded() {
    let mut state = MonitorState::new();
    let mut s = ClipboardStorage::new();
    assert!(state.observe_text(&mut s, "first".to_string()));
    assert_eq!(texts(&s), vec!["first".to_string()]);
    assert_eq!(state.last_text.as_deref(), Some("first"));
}

#[test]
fn same_text_again_is_not_handled() {
    let mut state = MonitorState::new();
    let mut s = ClipboardStorage::new();
    assert!(state.observe_text(&mut s, "x".to_string()));
    assert!(!state.observe_text(&mut s, "x".to_string()));
    assert_eq!(s.len(), 1);
}

#[test]
fn stored_text_is_not_recorded_again() {
    let mut s = ClipboardStorage::new();
    s.add(ClipboardContent::Text("hello".to_string()));
    let mut state = MonitorState { last_text: Some("other".to_string()), last_image_hash: None };
    assert!(state.observe_text(&mut s, "hello".to_string()));
    assert_eq!(state.last_text.as_deref(), Some("hello"));
    assert_eq!(s.len(), 1);
}

#[test]
fn near_duplicate_text_is_recorded() {
    let mut s = ClipboardStorage::new();
    s.add(ClipboardContent::Text("hello".to_string()));
    let mut state = MonitorState { last_text: Some("hello".to_string()), last_image_hash: None };
    assert!(state.observe_text(&mut s, "hello!".to_string()));
    assert_eq!(s.len(), 2);
    assert_eq!(texts(&s), vec!["hello!".to_string(), "hello".to_string()]);
}

#[test]
fn text_leaves_image_fingerprint_alone() {
    let mut s = ClipboardStorage::new();
    let mut state = MonitorState { last_text: None, last_image_hash: Some(7) };
    state.observe_text(&mut s, "t".to_string());
    assert_eq!(state.last_image_hash, Some(7));
}

#[test]
fn image_fingerprint_depends_on_bytes() {
    assert_eq!(hash_image(&[1, 2, 3]), hash_image(&[1, 2, 3]));
    assert_ne!(hash_image(&[1, 2, 3]), hash_image(&[1, 2, 4]));
    assert_ne!(hash_image(&[]), hash_image(&[0]));
}

#[test]
fn changed_images_are_always_recorded() {
    let mut s = ClipboardStorage::new();
    let mut state = MonitorState::new();
    assert!(state.observe_image(&mut s, vec![1, 1, 1, 1]));
    assert!(state.observe_image(&mut s, vec![2, 2, 2, 2]));
    assert!(state.observe_image(&mut s, vec![1, 1, 1, 1]));
    assert_eq!(s.len(), 3);
    assert_eq!(state.last_image_hash, Some(hash_image(&[1, 1, 1, 1])));
    match &s.get_all()[1].content {
        ClipboardContent::Image(b) => assert_eq!(b, &vec![2, 2, 2, 2]),
        ClipboardContent::Text(_) => panic!("expected an image"),
    }
}

#[test]
fn same_image_again_is_not_recorded() {
    let mut s = ClipboardStorage::new();
    let mut state = MonitorState::new();
    assert!(state.observe_image(&mut s, vec![9, 9]));
    assert!(!state.observe_image(&mut s, vec![9, 9]));
    assert_eq!(s.len(), 1);
    assert_eq!(state.last_text, None);
}

#[test]
fn out_of_range_paste_is_ignored() {
    let mut s = ClipboardStorage::new();
    for t in ["a", "b", "c"] {
        s.add(ClipboardContent::Text(t.to_string()));
    }
    assert!(matches!(paste(&s, 999), Ok(false)));
    assert!(matches!(paste(&s, 3), Ok(false)));
    assert_eq!(s.len(), 3);
}

#[test]
fn events_map_to_reactions() {
    let mut s = ClipboardStorage::new();
    for t in ["a", "b", "c"] {
        s.add(ClipboardContent::Text(t.to_string()));
    }
    assert_eq!(handle_event(&mut s, AppEvent::UpdateMenu), Reaction::RebuildMenu);
    assert_eq!(handle_event(&mut s, AppEvent::PasteItem(2)), Reaction::Paste(2));
    assert_eq!(handle_event(&mut s, AppEvent::PasteItem(999)), Reaction::Ignore);
    assert_eq!(handle_event(&mut s, AppEvent::Quit), Reaction::Exit);
    assert_eq!(s.len(), 3);
    assert_eq!(handle_event(&mut s, AppEvent::ClearAll), Reaction::RebuildMenu);
    assert_eq!(s.len(), 0);
    assert_eq!(handle_event(&mut s, AppEvent::PasteItem(0)), Reaction::Ignore);
}

#[test]
fn paste_target_picks_the_indexed_item() {
    let mut s = ClipboardStorage::new();
    for t in ["a", "b", "c"] {
        s.add(ClipboardContent::Text(t.to_string()));
    }
    match paste_target(&s, 1) {
        Some(ClipboardContent::Text(t)) => assert_eq!(t, "b"),
        _ => panic!("expected the text b"),
    }
    match paste_target(&s, 0) {
        Some(ClipboardContent::Text(t)) => assert_eq!(t, "c"),
        _ => panic!("expected the text c"),
    }
    assert!(paste_target(&s, 3).is_none());
    assert!(paste_target(&s, 999).is_none());
}

#[test]
fn cloned_item_keeps_content_and_time() {
    let item = text_item("kept");
    let copy = item.clone();
    assert_eq!(text_of(&copy), "kept");
    assert_eq!(copy.timestamp, item.timestamp);
}
