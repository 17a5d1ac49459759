use keytui::container::RecordContainer;
use keytui::records::{DetailLevel, Record};

fn record(id: &str, primary: &[&str], secondary: &[&str]) -> Record {
    Record {
        id: id.to_string(),
        fingerprint: format!("{}fpr", id),
        user_id: format!("{}@example.org", id),
        primary: primary.iter().map(|s| s.to_string()).collect(),
        secondary: secondary.iter().map(|s| s.to_string()).collect(),
        detail: DetailLevel::Minimum,
    }
}

fn three_records() -> Vec<Record> {
    vec![
        record("aa11", &["[sc--] rsa3072/aa11"], &["alice@example.org"]),
        record("bb22", &["[sc--] rsa4096/bb22"], &["bob@example.org"]),
        record("cc33", &["[e---] ed25519/cc33"], &["carol@example.org"]),
    ]
}

#[test]
fn navigation_stays_in_bounds_for_any_step() {
    let mut c = RecordContainer::with_items(three_records());
    for step in [0usize, 1, 2, 3, 1000, usize::MAX] {
        c.advance(step);
        let i = c.cursor.unwrap();
        assert!(i < c.items.len());
        c.retreat(step);
        let j = c.cursor.unwrap();
        assert!(j < c.items.len());
    }
    c.advance(1);
    assert_eq!(c.cursor, Some(1));
    c.advance(usize::MAX);
    assert_eq!(c.cursor, Some(2));
    c.retreat(1);
    assert_eq!(c.cursor, Some(1));
    c.retreat(usize::MAX);
    assert_eq!(c.cursor, Some(0));
}

#[test]
fn navigation_on_empty_container_is_a_no_op() {
    let mut c = RecordContainer::with_items(Vec::new());
    assert_eq!(c.cursor, None);
    c.advance(5);
    c.retreat(5);
    c.select_first();
    c.select_last();
    assert_eq!(c.cursor, None);
    assert!(c.selected().is_none());
}

#[test]
fn selection_change_resets_the_scroll() {
    let mut c = RecordContainer::with_items(three_records());
    c.set_max_scroll(10);
    c.scroll_down(4);
    assert_eq!(c.scroll, 4);
    c.advance(0);
    assert_eq!(c.scroll, 4);
    c.advance(1);
    assert_eq!(c.scroll, 0);
}

#[test]
fn scrolling_saturates_at_the_bounds() {
    let mut c = RecordContainer::with_items(three_records());
    c.set_max_scroll(3);
    c.scroll_down(100);
    assert_eq!(c.scroll, 3);
    c.scroll_up(1);
    assert_eq!(c.scroll, 2);
    c.scroll_up(100);
    assert_eq!(c.scroll, 0);
    c.scroll_down(2);
    c.set_max_scroll(1);
    assert_eq!(c.scroll, 1);
}

#[test]
fn filtering_is_case_insensitive_and_keeps_order() {
    let mut c = RecordContainer::with_items(three_records());
    c.apply_filter(false, "EXAMPLE.ORG");
    assert_eq!(c.items.len(), 3);
    c.apply_filter(false, "RSA");
    assert_eq!(c.items.len(), 2);
    assert_eq!(c.items[0].id, "aa11");
    assert_eq!(c.items[1].id, "bb22");
    assert_eq!(c.cursor, Some(0));
}

#[test]
fn clearing_the_filter_restores_the_default_items() {
    let mut c = RecordContainer::with_items(three_records());
    for query in ["bob", "", "nothing matches this"] {
        c.apply_filter(false, query);
        c.clear_filter();
        assert_eq!(c.items.len(), 3);
        assert_eq!(c.items[0].id, "aa11");
        assert_eq!(c.items[1].id, "bb22");
        assert_eq!(c.items[2].id, "cc33");
    }
}

#[test]
fn a_non_matching_filter_leaves_an_empty_visible_set() {
    let mut c = RecordContainer::with_items(three_records());
    c.apply_filter(false, "zzz");
    assert_eq!(c.items.len(), 0);
    assert_eq!(c.cursor, None);
    assert!(c.selected().is_none());
    c.clear_filter();
    assert_eq!(c.items.len(), 3);
}

#[test]
fn replace_resets_selection_and_scroll() {
    let mut c = RecordContainer::with_items(three_records());
    c.advance(2);
    c.set_max_scroll(5);
    c.scroll_down(3);
    c.replace(vec![record("dd44", &["[sc--] rsa2048/dd44"], &["dave@example.org"])]);
    assert_eq!(c.cursor, Some(0));
    assert_eq!(c.scroll, 0);
    assert_eq!(c.items.len(), 1);
    c.replace(Vec::new());
    assert_eq!(c.cursor, None);
}
