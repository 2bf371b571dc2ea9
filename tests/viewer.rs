use dotplugs::viewer::{continue_search, TableCursor};

#[test]
fn next_page_only_where_there_is_one() {
    assert_eq!(continue_search(true, Some("c1".to_string())), Some("c1".to_string()));
    assert_eq!(continue_search(false, Some("c1".to_string())), None);
    assert_eq!(continue_search(true, None), None);
}

#[test]
fn cursor_wraps_downwards() {
    let mut c = TableCursor::new(3);
    c.move_down();
    assert_eq!(c.selected, 1);
    c.move_down();
    c.move_down();
    assert_eq!(c.selected, 0);
}

#[test]
fn cursor_wraps_upwards() {
    let mut c = TableCursor::new(3);
    c.move_up();
    assert_eq!(c.selected, 2);
    c.move_up();
    assert_eq!(c.selected, 1);
}

#[test]
fn cursor_on_one_row_stays() {
    let mut c = TableCursor::new(1);
    c.move_down();
    assert_eq!(c.selected, 0);
    c.move_up();
    assert_eq!(c.selected, 0);
}
