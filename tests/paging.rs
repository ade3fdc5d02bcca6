use task_api::paging::{page_window, MAX_PARAM};
use task_api::schema::FilterOptions;

#[test]
fn window_defaults_to_first_page_of_ten() {
    let w = page_window(&FilterOptions { page: None, limit: None });
    assert_eq!(w.limit, 10);
    assert_eq!(w.offset, 0);
}

#[test]
fn window_second_page_of_five_skips_five() {
    let w = page_window(&FilterOptions { page: Some(2), limit: Some(5) });
    assert_eq!(w.limit, 5);
    assert_eq!(w.offset, 5);
}

#[test]
fn window_page_zero_is_first_page() {
    let w = page_window(&FilterOptions { page: Some(0), limit: Some(7) });
    assert_eq!(w.limit, 7);
    assert_eq!(w.offset, 0);
}

#[test]
fn window_offset_formula() {
    let w = page_window(&FilterOptions { page: Some(4), limit: None });
    assert_eq!(w.offset, 30);
    let w = page_window(&FilterOptions { page: Some(3), limit: Some(0) });
    assert_eq!(w.limit, 0);
    assert_eq!(w.offset, 0);
}

#[test]
fn window_caps_huge_values() {
    let w = page_window(&FilterOptions { page: Some(usize::MAX), limit: Some(usize::MAX) });
    assert_eq!(w.limit, MAX_PARAM);
    assert_eq!(w.offset, MAX_PARAM);
    assert_eq!(MAX_PARAM, i64::MAX as u64);
}
