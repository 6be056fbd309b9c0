use textutils::paging::page_bounds;

#[test]
fn page_bounds_of_twenty_five_lines() {
    assert_eq!(page_bounds(25, 10, 0), (0, 10));
    assert_eq!(page_bounds(25, 10, 1), (10, 10));
    assert_eq!(page_bounds(25, 10, 2), (20, 5));
    assert_eq!(page_bounds(25, 10, 3), (25, 0));
}

#[test]
fn page_bounds_on_an_exact_multiple() {
    assert_eq!(page_bounds(20, 10, 1), (10, 10));
    assert_eq!(page_bounds(20, 10, 2), (20, 0));
}

#[test]
fn page_bounds_at_the_limits() {
    assert_eq!(page_bounds(0, 10, 0), (0, 0));
    assert_eq!(page_bounds(5, 0, 0), (0, 0));
    assert_eq!(page_bounds(5, 0, 3), (0, 0));
    assert_eq!(page_bounds(5, usize::MAX, usize::MAX), (5, 0));
    assert_eq!(page_bounds(usize::MAX, usize::MAX, 1), (usize::MAX, 0));
    assert_eq!(page_bounds(usize::MAX, usize::MAX, 0), (0, usize::MAX));
    assert_eq!(page_bounds(usize::MAX, 1, usize::MAX - 1), (usize::MAX - 1, 1));
}
