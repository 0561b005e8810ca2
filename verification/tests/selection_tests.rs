use comrad::selection::{clamp, first, last, next, previous};

#[test]
fn next_moves_down_and_stops_at_the_last_row() {
    assert_eq!(next(0, 3), 1);
    assert_eq!(next(1, 3), 2);
    assert_eq!(next(2, 3), 2);
    assert_eq!(next(0, 1), 0);
}

#[test]
fn previous_moves_up_and_stops_at_the_first_row() {
    assert_eq!(previous(2, 3), 1);
    assert_eq!(previous(1, 3), 0);
    assert_eq!(previous(0, 3), 0);
}

#[test]
fn first_and_last_jump_to_the_ends() {
    assert_eq!(first(2, 3), 0);
    assert_eq!(first(0, 3), 0);
    assert_eq!(last(0, 3), 2);
    assert_eq!(last(2, 3), 2);
    assert_eq!(last(0, 1), 0);
}

#[test]
fn movements_do_nothing_in_an_empty_view() {
    assert_eq!(next(0, 0), 0);
    assert_eq!(previous(0, 0), 0);
    assert_eq!(first(0, 0), 0);
    assert_eq!(last(0, 0), 0);
}

#[test]
fn movements_stay_in_range_for_every_small_view() {
    for len in 1..6usize {
        for index in 0..len {
            assert!(next(index, len) < len);
            assert!(previous(index, len) < len);
            assert!(first(index, len) < len);
            assert!(last(index, len) < len);
        }
    }
}

#[test]
fn next_does_not_overflow_at_the_largest_index() {
    assert_eq!(next(usize::MAX, usize::MAX), usize::MAX);
    assert_eq!(next(usize::MAX - 1, usize::MAX), usize::MAX - 1);
}

#[test]
fn clamp_keeps_an_index_in_range_and_pulls_back_one_that_is_not() {
    assert_eq!(clamp(1, 3), 1);
    assert_eq!(clamp(2, 3), 2);
    assert_eq!(clamp(3, 3), 2);
    assert_eq!(clamp(9, 1), 0);
    assert_eq!(clamp(5, 0), 0);
    assert_eq!(clamp(0, 0), 0);
}
