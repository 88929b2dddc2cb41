use rhstring::growth::next_capacity;

#[test]
fn capacity_stays_while_the_need_fits() {
    assert_eq!(next_capacity(8, 0), 8);
    assert_eq!(next_capacity(8, 7), 8);
    assert_eq!(next_capacity(8, 8), 8);
    assert_eq!(next_capacity(0, 0), 0);
}

#[test]
fn capacity_doubles_when_that_is_enough() {
    assert_eq!(next_capacity(8, 9), 16);
    assert_eq!(next_capacity(8, 16), 16);
    assert_eq!(next_capacity(1, 2), 2);
    assert_eq!(next_capacity(3, 5), 6);
}

#[test]
fn capacity_jumps_to_the_need_when_doubling_falls_short() {
    assert_eq!(next_capacity(8, 17), 17);
    assert_eq!(next_capacity(1, 3), 3);
    assert_eq!(next_capacity(0, 1), 1);
}

#[test]
fn capacity_near_the_largest_size_does_not_wrap() {
    let half = usize::MAX / 2;
    assert_eq!(next_capacity(half, half + 1), half * 2);
    assert_eq!(next_capacity(half + 1, half + 2), half + 2);
    assert_eq!(next_capacity(half + 1, usize::MAX), usize::MAX);
    assert_eq!(next_capacity(usize::MAX, usize::MAX), usize::MAX);
}
