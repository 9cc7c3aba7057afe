use alloc_bench::layout::{check_power_of_two, Layout, LayoutError};

#[test]
fn power_of_two_accepts_powers() {
    assert!(check_power_of_two(1));
    assert!(check_power_of_two(2));
    assert!(check_power_of_two(4));
    assert!(check_power_of_two(8));
    assert!(check_power_of_two(1024));
    assert!(check_power_of_two(1usize << 40));
}

#[test]
fn power_of_two_rejects_others() {
    assert!(!check_power_of_two(0));
    assert!(!check_power_of_two(3));
    assert!(!check_power_of_two(6));
    assert!(!check_power_of_two(12));
    assert!(!check_power_of_two(usize::MAX));
}

#[test]
fn from_size_align_accepts_valid_pairs() {
    let l = Layout::from_size_align(16, 8).unwrap();
    assert_eq!(l.size, 16);
    assert_eq!(l.align, 8);
    let zero = Layout::from_size_align(0, 1).unwrap();
    assert_eq!(zero.size, 0);
    assert_eq!(zero.align, 1);
}

#[test]
fn from_size_align_rejects_invalid_pairs() {
    assert_eq!(Layout::from_size_align(8, 0), Err(LayoutError));
    assert_eq!(Layout::from_size_align(8, 3), Err(LayoutError));
    assert_eq!(Layout::from_size_align(usize::MAX, 2), Err(LayoutError));
    assert_eq!(Layout::from_size_align(isize::MAX as usize, 8), Err(LayoutError));
    assert!(Layout::from_size_align(isize::MAX as usize, 1).is_ok());
}
