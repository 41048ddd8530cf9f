use jump::number::NumberMode;

#[test]
fn test_number_mode_new() {
    let mode = NumberMode::new(10);
    assert_eq!(mode.current_number, 0);
    assert_eq!(mode.max_number, 9);
    assert!(!mode.is_complete);
}

#[test]
fn test_add_digit() {
    let mut mode = NumberMode::new(10);
    mode.add_digit(5);
    assert_eq!(mode.current_number, 5);
    mode.add_digit(2);
    assert_eq!(mode.current_number, 52);
}

#[test]
fn test_backspace() {
    let mut mode = NumberMode::new(10);
    mode.add_digit(5);
    mode.add_digit(2);
    assert_eq!(mode.current_number, 52);
    mode.backspace();
    assert_eq!(mode.current_number, 5);
    mode.backspace();
    assert_eq!(mode.current_number, 0);
}

#[test]
fn test_selected_index() {
    let mut mode = NumberMode::new(10);
    mode.add_digit(1);
    assert_eq!(mode.selected_index(), Some(0));
    mode.reset();
    mode.add_digit(5);
    assert_eq!(mode.selected_index(), Some(4));
}

#[test]
fn test_selected_index_zero() {
    let mode = NumberMode::new(10);
    assert_eq!(mode.selected_index(), Some(9)); // 0 selects last
}

#[test]
fn test_selected_index_out_of_range() {
    let mut mode = NumberMode::new(5);
    mode.add_digit(9);
    assert!(mode.selected_index().is_none()); // 9 > max 4
}

#[test]
fn test_confirm() {
    let mut mode = NumberMode::new(10);
    mode.add_digit(3);
    assert_eq!(mode.confirm(), Some(2));
    assert!(mode.is_complete);
}

#[test]
fn test_display_string() {
    let mut mode = NumberMode::new(10);
    assert_eq!(mode.display_string(), "_");
    mode.add_digit(5);
    assert_eq!(mode.display_string(), "5");
}

#[test]
fn digits_three_then_four_make_thirty_four() {
    let mut mode = NumberMode::new(50);
    mode.add_digit(3);
    mode.add_digit(4);
    assert_eq!(mode.current_number, 34);
    assert_eq!(mode.selected_index(), Some(33));
    assert_eq!(mode.display_string(), "34");
}

#[test]
fn confirm_twice_gives_the_same_answer() {
    let mut mode = NumberMode::new(10);
    mode.add_digit(7);
    let first = mode.confirm();
    let second = mode.confirm();
    assert_eq!(first, Some(6));
    assert_eq!(first, second);
    assert_eq!(mode.current_number, 7);
}

#[test]
fn at_most_three_digits_are_kept() {
    let mut mode = NumberMode::new(2000);
    for d in [1u8, 2, 3, 4, 5] {
        mode.add_digit(d);
    }
    assert_eq!(mode.current_number, 123);
    assert_eq!(mode.display_string(), "123");
}

#[test]
fn backspace_after_confirm_only_reopens() {
    let mut mode = NumberMode::new(10);
    mode.add_digit(4);
    mode.confirm();
    mode.add_digit(2);
    assert_eq!(mode.current_number, 4);
    mode.backspace();
    assert!(!mode.is_complete);
    assert_eq!(mode.current_number, 4);
    mode.backspace();
    assert_eq!(mode.current_number, 0);
}

#[test]
fn empty_and_single_lists() {
    let empty = NumberMode::new(0);
    assert_eq!(empty.selected_index(), None);
    assert!(!empty.is_valid_selection());
    let mut one = NumberMode::new(1);
    assert_eq!(one.selected_index(), Some(0));
    one.add_digit(1);
    assert_eq!(one.selected_index(), Some(0));
    one.add_digit(0);
    assert_eq!(one.selected_index(), None);
}
