use counter_duel::ui::selected_option;

#[test]
fn test_selected_option_in_range() {
    assert_eq!(selected_option(Some(1), 2), 0);
    assert_eq!(selected_option(Some(2), 2), 1);
}

#[test]
fn test_selected_option_out_of_range_picks_first() {
    assert_eq!(selected_option(Some(0), 2), 0);
    assert_eq!(selected_option(Some(3), 2), 0);
}

#[test]
fn test_selected_option_unparseable_picks_first() {
    assert_eq!(selected_option(None, 2), 0);
}
