use daily_dashboard::tabstate::TabsState;

fn three_tabs() -> TabsState {
    TabsState::new(vec![
        "Alpha".to_string(),
        "Beta".to_string(),
        "Gamma".to_string(),
    ])
}

#[test]
fn new_labels_and_initial_index() {
    let state = three_tabs();
    assert_eq!(
        state.titles,
        vec![
            "1.Alpha".to_string(),
            "2.Beta".to_string(),
            "3.Gamma".to_string()
        ]
    );
    assert_eq!(state.index, 0);
}

#[test]
fn scenario_next_wraps_and_previous() {
    let mut state = three_tabs();
    state.next();
    assert_eq!(state.index, 1);
    state.next();
    assert_eq!(state.index, 2);
    state.next();
    assert_eq!(state.index, 0);
    state.previous();
    assert_eq!(state.index, 2);
}

#[test]
fn next_then_previous_at_both_boundaries() {
    let mut state = three_tabs();
    state.next();
    state.previous();
    assert_eq!(state.index, 0);
    state.previous();
    state.next();
    assert_eq!(state.index, 0);
    state.jump(3);
    assert_eq!(state.index, 2);
    state.next();
    state.previous();
    assert_eq!(state.index, 2);
    state.previous();
    state.next();
    assert_eq!(state.index, 2);
}

#[test]
fn next_cycles_back_to_origin() {
    let mut state = three_tabs();
    state.jump(2);
    assert_eq!(state.index, 1);
    state.next();
    state.next();
    state.next();
    assert_eq!(state.index, 1);
}

#[test]
fn jump_in_range_selects_tab() {
    let mut state = three_tabs();
    state.jump(2);
    assert_eq!(state.index, 1);
    state.jump(1);
    assert_eq!(state.index, 0);
    state.jump(3);
    assert_eq!(state.index, 2);
}

#[test]
fn jump_out_of_range_clamps_to_last() {
    let mut state = three_tabs();
    state.jump(2);
    assert_eq!(state.index, 1);
    state.jump(9);
    assert_eq!(state.index, 2);
}

#[test]
fn single_tab_navigation_stays_put() {
    let mut state = TabsState::new(vec!["Only".to_string()]);
    assert_eq!(state.titles, vec!["1.Only".to_string()]);
    state.next();
    assert_eq!(state.index, 0);
    state.previous();
    assert_eq!(state.index, 0);
    state.jump(5);
    assert_eq!(state.index, 0);
}

#[test]
fn labels_with_two_digit_positions() {
    let names: Vec<String> = (1..=12).map(|i| format!("T{}", i)).collect();
    let state = TabsState::new(names);
    assert_eq!(state.titles[0], "1.T1".to_string());
    assert_eq!(state.titles[9], "10.T10".to_string());
    assert_eq!(state.titles[11], "12.T12".to_string());
}
