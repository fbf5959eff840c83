use daily_dashboard::config::{enabled_tabs, tab_names, TabConfig};
use daily_dashboard::tabstate::TabsState;

fn tab(name: &str, enabled: bool) -> TabConfig {
    TabConfig {
        name: name.to_string(),
        command: "echo".to_string(),
        color: None,
        env: Vec::new(),
        enabled,
        args: vec![name.to_string()],
    }
}

#[test]
fn disabled_tabs_never_reach_the_titles() {
    let tabs = vec![
        tab("Alpha", true),
        tab("Hidden", false),
        tab("Beta", true),
        tab("Gone", false),
        tab("Gamma", true),
    ];
    let kept = enabled_tabs(tabs);
    let names = tab_names(&kept);
    assert_eq!(
        names,
        vec![
            "Alpha".to_string(),
            "Beta".to_string(),
            "Gamma".to_string()
        ]
    );
    let state = TabsState::new(names);
    assert_eq!(
        state.titles,
        vec![
            "1.Alpha".to_string(),
            "2.Beta".to_string(),
            "3.Gamma".to_string()
        ]
    );
    assert!(!state.titles.iter().any(|t| t.contains("Hidden")));
    assert!(!state.titles.iter().any(|t| t.contains("Gone")));
}

#[test]
fn enabled_tabs_keep_order_and_fields() {
    let tabs = vec![tab("One", true), tab("Two", false), tab("Three", true)];
    let kept = enabled_tabs(tabs);
    assert_eq!(kept.len(), 2);
    assert_eq!(kept[0].name, "One".to_string());
    assert_eq!(kept[0].args, vec!["One".to_string()]);
    assert_eq!(kept[1].name, "Three".to_string());
}

#[test]
fn tab_names_follow_original_order() {
    let tabs = vec![tab("B", true), tab("A", true)];
    let names = tab_names(&tabs);
    assert_eq!(names, vec!["B".to_string(), "A".to_string()]);
}
