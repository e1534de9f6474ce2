use std::cell::RefCell;
use zaindari::config::find_config_path;

fn candidates() -> Vec<String> {
    vec![
        "/repo/crates/app/zaindari.toml".to_string(),
        "/repo/crates/zaindari.toml".to_string(),
        "/repo/zaindari.toml".to_string(),
        "/zaindari.toml".to_string(),
    ]
}

#[test]
fn the_nearest_config_wins_and_farther_ones_are_not_asked() {
    let asked = RefCell::new(Vec::new());
    let found = find_config_path(&candidates(), |c: &String| {
        asked.borrow_mut().push(c.clone());
        c == "/repo/zaindari.toml" || c == "/zaindari.toml"
    });
    assert_eq!(found.as_deref(), Some("/repo/zaindari.toml"));
    assert_eq!(asked.borrow().len(), 3);
}

#[test]
fn no_config_anywhere_is_none() {
    assert_eq!(find_config_path(&candidates(), |_c: &String| false), None);
    assert_eq!(find_config_path(&Vec::new(), |_c: &String| true), None);
    assert_eq!(
        find_config_path(&candidates(), |_c: &String| true).as_deref(),
        Some("/repo/crates/app/zaindari.toml")
    );
}
