use material_ui::telemetry::{
    button_group_test_ids, indexed_test_id, menu_divider_test_ids, part_test_id,
};

#[test]
fn part_ids() {
    assert_eq!(part_test_id("settings/accept", "box"), "settings/accept/box");
    assert_eq!(part_test_id("dlg", "scrim"), "dlg/scrim");
    assert_eq!(part_test_id("", "icon"), "/icon");
    assert_eq!(indexed_test_id("menu", "divider", 12), "menu/divider/12");
}

#[test]
fn button_group_ids_count_buttons_only() {
    let ids = button_group_test_ids("g", &vec![true, false, true, true]);
    assert_eq!(
        ids,
        vec![
            Some("g/button/0".to_string()),
            None,
            Some("g/button/1".to_string()),
            Some("g/button/2".to_string())
        ]
    );
    assert!(button_group_test_ids("g", &vec![]).is_empty());
}

#[test]
fn menu_divider_ids_count_from_one() {
    assert_eq!(menu_divider_test_ids("m", 3), vec!["m/divider/1", "m/divider/2", "m/divider/3"]);
    assert!(menu_divider_test_ids("m", 0).is_empty());
}
