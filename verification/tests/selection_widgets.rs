use material_ui::button::MaterialButton;
use material_ui::button_group::{
    apply_toggle_plan, segment_border_radius, ButtonGroupBuilder, ButtonGroupOrientation,
    CornerRadii, FlexDirection, MaterialButtonGroup,
};
use material_ui::list::{
    ListBuilder, ListItemBuilder, ListItemClickEvent, ListItemVariant, ListSelectionMode, MaterialList,
    MaterialListItem,
};
use material_ui::radio::{deselect_group_peers, MaterialRadio, RadioBuilder, RadioGroup};
use material_ui::style::{ColorRole, Interaction, Paint, Rounding};

fn toggles(n: usize) -> Vec<MaterialButton> {
    (0..n).map(|i| MaterialButton::new(&format!("b{i}")).checkable(true)).collect()
}

fn checked(buttons: &[MaterialButton]) -> Vec<bool> {
    buttons.iter().map(|b| b.checked).collect()
}

#[test]
fn single_selection_group_keeps_one() {
    let group = ButtonGroupBuilder::new().single_selection(true).build();
    let mut buttons = toggles(3);
    group.toggle_pressed(&mut buttons, &vec![0]);
    assert_eq!(checked(&buttons), vec![true, false, false]);
    group.toggle_pressed(&mut buttons, &vec![2]);
    assert_eq!(checked(&buttons), vec![false, false, true]);
    group.toggle_pressed(&mut buttons, &vec![2]);
    assert_eq!(checked(&buttons), vec![false, false, false]);
}

#[test]
fn required_selection_refuses_last_uncheck() {
    let group = MaterialButtonGroup::new().single_selection(true).selection_required(true);
    let mut buttons = toggles(2);
    group.toggle_pressed(&mut buttons, &vec![1]);
    group.toggle_pressed(&mut buttons, &vec![1]);
    assert_eq!(checked(&buttons), vec![false, true]);
    let multi = MaterialButtonGroup::new().selection_required(true);
    let mut b = toggles(2);
    multi.toggle_pressed(&mut b, &vec![0]);
    multi.toggle_pressed(&mut b, &vec![1]);
    assert_eq!(checked(&b), vec![true, true]);
    multi.toggle_pressed(&mut b, &vec![0]);
    assert_eq!(checked(&b), vec![false, true]);
    multi.toggle_pressed(&mut b, &vec![1]);
    assert_eq!(checked(&b), vec![false, true]);
}

#[test]
fn presses_in_one_frame_are_judged_on_the_old_state() {
    let multi = MaterialButtonGroup::new().selection_required(true);
    let mut b = toggles(2);
    b[0].checked = true;
    b[1].checked = true;
    multi.toggle_pressed(&mut b, &vec![0, 1]);
    assert_eq!(checked(&b), vec![false, false]);
}

#[test]
fn disabled_and_plain_buttons_ignore_presses() {
    let group = MaterialButtonGroup::new();
    let mut b = vec![MaterialButton::new("x"), MaterialButton::new("y").checkable(true).disabled(true)];
    group.toggle_pressed(&mut b, &vec![0, 1, 7]);
    assert_eq!(checked(&b), vec![false, false]);
    assert_eq!(group.plan_toggle(&b, 0), None);
}

#[test]
fn plan_application() {
    let group = MaterialButtonGroup::new().single_selection(true);
    let mut b = toggles(3);
    b[1].checked = true;
    let plan = group.plan_toggle(&b, 2).unwrap();
    assert!(plan.uncheck_others);
    apply_toggle_plan(&mut b, plan);
    assert_eq!(checked(&b), vec![false, false, true]);
}

#[test]
fn segment_corners() {
    let r = Rounding::Full;
    let z = Rounding::Px(0);
    assert_eq!(
        segment_border_radius(ButtonGroupOrientation::Horizontal, 0, 1, r),
        CornerRadii { top_left: r, top_right: r, bottom_left: r, bottom_right: r }
    );
    assert_eq!(
        segment_border_radius(ButtonGroupOrientation::Horizontal, 0, 3, r),
        CornerRadii { top_left: r, top_right: z, bottom_left: r, bottom_right: z }
    );
    assert_eq!(
        segment_border_radius(ButtonGroupOrientation::Vertical, 2, 3, r),
        CornerRadii { top_left: z, top_right: z, bottom_left: r, bottom_right: r }
    );
    assert_eq!(
        segment_border_radius(ButtonGroupOrientation::Horizontal, 1, 3, r),
        CornerRadii { top_left: z, top_right: z, bottom_left: z, bottom_right: z }
    );
    let group = MaterialButtonGroup::new();
    let buttons = vec![
        MaterialButton::new("a").checkable(true).corner_radius(4),
        MaterialButton::new("b"),
        MaterialButton::new("c").checkable(true),
    ];
    let radii = group.corner_radii(&buttons);
    assert_eq!(radii[1], None);
    assert_eq!(radii[0].unwrap().top_left, Rounding::Px(4));
    assert_eq!(radii[0].unwrap().top_right, z);
    assert_eq!(radii[2].unwrap().top_right, Rounding::Full);
}

#[test]
fn group_layout() {
    let l = MaterialButtonGroup::new().vertical().spacing(6).layout();
    assert_eq!(l.direction, FlexDirection::Column);
    assert_eq!((l.column_gap, l.row_gap), (0, 6));
    let h = ButtonGroupBuilder::new().horizontal().spacing(3).build().layout();
    assert_eq!((h.direction, h.column_gap, h.row_gap), (FlexDirection::Row, 3, 0));
    assert_eq!(MaterialButtonGroup::default().orientation, ButtonGroupOrientation::Horizontal);
}

#[test]
fn radio_group_exclusivity() {
    let mut radios = vec![
        MaterialRadio::new().group("g").selected(true),
        MaterialRadio::new().group("g"),
        MaterialRadio::new().group("other").selected(true),
        MaterialRadio::new().selected(true),
    ];
    let change = radios[1].apply_interaction(21, Interaction::Pressed).unwrap();
    assert!(change.selected);
    assert_eq!(change.entity, 21);
    assert_eq!(change.group.as_deref(), Some("g"));
    deselect_group_peers(&mut radios, 1, change.group.as_deref());
    let selected: Vec<bool> = radios.iter().map(|r| r.selected).collect();
    assert_eq!(selected, vec![false, true, true, true]);
    assert!(radios[1].apply_interaction(21, Interaction::Pressed).is_none());
}

#[test]
fn radio_paints() {
    let r = RadioBuilder::new().selected(true).build();
    assert_eq!(r.outer_color(), Paint::Solid(ColorRole::Primary));
    assert_eq!(r.dot_color(), Paint::Solid(ColorRole::Primary));
    let off = MaterialRadio::new().disabled(true);
    assert_eq!(off.outer_color(), Paint::Faded(ColorRole::OnSurface, 38));
    assert_eq!(off.dot_color(), Paint::Transparent);
    assert_eq!(RadioGroup::new("g").selected, None);
}

#[test]
fn list_selection_modes() {
    let mut items: Vec<MaterialListItem> =
        (0..3).map(|i| MaterialListItem::new(&format!("i{i}"))).collect();
    let single = MaterialList::new().with_selection_mode(ListSelectionMode::Single);
    single.apply_click(&mut items, 1);
    single.apply_click(&mut items, 2);
    assert_eq!(items.iter().map(|i| i.selected).collect::<Vec<_>>(), vec![false, false, true]);
    let multi = MaterialList::new().with_selection_mode(ListSelectionMode::Multi);
    multi.apply_click(&mut items, 0);
    multi.apply_click(&mut items, 2);
    assert_eq!(items.iter().map(|i| i.selected).collect::<Vec<_>>(), vec![true, false, false]);
    MaterialList::new().apply_click(&mut items, 1);
    assert!(!items[1].selected);
}

#[test]
fn list_items_and_builders() {
    let mut item = MaterialListItem::new("Inbox").supporting_text("3 new").selected(true);
    assert_eq!(item.background_color(), Paint::Solid(ColorRole::SecondaryContainer));
    assert_eq!(item.apply_interaction(30, Interaction::Pressed), Some(ListItemClickEvent { entity: 30 }));
    assert_eq!(
        item.background_color(),
        Paint::Layered(ColorRole::SecondaryContainer, ColorRole::OnSurface, 12)
    );
    assert_eq!(ListItemVariant::ThreeLine.height(), 88);
    let parts = ListItemBuilder::new("x").two_line().build();
    assert_eq!(parts.height, 72);
    let scroll = ListBuilder::new().max_visible_items(3).hide_scrollbar().build_scrollable();
    assert_eq!(scroll.max_height, Some(168));
    assert!(!scroll.show_scrollbar);
    let tall = ListBuilder::new().max_visible_items_variant(2, ListItemVariant::TwoLine).build_scrollable();
    assert_eq!(tall.max_height, Some(144));
    let disabled = MaterialListItem::new("x").disabled(true);
    assert_eq!(disabled.headline_color(), Paint::Faded(ColorRole::OnSurface, 38));
}
