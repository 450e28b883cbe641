use material_ui::card::{CardBuilder, CardClickEvent, CardVariant, MaterialCard};
use material_ui::dialog::{
    create_dialog_scrim_for, DialogBuilder, DialogHeadline, DialogType, MaterialDialog,
    DIALOG_MAX_WIDTH,
};
use material_ui::fab::{FabBuilder, FabClickEvent, FabColor, FabSize, MaterialFab};
use material_ui::icon_button::{IconButtonBuilder, IconButtonClickEvent, IconButtonVariant, MaterialIconButton};
use material_ui::loading_indicator::LoadingShape;
use material_ui::menu::{
    create_menu_divider, menu_item_test_ids, MaterialMenu, MaterialMenuItem, MenuBuilder,
    MenuItemSelectEvent, MENU_MIN_WIDTH,
};
use material_ui::list::create_list_divider;
use material_ui::style::{ColorRole, CornerToken, DividerMargin, Elevation, Interaction, Length, Paint};

#[test]
fn cards() {
    let mut card = MaterialCard::new().with_variant(CardVariant::Filled).clickable();
    assert_eq!(card.background_color(), Paint::Solid(ColorRole::SurfaceContainerHighest));
    assert_eq!(card.apply_interaction(1, Interaction::Hovered), None);
    assert_eq!(card.apply_interaction(1, Interaction::Pressed), Some(CardClickEvent { entity: 1 }));
    card.apply_interaction(1, Interaction::Hovered);
    assert_eq!(card.elevation(), Elevation::Level1);
    assert_eq!(
        card.background_color(),
        Paint::Layered(ColorRole::SurfaceContainerHighest, ColorRole::OnSurface, 8)
    );
    let mut still = MaterialCard::new();
    assert_eq!(still.apply_interaction(2, Interaction::Pressed), None);
    assert!(!still.pressed);
    let parts = CardBuilder::new().outlined().padding(10).width(Length::Percent(50)).build();
    assert_eq!(parts.border_width, 1);
    assert_eq!(parts.border, Paint::Solid(ColorRole::OutlineVariant));
    assert_eq!(parts.padding, Some(10));
    assert_eq!(parts.shadow, Some(Elevation::Level0));
}

#[test]
fn dialogs() {
    let d = MaterialDialog::new().title("Hi").open(true);
    assert_eq!(d.shadow(), Some(Elevation::Level3));
    assert!(d.displayed() && d.scrim_displayed() && d.scrim_blocks_input());
    assert_eq!(d.scrim_color(), Paint::Faded(ColorRole::Scrim, 32));
    let b = DialogBuilder::new().title_key("dialog.title");
    match b.headline() {
        Some(DialogHeadline::Localized(k)) => assert_eq!(k, "dialog.title"),
        other => panic!("unexpected {:?}", other),
    }
    let parts = DialogBuilder::new().title("T").build();
    assert_eq!(parts.max_width, Some(DIALOG_MAX_WIDTH));
    assert!(!parts.displayed);
    let full = DialogBuilder::new().full_screen().build();
    assert_eq!(full.dialog.dialog_type, DialogType::FullScreen);
    assert_eq!(full.width, Length::Percent(100));
    assert!(full.square_corners);
    assert!(!create_dialog_scrim_for(false).blocks_input);
    assert!(DialogBuilder::new().headline().is_none());
}

#[test]
fn fabs() {
    let mut fab = MaterialFab::new("add").with_color(FabColor::Tertiary);
    assert_eq!(fab.content_color(), Paint::Solid(ColorRole::OnTertiaryContainer));
    assert_eq!(fab.apply_interaction(3, Interaction::Pressed), Some(FabClickEvent { entity: 3 }));
    assert_eq!(fab.elevation(), Elevation::Level3);
    assert_eq!(fab.apply_interaction(3, Interaction::Hovered), None);
    assert_eq!(fab.elevation(), Elevation::Level4);
    assert_eq!(FabSize::Large.size(), 96);
    assert_eq!(FabSize::Small.corner_radius(), CornerToken::Medium);
    let ext = FabBuilder::new("edit").extended("Compose").build();
    assert_eq!(ext.width, Length::Auto);
    assert_eq!(ext.min_width, Some(80));
    let small = FabBuilder::new("x").small().lowered().build();
    assert_eq!(small.width, Length::Px(40));
    assert_eq!(small.shadow, Elevation::Level1);
}

#[test]
fn icon_buttons() {
    let mut b = MaterialIconButton::new("fav").toggleable();
    assert_eq!(b.apply_interaction(4, Interaction::Pressed), Some(IconButtonClickEvent { entity: 4, selected: true }));
    assert!(b.selected);
    assert_eq!(b.apply_interaction(4, Interaction::Pressed), Some(IconButtonClickEvent { entity: 4, selected: false }));
    let filled = MaterialIconButton::new("x").with_variant(IconButtonVariant::Filled).selected(true);
    assert_eq!(filled.background_color(), Paint::Solid(ColorRole::Primary));
    assert_eq!(filled.icon_color(), Paint::Solid(ColorRole::OnPrimary));
    let outlined = IconButtonBuilder::new("x").outlined().build();
    assert_eq!(outlined.border_width, 1);
    assert_eq!(outlined.border, Paint::Solid(ColorRole::Outline));
    let off = IconButtonBuilder::new("x").filled_tonal().disabled(true).build();
    assert_eq!(off.background, Paint::Faded(ColorRole::OnSurface, 12));
}

#[test]
fn menus() {
    let m = MenuBuilder::new().open().build();
    assert_eq!(m.min_width, MENU_MIN_WIDTH);
    assert_eq!(m.menu.shadow(), Some(Elevation::Level2));
    assert!(!MaterialMenu::new().displayed());
    let mut item = MaterialMenuItem::new("More").submenu();
    assert_eq!(item.trailing_icon, Some("chevron_right".to_string()));
    assert_eq!(item.apply_interaction(5, Some(6), Interaction::Pressed), None);
    let mut plain = MaterialMenuItem::new("Copy").shortcut("Ctrl+C");
    assert_eq!(
        plain.apply_interaction(7, Some(6), Interaction::Pressed),
        Some(MenuItemSelectEvent { menu_entity: 6, item_entity: 7 })
    );
    let mut loose = MaterialMenuItem::new("Paste");
    assert_eq!(loose.apply_interaction(8, None, Interaction::Pressed), None);
}

#[test]
fn menu_test_ids() {
    let labels = vec![
        "Save As...".to_string(),
        "save as".to_string(),
        "***".to_string(),
        "Zoom - In".to_string(),
        "".to_string(),
    ];
    let ids = menu_item_test_ids("menu", &labels);
    assert_eq!(
        ids,
        vec![
            "menu/item/save_as".to_string(),
            "menu/item/save_as_2".to_string(),
            "menu/item/item".to_string(),
            "menu/item/zoom_in".to_string(),
            "menu/item/item_2".to_string(),
        ]
    );
}

#[test]
fn loading_shapes() {
    assert_eq!(LoadingShape::from_index(0), LoadingShape::SoftBurst);
    assert_eq!(LoadingShape::from_index(6), LoadingShape::Oval);
    assert_eq!(LoadingShape::from_index(7), LoadingShape::SoftBurst);
    assert_eq!(LoadingShape::from_index(10), LoadingShape::Pill);
}

#[test]
fn dividers() {
    let m = create_menu_divider();
    assert_eq!(m.width, Length::Percent(100));
    assert_eq!(m.height_px, 1);
    assert_eq!(m.color, Paint::Solid(ColorRole::OutlineVariant));
    assert_eq!(m.margin, DividerMargin::VerticalSmall);
    assert_eq!(create_list_divider(true).margin, DividerMargin::PastLeadingElement);
    assert_eq!(create_list_divider(false).margin, DividerMargin::Flush);
    assert_eq!(create_list_divider(false).height_px, 1);
}
