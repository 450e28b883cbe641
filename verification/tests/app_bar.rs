use material_ui::hierarchy::nearest_marked_ancestor;
use material_ui::app_bar::{
    action_event, navigation_event, AppBarNavigationEvent,
    app_bar_button_background, AppBarAction, BottomAppBar, BottomAppBarBuilder, BottomAppBarLayout,
    TitlePlacement, TopAppBar, TopAppBarBuilder, TopAppBarVariant, BOTTOM_APP_BAR_HEIGHT,
    TOP_APP_BAR_HEIGHT_LARGE, TOP_APP_BAR_HEIGHT_MEDIUM, TOP_APP_BAR_HEIGHT_SMALL,
};
use material_ui::style::{ColorRole, Interaction, Paint};

#[test]
fn test_top_app_bar_creation() {
    let app_bar = TopAppBar::new("Title")
        .with_back_button()
        .add_action(AppBarAction::new("search", "search"));
    assert_eq!(app_bar.title, "Title");
    assert!(app_bar.navigation_icon.is_some());
    assert_eq!(app_bar.actions.len(), 1);
}

#[test]
fn test_top_app_bar_variants() {
    let small = TopAppBar::new("Small").with_variant(TopAppBarVariant::Small);
    assert_eq!(small.height(), TOP_APP_BAR_HEIGHT_SMALL * 100);
    let medium = TopAppBar::new("Medium").with_variant(TopAppBarVariant::Medium);
    assert_eq!(medium.height(), TOP_APP_BAR_HEIGHT_MEDIUM * 100);
    let large = TopAppBar::new("Large").with_variant(TopAppBarVariant::Large);
    assert_eq!(large.height(), TOP_APP_BAR_HEIGHT_LARGE * 100);
}

#[test]
fn test_bottom_app_bar_creation() {
    let app_bar = BottomAppBar::new()
        .add_action(AppBarAction::new("home", "home"))
        .with_fab("add");
    assert_eq!(app_bar.actions.len(), 1);
    assert!(app_bar.has_fab);
    assert_eq!(app_bar.fab_icon, Some("add".to_string()));
}

#[test]
fn test_app_bar_builder() {
    let builder = TopAppBarBuilder::new("My App")
        .small()
        .with_back()
        .add_action("\u{22ee}", "more");
    assert_eq!(builder.app_bar.title, "My App");
    assert_eq!(builder.app_bar.variant, TopAppBarVariant::Small);
}

#[test]
fn collapsing_bar_heights() {
    let mut bar = TopAppBar::new("t").with_variant(TopAppBarVariant::Medium);
    bar.scroll_offset = 50;
    assert_eq!(bar.height(), (112 - 24) * 100);
    // One pixel of scroll takes 0.48 px off a medium bar.
    bar.scroll_offset = 1;
    assert_eq!(bar.height(), 11152);
    bar.scroll_offset = 1000;
    assert_eq!(bar.height(), TOP_APP_BAR_HEIGHT_SMALL * 100);
    bar.scroll_offset = -5;
    assert_eq!(bar.height(), TOP_APP_BAR_HEIGHT_MEDIUM * 100);
    let mut large = TopAppBar::new("t").with_variant(TopAppBarVariant::Large);
    large.scroll_offset = 10;
    assert_eq!(large.height(), (152 - 8) * 100 - 80);
    large.scroll_offset = 100;
    assert_eq!(large.height(), TOP_APP_BAR_HEIGHT_SMALL * 100);
}

#[test]
fn bar_paints_and_layout() {
    let bar = TopAppBar::new("t");
    assert_eq!(bar.background_color(), Paint::Solid(ColorRole::Surface));
    assert_eq!(bar.elevated().background_color(), Paint::Solid(ColorRole::SurfaceContainer));
    assert_eq!(TopAppBar::new("t").title_placement(), TitlePlacement::Leading);
    assert_eq!(
        TopAppBar::new("t").with_variant(TopAppBarVariant::CenterAligned).title_placement(),
        TitlePlacement::Centered
    );
    assert_eq!(
        TopAppBar::new("t").with_variant(TopAppBarVariant::Large).title_placement(),
        TitlePlacement::Hidden
    );
    assert_eq!(app_bar_button_background(Interaction::Idle), Paint::Transparent);
    assert_eq!(
        app_bar_button_background(Interaction::Hovered),
        Paint::Solid(ColorRole::SurfaceContainerHighest)
    );
}

#[test]
fn bottom_bar_builder_keeps_layout() {
    let parts = BottomAppBarBuilder::new().with_fab("add").add_action("a", "b").build();
    assert!(parts.app_bar.has_fab);
    assert_eq!(parts.app_bar.layout, BottomAppBarLayout::Standard);
    assert_eq!(parts.height, BOTTOM_APP_BAR_HEIGHT);
    assert_eq!(parts.background, Paint::Solid(ColorRole::SurfaceContainerLow));
    assert_eq!(BottomAppBar::new().with_fab("x").layout, BottomAppBarLayout::WithFab);
    let top = TopAppBarBuilder::new("x").with_menu().build();
    assert_eq!(top.app_bar.navigation_icon, Some("\u{2630}".to_string()));
    assert_eq!(top.height, TOP_APP_BAR_HEIGHT_SMALL * 100);
}

#[test]
fn app_bar_button_events_find_their_bar() {
    // The navigation button (1) sits in a row (2) inside the bar (3).
    let chain = vec![(1u64, false), (2, false), (3, true), (4, false)];
    assert_eq!(nearest_marked_ancestor(&chain), Some(3));
    assert_eq!(
        navigation_event(Interaction::Pressed, &chain),
        Some(AppBarNavigationEvent { app_bar: 3 })
    );
    assert_eq!(navigation_event(Interaction::Hovered, &chain), None);
    let action = action_event(Interaction::Pressed, "search", &chain).unwrap();
    assert_eq!(action.app_bar, 3);
    assert_eq!(action.action, "search");
    assert!(action_event(Interaction::Idle, "search", &chain).is_none());
    // A button outside any bar reports nothing.
    let loose = vec![(1u64, false), (2, false)];
    assert_eq!(nearest_marked_ancestor(&loose), None);
    assert!(action_event(Interaction::Pressed, "search", &loose).is_none());
    // Only the button and its first 31 ancestors are searched.
    let mut deep: Vec<(u64, bool)> = (0..32u64).map(|e| (e, false)).collect();
    deep.push((99, true));
    assert_eq!(nearest_marked_ancestor(&deep), None);
    deep[31] = (31, true);
    assert_eq!(nearest_marked_ancestor(&deep), Some(31));
}
