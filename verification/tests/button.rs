use material_ui::button::{
    material_button_bundle, ButtonClickEvent, ButtonVariant, IconGravity, MaterialButton,
    MaterialButtonBuilder,
};
use material_ui::style::{ColorRole, Elevation, Interaction, Paint, Rounding};

#[test]
fn test_button_variant_default() {
    assert_eq!(ButtonVariant::default(), ButtonVariant::Filled);
}

#[test]
fn test_button_variant_all_types() {
    let variants = [
        ButtonVariant::Elevated,
        ButtonVariant::Filled,
        ButtonVariant::FilledTonal,
        ButtonVariant::Outlined,
        ButtonVariant::Text,
    ];
    for i in 0..variants.len() {
        for j in (i + 1)..variants.len() {
            assert_ne!(variants[i], variants[j]);
        }
    }
}

#[test]
fn test_icon_gravity_default() {
    assert_eq!(IconGravity::default(), IconGravity::Start);
}

#[test]
fn test_icon_gravity_all_types() {
    let gravities = [
        IconGravity::Start,
        IconGravity::TextStart,
        IconGravity::End,
        IconGravity::TextEnd,
        IconGravity::Top,
        IconGravity::TextTop,
    ];
    for i in 0..gravities.len() {
        for j in (i + 1)..gravities.len() {
            assert_ne!(gravities[i], gravities[j]);
        }
    }
}

#[test]
fn test_button_new_defaults() {
    let button = MaterialButton::new("Test");
    assert_eq!(button.label, "Test");
    assert_eq!(button.variant, ButtonVariant::Filled);
    assert!(!button.disabled);
    assert!(button.icon.is_none());
    assert!(button.trailing_icon.is_none());
    assert_eq!(button.icon_gravity, IconGravity::Start);
    assert_eq!(button.icon_padding, 8);
    assert_eq!(button.icon_size, 18);
    assert!(button.corner_radius.is_none());
    assert!(button.min_width.is_none());
    assert!(button.min_height.is_none());
    assert!(button.custom_background_color.is_none());
    assert!(button.custom_text_color.is_none());
    assert_eq!(button.stroke_width, 1);
    assert!(button.stroke_color.is_none());
    assert!(!button.checkable);
    assert!(!button.checked);
    assert!(!button.pressed);
    assert!(!button.hovered);
    assert!(!button.focused);
}

#[test]
fn test_button_with_variant() {
    let button = MaterialButton::new("Test").with_variant(ButtonVariant::Outlined);
    assert_eq!(button.variant, ButtonVariant::Outlined);
}

#[test]
fn test_button_disabled() {
    let button = MaterialButton::new("Test").disabled(true);
    assert!(button.disabled);
    let button = MaterialButton::new("Test").disabled(false);
    assert!(!button.disabled);
}

#[test]
fn test_button_with_icon() {
    let button = MaterialButton::new("Test").with_icon("add");
    assert_eq!(button.icon, Some("add".to_string()));
}

#[test]
fn test_button_with_trailing_icon() {
    let button = MaterialButton::new("Test").with_trailing_icon("arrow_forward");
    assert_eq!(button.trailing_icon, Some("arrow_forward".to_string()));
}

#[test]
fn test_button_icon_gravity() {
    let button = MaterialButton::new("Test").icon_gravity(IconGravity::End);
    assert_eq!(button.icon_gravity, IconGravity::End);
}

#[test]
fn test_button_icon_padding() {
    let button = MaterialButton::new("Test").icon_padding(16);
    assert_eq!(button.icon_padding, 16);
}

#[test]
fn test_button_icon_size() {
    let button = MaterialButton::new("Test").icon_size(24);
    assert_eq!(button.icon_size, 24);
}

#[test]
fn test_button_corner_radius() {
    let button = MaterialButton::new("Test").corner_radius(8);
    assert_eq!(button.corner_radius, Some(8));
}

#[test]
fn test_button_min_width() {
    let button = MaterialButton::new("Test").min_width(100);
    assert_eq!(button.min_width, Some(100));
}

#[test]
fn test_button_min_height() {
    let button = MaterialButton::new("Test").min_height(48);
    assert_eq!(button.min_height, Some(48));
}

#[test]
fn test_button_custom_background_color() {
    let color: u32 = 0xFFFF0000;
    let button = MaterialButton::new("Test").custom_background_color(color);
    assert_eq!(button.custom_background_color, Some(color));
}

#[test]
fn test_button_custom_text_color() {
    let color: u32 = 0xFF00FF00;
    let button = MaterialButton::new("Test").custom_text_color(color);
    assert_eq!(button.custom_text_color, Some(color));
}

#[test]
fn test_button_stroke_width() {
    let button = MaterialButton::new("Test").stroke_width(2);
    assert_eq!(button.stroke_width, 2);
}

#[test]
fn test_button_stroke_color() {
    let color: u32 = 0xFF0000FF;
    let button = MaterialButton::new("Test").stroke_color(color);
    assert_eq!(button.stroke_color, Some(color));
}

#[test]
fn test_button_checkable() {
    let button = MaterialButton::new("Test").checkable(true);
    assert!(button.checkable);
}

#[test]
fn test_button_checked() {
    let button = MaterialButton::new("Test").checked(true);
    assert!(button.checked);
}

#[test]
fn test_button_toggle_when_checkable() {
    let mut button = MaterialButton::new("Test").checkable(true);
    assert!(!button.checked);
    button.toggle();
    assert!(button.checked);
    button.toggle();
    assert!(!button.checked);
}

#[test]
fn test_button_toggle_when_not_checkable() {
    let mut button = MaterialButton::new("Test").checkable(false);
    assert!(!button.checked);
    button.toggle();
    assert!(!button.checked);
}

#[test]
fn test_button_effective_corner_radius_default() {
    let button = MaterialButton::new("Test");
    assert_eq!(button.effective_corner_radius(), Rounding::Full);
}

#[test]
fn test_button_effective_corner_radius_custom() {
    let button = MaterialButton::new("Test").corner_radius(12);
    assert_eq!(button.effective_corner_radius(), Rounding::Px(12));
}

#[test]
fn test_button_builder_chain() {
    let button = MaterialButton::new("Submit")
        .with_variant(ButtonVariant::Outlined)
        .with_icon("send")
        .icon_gravity(IconGravity::End)
        .icon_padding(12)
        .icon_size(20)
        .corner_radius(8)
        .stroke_width(2)
        .disabled(false)
        .checkable(true)
        .checked(true);
    assert_eq!(button.label, "Submit");
    assert_eq!(button.variant, ButtonVariant::Outlined);
    assert_eq!(button.icon, Some("send".to_string()));
    assert_eq!(button.icon_gravity, IconGravity::End);
    assert_eq!(button.icon_padding, 12);
    assert_eq!(button.icon_size, 20);
    assert_eq!(button.corner_radius, Some(8));
    assert_eq!(button.stroke_width, 2);
    assert!(!button.disabled);
    assert!(button.checkable);
    assert!(button.checked);
}

#[test]
fn test_button_builder_new() {
    let builder = MaterialButtonBuilder::new("Test");
    assert_eq!(builder.button.label, "Test");
}

#[test]
fn test_button_builder_variant() {
    let builder = MaterialButtonBuilder::new("Test").variant(ButtonVariant::Text);
    assert_eq!(builder.button.variant, ButtonVariant::Text);
}

#[test]
fn test_button_builder_icon() {
    let builder = MaterialButtonBuilder::new("Test").icon("add");
    assert_eq!(builder.button.icon, Some("add".to_string()));
}

#[test]
fn test_button_builder_disabled() {
    let builder = MaterialButtonBuilder::new("Test").disabled(true);
    assert!(builder.button.disabled);
}

#[test]
fn button_state_layer_and_paints() {
    let mut button = MaterialButton::new("Go");
    assert_eq!(button.background_color(), Paint::Layered(ColorRole::Primary, ColorRole::OnPrimary, 0));
    assert_eq!(button.apply_interaction(7, Interaction::Hovered), None);
    assert_eq!(button.state_layer_opacity(), 8);
    assert_eq!(button.elevation(), Elevation::Level1);
    assert_eq!(button.apply_interaction(7, Interaction::Pressed), Some(ButtonClickEvent { entity: 7 }));
    assert_eq!(button.state_layer_opacity(), 12);
    assert_eq!(button.background_color(), Paint::Layered(ColorRole::Primary, ColorRole::OnPrimary, 12));
    let outlined = MaterialButton::new("x").with_variant(ButtonVariant::Outlined);
    assert_eq!(outlined.background_color(), Paint::Transparent);
    assert_eq!(outlined.border_color(), Paint::Solid(ColorRole::Outline));
    let disabled = MaterialButton::new("x").disabled(true);
    assert_eq!(disabled.text_color(), Paint::Faded(ColorRole::OnSurface, 38));
    assert_eq!(disabled.elevation(), Elevation::Level0);
    let custom = MaterialButton::new("x").custom_background_color(0xFF112233);
    assert_eq!(custom.background_color(), Paint::Custom(0xFF112233));
}

#[test]
fn disabled_button_is_not_clicked() {
    let mut button = MaterialButton::new("x").disabled(true);
    assert_eq!(button.apply_interaction(7, Interaction::Pressed), None);
    assert!(!button.pressed);
}

#[test]
fn button_builder_parts() {
    let parts = MaterialButtonBuilder::new("x").outlined().build();
    assert_eq!(parts.border_width, 1);
    assert_eq!(parts.corner, Rounding::Full);
    assert_eq!(parts.shadow, Some(Elevation::Level0));
    let flat = MaterialButtonBuilder::new("x").elevated().build_without_shadow();
    assert_eq!(flat.border_width, 0);
    assert_eq!(flat.shadow, None);
}

#[test]
fn button_bundle_of_a_variant() {
    let parts = material_button_bundle("Save", ButtonVariant::Outlined);
    assert_eq!(parts.button.label, "Save");
    assert_eq!(parts.button.variant, ButtonVariant::Outlined);
    assert_eq!(parts.border_width, 1);
    assert_eq!(parts.background, Paint::Transparent);
    assert_eq!(parts.corner, Rounding::Full);
    let filled = material_button_bundle("Go", ButtonVariant::Filled);
    assert_eq!(filled.border_width, 0);
    assert_eq!(filled.shadow, Some(Elevation::Level0));
}
