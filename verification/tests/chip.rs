use material_ui::chip::{delete_button_event, ChipBuilder, ChipElevation, ChipVariant, MaterialChip};
use material_ui::style::{ColorRole, Elevation, Interaction, Paint};

#[test]
fn test_chip_creation() {
    let chip = MaterialChip::new("Test");
    assert_eq!(chip.label, "Test");
    assert_eq!(chip.variant, ChipVariant::Assist);
    assert!(!chip.selected);
    assert!(!chip.disabled);
}

#[test]
fn test_filter_chip() {
    let chip = MaterialChip::filter("Category").with_selected(true);
    assert_eq!(chip.variant, ChipVariant::Filter);
    assert!(chip.selected);
}

#[test]
fn test_input_chip() {
    let chip = MaterialChip::input("Tag");
    assert_eq!(chip.variant, ChipVariant::Input);
    assert!(chip.deletable);
}

#[test]
fn test_chip_with_value() {
    let chip = MaterialChip::new("Label").with_value("value-123");
    assert_eq!(chip.value, Some("value-123".to_string()));
}

#[test]
fn test_chip_builder() {
    let builder = ChipBuilder::filter("Size").value("size-large").selected(true);
    assert_eq!(builder.chip.label, "Size");
    assert_eq!(builder.chip.value, Some("size-large".to_string()));
    assert!(builder.chip.selected);
}

#[test]
fn filter_chip_press_toggles_and_reports_value() {
    let mut chip = MaterialChip::filter("A").with_value("a");
    let click = chip.apply_interaction(11, Interaction::Pressed).unwrap();
    assert_eq!((click.entity, click.value), (11, Some("a".to_string())));
    assert!(chip.selected);
    let again = chip.apply_interaction(11, Interaction::Pressed).unwrap();
    assert_eq!(again.value, Some("a".to_string()));
    assert!(!chip.selected);
    let mut assist = MaterialChip::assist("B");
    assert_eq!(assist.apply_interaction(12, Interaction::Pressed).unwrap().value, None);
    assert!(!assist.selected);
    let mut off = MaterialChip::new("C").with_disabled(true);
    assert!(off.apply_interaction(13, Interaction::Pressed).is_none());
    let deleted = delete_button_event(11, Interaction::Pressed).unwrap();
    assert_eq!((deleted.entity, deleted.value), (11, None));
    assert!(delete_button_event(11, Interaction::Hovered).is_none());
}

#[test]
fn chip_paints_and_parts() {
    let chip = MaterialChip::filter("A").with_selected(true);
    assert_eq!(chip.background_color(), Paint::Solid(ColorRole::SecondaryContainer));
    assert_eq!(chip.outline_color(), Paint::Transparent);
    assert_eq!(chip.label_color(), Paint::Solid(ColorRole::OnSecondaryContainer));
    let parts = ChipBuilder::input("x").leading_icon("tag").build();
    assert_eq!(parts.padding_left, 8);
    assert_eq!(parts.padding_right, 8);
    assert_eq!(parts.border_width, 1);
    assert_eq!(parts.elevation, Elevation::Level0);
    let raised = ChipBuilder::assist("y").elevated().build();
    assert_eq!(raised.border_width, 0);
    assert_eq!(raised.padding_left, 16);
    assert_eq!(ChipElevation::Elevated.to_elevation(), Elevation::Level1);
}

#[test]
fn chip_content_leading_glyph() {
    let c = ChipBuilder::filter("f").selected(true).content();
    assert_eq!(c.leading, Some("\u{2713}".to_string()));
    let c = ChipBuilder::assist("a").leading_icon("star").content();
    assert_eq!(c.leading, Some("star".to_string()));
    let c = ChipBuilder::input("i").content();
    assert_eq!(c.leading, None);
    assert!(c.delete_button);
    assert_eq!(c.label, "i");
}
