use material_ui::checkbox::{
    CheckboxBuilder, CheckboxChangeEvent, CheckboxState, MaterialCheckbox, ANIMATION_COMPLETE, CHECKBOX_BORDER_WIDTH,
    CHECKBOX_CORNER_RADIUS, CHECKBOX_SIZE, CHECKBOX_TOUCH_TARGET,
};
use material_ui::icons::{ICON_CHECK, ICON_REMOVE};
use material_ui::style::{ColorRole, Interaction, Paint};

#[test]
fn test_checkbox_state_default() {
    assert_eq!(CheckboxState::default(), CheckboxState::Unchecked);
}

#[test]
fn test_checkbox_state_toggle_unchecked_to_checked() {
    assert_eq!(CheckboxState::Unchecked.toggle(), CheckboxState::Checked);
}

#[test]
fn test_checkbox_state_toggle_checked_to_unchecked() {
    assert_eq!(CheckboxState::Checked.toggle(), CheckboxState::Unchecked);
}

#[test]
fn test_checkbox_state_toggle_indeterminate_to_checked() {
    assert_eq!(CheckboxState::Indeterminate.toggle(), CheckboxState::Checked);
}

#[test]
fn test_checkbox_state_is_checked() {
    assert!(!CheckboxState::Unchecked.is_checked());
    assert!(CheckboxState::Checked.is_checked());
    assert!(!CheckboxState::Indeterminate.is_checked());
}

#[test]
fn test_checkbox_state_is_indeterminate() {
    assert!(!CheckboxState::Unchecked.is_indeterminate());
    assert!(!CheckboxState::Checked.is_indeterminate());
    assert!(CheckboxState::Indeterminate.is_indeterminate());
}

#[test]
fn test_checkbox_state_icon_unchecked() {
    assert!(CheckboxState::Unchecked.icon().is_none());
}

#[test]
fn test_checkbox_state_icon_checked() {
    assert_eq!(CheckboxState::Checked.icon(), Some(ICON_CHECK));
}

#[test]
fn test_checkbox_state_icon_indeterminate() {
    assert_eq!(CheckboxState::Indeterminate.icon(), Some(ICON_REMOVE));
}

#[test]
fn test_checkbox_new_defaults() {
    let checkbox = MaterialCheckbox::new();
    assert_eq!(checkbox.state, CheckboxState::Unchecked);
    assert!(!checkbox.disabled);
    assert!(!checkbox.error);
    assert!(!checkbox.pressed);
    assert!(!checkbox.hovered);
    assert_eq!(checkbox.animation_progress, ANIMATION_COMPLETE);
    assert!(!checkbox.animating);
}

#[test]
fn test_checkbox_with_state_checked() {
    let checkbox = MaterialCheckbox::new().with_state(CheckboxState::Checked);
    assert_eq!(checkbox.state, CheckboxState::Checked);
    assert_eq!(checkbox.previous_state, CheckboxState::Checked);
}

#[test]
fn test_checkbox_with_state_indeterminate() {
    let checkbox = MaterialCheckbox::new().with_state(CheckboxState::Indeterminate);
    assert_eq!(checkbox.state, CheckboxState::Indeterminate);
    assert_eq!(checkbox.previous_state, CheckboxState::Indeterminate);
}

#[test]
fn test_checkbox_checked_method() {
    let checkbox = MaterialCheckbox::new().checked();
    assert_eq!(checkbox.state, CheckboxState::Checked);
    assert_eq!(checkbox.previous_state, CheckboxState::Checked);
}

#[test]
fn test_checkbox_indeterminate_method() {
    let checkbox = MaterialCheckbox::new().indeterminate();
    assert_eq!(checkbox.state, CheckboxState::Indeterminate);
    assert_eq!(checkbox.previous_state, CheckboxState::Indeterminate);
}

#[test]
fn test_checkbox_disabled() {
    let checkbox = MaterialCheckbox::new().disabled(true);
    assert!(checkbox.disabled);
    let checkbox = MaterialCheckbox::new().disabled(false);
    assert!(!checkbox.disabled);
}

#[test]
fn test_checkbox_error() {
    let checkbox = MaterialCheckbox::new().error(true);
    assert!(checkbox.error);
    let checkbox = MaterialCheckbox::new().error(false);
    assert!(!checkbox.error);
}

#[test]
fn test_checkbox_builder_chain() {
    let checkbox = MaterialCheckbox::new().checked().disabled(true).error(true);
    assert!(checkbox.state.is_checked());
    assert!(checkbox.disabled);
    assert!(checkbox.error);
}

#[test]
fn test_checkbox_start_animation() {
    let mut checkbox = MaterialCheckbox::new();
    assert_eq!(checkbox.state, CheckboxState::Unchecked);
    checkbox.start_animation(CheckboxState::Checked);
    assert_eq!(checkbox.state, CheckboxState::Checked);
    assert_eq!(checkbox.previous_state, CheckboxState::Unchecked);
    assert_eq!(checkbox.animation_progress, 0);
    assert!(checkbox.animating);
}

#[test]
fn test_checkbox_start_animation_same_state() {
    let mut checkbox = MaterialCheckbox::new().checked();
    let progress_before = checkbox.animation_progress;
    checkbox.start_animation(CheckboxState::Checked);
    assert_eq!(checkbox.animation_progress, progress_before);
    assert!(!checkbox.animating);
}

#[test]
fn test_checkbox_builder_new_defaults() {
    let checkbox = CheckboxBuilder::new().build();
    assert_eq!(checkbox.state, CheckboxState::Unchecked);
    assert!(!checkbox.disabled);
    assert!(!checkbox.error);
}

#[test]
fn test_checkbox_builder_state() {
    let checkbox = CheckboxBuilder::new().state(CheckboxState::Indeterminate).build();
    assert_eq!(checkbox.state, CheckboxState::Indeterminate);
    assert_eq!(checkbox.previous_state, CheckboxState::Indeterminate);
}

#[test]
fn test_checkbox_builder_checked() {
    let checkbox = CheckboxBuilder::new().checked().build();
    assert_eq!(checkbox.state, CheckboxState::Checked);
}

#[test]
fn test_checkbox_builder_indeterminate() {
    let checkbox = CheckboxBuilder::new().indeterminate().build();
    assert_eq!(checkbox.state, CheckboxState::Indeterminate);
}

#[test]
fn test_checkbox_builder_disabled() {
    let checkbox = CheckboxBuilder::new().disabled(true).build();
    assert!(checkbox.disabled);
}

#[test]
fn test_checkbox_builder_error() {
    let checkbox = CheckboxBuilder::new().error(true).build();
    assert!(checkbox.error);
}

#[test]
fn test_checkbox_builder_full_chain() {
    let checkbox = CheckboxBuilder::new()
        .state(CheckboxState::Checked)
        .disabled(true)
        .error(true)
        .build();
    assert_eq!(checkbox.state, CheckboxState::Checked);
    assert!(checkbox.disabled);
    assert!(checkbox.error);
}

#[test]
fn test_checkbox_size_constant() {
    assert_eq!(CHECKBOX_SIZE, 18);
}

#[test]
fn test_checkbox_touch_target_constant() {
    assert_eq!(CHECKBOX_TOUCH_TARGET, 48);
}

#[test]
fn test_checkbox_border_width_constant() {
    assert_eq!(CHECKBOX_BORDER_WIDTH, 2);
}

#[test]
fn test_checkbox_corner_radius_constant() {
    assert_eq!(CHECKBOX_CORNER_RADIUS, 2);
}

#[test]
fn test_touch_target_larger_than_checkbox() {
    assert!(std::hint::black_box(CHECKBOX_TOUCH_TARGET) > std::hint::black_box(CHECKBOX_SIZE));
}

#[test]
fn checkbox_press_toggles_and_reports() {
    let mut checkbox = MaterialCheckbox::new();
    assert_eq!(checkbox.apply_interaction(3, Interaction::Pressed), Some(CheckboxChangeEvent { entity: 3, state: CheckboxState::Checked }));
    assert!(checkbox.pressed && !checkbox.hovered && checkbox.animating);
    assert_eq!(checkbox.previous_state, CheckboxState::Unchecked);
    assert_eq!(checkbox.apply_interaction(3, Interaction::Hovered), None);
    assert!(!checkbox.pressed && checkbox.hovered);
    assert_eq!(checkbox.apply_interaction(3, Interaction::Pressed), Some(CheckboxChangeEvent { entity: 3, state: CheckboxState::Unchecked }));
    assert_eq!(checkbox.state, CheckboxState::Unchecked);
}

#[test]
fn disabled_checkbox_ignores_pointer() {
    let mut checkbox = MaterialCheckbox::new().disabled(true);
    assert_eq!(checkbox.apply_interaction(3, Interaction::Pressed), None);
    assert_eq!(checkbox.state, CheckboxState::Unchecked);
    assert!(!checkbox.pressed);
}

#[test]
fn checkbox_colors_follow_state() {
    let unchecked = MaterialCheckbox::new();
    assert_eq!(unchecked.container_color(), Paint::Transparent);
    assert_eq!(unchecked.outline_color(), Paint::Solid(ColorRole::OnSurfaceVariant));
    let checked = MaterialCheckbox::new().checked();
    assert_eq!(checked.container_color(), Paint::Solid(ColorRole::Primary));
    assert_eq!(checked.icon_color(), Paint::Solid(ColorRole::OnPrimary));
    let error = MaterialCheckbox::new().error(true);
    assert_eq!(error.state_layer_color(), Paint::Solid(ColorRole::Error));
    let disabled = MaterialCheckbox::new().checked().disabled(true);
    assert_eq!(disabled.container_color(), Paint::Faded(ColorRole::OnSurface, 38));
    assert_eq!(disabled.icon_color(), Paint::Solid(ColorRole::Surface));
}

#[test]
fn checkbox_animation_runs_to_completion() {
    let mut checkbox = MaterialCheckbox::new();
    checkbox.start_animation(CheckboxState::Checked);
    checkbox.advance_animation(100, 300);
    assert_eq!(checkbox.animation_progress, 333);
    assert!(checkbox.animating);
    checkbox.advance_animation(100, 300);
    assert_eq!(checkbox.animation_progress, 666);
    checkbox.advance_animation(250, 300);
    assert_eq!(checkbox.animation_progress, ANIMATION_COMPLETE);
    assert!(!checkbox.animating);
    // A finished animation stays finished.
    checkbox.advance_animation(100, 300);
    assert_eq!(checkbox.animation_progress, ANIMATION_COMPLETE);
    assert!(!checkbox.animating);
}

#[test]
fn checkbox_animation_adds_up_time_without_losing_steps() {
    let mut checkbox = MaterialCheckbox::new();
    checkbox.start_animation(CheckboxState::Checked);
    assert_eq!(checkbox.animation_elapsed_ms, 0);
    checkbox.advance_animation(100, 300);
    checkbox.advance_animation(100, 300);
    assert_eq!(checkbox.animation_progress, 666);
    assert!(checkbox.animating);
    // Three thirds of the duration finish the animation.
    checkbox.advance_animation(100, 300);
    assert_eq!(checkbox.animation_progress, ANIMATION_COMPLETE);
    assert!(!checkbox.animating);
}
