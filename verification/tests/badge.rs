use material_ui::badge::{
    BadgeBuilder, BadgeSize, MaterialBadge, BADGE_SIZE_LARGE, BADGE_SIZE_SMALL,
};
use material_ui::style::{ColorRole, Paint};

#[test]
fn test_dot_badge() {
    let badge = MaterialBadge::dot();
    assert_eq!(badge.size, BadgeSize::Small);
    assert!(badge.content.is_none());
    assert_eq!(badge.width(), BADGE_SIZE_SMALL);
}

#[test]
fn test_count_badge() {
    let badge = MaterialBadge::count(5);
    assert_eq!(badge.size, BadgeSize::Large);
    assert_eq!(badge.content, Some("5".to_string()));
}

#[test]
fn test_count_badge_max() {
    let badge = MaterialBadge::count(150).with_max(99);
    assert_eq!(badge.content, Some("99+".to_string()));
}

#[test]
fn test_text_badge() {
    let badge = MaterialBadge::text("NEW");
    assert_eq!(badge.content, Some("NEW".to_string()));
}

#[test]
fn test_badge_width() {
    let badge1 = MaterialBadge::count(5);
    assert_eq!(badge1.width(), BADGE_SIZE_LARGE);
    let badge2 = MaterialBadge::count(25);
    assert!(badge2.width() > BADGE_SIZE_LARGE);
    let badge3 = MaterialBadge::count(100);
    assert!(badge3.width() > badge2.width());
}

#[test]
fn test_badge_visibility() {
    let mut badge = MaterialBadge::dot();
    assert!(badge.visible);
    badge = badge.visible(false);
    assert!(!badge.visible);
}

#[test]
fn test_badge_update() {
    let mut badge = MaterialBadge::dot();
    assert_eq!(badge.size, BadgeSize::Small);
    badge.set_count(10);
    assert_eq!(badge.size, BadgeSize::Large);
    assert_eq!(badge.content, Some("10".to_string()));
    badge.set_dot();
    assert_eq!(badge.size, BadgeSize::Small);
    assert!(badge.content.is_none());
}

#[test]
fn badge_count_over_default_limit() {
    let badge = MaterialBadge::count(1000);
    assert_eq!(badge.display_text(), Some("999+"));
    assert_eq!(badge.width(), 16 + 3 * 6);
}

#[test]
fn badge_relimit_shows_the_real_count() {
    let badge = MaterialBadge::count(5000).with_max(50);
    assert_eq!(badge.content, Some("50+".to_string()));
    let badge = MaterialBadge::count(42).with_max(100);
    assert_eq!(badge.content, Some("42".to_string()));
    // The count was shown capped as "999+"; the new limits see the real count.
    let badge = MaterialBadge::count(1500).with_max(999);
    assert_eq!(badge.content, Some("999+".to_string()));
    let badge = MaterialBadge::count(1500).with_max(2000);
    assert_eq!(badge.content, Some("1500".to_string()));
    assert_eq!(badge.count, Some(1500));
    let mut badge = MaterialBadge::text("hi");
    badge.set_count(3000);
    assert_eq!(badge.with_max(5000).content, Some("3000".to_string()));
}

#[test]
fn badge_text_content_is_kept_under_new_limit() {
    let badge = MaterialBadge::text("NEW").with_max(5);
    assert_eq!(badge.content, Some("NEW".to_string()));
    let badge = MaterialBadge::text("12++").with_max(5);
    assert_eq!(badge.content, Some("5+".to_string()));
}

#[test]
fn badge_width_counts_bytes() {
    let badge = MaterialBadge::text("\u{e9}");
    assert_eq!(badge.width(), 16 + 6);
    assert_eq!(badge.height(), BADGE_SIZE_LARGE);
    assert_eq!(MaterialBadge::dot().height(), BADGE_SIZE_SMALL);
}

#[test]
fn badge_builder_and_colors() {
    let badge = BadgeBuilder::count(120).max(99).build();
    assert_eq!(badge.display_text(), Some("99+"));
    assert_eq!(badge.background_color(), Paint::Solid(ColorRole::Error));
    assert_eq!(badge.content_color(), Paint::Solid(ColorRole::OnError));
    let mut text = BadgeBuilder::text("hi").build();
    text.set_text("yo");
    assert_eq!(text.display_text(), Some("yo"));
    assert_eq!(MaterialBadge::default().size, BadgeSize::Small);
    assert_eq!(BadgeSize::default(), BadgeSize::Large);
}
