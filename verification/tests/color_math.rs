use material_ui::color::tones::ToneCache;
use material_ui::color::math::{
    argb_from_components, argb_from_rgb, blue_from_argb, green_from_argb, red_from_argb,
};

#[test]
fn test_argb_components() {
    let argb = 0xFF8040FF;
    assert_eq!(red_from_argb(argb), 128);
    assert_eq!(green_from_argb(argb), 64);
    assert_eq!(blue_from_argb(argb), 255);
}

#[test]
fn test_argb_from_components() {
    let argb = argb_from_components(255, 128, 64, 255);
    assert_eq!(argb, 0xFF8040FF);
}

#[test]
fn argb_round_trip_concrete() {
    let argb = argb_from_components(0x12, 0x34, 0x56, 0x78);
    assert_eq!(argb, 0x12345678);
    assert_eq!(red_from_argb(argb), 0x34);
    assert_eq!(green_from_argb(argb), 0x56);
    assert_eq!(blue_from_argb(argb), 0x78);
    assert_eq!(argb_from_rgb(1, 2, 3), 0xFF010203);
}

#[test]
fn tone_cache_computes_each_tone_once() {
    let mut cache = ToneCache::new();
    assert_eq!(cache.get(40), None);
    assert_eq!(cache.tone_with(40, |t| t as u32 * 2), 80);
    // A kept tone is not computed again.
    assert_eq!(cache.tone_with(40, |_| 7), 80);
    assert_eq!(cache.get(40), Some(80));
    // Tones above 100 are tone 100.
    assert_eq!(cache.tone_with(250, |t| t as u32), 100);
    assert_eq!(cache.get(100), Some(100));
    assert_eq!(ToneCache::clamp_tone(101), 100);
}
