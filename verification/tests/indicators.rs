use material_ui::loading_indicator::{
    LoadingIndicatorBuilder, LoadingShape, MaterialLoadingIndicator, ShapeMorphMaterial,
    LOADING_INDICATOR_SIZE,
};
use material_ui::progress::{
    CircularProgressBuilder, LinearProgressBuilder, MaterialCircularProgress,
    MaterialLinearProgress, ProgressMode, ProgressVariant, CIRCULAR_PROGRESS_SIZE,
    LINEAR_PROGRESS_HEIGHT,
};
use material_ui::style::{ColorRole, CornerToken, Length, Paint};

#[test]
fn linear_progress_defaults() {
    let p = MaterialLinearProgress::new();
    assert_eq!(p.progress, 0);
    assert_eq!(p.mode, ProgressMode::Determinate);
    assert!(!p.four_color);
    assert_eq!(p.animation_progress, 0);
    assert_eq!(MaterialLinearProgress::default(), p);
    assert_eq!(ProgressVariant::default(), ProgressVariant::Linear);
    assert_eq!(ProgressMode::default(), ProgressMode::Determinate);
}

#[test]
fn linear_progress_clamps() {
    assert_eq!(MaterialLinearProgress::new().with_progress(500).progress, 500);
    assert_eq!(MaterialLinearProgress::new().with_progress(-20).progress, 0);
    assert_eq!(MaterialLinearProgress::new().with_progress(1500).progress, 1000);
    assert_eq!(MaterialLinearProgress::new().with_progress(1000).progress, 1000);
}

#[test]
fn linear_progress_colors() {
    let p = MaterialLinearProgress::new().four_color();
    assert!(p.four_color);
    assert_eq!(p.track_color(), Paint::Solid(ColorRole::SurfaceContainerHighest));
    assert_eq!(p.indicator_color(), Paint::Solid(ColorRole::Primary));
}

#[test]
fn determinate_indicator_fills_to_progress() {
    let p = MaterialLinearProgress::new().with_progress(250);
    assert_eq!(p.indicator_span(), (0, 2500));
    let full = MaterialLinearProgress::new().with_progress(1000);
    assert_eq!(full.indicator_span(), (0, 10000));
    // A value written past full is still drawn as full.
    let mut over = MaterialLinearProgress::new();
    over.progress = 4000;
    assert_eq!(over.indicator_span(), (0, 10000));
}

#[test]
fn indeterminate_indicator_travels_across() {
    let mut p = MaterialLinearProgress::new().indeterminate();
    assert_eq!(p.indicator_span(), (-3000, 3000));
    p.animation_progress = 500;
    assert_eq!(p.indicator_span(), (3500, 3000));
    p.animation_progress = 1000;
    assert_eq!(p.indicator_span(), (10000, 3000));
    p.animation_progress = 1500;
    assert_eq!(p.indicator_span(), (10000, 3000));
}

#[test]
fn linear_animation_loops() {
    let mut p = MaterialLinearProgress::new().indeterminate();
    p.advance(300, 600);
    assert_eq!(p.animation_progress, 500);
    p.advance(300, 600);
    assert_eq!(p.animation_progress, 1000);
    p.advance(60, 600);
    assert_eq!(p.animation_progress, 100);
    // A determinate bar does not move.
    let mut d = MaterialLinearProgress::new().with_progress(300);
    d.advance(300, 600);
    assert_eq!(d, MaterialLinearProgress::new().with_progress(300));
}

#[test]
fn circular_progress_defaults_and_setters() {
    let p = MaterialCircularProgress::new();
    assert_eq!(p.size, CIRCULAR_PROGRESS_SIZE);
    assert_eq!(p.size, 48);
    assert_eq!(p.rotation, 0);
    assert_eq!(MaterialCircularProgress::default(), p);
    let q = p.with_progress(2000).with_size(64).four_color().indeterminate();
    assert_eq!(q.progress, 1000);
    assert_eq!(q.size, 64);
    assert!(q.four_color);
    assert_eq!(q.mode, ProgressMode::Indeterminate);
    assert_eq!(q.track_color(), Paint::Transparent);
    assert_eq!(q.indicator_color(), Paint::Solid(ColorRole::Primary));
}

#[test]
fn circular_animation_turns() {
    let mut p = MaterialCircularProgress::new().indeterminate();
    p.advance(300, 600, 1000);
    assert_eq!(p.animation_progress, 500);
    assert_eq!(p.rotation, 300);
    p.advance(800, 600, 1000);
    // 500 + 1333 is past a cycle: it goes back by one.
    assert_eq!(p.animation_progress, 833);
    assert_eq!(p.rotation, 100);
    let mut d = MaterialCircularProgress::new();
    d.advance(300, 600, 1000);
    assert_eq!(d, MaterialCircularProgress::new());
}

#[test]
fn progress_builders() {
    let parts = LinearProgressBuilder::new()
        .progress(750)
        .four_color()
        .width(Length::Px(200))
        .height_px(8)
        .build();
    assert_eq!(parts.progress.progress, 750);
    assert!(parts.progress.four_color);
    assert_eq!(parts.width, Length::Px(200));
    assert_eq!(parts.height_px, 8);
    assert_eq!(parts.track, Paint::Solid(ColorRole::SurfaceContainerHighest));
    assert_eq!(parts.corner, CornerToken::ExtraSmall);

    let plain = LinearProgressBuilder::default().indeterminate().build();
    assert_eq!(plain.width, Length::Percent(100));
    assert_eq!(plain.height_px, LINEAR_PROGRESS_HEIGHT);
    assert_eq!(plain.progress.mode, ProgressMode::Indeterminate);
    assert_eq!(LinearProgressBuilder::new().progress(-5).build().progress.progress, 0);

    let ring = CircularProgressBuilder::new().progress(400).size(32).indeterminate().four_color().build();
    assert_eq!(ring.frame_px, 32);
    assert_eq!(ring.progress.progress, 400);
    assert_eq!(ring.progress.mode, ProgressMode::Indeterminate);
    assert!(ring.progress.four_color);
    assert_eq!(CircularProgressBuilder::default().build().frame_px, 48);
}

#[test]
fn loading_indicator_setters() {
    let i = MaterialLoadingIndicator::new();
    assert_eq!(i.size, LOADING_INDICATOR_SIZE);
    assert_eq!(i.speed, 100);
    assert_eq!(MaterialLoadingIndicator::default(), i);
    let j = i.contained().multi_color().with_size(0).with_speed(5);
    assert!(j.contained);
    assert!(j.multi_color);
    assert_eq!(j.size, 1);
    assert_eq!(j.speed, 10);
    assert_eq!(i.with_size(64).with_speed(200).size, 64);
    assert_eq!(i.with_speed(200).speed, 200);
    assert_eq!(j.background(), Paint::Solid(ColorRole::SurfaceContainerHigh));
    assert_eq!(i.background(), Paint::Transparent);
}

#[test]
fn loading_indicator_advances_through_shapes() {
    let mut i = MaterialLoadingIndicator::new().multi_color();
    assert_eq!(i.current_shape(), LoadingShape::SoftBurst);
    assert_eq!(i.shape_color(), ColorRole::Primary);
    // 650 ms at normal speed is one whole shape.
    i.advance(650);
    assert_eq!(i.morph_fraction, 1000);
    assert_eq!(i.current_shape(), LoadingShape::Cookie9);
    // 50 degrees, in thousandths.
    assert_eq!(i.rotation, 50000);
    i.advance(325);
    assert_eq!(i.morph_fraction, 1500);
    let m = i.material();
    assert_eq!(m.shape_from, 1);
    assert_eq!(m.shape_to, 2);
    assert_eq!(m.morph_t, 500);
    assert_eq!(m.rotation, 75000);
    assert_eq!(m.color, Paint::Solid(ColorRole::Primary));
    // Past the last shape the sequence starts over and the color moves on.
    // 6.9 shapes in: 6900 thousandths of a shape, 65 motion each.
    i.morph_motion = 6900 * 65;
    i.advance(130);
    assert_eq!(i.morph_fraction, 100);
    assert_eq!(i.color_index, 1);
    assert_eq!(i.shape_color(), ColorRole::Secondary);
    let last = MaterialLoadingIndicator { morph_fraction: 6500, ..MaterialLoadingIndicator::new() };
    let lm = last.material();
    assert_eq!((lm.shape_from, lm.shape_to, lm.morph_t), (6, 0, 500));
}

#[test]
fn loading_indicator_speed_and_rotation_wrap() {
    let mut i = MaterialLoadingIndicator::new().with_speed(200);
    i.advance(650);
    assert_eq!(i.morph_fraction, 2000);
    assert_eq!(i.rotation, 100000);
    // 350 degrees in.
    i.rotation_motion = 350_000 * 13 / 10;
    i.advance(130);
    // 20 degrees further, within one turn.
    assert_eq!(i.rotation, 10000);
    let mut one = MaterialLoadingIndicator::new();
    one.color_index = 3;
    one.multi_color = true;
    assert_eq!(one.shape_color(), ColorRole::Error);
    one.multi_color = false;
    assert_eq!(one.shape_color(), ColorRole::Primary);
    let d = ShapeMorphMaterial::default();
    assert_eq!((d.shape_from, d.shape_to, d.morph_t, d.rotation), (0, 1, 0, 0));
    assert_eq!(d.color, Paint::Custom(0xFFFF_FFFF));
}

#[test]
fn loading_indicator_builder_layout() {
    let parts = LoadingIndicatorBuilder::new().size(60).contained().speed(150).multi_color().build();
    assert_eq!(parts.width, Length::Px(60));
    assert_eq!(parts.height, Length::Px(60));
    assert_eq!(parts.corner_radius_px, 30);
    assert_eq!(parts.background, Paint::Solid(ColorRole::SurfaceContainerHigh));
    assert_eq!(parts.shape_size, Length::Px(38));
    assert_eq!(parts.shape_offset_px, 11);
    assert_eq!(parts.indicator.speed, 150);
    assert!(parts.indicator.multi_color);

    let small = LoadingIndicatorBuilder::default().size(33).build();
    assert_eq!(small.shape_offset_px, -3);
    assert_eq!(small.corner_radius_px, 16);
    assert_eq!(small.background, Paint::Transparent);

    let filled = LoadingIndicatorBuilder::new().fill().build();
    assert_eq!(filled.width, Length::Percent(100));
    assert_eq!(filled.height, Length::Percent(100));
    assert_eq!(filled.shape_size, Length::Percent(100));
    assert_eq!(filled.shape_offset_px, 0);
    assert_eq!(LoadingIndicatorBuilder::new().size(0).speed(0).build().indicator.size, 1);
}

#[test]
fn animation_steps_add_up_without_loss() {
    // Thirds of a cycle: rounded steps would fall short of a whole cycle.
    let mut p = MaterialLinearProgress::new().indeterminate();
    p.advance(200, 600);
    assert_eq!(p.animation_progress, 333);
    p.advance(200, 600);
    p.advance(200, 600);
    assert_eq!(p.animation_time_ms, 600);
    assert_eq!(p.animation_progress, 1000);
    // A loading indicator at a third of normal speed.
    let mut i = MaterialLoadingIndicator::new().with_speed(33);
    for _ in 0..3 {
        i.advance(650);
    }
    assert_eq!(i.morph_motion, 3 * 650 * 33);
    assert_eq!(i.morph_fraction, 990);
}
