//! The morphing loading indicator.
//!
//! Its position in the shape sequence is counted in thousandths of a shape,
//! its rotation in thousandths of a degree and its speed in percent of the
//! normal speed; lengths are in pixels and elapsed time arrives in
//! milliseconds. The animation keeps its motion (elapsed milliseconds
//! times speed) whole, so no part of a step is lost between frames.
use crate::style::{ColorRole, Length, Paint};
use vstd::prelude::*;

verus! {

/// Number of shapes the indicator morphs through.
pub const SHAPE_COUNT: usize = 7;

/// Number of dots in the indicator ring.
pub const LOADING_INDICATOR_DOT_COUNT: usize = 12;

/// The shapes of the morphing sequence, in order.
#[derive(Debug, Clone, Copy, PartialEq, Eq, Structural)]
pub enum LoadingShape {
    SoftBurst,
    Cookie9,
    Pentagon,
    Pill,
    Sunny,
    Cookie4,
    Oval,
}

/// The shape at position `i` of the sequence (`0 <= i < SHAPE_COUNT`).
pub open spec fn shape_at(i: int) -> LoadingShape {
    if i == 0 {
        LoadingShape::SoftBurst
    } else if i == 1 {
        LoadingShape::Cookie9
    } else if i == 2 {
        LoadingShape::Pentagon
    } else if i == 3 {
        LoadingShape::Pill
    } else if i == 4 {
        LoadingShape::Sunny
    } else if i == 5 {
        LoadingShape::Cookie4
    } else {
        LoadingShape::Oval
    }
}

impl LoadingShape {
    /// The shape for a step of the animation: the sequence repeats every
    /// `SHAPE_COUNT` steps.
    pub fn from_index(index: usize) -> (s: Self)
        ensures
            s == shape_at(index as int % SHAPE_COUNT as int),
    {
        match index % SHAPE_COUNT {
            0 => LoadingShape::SoftBurst,
            1 => LoadingShape::Cookie9,
            2 => LoadingShape::Pentagon,
            3 => LoadingShape::Pill,
            4 => LoadingShape::Sunny,
            5 => LoadingShape::Cookie4,
            _ => LoadingShape::Oval,
        }
    }
}

/// The shape sequence repeats with period `SHAPE_COUNT`.
pub proof fn lemma_shape_period(index: int)
    requires
        index >= 0,
    ensures
        shape_at((index + SHAPE_COUNT) % SHAPE_COUNT as int) == shape_at(index % SHAPE_COUNT as int),
{
    assert((index + 7) % 7 == index % 7) by (nonlinear_arith)
        requires
            index >= 0,
    ;
}

/// Default size of the indicator, in pixels.
pub const LOADING_INDICATOR_SIZE: u32 = 48;

/// Size of the morphing shape inside the indicator, in pixels.
pub const LOADING_INDICATOR_SHAPE_SIZE: u32 = 38;

/// How long each shape is shown at normal speed, in milliseconds.
pub const DURATION_PER_SHAPE: u32 = 650;

/// Steady rotation while one shape is shown, in degrees.
pub const CONSTANT_ROTATION_PER_SHAPE: u32 = 50;

/// Extra rotation while one shape is shown, in degrees.
pub const EXTRA_ROTATION_PER_SHAPE: u32 = 90;

/// Normal speed, in percent.
pub const NORMAL_SPEED: u32 = 100;

/// Lowest speed the indicator can be set to, in percent.
pub const MIN_SPEED: u32 = 10;

/// One shape, in thousandths of a shape.
pub const SHAPE_UNIT: u64 = 1000;

/// A whole sequence of shapes, in thousandths of a shape.
pub const SEQUENCE_LENGTH: u64 = 7000;

/// A whole turn, in thousandths of a degree.
pub const FULL_TURN: u64 = 360000;

/// Motion (elapsed milliseconds times speed in percent) that shows one
/// whole shape.
pub const SHAPE_MOTION: u64 = 65000;

/// Motion that runs through the whole sequence of shapes.
pub const SEQUENCE_MOTION: u64 = 455000;

/// Motion that turns the indicator once around.
pub const TURN_MOTION: u64 = 468000;

/// A loading indicator.
#[derive(Debug, Clone, Copy, PartialEq, Eq, Structural)]
pub struct MaterialLoadingIndicator {
    /// Width and height, in pixels.
    pub size: u32,
    /// Whether it fills its parent instead of having a fixed size.
    pub fill_parent: bool,
    /// Whether it sits on a contained surface.
    pub contained: bool,
    /// Whether it cycles through several colors.
    pub multi_color: bool,
    /// Position in the shape sequence, in thousandths of a shape.
    pub morph_fraction: u64,
    /// Rotation, in thousandths of a degree.
    pub rotation: u64,
    /// Motion (elapsed milliseconds times speed in percent) into the
    /// current run of the shape sequence.
    pub morph_motion: u64,
    /// Motion into the current turn.
    pub rotation_motion: u64,
    /// Speed, in percent of the normal speed.
    pub speed: u32,
    /// Which of the colors is shown, in multi-color mode.
    pub color_index: usize,
}

/// An indicator as `new` makes it: of the default size, at the start of
/// the sequence, at normal speed.
pub open spec fn fresh_loading_indicator() -> MaterialLoadingIndicator {
    MaterialLoadingIndicator {
        size: LOADING_INDICATOR_SIZE,
        fill_parent: false,
        contained: false,
        multi_color: false,
        morph_fraction: 0,
        rotation: 0,
        morph_motion: 0,
        rotation_motion: 0,
        speed: NORMAL_SPEED,
        color_index: 0,
    }
}

/// The motion of `elapsed_ms` at `speed` percent: shapes go by one per
/// `SHAPE_MOTION`, so one per `DURATION_PER_SHAPE` milliseconds at normal
/// speed.
pub open spec fn motion_step(elapsed_ms: u32, speed: u32) -> int {
    elapsed_ms as int * speed as int
}

/// The position in the sequence, in thousandths of a shape (rounded
/// down), after `motion` into it.
pub open spec fn morph_position(motion: int) -> int {
    (motion * SHAPE_UNIT as int) / SHAPE_MOTION as int
}

/// The rotation, in thousandths of a degree (rounded down), after
/// `motion` into a turn: `CONSTANT_ROTATION_PER_SHAPE` degrees per shape.
pub open spec fn rotation_angle(motion: int) -> int {
    (motion * CONSTANT_ROTATION_PER_SHAPE as int * 1000) / SHAPE_MOTION as int
}

/// The indicator after `elapsed_ms`: the motion into the sequence adds
/// up, and once past its end it starts over and the color moves on to the
/// next of four; the motion into the turn adds up within one turn. The
/// position and the rotation are read from those motions.
pub open spec fn advanced_indicator(i: MaterialLoadingIndicator, elapsed_ms: u32) -> MaterialLoadingIndicator {
    let m = i.morph_motion + motion_step(elapsed_ms, i.speed);
    let wrapped = m >= SEQUENCE_MOTION;
    let m2: int = if wrapped {
        m - SEQUENCE_MOTION
    } else {
        m
    };
    let r: int = (i.rotation_motion + motion_step(elapsed_ms, i.speed)) % TURN_MOTION as int;
    MaterialLoadingIndicator {
        morph_motion: m2 as u64,
        morph_fraction: morph_position(m2) as u64,
        color_index: if wrapped {
            ((i.color_index + 1) % 4) as usize
        } else {
            i.color_index
        },
        rotation_motion: r as u64,
        rotation: rotation_angle(r) as u64,
        ..i
    }
}

/// The color of the shape: in multi-color mode primary, secondary, tertiary
/// and error in turn, else primary.
pub open spec fn shape_color(i: MaterialLoadingIndicator) -> ColorRole {
    if i.multi_color {
        if i.color_index == 0 {
            ColorRole::Primary
        } else if i.color_index == 1 {
            ColorRole::Secondary
        } else if i.color_index == 2 {
            ColorRole::Tertiary
        } else {
            ColorRole::Error
        }
    } else {
        ColorRole::Primary
    }
}

/// What the shape renderer draws: the shape morphed from and to, how far
/// the morph has come, the rotation and the color.
#[derive(Debug, Clone, Copy, PartialEq, Eq, Structural)]
pub struct ShapeMorphMaterial {
    /// Position in the sequence of the shape morphed from.
    pub shape_from: u32,
    /// Position in the sequence of the shape morphed to.
    pub shape_to: u32,
    /// How far the morph has come, in thousandths.
    pub morph_t: u32,
    /// Rotation, in thousandths of a degree.
    pub rotation: u64,
    pub color: Paint,
}

impl Default for ShapeMorphMaterial {
    /// From the first shape to the second, not yet morphed, in white.
    fn default() -> (m: Self)
        ensures
            m == (ShapeMorphMaterial {
                shape_from: 0,
                shape_to: 1,
                morph_t: 0,
                rotation: 0,
                color: Paint::Custom(0xFFFF_FFFF),
            }),
    {
        ShapeMorphMaterial {
            shape_from: 0,
            shape_to: 1,
            morph_t: 0,
            rotation: 0,
            color: Paint::Custom(0xFFFF_FFFF),
        }
    }
}

/// The material for an indicator's current state.
pub open spec fn morph_material(i: MaterialLoadingIndicator) -> ShapeMorphMaterial {
    let shape: int = i.morph_fraction as int / SHAPE_UNIT as int;
    ShapeMorphMaterial {
        shape_from: (shape % SHAPE_COUNT as int) as u32,
        shape_to: ((shape + 1) % SHAPE_COUNT as int) as u32,
        morph_t: (i.morph_fraction as int % SHAPE_UNIT as int) as u32,
        rotation: i.rotation,
        color: Paint::Solid(shape_color(i)),
    }
}

impl MaterialLoadingIndicator {
    pub fn new() -> (i: Self)
        ensures
            i == fresh_loading_indicator(),
    {
        MaterialLoadingIndicator {
            size: LOADING_INDICATOR_SIZE,
            fill_parent: false,
            contained: false,
            multi_color: false,
            morph_fraction: 0,
            rotation: 0,
            morph_motion: 0,
            rotation_motion: 0,
            speed: NORMAL_SPEED,
            color_index: 0,
        }
    }

    pub fn contained(self) -> (i: Self)
        ensures
            i == (MaterialLoadingIndicator { contained: true, ..self }),
    {
        let mut this = self;
        this.contained = true;
        this
    }

    pub fn multi_color(self) -> (i: Self)
        ensures
            i == (MaterialLoadingIndicator { multi_color: true, ..self }),
    {
        let mut this = self;
        this.multi_color = true;
        this
    }

    /// Sets the size in pixels, at least 1.
    pub fn with_size(self, size: u32) -> (i: Self)
        ensures
            i == (MaterialLoadingIndicator { size: if size < 1 { 1 } else { size }, ..self }),
    {
        let mut this = self;
        this.size = if size < 1 {
            1
        } else {
            size
        };
        this
    }

    /// Sets the speed in percent, at least `MIN_SPEED`.
    pub fn with_speed(self, speed: u32) -> (i: Self)
        ensures
            i == (MaterialLoadingIndicator {
                speed: if speed < MIN_SPEED {
                    MIN_SPEED
                } else {
                    speed
                },
                ..self
            }),
    {
        let mut this = self;
        this.speed = if speed < MIN_SPEED {
            MIN_SPEED
        } else {
            speed
        };
        this
    }

    /// Advances the morph and the rotation by `elapsed_ms`.
    pub fn advance(&mut self, elapsed_ms: u32)
        requires
            old(self).morph_motion + motion_step(elapsed_ms, old(self).speed) <= u64::MAX,
        ensures
            *final(self) == advanced_indicator(*old(self), elapsed_ms),
    {
        let step: u128 = elapsed_ms as u128 * self.speed as u128;
        assert(step == elapsed_ms as int * self.speed as int);
        assert(step <= 0xffff_ffff_ffff_ffff_u128 * 1) by (nonlinear_arith)
            requires
                step == elapsed_ms as int * self.speed as int,
                elapsed_ms <= 0xffff_ffff,
                self.speed <= 0xffff_ffff,
        ;
        let m: u128 = self.morph_motion as u128 + step;
        let m2: u128 = if m >= SEQUENCE_MOTION as u128 {
            let ci: usize = self.color_index;
            assert((ci % 4 + 1) % 4 == (ci + 1) % 4) by (nonlinear_arith);
            self.color_index = (ci % 4 + 1) % 4;
            m - SEQUENCE_MOTION as u128
        } else {
            m
        };
        self.morph_motion = m2 as u64;
        self.morph_fraction = ((m2 * SHAPE_UNIT as u128) / SHAPE_MOTION as u128) as u64;
        let r: u128 = (self.rotation_motion as u128 + step) % TURN_MOTION as u128;
        self.rotation_motion = r as u64;
        self.rotation = ((r * CONSTANT_ROTATION_PER_SHAPE as u128 * 1000) / SHAPE_MOTION as u128) as u64;
    }

    /// The shape being morphed from.
    pub fn current_shape(&self) -> (s: LoadingShape)
        ensures
            s == shape_at((self.morph_fraction as int / SHAPE_UNIT as int) % SHAPE_COUNT as int),
    {
        let shape: u64 = self.morph_fraction / SHAPE_UNIT;
        LoadingShape::from_index((shape % 7) as usize)
    }

    /// The color the shape is drawn in.
    pub fn shape_color(&self) -> (c: ColorRole)
        ensures
            c == shape_color(*self),
    {
        if self.multi_color {
            match self.color_index {
                0 => ColorRole::Primary,
                1 => ColorRole::Secondary,
                2 => ColorRole::Tertiary,
                _ => ColorRole::Error,
            }
        } else {
            ColorRole::Primary
        }
    }

    /// What the shape renderer draws now.
    pub fn material(&self) -> (m: ShapeMorphMaterial)
        ensures
            m == morph_material(*self),
    {
        let shape: u64 = self.morph_fraction / SHAPE_UNIT;
        let color = self.shape_color();
        ShapeMorphMaterial {
            shape_from: (shape % 7) as u32,
            shape_to: ((shape % 7 + 1) % 7) as u32,
            morph_t: (self.morph_fraction % SHAPE_UNIT) as u32,
            rotation: self.rotation,
            color: Paint::Solid(color),
        }
    }

    /// The container: the high surface container when contained, else
    /// nothing.
    pub fn background(&self) -> (p: Paint)
        ensures
            p == (if self.contained {
                Paint::Solid(ColorRole::SurfaceContainerHigh)
            } else {
                Paint::Transparent
            }),
    {
        if self.contained {
            Paint::Solid(ColorRole::SurfaceContainerHigh)
        } else {
            Paint::Transparent
        }
    }
}

impl Default for MaterialLoadingIndicator {
    fn default() -> (i: Self)
        ensures
            i == fresh_loading_indicator(),
    {
        Self::new()
    }
}

/// An indicator with how its container and its shape are laid out and
/// drawn.
#[derive(Debug, Clone, Copy, PartialEq, Eq, Structural)]
pub struct LoadingIndicatorParts {
    pub indicator: MaterialLoadingIndicator,
    pub width: Length,
    pub height: Length,
    pub background: Paint,
    /// Corner radius of the container, in pixels: half its size, rounded
    /// down, which makes it round.
    pub corner_radius_px: u32,
    /// Width and height of the morphing shape.
    pub shape_size: Length,
    /// Left and top offset of the shape inside the container, in pixels
    /// (rounded down).
    pub shape_offset_px: i64,
}

/// How a built indicator is laid out: filling its parent with a shape that
/// fills it too, or at its own size with the shape centered in it.
pub open spec fn loading_parts(i: MaterialLoadingIndicator) -> LoadingIndicatorParts {
    LoadingIndicatorParts {
        indicator: i,
        width: if i.fill_parent { Length::Percent(100) } else { Length::Px(i.size) },
        height: if i.fill_parent { Length::Percent(100) } else { Length::Px(i.size) },
        background: if i.contained {
            Paint::Solid(ColorRole::SurfaceContainerHigh)
        } else {
            Paint::Transparent
        },
        corner_radius_px: (i.size / 2) as u32,
        shape_size: if i.fill_parent {
            Length::Percent(100)
        } else {
            Length::Px(LOADING_INDICATOR_SHAPE_SIZE)
        },
        shape_offset_px: if i.fill_parent {
            0
        } else {
            ((i.size as int - LOADING_INDICATOR_SHAPE_SIZE as int) / 2) as i64
        },
    }
}

/// Builds a loading indicator.
#[derive(Debug, Clone, Copy, PartialEq, Eq, Structural)]
pub struct LoadingIndicatorBuilder {
    pub indicator: MaterialLoadingIndicator,
}

impl LoadingIndicatorBuilder {
    pub fn new() -> (b: Self)
        ensures
            b == (LoadingIndicatorBuilder { indicator: fresh_loading_indicator() }),
    {
        LoadingIndicatorBuilder { indicator: MaterialLoadingIndicator::new() }
    }

    pub fn contained(self) -> (b: Self)
        ensures
            b == (LoadingIndicatorBuilder {
                indicator: MaterialLoadingIndicator { contained: true, ..self.indicator },
            }),
    {
        LoadingIndicatorBuilder { indicator: self.indicator.contained() }
    }

    pub fn multi_color(self) -> (b: Self)
        ensures
            b == (LoadingIndicatorBuilder {
                indicator: MaterialLoadingIndicator { multi_color: true, ..self.indicator },
            }),
    {
        LoadingIndicatorBuilder { indicator: self.indicator.multi_color() }
    }

    /// Makes the indicator fill its parent.
    pub fn fill(self) -> (b: Self)
        ensures
            b == (LoadingIndicatorBuilder {
                indicator: MaterialLoadingIndicator { fill_parent: true, ..self.indicator },
            }),
    {
        let mut this = self;
        this.indicator.fill_parent = true;
        this
    }

    /// Sets the size in pixels, at least 1.
    pub fn size(self, size: u32) -> (b: Self)
        ensures
            b == (LoadingIndicatorBuilder {
                indicator: MaterialLoadingIndicator {
                    size: if size < 1 { 1 } else { size },
                    ..self.indicator
                },
            }),
    {
        LoadingIndicatorBuilder { indicator: self.indicator.with_size(size) }
    }

    /// Sets the speed in percent, at least `MIN_SPEED`.
    pub fn speed(self, speed: u32) -> (b: Self)
        ensures
            b == (LoadingIndicatorBuilder {
                indicator: MaterialLoadingIndicator {
                    speed: if speed < MIN_SPEED {
                        MIN_SPEED
                    } else {
                        speed
                    },
                    ..self.indicator
                },
            }),
    {
        LoadingIndicatorBuilder { indicator: self.indicator.with_speed(speed) }
    }

    pub fn build(self) -> (parts: LoadingIndicatorParts)
        ensures
            parts == loading_parts(self.indicator),
    {
        let i = self.indicator;
        let background = i.background();
        let (width, height, shape_size, shape_offset_px) = if i.fill_parent {
            (Length::Percent(100), Length::Percent(100), Length::Percent(100), 0i64)
        } else {
            let diff: i64 = i.size as i64 - LOADING_INDICATOR_SHAPE_SIZE as i64;
            let offset: i64 = if diff >= 0 {
                diff / 2
            } else {
                -((-diff + 1) / 2)
            };
            (Length::Px(i.size), Length::Px(i.size), Length::Px(LOADING_INDICATOR_SHAPE_SIZE), offset)
        };
        LoadingIndicatorParts {
            indicator: i,
            width: width,
            height: height,
            background: background,
            corner_radius_px: i.size / 2,
            shape_size: shape_size,
            shape_offset_px: shape_offset_px,
        }
    }
}

impl Default for LoadingIndicatorBuilder {
    fn default() -> (b: Self)
        ensures
            b == (LoadingIndicatorBuilder { indicator: fresh_loading_indicator() }),
    {
        Self::new()
    }
}

/// Within a step no longer than the whole sequence, the motion and the
/// position stay within the sequence and the color index within the four
/// colors; the rotation always stays within one turn.
pub proof fn lemma_advance_stays_in_range(i: MaterialLoadingIndicator, elapsed_ms: u32)
    requires
        i.morph_motion < SEQUENCE_MOTION,
        i.color_index < 4,
        motion_step(elapsed_ms, i.speed) <= SEQUENCE_MOTION,
    ensures
        advanced_indicator(i, elapsed_ms).morph_motion < SEQUENCE_MOTION,
        advanced_indicator(i, elapsed_ms).morph_fraction < SEQUENCE_LENGTH,
        advanced_indicator(i, elapsed_ms).color_index < 4,
        advanced_indicator(i, elapsed_ms).rotation < FULL_TURN,
{
    let e = elapsed_ms as int;
    let v = i.speed as int;
    assert(e * v >= 0) by (nonlinear_arith)
        requires
            e >= 0,
            v >= 0,
    ;
}

/// The shape being morphed to is the one after the shape being morphed
/// from, and the morph is less than a whole shape along.
pub proof fn lemma_morph_targets_next_shape(i: MaterialLoadingIndicator)
    ensures
        morph_material(i).shape_to == (morph_material(i).shape_from + 1) % SHAPE_COUNT as int,
        morph_material(i).shape_from < SHAPE_COUNT,
        morph_material(i).morph_t < SHAPE_UNIT,
{
    let shape: int = i.morph_fraction as int / SHAPE_UNIT as int;
    assert(((shape % 7) + 1) % 7 == (shape + 1) % 7) by (nonlinear_arith)
        requires
            shape >= 0,
    ;
}

} // verus!
