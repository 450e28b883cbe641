//! Linear and circular progress indicators.
//!
//! Progress and animation phases are counted in thousandths: 1000 is a full
//! bar, or one whole animation cycle. A circular indicator's rotation is in
//! thousandths of a turn, lengths are in pixels, and elapsed time arrives in
//! milliseconds.
use crate::style::{ColorRole, CornerToken, Length, Paint};
use vstd::prelude::*;

verus! {

/// A full bar, in thousandths.
pub const PROGRESS_FULL: u32 = 1000;

/// One whole animation cycle (or one whole turn), in thousandths.
pub const CYCLE: u64 = 1000;

/// Height of a linear progress bar, in pixels.
pub const LINEAR_PROGRESS_HEIGHT: u32 = 4;

/// Default diameter of a circular progress indicator, in pixels.
pub const CIRCULAR_PROGRESS_SIZE: u32 = 48;

/// Track width of a circular progress indicator, in pixels.
pub const CIRCULAR_PROGRESS_TRACK_WIDTH: u32 = 4;

/// Width of the segment that an indeterminate bar moves along its track, in
/// percent of the track.
pub const INDETERMINATE_SEGMENT_PERCENT: u32 = 30;

/// Progress indicator variants.
#[derive(Debug, Clone, Copy, PartialEq, Eq, Structural)]
pub enum ProgressVariant {
    /// A horizontal bar.
    Linear,
    /// A ring.
    Circular,
}

impl Default for ProgressVariant {
    fn default() -> (v: Self)
        ensures
            v == ProgressVariant::Linear,
    {
        ProgressVariant::Linear
    }
}

/// Whether an indicator shows how far a task has come.
#[derive(Debug, Clone, Copy, PartialEq, Eq, Structural)]
pub enum ProgressMode {
    /// Shows the progress made.
    Determinate,
    /// Shows activity without progress.
    Indeterminate,
}

impl Default for ProgressMode {
    fn default() -> (m: Self)
        ensures
            m == ProgressMode::Determinate,
    {
        ProgressMode::Determinate
    }
}

/// A progress value brought into the range of a bar: below nothing is
/// nothing, above full is full.
pub open spec fn clamped_progress(progress: int) -> u32 {
    if progress < 0 {
        0
    } else if progress > PROGRESS_FULL {
        PROGRESS_FULL
    } else {
        progress as u32
    }
}

fn clamp_progress(progress: i64) -> (r: u32)
    ensures
        r == clamped_progress(progress as int),
{
    if progress < 0 {
        0
    } else if progress > PROGRESS_FULL as i64 {
        PROGRESS_FULL
    } else {
        progress as u32
    }
}

/// Time into a looping animation whose cycle lasts `cycle_ms`, after
/// `elapsed_ms` more: once past a whole cycle it goes back by one cycle.
pub open spec fn looped_time(time_ms: int, elapsed_ms: u32, cycle_ms: u32) -> int {
    let t = time_ms + elapsed_ms;
    if t > cycle_ms {
        t - cycle_ms
    } else {
        t
    }
}

/// The phase reached `time_ms` into a cycle lasting `cycle_ms`, in
/// thousandths of a cycle (rounded down).
pub open spec fn phase_of(time_ms: int, cycle_ms: u32) -> int {
    (time_ms * CYCLE) / cycle_ms as int
}

/// Whether an animation clock at `time_ms`, after `elapsed_ms` more,
/// stays small enough for its phase to be computed in 64 bits.
pub open spec fn clock_fits(time_ms: int, elapsed_ms: u32) -> bool {
    time_ms + elapsed_ms <= u64::MAX / CYCLE
}

fn step_time(time_ms: u64, elapsed_ms: u32, cycle_ms: u32) -> (r: (u64, u64))
    requires
        cycle_ms > 0,
        clock_fits(time_ms as int, elapsed_ms),
    ensures
        r.0 == looped_time(time_ms as int, elapsed_ms, cycle_ms),
        r.1 == phase_of(r.0 as int, cycle_ms),
{
    let t: u64 = time_ms + elapsed_ms as u64;
    let next: u64 = if t > cycle_ms as u64 {
        t - cycle_ms as u64
    } else {
        t
    };
    (next, (next * CYCLE) / cycle_ms as u64)
}

/// A linear progress indicator.
#[derive(Debug, Clone, Copy, PartialEq, Eq, Structural)]
pub struct MaterialLinearProgress {
    /// Progress, in thousandths.
    pub progress: u32,
    pub mode: ProgressMode,
    /// Whether the indicator cycles through four colors.
    pub four_color: bool,
    /// Phase of the indeterminate animation, in thousandths of a cycle.
    pub animation_progress: u64,
    /// Time into the current cycle of the indeterminate animation, in
    /// milliseconds.
    pub animation_time_ms: u64,
}

/// A linear indicator as `new` makes it: empty and determinate.
pub open spec fn fresh_linear_progress() -> MaterialLinearProgress {
    MaterialLinearProgress {
        progress: 0,
        mode: ProgressMode::Determinate,
        four_color: false,
        animation_progress: 0,
        animation_time_ms: 0,
    }
}

/// Where the indicator of a linear bar lies: its left edge and its width, in
/// hundredths of a percent of the track. A determinate bar fills from the
/// left edge as far as its progress; an indeterminate one moves a segment of
/// fixed width from just outside the left edge to the right edge over one
/// cycle.
pub open spec fn linear_indicator_span(p: MaterialLinearProgress) -> (int, int) {
    match p.mode {
        ProgressMode::Determinate => (0, clamped_progress(p.progress as int) * 10),
        ProgressMode::Indeterminate => {
            let t: int = if p.animation_progress > CYCLE {
                CYCLE as int
            } else {
                p.animation_progress as int
            };
            (
                t * (100 + INDETERMINATE_SEGMENT_PERCENT) / 10 - INDETERMINATE_SEGMENT_PERCENT
                    * 100,
                INDETERMINATE_SEGMENT_PERCENT * 100,
            )
        },
    }
}

impl MaterialLinearProgress {
    pub fn new() -> (p: Self)
        ensures
            p == fresh_linear_progress(),
    {
        MaterialLinearProgress {
            progress: 0,
            mode: ProgressMode::Determinate,
            four_color: false,
            animation_progress: 0,
            animation_time_ms: 0,
        }
    }

    /// Sets the progress, in thousandths, brought into `0..=1000`.
    pub fn with_progress(self, progress: i64) -> (p: Self)
        ensures
            p == (MaterialLinearProgress { progress: clamped_progress(progress as int), ..self }),
    {
        let mut this = self;
        this.progress = clamp_progress(progress);
        this
    }

    pub fn indeterminate(self) -> (p: Self)
        ensures
            p == (MaterialLinearProgress { mode: ProgressMode::Indeterminate, ..self }),
    {
        let mut this = self;
        this.mode = ProgressMode::Indeterminate;
        this
    }

    pub fn four_color(self) -> (p: Self)
        ensures
            p == (MaterialLinearProgress { four_color: true, ..self }),
    {
        let mut this = self;
        this.four_color = true;
        this
    }

    /// The track: the highest surface container.
    pub fn track_color(&self) -> (c: Paint)
        ensures
            c == Paint::Solid(ColorRole::SurfaceContainerHighest),
    {
        Paint::Solid(ColorRole::SurfaceContainerHighest)
    }

    /// The indicator: the primary color.
    pub fn indicator_color(&self) -> (c: Paint)
        ensures
            c == Paint::Solid(ColorRole::Primary),
    {
        Paint::Solid(ColorRole::Primary)
    }

    /// Advances the indeterminate animation by `elapsed_ms` of a cycle
    /// lasting `cycle_ms` (the same cycle on every call): the time into the
    /// cycle adds up and loops, and the phase is that time's share of the
    /// cycle. A determinate bar does not move.
    pub fn advance(&mut self, elapsed_ms: u32, cycle_ms: u32)
        requires
            cycle_ms > 0,
            old(self).mode == ProgressMode::Indeterminate ==> clock_fits(
                old(self).animation_time_ms as int,
                elapsed_ms,
            ),
        ensures
            *final(self) == (if old(self).mode == ProgressMode::Indeterminate {
                let t = looped_time(old(self).animation_time_ms as int, elapsed_ms, cycle_ms);
                MaterialLinearProgress {
                    animation_time_ms: t as u64,
                    animation_progress: phase_of(t, cycle_ms) as u64,
                    ..*old(self)
                }
            } else {
                *old(self)
            }),
    {
        if self.mode == ProgressMode::Indeterminate {
            let (t, phase) = step_time(self.animation_time_ms, elapsed_ms, cycle_ms);
            self.animation_time_ms = t;
            self.animation_progress = phase;
        }
    }

    /// The indicator's left edge and width, in hundredths of a percent of
    /// the track.
    pub fn indicator_span(&self) -> (span: (i64, u32))
        ensures
            (span.0 as int, span.1 as int) == linear_indicator_span(*self),
    {
        match self.mode {
            ProgressMode::Determinate => {
                let p = if self.progress > PROGRESS_FULL {
                    PROGRESS_FULL
                } else {
                    self.progress
                };
                (0, p * 10)
            },
            ProgressMode::Indeterminate => {
                let t: i64 = if self.animation_progress > CYCLE {
                    CYCLE as i64
                } else {
                    self.animation_progress as i64
                };
                (
                    t * (100 + INDETERMINATE_SEGMENT_PERCENT as i64) / 10
                        - INDETERMINATE_SEGMENT_PERCENT as i64 * 100,
                    INDETERMINATE_SEGMENT_PERCENT * 100,
                )
            },
        }
    }
}

impl Default for MaterialLinearProgress {
    fn default() -> (p: Self)
        ensures
            p == fresh_linear_progress(),
    {
        Self::new()
    }
}

/// A circular progress indicator.
#[derive(Debug, Clone, Copy, PartialEq, Eq, Structural)]
pub struct MaterialCircularProgress {
    /// Progress, in thousandths.
    pub progress: u32,
    pub mode: ProgressMode,
    /// Whether the indicator cycles through four colors.
    pub four_color: bool,
    /// Diameter in pixels.
    pub size: u32,
    /// Phase of the indeterminate animation, in thousandths of a cycle.
    pub animation_progress: u64,
    /// Rotation of the indeterminate arc, in thousandths of a turn.
    pub rotation: u64,
    /// Time into the current cycle of the indeterminate animation, in
    /// milliseconds.
    pub animation_time_ms: u64,
    /// Time into the current turn of the indeterminate arc, in
    /// milliseconds.
    pub rotation_time_ms: u64,
}

/// A circular indicator as `new` makes it: empty, determinate, of the
/// default size.
pub open spec fn fresh_circular_progress() -> MaterialCircularProgress {
    MaterialCircularProgress {
        progress: 0,
        mode: ProgressMode::Determinate,
        four_color: false,
        size: CIRCULAR_PROGRESS_SIZE,
        animation_progress: 0,
        rotation: 0,
        animation_time_ms: 0,
        rotation_time_ms: 0,
    }
}

impl MaterialCircularProgress {
    pub fn new() -> (p: Self)
        ensures
            p == fresh_circular_progress(),
    {
        MaterialCircularProgress {
            progress: 0,
            mode: ProgressMode::Determinate,
            four_color: false,
            size: CIRCULAR_PROGRESS_SIZE,
            animation_progress: 0,
            rotation: 0,
            animation_time_ms: 0,
            rotation_time_ms: 0,
        }
    }

    /// Sets the progress, in thousandths, brought into `0..=1000`.
    pub fn with_progress(self, progress: i64) -> (p: Self)
        ensures
            p == (MaterialCircularProgress { progress: clamped_progress(progress as int), ..self }),
    {
        let mut this = self;
        this.progress = clamp_progress(progress);
        this
    }

    pub fn indeterminate(self) -> (p: Self)
        ensures
            p == (MaterialCircularProgress { mode: ProgressMode::Indeterminate, ..self }),
    {
        let mut this = self;
        this.mode = ProgressMode::Indeterminate;
        this
    }

    pub fn four_color(self) -> (p: Self)
        ensures
            p == (MaterialCircularProgress { four_color: true, ..self }),
    {
        let mut this = self;
        this.four_color = true;
        this
    }

    /// Sets the diameter, in pixels.
    pub fn with_size(self, size: u32) -> (p: Self)
        ensures
            p == (MaterialCircularProgress { size: size, ..self }),
    {
        let mut this = self;
        this.size = size;
        this
    }

    /// A circular indicator has no visible track.
    pub fn track_color(&self) -> (c: Paint)
        ensures
            c == Paint::Transparent,
    {
        Paint::Transparent
    }

    /// The indicator: the primary color.
    pub fn indicator_color(&self) -> (c: Paint)
        ensures
            c == Paint::Solid(ColorRole::Primary),
    {
        Paint::Solid(ColorRole::Primary)
    }

    /// Advances the indeterminate animation by `elapsed_ms`: the arc loops
    /// once every `cycle_ms` and turns once every `turn_ms` (the same on
    /// every call); the times into the cycle and into the turn add up and
    /// loop, and the phase and rotation are their shares. A determinate
    /// indicator does not move.
    pub fn advance(&mut self, elapsed_ms: u32, cycle_ms: u32, turn_ms: u32)
        requires
            cycle_ms > 0,
            turn_ms > 0,
            old(self).mode == ProgressMode::Indeterminate ==> {
                &&& clock_fits(old(self).animation_time_ms as int, elapsed_ms)
                &&& clock_fits(old(self).rotation_time_ms as int, elapsed_ms)
            },
        ensures
            *final(self) == (if old(self).mode == ProgressMode::Indeterminate {
                let t = looped_time(old(self).animation_time_ms as int, elapsed_ms, cycle_ms);
                let r = looped_time(old(self).rotation_time_ms as int, elapsed_ms, turn_ms);
                MaterialCircularProgress {
                    animation_time_ms: t as u64,
                    animation_progress: phase_of(t, cycle_ms) as u64,
                    rotation_time_ms: r as u64,
                    rotation: phase_of(r, turn_ms) as u64,
                    ..*old(self)
                }
            } else {
                *old(self)
            }),
    {
        if self.mode == ProgressMode::Indeterminate {
            let (t, phase) = step_time(self.animation_time_ms, elapsed_ms, cycle_ms);
            let (r, turn) = step_time(self.rotation_time_ms, elapsed_ms, turn_ms);
            self.animation_time_ms = t;
            self.animation_progress = phase;
            self.rotation_time_ms = r;
            self.rotation = turn;
        }
    }
}

impl Default for MaterialCircularProgress {
    fn default() -> (p: Self)
        ensures
            p == fresh_circular_progress(),
    {
        Self::new()
    }
}

/// A linear bar with how it is laid out and drawn.
#[derive(Debug, Clone, Copy, PartialEq, Eq, Structural)]
pub struct LinearProgressParts {
    pub progress: MaterialLinearProgress,
    /// Width of the bar; it keeps at least this width.
    pub width: Length,
    /// Height of the bar in pixels; it keeps at least this height.
    pub height_px: u32,
    /// The track behind the indicator.
    pub track: Paint,
    /// Corner radius of the track and of the indicator.
    pub corner: CornerToken,
}

/// Builds a linear progress bar.
#[derive(Debug, Clone, Copy, PartialEq, Eq, Structural)]
pub struct LinearProgressBuilder {
    pub progress: MaterialLinearProgress,
    pub width: Length,
    /// Height in pixels.
    pub height_px: u32,
}

impl LinearProgressBuilder {
    /// A determinate, empty bar as wide as its parent and of the standard
    /// height.
    pub fn new() -> (b: Self)
        ensures
            b == (LinearProgressBuilder {
                progress: fresh_linear_progress(),
                width: Length::Percent(100),
                height_px: LINEAR_PROGRESS_HEIGHT,
            }),
    {
        LinearProgressBuilder {
            progress: MaterialLinearProgress::new(),
            width: Length::Percent(100),
            height_px: LINEAR_PROGRESS_HEIGHT,
        }
    }

    /// Sets the progress, in thousandths, brought into `0..=1000`.
    pub fn progress(self, progress: i64) -> (b: Self)
        ensures
            b == (LinearProgressBuilder {
                progress: MaterialLinearProgress {
                    progress: clamped_progress(progress as int),
                    ..self.progress
                },
                ..self
            }),
    {
        let mut this = self;
        this.progress.progress = clamp_progress(progress);
        this
    }

    pub fn indeterminate(self) -> (b: Self)
        ensures
            b == (LinearProgressBuilder {
                progress: MaterialLinearProgress { mode: ProgressMode::Indeterminate, ..self.progress },
                ..self
            }),
    {
        let mut this = self;
        this.progress.mode = ProgressMode::Indeterminate;
        this
    }

    pub fn four_color(self) -> (b: Self)
        ensures
            b == (LinearProgressBuilder {
                progress: MaterialLinearProgress { four_color: true, ..self.progress },
                ..self
            }),
    {
        let mut this = self;
        this.progress.four_color = true;
        this
    }

    pub fn width(self, width: Length) -> (b: Self)
        ensures
            b == (LinearProgressBuilder { width: width, ..self }),
    {
        let mut this = self;
        this.width = width;
        this
    }

    /// Sets the bar's height, in pixels.
    pub fn height_px(self, height_px: u32) -> (b: Self)
        ensures
            b == (LinearProgressBuilder { height_px: height_px, ..self }),
    {
        let mut this = self;
        this.height_px = height_px;
        this
    }

    /// The bar on its track, with extra-small corners.
    pub fn build(self) -> (parts: LinearProgressParts)
        ensures
            parts == (LinearProgressParts {
                progress: self.progress,
                width: self.width,
                height_px: self.height_px,
                track: Paint::Solid(ColorRole::SurfaceContainerHighest),
                corner: CornerToken::ExtraSmall,
            }),
    {
        let track = self.progress.track_color();
        LinearProgressParts {
            progress: self.progress,
            width: self.width,
            height_px: self.height_px,
            track: track,
            corner: CornerToken::ExtraSmall,
        }
    }
}

impl Default for LinearProgressBuilder {
    fn default() -> (b: Self)
        ensures
            b == (LinearProgressBuilder {
                progress: fresh_linear_progress(),
                width: Length::Percent(100),
                height_px: LINEAR_PROGRESS_HEIGHT,
            }),
    {
        Self::new()
    }
}

/// A circular indicator with its square frame.
#[derive(Debug, Clone, Copy, PartialEq, Eq, Structural)]
pub struct CircularProgressParts {
    pub progress: MaterialCircularProgress,
    /// Width and height of the frame, in pixels.
    pub frame_px: u32,
}

/// Builds a circular progress indicator.
#[derive(Debug, Clone, Copy, PartialEq, Eq, Structural)]
pub struct CircularProgressBuilder {
    pub progress: MaterialCircularProgress,
}

impl CircularProgressBuilder {
    pub fn new() -> (b: Self)
        ensures
            b == (CircularProgressBuilder { progress: fresh_circular_progress() }),
    {
        CircularProgressBuilder { progress: MaterialCircularProgress::new() }
    }

    /// Sets the progress, in thousandths, brought into `0..=1000`.
    pub fn progress(self, progress: i64) -> (b: Self)
        ensures
            b == (CircularProgressBuilder {
                progress: MaterialCircularProgress {
                    progress: clamped_progress(progress as int),
                    ..self.progress
                },
            }),
    {
        let mut this = self;
        this.progress.progress = clamp_progress(progress);
        this
    }

    pub fn indeterminate(self) -> (b: Self)
        ensures
            b == (CircularProgressBuilder {
                progress: MaterialCircularProgress { mode: ProgressMode::Indeterminate, ..self.progress },
            }),
    {
        let mut this = self;
        this.progress.mode = ProgressMode::Indeterminate;
        this
    }

    pub fn four_color(self) -> (b: Self)
        ensures
            b == (CircularProgressBuilder {
                progress: MaterialCircularProgress { four_color: true, ..self.progress },
            }),
    {
        let mut this = self;
        this.progress.four_color = true;
        this
    }

    /// Sets the diameter, in pixels.
    pub fn size(self, size: u32) -> (b: Self)
        ensures
            b == (CircularProgressBuilder {
                progress: MaterialCircularProgress { size: size, ..self.progress },
            }),
    {
        let mut this = self;
        this.progress.size = size;
        this
    }

    /// The indicator in a square frame as wide as its diameter.
    pub fn build(self) -> (parts: CircularProgressParts)
        ensures
            parts == (CircularProgressParts { progress: self.progress, frame_px: self.progress.size }),
    {
        CircularProgressParts { progress: self.progress, frame_px: self.progress.size }
    }
}

impl Default for CircularProgressBuilder {
    fn default() -> (b: Self)
        ensures
            b == (CircularProgressBuilder { progress: fresh_circular_progress() }),
    {
        Self::new()
    }
}

/// A looping animation whose time lies within one cycle still does after
/// a step no longer than a cycle, and its phase is then at most one whole
/// cycle.
pub proof fn lemma_phase_stays_in_cycle(time_ms: int, elapsed_ms: u32, cycle_ms: u32)
    requires
        0 <= time_ms <= cycle_ms,
        0 < cycle_ms,
        elapsed_ms <= cycle_ms,
    ensures
        0 <= looped_time(time_ms, elapsed_ms, cycle_ms) <= cycle_ms,
        0 <= phase_of(looped_time(time_ms, elapsed_ms, cycle_ms), cycle_ms) <= CYCLE,
{
    let t = looped_time(time_ms, elapsed_ms, cycle_ms);
    let c = cycle_ms as int;
    assert((t * 1000) / c <= 1000 && (t * 1000) / c >= 0) by (nonlinear_arith)
        requires
            0 <= t <= c,
            0 < c,
    ;
}

/// A determinate bar's indicator lies within its track; an indeterminate
/// one starts at most one segment left of the track and no further right
/// than its right edge, and has the segment's width.
pub proof fn lemma_indicator_span_bounds(p: MaterialLinearProgress)
    ensures
        p.mode == ProgressMode::Determinate ==> {
            &&& linear_indicator_span(p).0 == 0
            &&& 0 <= linear_indicator_span(p).1 <= 10000
        },
        p.mode == ProgressMode::Indeterminate ==> {
            &&& -3000 <= linear_indicator_span(p).0 <= 10000
            &&& linear_indicator_span(p).1 == 3000
        },
{
}

} // verus!
