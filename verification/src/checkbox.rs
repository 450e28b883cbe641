//! Checkboxes: a two-state (or, for a parent of several options,
//! three-state) selection control.
use vstd::prelude::*;

use crate::icons::{ICON_CHECK, ICON_REMOVE};
use crate::style::{ColorRole, Interaction, Paint, DISABLED_CONTENT_PERCENT};

verus! {

/// Whether a checkbox is checked.
#[derive(Debug, Clone, Copy, PartialEq, Eq, Structural)]
pub enum CheckboxState {
    Unchecked,
    Checked,
    /// Some, but not all, of the options the checkbox stands for are checked.
    Indeterminate,
}

impl Default for CheckboxState {
    fn default() -> (s: Self)
        ensures
            s == CheckboxState::Unchecked,
    {
        CheckboxState::Unchecked
    }
}

/// The state a press leads to: an unchecked or indeterminate box becomes
/// checked, a checked one unchecked.
pub open spec fn toggled(s: CheckboxState) -> CheckboxState {
    match s {
        CheckboxState::Unchecked => CheckboxState::Checked,
        CheckboxState::Checked => CheckboxState::Unchecked,
        CheckboxState::Indeterminate => CheckboxState::Checked,
    }
}

/// The glyph a state shows.
pub open spec fn state_icon(s: CheckboxState) -> Option<char> {
    match s {
        CheckboxState::Unchecked => None,
        CheckboxState::Checked => Some(ICON_CHECK),
        CheckboxState::Indeterminate => Some(ICON_REMOVE),
    }
}

impl CheckboxState {
    /// The state after a press.
    pub fn toggle(&self) -> (r: Self)
        ensures
            r == toggled(*self),
    {
        match self {
            CheckboxState::Unchecked => CheckboxState::Checked,
            CheckboxState::Checked => CheckboxState::Unchecked,
            CheckboxState::Indeterminate => CheckboxState::Checked,
        }
    }

    /// Whether the state is `Checked`.
    pub fn is_checked(&self) -> (r: bool)
        ensures
            r == (*self == CheckboxState::Checked),
    {
        match self {
            CheckboxState::Checked => true,
            _ => false,
        }
    }

    /// Whether the state is `Indeterminate`.
    pub fn is_indeterminate(&self) -> (r: bool)
        ensures
            r == (*self == CheckboxState::Indeterminate),
    {
        match self {
            CheckboxState::Indeterminate => true,
            _ => false,
        }
    }

    /// The glyph shown in the box: a check mark, a bar, or nothing.
    pub fn icon(&self) -> (r: Option<char>)
        ensures
            r == state_icon(*self),
    {
        match self {
            CheckboxState::Unchecked => None,
            CheckboxState::Checked => Some(ICON_CHECK),
            CheckboxState::Indeterminate => Some(ICON_REMOVE),
        }
    }
}

/// A press never leads to the indeterminate state, and it always changes
/// the state.
pub proof fn lemma_toggle_leaves_state(s: CheckboxState)
    ensures
        toggled(s) != CheckboxState::Indeterminate,
        toggled(s) != s,
        toggled(s) == CheckboxState::Checked <==> s != CheckboxState::Checked,
{
}

/// Two presses on a box that is not indeterminate bring it back.
pub proof fn lemma_toggle_twice(s: CheckboxState)
    requires
        s != CheckboxState::Indeterminate,
    ensures
        toggled(toggled(s)) == s,
{
}

/// Checkbox size, in pixels.
pub const CHECKBOX_SIZE: u32 = 18;
/// Side of the checkbox's touch target, in pixels.
pub const CHECKBOX_TOUCH_TARGET: u32 = 48;
/// Width of the checkbox's border, in pixels.
pub const CHECKBOX_BORDER_WIDTH: u32 = 2;
/// Corner radius of the checkbox, in pixels.
pub const CHECKBOX_CORNER_RADIUS: u32 = 2;
/// Animation progress, in thousandths, of a finished animation.
pub const ANIMATION_COMPLETE: u32 = 1000;

/// How far an animation lasting `duration_ms` has come after running for
/// `elapsed_ms`, in thousandths (rounded down).
pub open spec fn animation_fraction(elapsed_ms: int, duration_ms: u32) -> int {
    (elapsed_ms * ANIMATION_COMPLETE as int) / duration_ms as int
}

/// A checkbox.
#[derive(Debug, Clone, Copy, PartialEq, Eq, Structural)]
pub struct MaterialCheckbox {
    /// Current state.
    pub state: CheckboxState,
    /// Whether the checkbox ignores input.
    pub disabled: bool,
    /// Whether the checkbox shows an error.
    pub error: bool,
    /// Whether the pointer is pressed on it.
    pub pressed: bool,
    /// Whether the pointer is over it.
    pub hovered: bool,
    /// Progress of the state-change animation, in thousandths.
    pub animation_progress: u32,
    /// Time the running state-change animation has run, in milliseconds.
    pub animation_elapsed_ms: u32,
    /// Whether the state-change animation runs.
    pub animating: bool,
    /// The state before the last change (what the animation starts from).
    pub previous_state: CheckboxState,
}

/// A fresh checkbox: unchecked, enabled, at rest.
pub open spec fn fresh_checkbox() -> MaterialCheckbox {
    MaterialCheckbox {
        state: CheckboxState::Unchecked,
        disabled: false,
        error: false,
        pressed: false,
        hovered: false,
        animation_progress: ANIMATION_COMPLETE,
        animation_elapsed_ms: 0,
        animating: false,
        previous_state: CheckboxState::Unchecked,
    }
}

/// The checkbox after the pointer does `interaction` on it: a disabled box
/// ignores it; a press toggles the state and starts the animation from the
/// old state; hovering or leaving only updates the pointer flags.
pub open spec fn checkbox_after(c: MaterialCheckbox, interaction: Interaction) -> MaterialCheckbox {
    if c.disabled {
        c
    } else {
        match interaction {
            Interaction::Pressed => MaterialCheckbox {
                pressed: true,
                hovered: false,
                previous_state: c.state,
                state: toggled(c.state),
                animation_progress: 0,
                animation_elapsed_ms: 0,
                animating: true,
                ..c
            },
            Interaction::Hovered => MaterialCheckbox { pressed: false, hovered: true, ..c },
            Interaction::Idle => MaterialCheckbox { pressed: false, hovered: false, ..c },
        }
    }
}

impl MaterialCheckbox {
    /// A fresh checkbox.
    pub fn new() -> (c: Self)
        ensures
            c == fresh_checkbox(),
    {
        Self {
            state: CheckboxState::Unchecked,
            disabled: false,
            error: false,
            pressed: false,
            hovered: false,
            animation_progress: ANIMATION_COMPLETE,
            animation_elapsed_ms: 0,
            animating: false,
            previous_state: CheckboxState::Unchecked,
        }
    }

    /// Sets the state, with nothing to animate from.
    pub fn with_state(self, state: CheckboxState) -> (c: Self)
        ensures
            c == (MaterialCheckbox { state: state, previous_state: state, ..self }),
    {
        let mut this = self;
        this.state = state;
        this.previous_state = state;
        this
    }

    /// Starts checked.
    pub fn checked(self) -> (c: Self)
        ensures
            c == (MaterialCheckbox {
                state: CheckboxState::Checked,
                previous_state: CheckboxState::Checked,
                ..self
            }),
    {
        self.with_state(CheckboxState::Checked)
    }

    /// Starts indeterminate.
    pub fn indeterminate(self) -> (c: Self)
        ensures
            c == (MaterialCheckbox {
                state: CheckboxState::Indeterminate,
                previous_state: CheckboxState::Indeterminate,
                ..self
            }),
    {
        self.with_state(CheckboxState::Indeterminate)
    }

    /// Enables or disables the checkbox.
    pub fn disabled(self, disabled: bool) -> (c: Self)
        ensures
            c == (MaterialCheckbox { disabled: disabled, ..self }),
    {
        let mut this = self;
        this.disabled = disabled;
        this
    }

    /// Shows or clears the error.
    pub fn error(self, error: bool) -> (c: Self)
        ensures
            c == (MaterialCheckbox { error: error, ..self }),
    {
        let mut this = self;
        this.error = error;
        this
    }

    /// The box's fill: faded on-surface when disabled, error when in
    /// error, nothing when unchecked, primary otherwise.
    pub fn container_color(&self) -> (p: Paint)
        ensures
            p == (if self.disabled {
                Paint::Faded(ColorRole::OnSurface, DISABLED_CONTENT_PERCENT)
            } else if self.error {
                Paint::Solid(ColorRole::Error)
            } else if self.state == CheckboxState::Unchecked {
                Paint::Transparent
            } else {
                Paint::Solid(ColorRole::Primary)
            }),
    {
        if self.disabled {
            return Paint::Faded(ColorRole::OnSurface, DISABLED_CONTENT_PERCENT);
        }
        if self.error {
            return Paint::Solid(ColorRole::Error);
        }
        match self.state {
            CheckboxState::Unchecked => Paint::Transparent,
            _ => Paint::Solid(ColorRole::Primary),
        }
    }

    /// The box's outline: as the fill, but on-surface-variant when
    /// unchecked.
    pub fn outline_color(&self) -> (p: Paint)
        ensures
            p == (if self.disabled {
                Paint::Faded(ColorRole::OnSurface, DISABLED_CONTENT_PERCENT)
            } else if self.error {
                Paint::Solid(ColorRole::Error)
            } else if self.state == CheckboxState::Unchecked {
                Paint::Solid(ColorRole::OnSurfaceVariant)
            } else {
                Paint::Solid(ColorRole::Primary)
            }),
    {
        if self.disabled {
            return Paint::Faded(ColorRole::OnSurface, DISABLED_CONTENT_PERCENT);
        }
        if self.error {
            return Paint::Solid(ColorRole::Error);
        }
        match self.state {
            CheckboxState::Unchecked => Paint::Solid(ColorRole::OnSurfaceVariant),
            _ => Paint::Solid(ColorRole::Primary),
        }
    }

    /// The glyph's color: surface when disabled, on-error in error,
    /// on-primary otherwise.
    pub fn icon_color(&self) -> (p: Paint)
        ensures
            p == (if self.disabled {
                Paint::Solid(ColorRole::Surface)
            } else if self.error {
                Paint::Solid(ColorRole::OnError)
            } else {
                Paint::Solid(ColorRole::OnPrimary)
            }),
    {
        if self.disabled {
            return Paint::Solid(ColorRole::Surface);
        }
        if self.error {
            return Paint::Solid(ColorRole::OnError);
        }
        Paint::Solid(ColorRole::OnPrimary)
    }

    /// The hover and press overlay's color: error in error, on-surface
    /// when unchecked, primary otherwise.
    pub fn state_layer_color(&self) -> (p: Paint)
        ensures
            p == (if self.error {
                Paint::Solid(ColorRole::Error)
            } else if self.state == CheckboxState::Unchecked {
                Paint::Solid(ColorRole::OnSurface)
            } else {
                Paint::Solid(ColorRole::Primary)
            }),
    {
        if self.error {
            return Paint::Solid(ColorRole::Error);
        }
        match self.state {
            CheckboxState::Unchecked => Paint::Solid(ColorRole::OnSurface),
            _ => Paint::Solid(ColorRole::Primary),
        }
    }

    /// Moves to `new_state` and restarts the animation, unless the state
    /// is already `new_state`.
    pub fn start_animation(&mut self, new_state: CheckboxState)
        ensures
            *final(self) == (if old(self).state != new_state {
                MaterialCheckbox {
                    previous_state: old(self).state,
                    state: new_state,
                    animation_progress: 0,
                    animation_elapsed_ms: 0,
                    animating: true,
                    ..*old(self)
                }
            } else {
                *old(self)
            }),
    {
        if self.state != new_state {
            self.previous_state = self.state;
            self.state = new_state;
            self.animation_progress = 0;
            self.animation_elapsed_ms = 0;
            self.animating = true;
        }
    }

    /// Advances a running state-change animation by `elapsed_ms` of an
    /// animation lasting `duration_ms`: the time run adds up, the progress
    /// is that time's share of the duration, and the animation stops, at
    /// full progress, once the time run reaches the duration.
    pub fn advance_animation(&mut self, elapsed_ms: u32, duration_ms: u32)
        requires
            duration_ms > 0,
        ensures
            *final(self) == (if old(self).animating {
                let total = old(self).animation_elapsed_ms + elapsed_ms;
                if total >= duration_ms {
                    MaterialCheckbox {
                        animation_progress: ANIMATION_COMPLETE,
                        animation_elapsed_ms: duration_ms,
                        animating: false,
                        ..*old(self)
                    }
                } else {
                    MaterialCheckbox {
                        animation_progress: animation_fraction(total, duration_ms) as u32,
                        animation_elapsed_ms: total as u32,
                        ..*old(self)
                    }
                }
            } else {
                *old(self)
            }),
    {
        if self.animating {
            let total: u64 = self.animation_elapsed_ms as u64 + elapsed_ms as u64;
            if total >= duration_ms as u64 {
                self.animation_progress = ANIMATION_COMPLETE;
                self.animation_elapsed_ms = duration_ms;
                self.animating = false;
            } else {
                assert(total * 1000 / (duration_ms as int) < 1000) by (nonlinear_arith)
                    requires
                        total < duration_ms,
                        duration_ms > 0,
                ;
                self.animation_elapsed_ms = total as u32;
                self.animation_progress = ((total * ANIMATION_COMPLETE as u64) / duration_ms as u64) as u32;
            }
        }
    }

    /// Applies what the pointer did to the checkbox `entity`; where a press
    /// changed its state, returns the change to report.
    pub fn apply_interaction(&mut self, entity: u64, interaction: Interaction) -> (changed: Option<
        CheckboxChangeEvent,
    >)
        ensures
            *final(self) == checkbox_after(*old(self), interaction),
            changed == (if !old(self).disabled && interaction == Interaction::Pressed {
                Some(CheckboxChangeEvent { entity: entity, state: toggled(old(self).state) })
            } else {
                None
            }),
    {
        if self.disabled {
            return None;
        }
        match interaction {
            Interaction::Pressed => {
                self.pressed = true;
                self.hovered = false;
                let new_state = self.state.toggle();
                self.start_animation(new_state);
                Some(CheckboxChangeEvent { entity, state: self.state })
            },
            Interaction::Hovered => {
                self.pressed = false;
                self.hovered = true;
                None
            },
            Interaction::Idle => {
                self.pressed = false;
                self.hovered = false;
                None
            },
        }
    }
}

impl Default for MaterialCheckbox {
    fn default() -> (c: Self)
        ensures
            c == fresh_checkbox(),
    {
        Self::new()
    }
}

/// Builds a checkbox step by step.
pub struct CheckboxBuilder {
    checkbox: MaterialCheckbox,
}

impl View for CheckboxBuilder {
    type V = MaterialCheckbox;

    closed spec fn view(&self) -> MaterialCheckbox {
        self.checkbox
    }
}

impl CheckboxBuilder {
    /// Starts from a fresh checkbox.
    pub fn new() -> (b: Self)
        ensures
            b@ == fresh_checkbox(),
    {
        Self { checkbox: MaterialCheckbox::new() }
    }

    /// Sets the initial state.
    pub fn state(self, state: CheckboxState) -> (b: Self)
        ensures
            b@ == (MaterialCheckbox { state: state, previous_state: state, ..self@ }),
    {
        let mut this = self;
        this.checkbox.state = state;
        this.checkbox.previous_state = state;
        this
    }

    /// Starts checked.
    pub fn checked(self) -> (b: Self)
        ensures
            b@ == (MaterialCheckbox {
                state: CheckboxState::Checked,
                previous_state: CheckboxState::Checked,
                ..self@
            }),
    {
        self.state(CheckboxState::Checked)
    }

    /// Starts indeterminate.
    pub fn indeterminate(self) -> (b: Self)
        ensures
            b@ == (MaterialCheckbox {
                state: CheckboxState::Indeterminate,
                previous_state: CheckboxState::Indeterminate,
                ..self@
            }),
    {
        self.state(CheckboxState::Indeterminate)
    }

    /// Enables or disables the checkbox.
    pub fn disabled(self, disabled: bool) -> (b: Self)
        ensures
            b@ == (MaterialCheckbox { disabled: disabled, ..self@ }),
    {
        let mut this = self;
        this.checkbox.disabled = disabled;
        this
    }

    /// Shows or clears the error.
    pub fn error(self, error: bool) -> (b: Self)
        ensures
            b@ == (MaterialCheckbox { error: error, ..self@ }),
    {
        let mut this = self;
        this.checkbox.error = error;
        this
    }

    /// The checkbox.
    pub fn build(self) -> (c: MaterialCheckbox)
        ensures
            c == self@,
    {
        self.checkbox
    }
}

impl Default for CheckboxBuilder {
    fn default() -> (b: Self)
        ensures
            b@ == fresh_checkbox(),
    {
        Self::new()
    }
}

/// Reported when a press changes a checkbox's state.
#[derive(Debug, Clone, Copy, PartialEq, Eq, Structural)]
pub struct CheckboxChangeEvent {
    /// The entity id of the checkbox.
    pub entity: u64,
    /// Its new state.
    pub state: CheckboxState,
}

} // verus!
