//! Icon buttons, optionally toggleable.
use vstd::prelude::*;

use crate::style::{
    state_layer_percent, state_layer_percent_spec, ColorRole, Interaction, Paint,
    DISABLED_CONTAINER_PERCENT, DISABLED_CONTENT_PERCENT,
};

verus! {

/// Kind of icon button.
#[derive(Debug, Clone, Copy, PartialEq, Eq, Structural)]
pub enum IconButtonVariant {
    Standard,
    Filled,
    FilledTonal,
    Outlined,
}

impl Default for IconButtonVariant {
    fn default() -> (v: Self)
        ensures
            v == IconButtonVariant::Standard,
    {
        IconButtonVariant::Standard
    }
}

/// An icon button.
#[derive(Debug, Clone)]
pub struct MaterialIconButton {
    pub variant: IconButtonVariant,
    pub disabled: bool,
    pub selected: bool,
    /// Whether a press flips `selected`.
    pub toggle: bool,
    pub icon: String,
    pub pressed: bool,
    pub hovered: bool,
}

/// Side of an icon button, in pixels.
pub const ICON_BUTTON_SIZE: u32 = 40;
/// Size of its icon, in pixels.
pub const ICON_SIZE: u32 = 24;

/// A fresh standard icon button.
pub open spec fn fresh_icon_button(icon: Seq<char>, b: MaterialIconButton) -> bool {
    &&& b.icon@ == icon
    &&& b.variant == IconButtonVariant::Standard
    &&& !b.disabled
    &&& !b.selected
    &&& !b.toggle
    &&& !b.pressed
    &&& !b.hovered
}

/// The icon role of an enabled button.
pub open spec fn icon_role(b: MaterialIconButton) -> ColorRole {
    match b.variant {
        IconButtonVariant::Standard => if b.selected {
            ColorRole::Primary
        } else {
            ColorRole::OnSurfaceVariant
        },
        IconButtonVariant::Filled => if b.selected {
            ColorRole::OnPrimary
        } else {
            ColorRole::Primary
        },
        IconButtonVariant::FilledTonal => if b.selected {
            ColorRole::OnSecondaryContainer
        } else {
            ColorRole::OnSurfaceVariant
        },
        IconButtonVariant::Outlined => if b.selected {
            ColorRole::InverseOnSurface
        } else {
            ColorRole::OnSurfaceVariant
        },
    }
}

/// The container role of an enabled button, where it has a container.
pub open spec fn container_role(b: MaterialIconButton) -> Option<ColorRole> {
    match b.variant {
        IconButtonVariant::Standard => None,
        IconButtonVariant::Filled => Some(
            if b.selected {
                ColorRole::Primary
            } else {
                ColorRole::SurfaceContainerHighest
            },
        ),
        IconButtonVariant::FilledTonal => Some(
            if b.selected {
                ColorRole::SecondaryContainer
            } else {
                ColorRole::SurfaceContainerHighest
            },
        ),
        IconButtonVariant::Outlined => if b.selected {
            Some(ColorRole::InverseSurface)
        } else {
            None
        },
    }
}

/// The container paint of a button; the icon color serves as state layer.
pub open spec fn icon_button_background(b: MaterialIconButton) -> Paint {
    let p = state_layer_percent_spec(b.disabled, b.pressed, b.hovered);
    if b.disabled {
        match b.variant {
            IconButtonVariant::Filled | IconButtonVariant::FilledTonal => Paint::Faded(
                ColorRole::OnSurface,
                DISABLED_CONTAINER_PERCENT,
            ),
            _ => Paint::Transparent,
        }
    } else if p > 0 {
        match container_role(b) {
            Some(c) => Paint::Layered(c, icon_role(b), p),
            None => Paint::Faded(icon_role(b), p),
        }
    } else {
        match container_role(b) {
            Some(c) => Paint::Solid(c),
            None => Paint::Transparent,
        }
    }
}

/// The border paint: only unselected outlined buttons show one.
pub open spec fn icon_button_border(b: MaterialIconButton) -> Paint {
    if b.variant != IconButtonVariant::Outlined {
        Paint::Transparent
    } else if b.disabled {
        Paint::Faded(ColorRole::OnSurface, DISABLED_CONTAINER_PERCENT)
    } else if b.selected {
        Paint::Transparent
    } else {
        Paint::Solid(ColorRole::Outline)
    }
}

/// The button after the pointer does `interaction` on it: a press flips
/// the selection of a toggle button.
pub open spec fn icon_button_after(b: MaterialIconButton, interaction: Interaction) -> MaterialIconButton {
    if b.disabled {
        b
    } else {
        match interaction {
            Interaction::Pressed => MaterialIconButton {
                pressed: true,
                hovered: false,
                selected: if b.toggle {
                    !b.selected
                } else {
                    b.selected
                },
                ..b
            },
            Interaction::Hovered => MaterialIconButton { pressed: false, hovered: true, ..b },
            Interaction::Idle => MaterialIconButton { pressed: false, hovered: false, ..b },
        }
    }
}

/// Pressing an enabled toggle button flips its selection and pressing it
/// again gives the selection back; other buttons keep their selection.
pub proof fn lemma_toggle_press_twice(b: MaterialIconButton)
    requires
        !b.disabled,
    ensures
        b.toggle ==> icon_button_after(b, Interaction::Pressed).selected != b.selected
            && icon_button_after(icon_button_after(b, Interaction::Pressed), Interaction::Pressed).selected
            == b.selected,
        !b.toggle ==> icon_button_after(b, Interaction::Pressed).selected == b.selected,
{
}

impl MaterialIconButton {
    pub fn new(icon: &str) -> (b: Self)
        ensures
            fresh_icon_button(icon@, b),
    {
        Self {
            variant: IconButtonVariant::Standard,
            disabled: false,
            selected: false,
            toggle: false,
            icon: String::from_str(icon),
            pressed: false,
            hovered: false,
        }
    }

    pub fn with_variant(self, variant: IconButtonVariant) -> (b: Self)
        ensures
            b == (MaterialIconButton { variant: variant, ..self }),
    {
        let mut this = self;
        this.variant = variant;
        this
    }

    pub fn disabled(self, disabled: bool) -> (b: Self)
        ensures
            b == (MaterialIconButton { disabled: disabled, ..self }),
    {
        let mut this = self;
        this.disabled = disabled;
        this
    }

    pub fn toggleable(self) -> (b: Self)
        ensures
            b == (MaterialIconButton { toggle: true, ..self }),
    {
        let mut this = self;
        this.toggle = true;
        this
    }

    pub fn selected(self, selected: bool) -> (b: Self)
        ensures
            b == (MaterialIconButton { selected: selected, ..self }),
    {
        let mut this = self;
        this.selected = selected;
        this
    }

    fn icon_role(&self) -> (r: ColorRole)
        ensures
            r == icon_role(*self),
    {
        match self.variant {
            IconButtonVariant::Standard => if self.selected {
                ColorRole::Primary
            } else {
                ColorRole::OnSurfaceVariant
            },
            IconButtonVariant::Filled => if self.selected {
                ColorRole::OnPrimary
            } else {
                ColorRole::Primary
            },
            IconButtonVariant::FilledTonal => if self.selected {
                ColorRole::OnSecondaryContainer
            } else {
                ColorRole::OnSurfaceVariant
            },
            IconButtonVariant::Outlined => if self.selected {
                ColorRole::InverseOnSurface
            } else {
                ColorRole::OnSurfaceVariant
            },
        }
    }

    /// The container paint.
    pub fn background_color(&self) -> (p: Paint)
        ensures
            p == icon_button_background(*self),
    {
        if self.disabled {
            return match self.variant {
                IconButtonVariant::Filled | IconButtonVariant::FilledTonal => Paint::Faded(
                    ColorRole::OnSurface,
                    DISABLED_CONTAINER_PERCENT,
                ),
                _ => Paint::Transparent,
            };
        }
        let base: Option<ColorRole> = match self.variant {
            IconButtonVariant::Standard => None,
            IconButtonVariant::Filled => Some(
                if self.selected {
                    ColorRole::Primary
                } else {
                    ColorRole::SurfaceContainerHighest
                },
            ),
            IconButtonVariant::FilledTonal => Some(
                if self.selected {
                    ColorRole::SecondaryContainer
                } else {
                    ColorRole::SurfaceContainerHighest
                },
            ),
            IconButtonVariant::Outlined => if self.selected {
                Some(ColorRole::InverseSurface)
            } else {
                None
            },
        };
        let p = state_layer_percent(self.disabled, self.pressed, self.hovered);
        if p > 0 {
            match base {
                Some(c) => Paint::Layered(c, self.icon_role(), p),
                None => Paint::Faded(self.icon_role(), p),
            }
        } else {
            match base {
                Some(c) => Paint::Solid(c),
                None => Paint::Transparent,
            }
        }
    }

    /// The icon paint.
    pub fn icon_color(&self) -> (p: Paint)
        ensures
            p == (if self.disabled {
                Paint::Faded(ColorRole::OnSurface, DISABLED_CONTENT_PERCENT)
            } else {
                Paint::Solid(icon_role(*self))
            }),
    {
        if self.disabled {
            return Paint::Faded(ColorRole::OnSurface, DISABLED_CONTENT_PERCENT);
        }
        Paint::Solid(self.icon_role())
    }

    /// The border paint.
    pub fn border_color(&self) -> (p: Paint)
        ensures
            p == icon_button_border(*self),
    {
        match self.variant {
            IconButtonVariant::Outlined => {
                if self.disabled {
                    Paint::Faded(ColorRole::OnSurface, DISABLED_CONTAINER_PERCENT)
                } else if self.selected {
                    Paint::Transparent
                } else {
                    Paint::Solid(ColorRole::Outline)
                }
            },
            _ => Paint::Transparent,
        }
    }

    /// Applies what the pointer did to the button `entity`; where it was a
    /// press, returns the click to report, with the button's selection.
    pub fn apply_interaction(&mut self, entity: u64, interaction: Interaction) -> (click: Option<
        IconButtonClickEvent,
    >)
        ensures
            *final(self) == icon_button_after(*old(self), interaction),
            click == (if !old(self).disabled && interaction == Interaction::Pressed {
                Some(IconButtonClickEvent { entity: entity, selected: final(self).selected })
            } else {
                None
            }),
    {
        if self.disabled {
            return None;
        }
        match interaction {
            Interaction::Pressed => {
                self.pressed = true;
                self.hovered = false;
                if self.toggle {
                    self.selected = !self.selected;
                }
                Some(IconButtonClickEvent { entity, selected: self.selected })
            },
            Interaction::Hovered => {
                self.pressed = false;
                self.hovered = true;
                None
            },
            Interaction::Idle => {
                self.pressed = false;
                self.hovered = false;
                None
            },
        }
    }
}

/// An icon button with how its container is drawn.
#[derive(Debug, Clone)]
pub struct IconButtonParts {
    pub button: MaterialIconButton,
    pub background: Paint,
    pub border: Paint,
    /// Border width in pixels: 1 for outlined buttons, else 0.
    pub border_width: u32,
    /// Side in pixels.
    pub size: u32,
}

/// Builds an icon button.
pub struct IconButtonBuilder {
    pub button: MaterialIconButton,
}

impl IconButtonBuilder {
    pub fn new(icon: &str) -> (b: Self)
        ensures
            fresh_icon_button(icon@, b.button),
    {
        Self { button: MaterialIconButton::new(icon) }
    }

    pub fn variant(self, variant: IconButtonVariant) -> (b: Self)
        ensures
            b.button == (MaterialIconButton { variant: variant, ..self.button }),
    {
        Self { button: self.button.with_variant(variant) }
    }

    pub fn standard(self) -> (b: Self)
        ensures
            b.button == (MaterialIconButton { variant: IconButtonVariant::Standard, ..self.button }),
    {
        self.variant(IconButtonVariant::Standard)
    }

    pub fn filled(self) -> (b: Self)
        ensures
            b.button == (MaterialIconButton { variant: IconButtonVariant::Filled, ..self.button }),
    {
        self.variant(IconButtonVariant::Filled)
    }

    pub fn filled_tonal(self) -> (b: Self)
        ensures
            b.button == (MaterialIconButton { variant: IconButtonVariant::FilledTonal, ..self.button }),
    {
        self.variant(IconButtonVariant::FilledTonal)
    }

    pub fn outlined(self) -> (b: Self)
        ensures
            b.button == (MaterialIconButton { variant: IconButtonVariant::Outlined, ..self.button }),
    {
        self.variant(IconButtonVariant::Outlined)
    }

    pub fn disabled(self, disabled: bool) -> (b: Self)
        ensures
            b.button == (MaterialIconButton { disabled: disabled, ..self.button }),
    {
        Self { button: self.button.disabled(disabled) }
    }

    pub fn toggle(self) -> (b: Self)
        ensures
            b.button == (MaterialIconButton { toggle: true, ..self.button }),
    {
        Self { button: self.button.toggleable() }
    }

    pub fn selected(self, selected: bool) -> (b: Self)
        ensures
            b.button == (MaterialIconButton { selected: selected, ..self.button }),
    {
        Self { button: self.button.selected(selected) }
    }

    /// The button with its container paints and size.
    pub fn build(self) -> (p: IconButtonParts)
        ensures
            p.button == self.button,
            p.background == icon_button_background(self.button),
            p.border == icon_button_border(self.button),
            p.border_width == (if self.button.variant == IconButtonVariant::Outlined { 1u32 } else { 0 }),
            p.size == ICON_BUTTON_SIZE,
    {
        let background = self.button.background_color();
        let border = self.button.border_color();
        let border_width: u32 = match self.button.variant {
            IconButtonVariant::Outlined => 1,
            _ => 0,
        };
        IconButtonParts { button: self.button, background, border, border_width, size: ICON_BUTTON_SIZE }
    }
}

/// Reported when an icon button is pressed.
#[derive(Debug, Clone, Copy, PartialEq, Eq, Structural)]
pub struct IconButtonClickEvent {
    /// The entity id of the button.
    pub entity: u64,
    /// Whether the button is now selected (for toggle buttons).
    pub selected: bool,
}

} // verus!
