//! Buttons: elevated, filled, tonal, outlined and text buttons, optionally
//! checkable (toggle buttons).
use vstd::prelude::*;

use crate::style::{
    state_layer_percent, state_layer_percent_spec, ColorRole, Elevation, Interaction, Paint,
    Rounding, DISABLED_CONTAINER_PERCENT, DISABLED_CONTENT_PERCENT,
};

verus! {

/// Emphasis of a button.
#[derive(Debug, Clone, Copy, PartialEq, Eq, Structural)]
pub enum ButtonVariant {
    Elevated,
    Filled,
    FilledTonal,
    Outlined,
    Text,
}

impl Default for ButtonVariant {
    fn default() -> (v: Self)
        ensures
            v == ButtonVariant::Filled,
    {
        ButtonVariant::Filled
    }
}

/// Where a button's icon sits relative to its label.
#[derive(Debug, Clone, Copy, PartialEq, Eq, Structural)]
pub enum IconGravity {
    Start,
    TextStart,
    End,
    TextEnd,
    Top,
    TextTop,
}

impl Default for IconGravity {
    fn default() -> (g: Self)
        ensures
            g == IconGravity::Start,
    {
        IconGravity::Start
    }
}

/// A button. Lengths are in pixels, custom colors packed ARGB.
#[derive(Debug, Clone)]
pub struct MaterialButton {
    pub variant: ButtonVariant,
    pub disabled: bool,
    pub label: String,
    /// Leading icon name.
    pub icon: Option<String>,
    /// Trailing icon name.
    pub trailing_icon: Option<String>,
    pub icon_gravity: IconGravity,
    /// Space between icon and label.
    pub icon_padding: u32,
    /// Icon size (0: the icon's own size).
    pub icon_size: u32,
    /// Corner radius; `None` for a fully rounded button.
    pub corner_radius: Option<u32>,
    pub min_width: Option<u32>,
    pub min_height: Option<u32>,
    /// Background for every state but disabled.
    pub custom_background_color: Option<u32>,
    /// Label color for every state but disabled.
    pub custom_text_color: Option<u32>,
    /// Outline width of outlined buttons.
    pub stroke_width: u32,
    pub stroke_color: Option<u32>,
    /// Whether the button toggles between checked and unchecked.
    pub checkable: bool,
    pub checked: bool,
    pub pressed: bool,
    pub hovered: bool,
    pub focused: bool,
}

/// A fresh button with the given label: filled, enabled, with default
/// icon spacing and nothing customised.
pub open spec fn fresh_button(label: Seq<char>, b: MaterialButton) -> bool {
    &&& b.label@ == label
    &&& b.variant == ButtonVariant::Filled
    &&& !b.disabled
    &&& b.icon is None
    &&& b.trailing_icon is None
    &&& b.icon_gravity == IconGravity::Start
    &&& b.icon_padding == 8
    &&& b.icon_size == 18
    &&& b.corner_radius is None
    &&& b.min_width is None
    &&& b.min_height is None
    &&& b.custom_background_color is None
    &&& b.custom_text_color is None
    &&& b.stroke_width == 1
    &&& b.stroke_color is None
    &&& !b.checkable
    &&& !b.checked
    &&& !b.pressed
    &&& !b.hovered
    &&& !b.focused
}

/// The container paint of a button.
pub open spec fn button_background(b: MaterialButton) -> Paint {
    let p = state_layer_percent_spec(false, b.pressed, b.hovered);
    if b.disabled {
        Paint::Faded(ColorRole::OnSurface, DISABLED_CONTAINER_PERCENT)
    } else if b.custom_background_color is Some {
        Paint::Custom(b.custom_background_color->0)
    } else {
        match b.variant {
            ButtonVariant::Elevated => Paint::Layered(ColorRole::SurfaceContainerLow, ColorRole::Primary, p),
            ButtonVariant::Filled => Paint::Layered(ColorRole::Primary, ColorRole::OnPrimary, p),
            ButtonVariant::FilledTonal => Paint::Layered(
                ColorRole::SecondaryContainer,
                ColorRole::OnSecondaryContainer,
                p,
            ),
            _ => if p > 0 {
                Paint::Faded(ColorRole::Primary, p)
            } else {
                Paint::Transparent
            },
        }
    }
}

/// The label paint of a button.
pub open spec fn button_text(b: MaterialButton) -> Paint {
    if b.disabled {
        Paint::Faded(ColorRole::OnSurface, DISABLED_CONTENT_PERCENT)
    } else if b.custom_text_color is Some {
        Paint::Custom(b.custom_text_color->0)
    } else {
        match b.variant {
            ButtonVariant::Filled => Paint::Solid(ColorRole::OnPrimary),
            ButtonVariant::FilledTonal => Paint::Solid(ColorRole::OnSecondaryContainer),
            _ => Paint::Solid(ColorRole::Primary),
        }
    }
}

/// The border paint of a button.
pub open spec fn button_border(b: MaterialButton) -> Paint {
    if b.disabled {
        Paint::Faded(ColorRole::OnSurface, DISABLED_CONTAINER_PERCENT)
    } else if b.variant == ButtonVariant::Outlined {
        Paint::Solid(ColorRole::Outline)
    } else {
        Paint::Transparent
    }
}

/// The elevation of a button.
pub open spec fn button_elevation(b: MaterialButton) -> Elevation {
    if b.disabled {
        Elevation::Level0
    } else {
        match b.variant {
            ButtonVariant::Elevated => if !b.pressed && b.hovered {
                Elevation::Level2
            } else {
                Elevation::Level1
            },
            ButtonVariant::Filled | ButtonVariant::FilledTonal => if b.pressed || b.hovered {
                Elevation::Level1
            } else {
                Elevation::Level0
            },
            _ => Elevation::Level0,
        }
    }
}

/// The button after the pointer does `interaction` on it (a disabled
/// button ignores the pointer).
pub open spec fn button_after(b: MaterialButton, interaction: Interaction) -> MaterialButton {
    if b.disabled {
        b
    } else {
        match interaction {
            Interaction::Pressed => MaterialButton { pressed: true, hovered: false, ..b },
            Interaction::Hovered => MaterialButton { pressed: false, hovered: true, ..b },
            Interaction::Idle => MaterialButton { pressed: false, hovered: false, ..b },
        }
    }
}

impl MaterialButton {
    /// A fresh filled button.
    pub fn new(label: &str) -> (b: Self)
        ensures
            fresh_button(label@, b),
    {
        Self {
            variant: ButtonVariant::Filled,
            disabled: false,
            label: String::from_str(label),
            icon: None,
            trailing_icon: None,
            icon_gravity: IconGravity::Start,
            icon_padding: 8,
            icon_size: 18,
            corner_radius: None,
            min_width: None,
            min_height: None,
            custom_background_color: None,
            custom_text_color: None,
            stroke_width: 1,
            stroke_color: None,
            checkable: false,
            checked: false,
            pressed: false,
            hovered: false,
            focused: false,
        }
    }

    pub fn with_variant(self, variant: ButtonVariant) -> (b: Self)
        ensures
            b == (MaterialButton { variant: variant, ..self }),
    {
        let mut this = self;
        this.variant = variant;
        this
    }

    pub fn disabled(self, disabled: bool) -> (b: Self)
        ensures
            b == (MaterialButton { disabled: disabled, ..self }),
    {
        let mut this = self;
        this.disabled = disabled;
        this
    }

    pub fn with_icon(self, icon: &str) -> (b: Self)
        ensures
            b.icon is Some && b.icon->0@ == icon@,
            b == (MaterialButton { icon: b.icon, ..self }),
    {
        let mut this = self;
        this.icon = Some(String::from_str(icon));
        this
    }

    pub fn with_trailing_icon(self, icon: &str) -> (b: Self)
        ensures
            b.trailing_icon is Some && b.trailing_icon->0@ == icon@,
            b == (MaterialButton { trailing_icon: b.trailing_icon, ..self }),
    {
        let mut this = self;
        this.trailing_icon = Some(String::from_str(icon));
        this
    }

    pub fn icon_gravity(self, gravity: IconGravity) -> (b: Self)
        ensures
            b == (MaterialButton { icon_gravity: gravity, ..self }),
    {
        let mut this = self;
        this.icon_gravity = gravity;
        this
    }

    pub fn icon_padding(self, padding: u32) -> (b: Self)
        ensures
            b == (MaterialButton { icon_padding: padding, ..self }),
    {
        let mut this = self;
        this.icon_padding = padding;
        this
    }

    pub fn icon_size(self, size: u32) -> (b: Self)
        ensures
            b == (MaterialButton { icon_size: size, ..self }),
    {
        let mut this = self;
        this.icon_size = size;
        this
    }

    pub fn corner_radius(self, radius: u32) -> (b: Self)
        ensures
            b == (MaterialButton { corner_radius: Some(radius), ..self }),
    {
        let mut this = self;
        this.corner_radius = Some(radius);
        this
    }

    pub fn min_width(self, width: u32) -> (b: Self)
        ensures
            b == (MaterialButton { min_width: Some(width), ..self }),
    {
        let mut this = self;
        this.min_width = Some(width);
        this
    }

    pub fn min_height(self, height: u32) -> (b: Self)
        ensures
            b == (MaterialButton { min_height: Some(height), ..self }),
    {
        let mut this = self;
        this.min_height = Some(height);
        this
    }

    pub fn custom_background_color(self, argb: u32) -> (b: Self)
        ensures
            b == (MaterialButton { custom_background_color: Some(argb), ..self }),
    {
        let mut this = self;
        this.custom_background_color = Some(argb);
        this
    }

    pub fn custom_text_color(self, argb: u32) -> (b: Self)
        ensures
            b == (MaterialButton { custom_text_color: Some(argb), ..self }),
    {
        let mut this = self;
        this.custom_text_color = Some(argb);
        this
    }

    pub fn stroke_width(self, width: u32) -> (b: Self)
        ensures
            b == (MaterialButton { stroke_width: width, ..self }),
    {
        let mut this = self;
        this.stroke_width = width;
        this
    }

    pub fn stroke_color(self, argb: u32) -> (b: Self)
        ensures
            b == (MaterialButton { stroke_color: Some(argb), ..self }),
    {
        let mut this = self;
        this.stroke_color = Some(argb);
        this
    }

    pub fn checkable(self, checkable: bool) -> (b: Self)
        ensures
            b == (MaterialButton { checkable: checkable, ..self }),
    {
        let mut this = self;
        this.checkable = checkable;
        this
    }

    pub fn checked(self, checked: bool) -> (b: Self)
        ensures
            b == (MaterialButton { checked: checked, ..self }),
    {
        let mut this = self;
        this.checked = checked;
        this
    }

    /// Flips the checked state of a checkable button; others are left as
    /// they are.
    pub fn toggle(&mut self)
        ensures
            *final(self) == (if old(self).checkable {
                MaterialButton { checked: !old(self).checked, ..*old(self) }
            } else {
                *old(self)
            }),
    {
        if self.checkable {
            self.checked = !self.checked;
        }
    }

    /// The corner radius in use: the custom one, else fully rounded.
    pub fn effective_corner_radius(&self) -> (r: Rounding)
        ensures
            r == (match self.corner_radius {
                Some(px) => Rounding::Px(px),
                None => Rounding::Full,
            }),
    {
        match self.corner_radius {
            Some(px) => Rounding::Px(px),
            None => Rounding::Full,
        }
    }

    /// The container paint: faded when disabled, the custom color where
    /// one is set, else the variant's container with the state layer over
    /// it (outlined and text buttons show only the state layer).
    pub fn background_color(&self) -> (p: Paint)
        ensures
            p == button_background(*self),
    {
        if self.disabled {
            return Paint::Faded(ColorRole::OnSurface, DISABLED_CONTAINER_PERCENT);
        }
        if let Some(c) = self.custom_background_color {
            return Paint::Custom(c);
        }
        let p = self.state_layer_opacity();
        match self.variant {
            ButtonVariant::Elevated => Paint::Layered(ColorRole::SurfaceContainerLow, ColorRole::Primary, p),
            ButtonVariant::Filled => Paint::Layered(ColorRole::Primary, ColorRole::OnPrimary, p),
            ButtonVariant::FilledTonal => Paint::Layered(
                ColorRole::SecondaryContainer,
                ColorRole::OnSecondaryContainer,
                p,
            ),
            _ => {
                if p > 0 {
                    Paint::Faded(ColorRole::Primary, p)
                } else {
                    Paint::Transparent
                }
            },
        }
    }

    /// The label paint.
    pub fn text_color(&self) -> (p: Paint)
        ensures
            p == button_text(*self),
    {
        if self.disabled {
            return Paint::Faded(ColorRole::OnSurface, DISABLED_CONTENT_PERCENT);
        }
        if let Some(c) = self.custom_text_color {
            return Paint::Custom(c);
        }
        match self.variant {
            ButtonVariant::Filled => Paint::Solid(ColorRole::OnPrimary),
            ButtonVariant::FilledTonal => Paint::Solid(ColorRole::OnSecondaryContainer),
            _ => Paint::Solid(ColorRole::Primary),
        }
    }

    /// The border paint: only outlined buttons have a visible border.
    pub fn border_color(&self) -> (p: Paint)
        ensures
            p == button_border(*self),
    {
        if self.disabled {
            return Paint::Faded(ColorRole::OnSurface, DISABLED_CONTAINER_PERCENT);
        }
        match self.variant {
            ButtonVariant::Outlined => Paint::Solid(ColorRole::Outline),
            _ => Paint::Transparent,
        }
    }

    /// The shadow level.
    pub fn elevation(&self) -> (e: Elevation)
        ensures
            e == button_elevation(*self),
    {
        if self.disabled {
            return Elevation::Level0;
        }
        match self.variant {
            ButtonVariant::Elevated => {
                if self.pressed {
                    Elevation::Level1
                } else if self.hovered {
                    Elevation::Level2
                } else {
                    Elevation::Level1
                }
            },
            ButtonVariant::Filled | ButtonVariant::FilledTonal => {
                if self.pressed || self.hovered {
                    Elevation::Level1
                } else {
                    Elevation::Level0
                }
            },
            _ => Elevation::Level0,
        }
    }

    /// The state layer opacity, in percent.
    pub fn state_layer_opacity(&self) -> (p: u8)
        ensures
            p == state_layer_percent_spec(self.disabled, self.pressed, self.hovered),
    {
        state_layer_percent(self.disabled, self.pressed, self.hovered)
    }

    /// Applies what the pointer did to the component `entity`; where it
    /// was a click, returns the event to report.
    pub fn apply_interaction(&mut self, entity: u64, interaction: Interaction) -> (click: Option<
        ButtonClickEvent,
    >)
        ensures
            *final(self) == button_after(*old(self), interaction),
            click == (if !old(self).disabled && interaction == Interaction::Pressed {
                Some(ButtonClickEvent { entity: entity })
            } else {
                None
            }),
    {
        if self.disabled {
            return None;
        }
        match interaction {
            Interaction::Pressed => {
                self.pressed = true;
                self.hovered = false;
                Some(ButtonClickEvent { entity })
            },
            Interaction::Hovered => {
                self.pressed = false;
                self.hovered = true;
                None
            },
            Interaction::Idle => {
                self.pressed = false;
                self.hovered = false;
                None
            },
        }
    }
}

/// What a built button consists of: the button and how its container is
/// drawn.
#[derive(Debug, Clone)]
pub struct ButtonParts {
    pub button: MaterialButton,
    pub background: Paint,
    pub border: Paint,
    /// Border width in pixels: 1 for outlined buttons, else 0.
    pub border_width: u32,
    pub corner: Rounding,
    /// The shadow, where one is drawn.
    pub shadow: Option<Elevation>,
}

/// Builds a button step by step.
pub struct MaterialButtonBuilder {
    pub button: MaterialButton,
}

impl View for MaterialButtonBuilder {
    type V = MaterialButton;

    closed spec fn view(&self) -> MaterialButton {
        self.button
    }
}

impl MaterialButtonBuilder {
    pub fn new(label: &str) -> (b: Self)
        ensures
            fresh_button(label@, b@),
    {
        Self { button: MaterialButton::new(label) }
    }

    pub fn variant(self, variant: ButtonVariant) -> (b: Self)
        ensures
            b@ == (MaterialButton { variant: variant, ..self@ }),
    {
        let mut this = self;
        this.button.variant = variant;
        this
    }

    pub fn elevated(self) -> (b: Self)
        ensures
            b@ == (MaterialButton { variant: ButtonVariant::Elevated, ..self@ }),
    {
        self.variant(ButtonVariant::Elevated)
    }

    pub fn filled(self) -> (b: Self)
        ensures
            b@ == (MaterialButton { variant: ButtonVariant::Filled, ..self@ }),
    {
        self.variant(ButtonVariant::Filled)
    }

    pub fn filled_tonal(self) -> (b: Self)
        ensures
            b@ == (MaterialButton { variant: ButtonVariant::FilledTonal, ..self@ }),
    {
        self.variant(ButtonVariant::FilledTonal)
    }

    pub fn outlined(self) -> (b: Self)
        ensures
            b@ == (MaterialButton { variant: ButtonVariant::Outlined, ..self@ }),
    {
        self.variant(ButtonVariant::Outlined)
    }

    pub fn text(self) -> (b: Self)
        ensures
            b@ == (MaterialButton { variant: ButtonVariant::Text, ..self@ }),
    {
        self.variant(ButtonVariant::Text)
    }

    pub fn disabled(self, disabled: bool) -> (b: Self)
        ensures
            b@ == (MaterialButton { disabled: disabled, ..self@ }),
    {
        let mut this = self;
        this.button.disabled = disabled;
        this
    }

    pub fn checkable(self, checkable: bool) -> (b: Self)
        ensures
            b@ == (MaterialButton { checkable: checkable, ..self@ }),
    {
        let mut this = self;
        this.button.checkable = checkable;
        this
    }

    pub fn checked(self, checked: bool) -> (b: Self)
        ensures
            b@ == (MaterialButton { checked: checked, ..self@ }),
    {
        let mut this = self;
        this.button.checked = checked;
        this
    }

    pub fn icon(self, icon: &str) -> (b: Self)
        ensures
            b@.icon is Some && b@.icon->0@ == icon@,
            b@ == (MaterialButton { icon: b@.icon, ..self@ }),
    {
        let mut this = self;
        this.button.icon = Some(String::from_str(icon));
        this
    }

    /// The button with its container, border, corners and shadow.
    pub fn build(self) -> (parts: ButtonParts)
        ensures
            parts.button == self@,
            parts.background == button_background(self@),
            parts.border == button_border(self@),
            parts.border_width == (if self@.variant == ButtonVariant::Outlined { 1u32 } else { 0 }),
            parts.corner == (match self@.corner_radius {
                Some(px) => Rounding::Px(px),
                None => Rounding::Full,
            }),
            parts.shadow == Some(button_elevation(self@)),
    {
        let mut parts = self.build_without_shadow();
        parts.shadow = Some(parts.button.elevation());
        parts
    }

    /// As `build`, without a shadow (for layered surfaces).
    pub fn build_without_shadow(self) -> (parts: ButtonParts)
        ensures
            parts.button == self@,
            parts.background == button_background(self@),
            parts.border == button_border(self@),
            parts.border_width == (if self@.variant == ButtonVariant::Outlined { 1u32 } else { 0 }),
            parts.corner == (match self@.corner_radius {
                Some(px) => Rounding::Px(px),
                None => Rounding::Full,
            }),
            parts.shadow is None,
    {
        let background = self.button.background_color();
        let border = self.button.border_color();
        let border_width: u32 = match self.button.variant {
            ButtonVariant::Outlined => 1,
            _ => 0,
        };
        let corner = self.button.effective_corner_radius();
        ButtonParts { button: self.button, background, border, border_width, corner, shadow: None }
    }
}

/// Reported when a button is pressed.
#[derive(Debug, Clone, Copy, PartialEq, Eq, Structural)]
pub struct ButtonClickEvent {
    /// The entity id of the component.
    pub entity: u64,
}

/// A button of the given variant with the given label, everything else at
/// its default, with its container, border, corners and shadow.
pub fn material_button_bundle(label: &str, variant: ButtonVariant) -> (parts: ButtonParts)
    ensures
        parts.button.variant == variant,
        fresh_button(label@, MaterialButton { variant: ButtonVariant::Filled, ..parts.button }),
        parts.background == button_background(parts.button),
        parts.border == button_border(parts.button),
        parts.border_width == (if variant == ButtonVariant::Outlined { 1u32 } else { 0 }),
        parts.corner == Rounding::Full,
        parts.shadow == Some(button_elevation(parts.button)),
{
    MaterialButtonBuilder::new(label).variant(variant).build()
}

} // verus!
