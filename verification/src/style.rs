//! Theme-independent description of how a component is painted.
//!
//! Components do not hold concrete colors: they name a color role of the
//! active theme, optionally at a reduced opacity or with a state layer
//! blended over it, and the host resolves the role against its theme.
use vstd::prelude::*;

verus! {

/// A color slot of a Material Design 3 color scheme.
#[derive(Debug, Clone, Copy, PartialEq, Eq, Structural)]
pub enum ColorRole {
    Primary,
    OnPrimary,
    PrimaryContainer,
    OnPrimaryContainer,
    Secondary,
    OnSecondary,
    SecondaryContainer,
    OnSecondaryContainer,
    Tertiary,
    OnTertiary,
    TertiaryContainer,
    OnTertiaryContainer,
    Error,
    OnError,
    ErrorContainer,
    OnErrorContainer,
    Surface,
    OnSurface,
    SurfaceVariant,
    OnSurfaceVariant,
    SurfaceContainerLowest,
    SurfaceContainerLow,
    SurfaceContainer,
    SurfaceContainerHigh,
    SurfaceContainerHighest,
    InverseSurface,
    InverseOnSurface,
    InversePrimary,
    Outline,
    OutlineVariant,
    Scrim,
}

/// How a surface, border or glyph is painted.
#[derive(Debug, Clone, Copy, PartialEq, Eq, Structural)]
pub enum Paint {
    /// Nothing is drawn.
    Transparent,
    /// The role's color, fully opaque.
    Solid(ColorRole),
    /// The role's color at the given opacity, in percent.
    Faded(ColorRole, u8),
    /// The first role's color with the second blended over it at the given
    /// opacity, in percent (a state layer).
    Layered(ColorRole, ColorRole, u8),
    /// A color chosen by the caller, as packed ARGB.
    Custom(u32),
}

/// Elevation levels of Material Design 3.
#[derive(Debug, Clone, Copy, PartialEq, Eq, Structural)]
pub enum Elevation {
    Level0,
    Level1,
    Level2,
    Level3,
    Level4,
    Level5,
}

/// A corner radius: fully rounded (a pill or a circle), or a radius in
/// pixels.
#[derive(Debug, Clone, Copy, PartialEq, Eq, Structural)]
pub enum Rounding {
    Full,
    Px(u32),
}

/// Corner radius steps of the Material shape scale.
#[derive(Debug, Clone, Copy, PartialEq, Eq, Structural)]
pub enum CornerToken {
    ExtraSmall,
    Small,
    Medium,
    Large,
    ExtraLarge,
}

/// A length along one axis.
#[derive(Debug, Clone, Copy, PartialEq, Eq, Structural)]
pub enum Length {
    /// Chosen by the layout.
    Auto,
    /// In pixels.
    Px(u32),
    /// In percent of the parent.
    Percent(u32),
}

/// How a pointer currently relates to a component.
#[derive(Debug, Clone, Copy, PartialEq, Eq, Structural)]
pub enum Interaction {
    /// The pointer is pressed on the component.
    Pressed,
    /// The pointer is over the component.
    Hovered,
    /// Neither.
    Idle,
}

/// Opacity of the state layer for pressed components, in percent.
pub const PRESSED_STATE_LAYER_PERCENT: u8 = 12;
/// Opacity of the state layer for hovered components, in percent.
pub const HOVER_STATE_LAYER_PERCENT: u8 = 8;
/// Opacity of the content of disabled components, in percent.
pub const DISABLED_CONTENT_PERCENT: u8 = 38;
/// Opacity of the container of disabled components, in percent.
pub const DISABLED_CONTAINER_PERCENT: u8 = 12;

/// The state layer opacity for a component that is pressed or hovered.
pub open spec fn state_layer_percent_spec(disabled: bool, pressed: bool, hovered: bool) -> u8 {
    if disabled {
        0
    } else if pressed {
        PRESSED_STATE_LAYER_PERCENT
    } else if hovered {
        HOVER_STATE_LAYER_PERCENT
    } else {
        0
    }
}

/// The state layer opacity, in percent: none while disabled, then the
/// pressed opacity over the hovered one.
pub fn state_layer_percent(disabled: bool, pressed: bool, hovered: bool) -> (r: u8)
    ensures
        r == state_layer_percent_spec(disabled, pressed, hovered),
{
    if disabled {
        0
    } else if pressed {
        PRESSED_STATE_LAYER_PERCENT
    } else if hovered {
        HOVER_STATE_LAYER_PERCENT
    } else {
        0
    }
}

/// Margins around a divider.
#[derive(Debug, Clone, Copy, PartialEq, Eq, Structural)]
pub enum DividerMargin {
    /// None.
    Flush,
    /// A left margin past a list item's leading element: the large spacing
    /// plus 56 pixels.
    PastLeadingElement,
    /// The small spacing above and below.
    VerticalSmall,
}

/// A divider: a rule one pixel high across its parent, in the outline
/// variant color.
#[derive(Debug, Clone, Copy, PartialEq, Eq, Structural)]
pub struct DividerParts {
    pub width: Length,
    pub height_px: u32,
    pub color: Paint,
    pub margin: DividerMargin,
}

/// A divider with the given margins.
pub open spec fn divider(margin: DividerMargin) -> DividerParts {
    DividerParts {
        width: Length::Percent(100),
        height_px: 1,
        color: Paint::Solid(ColorRole::OutlineVariant),
        margin: margin,
    }
}

} // verus!
