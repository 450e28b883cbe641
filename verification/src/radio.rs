//! Radio buttons: one option of a named group is selected at a time.
use vstd::prelude::*;

use crate::style::{ColorRole, Interaction, Paint, DISABLED_CONTENT_PERCENT};
use crate::text::str_equal;

verus! {

/// A radio button.
#[derive(Debug, Clone)]
pub struct MaterialRadio {
    pub selected: bool,
    pub disabled: bool,
    /// Name of the group whose options exclude each other.
    pub group: Option<String>,
    pub pressed: bool,
    pub hovered: bool,
}

/// Diameter of a radio button, in pixels.
pub const RADIO_SIZE: u32 = 20;
/// Diameter of the selected dot, in pixels.
pub const RADIO_DOT_SIZE: u32 = 10;
/// Side of the touch target, in pixels.
pub const RADIO_TOUCH_TARGET: u32 = 48;

/// The group name of a radio, as characters.
pub open spec fn group_of(r: MaterialRadio) -> Option<Seq<char>> {
    match r.group {
        Some(g) => Some(g@),
        None => None,
    }
}

/// A fresh radio: unselected, enabled, ungrouped, at rest.
pub open spec fn is_fresh_radio(r: MaterialRadio) -> bool {
    !r.selected && !r.disabled && r.group is None && !r.pressed && !r.hovered
}

/// The radio after the pointer does `interaction` on it: a press selects
/// it; a disabled radio ignores the pointer.
pub open spec fn radio_after(r: MaterialRadio, interaction: Interaction) -> MaterialRadio {
    if r.disabled {
        r
    } else {
        match interaction {
            Interaction::Pressed => MaterialRadio { pressed: true, hovered: false, selected: true, ..r },
            Interaction::Hovered => MaterialRadio { pressed: false, hovered: true, ..r },
            Interaction::Idle => MaterialRadio { pressed: false, hovered: false, ..r },
        }
    }
}

/// Reported when a press selects a radio that was not selected.
#[derive(Debug, Clone)]
pub struct RadioChangeEvent {
    /// The entity id of the radio.
    pub entity: u64,
    /// Its group, where it has one.
    pub group: Option<String>,
    /// Whether it is now selected.
    pub selected: bool,
}

impl MaterialRadio {
    pub fn new() -> (r: Self)
        ensures
            is_fresh_radio(r),
    {
        Self { selected: false, disabled: false, group: None, pressed: false, hovered: false }
    }

    pub fn selected(self, selected: bool) -> (r: Self)
        ensures
            r == (MaterialRadio { selected: selected, ..self }),
    {
        let mut this = self;
        this.selected = selected;
        this
    }

    pub fn disabled(self, disabled: bool) -> (r: Self)
        ensures
            r == (MaterialRadio { disabled: disabled, ..self }),
    {
        let mut this = self;
        this.disabled = disabled;
        this
    }

    pub fn group(self, group: &str) -> (r: Self)
        ensures
            group_of(r) == Some(group@),
            r == (MaterialRadio { group: r.group, ..self }),
    {
        let mut this = self;
        this.group = Some(String::from_str(group));
        this
    }

    /// The ring: faded when disabled, primary when selected,
    /// on-surface-variant otherwise.
    pub fn outer_color(&self) -> (p: Paint)
        ensures
            p == (if self.disabled {
                Paint::Faded(ColorRole::OnSurface, DISABLED_CONTENT_PERCENT)
            } else if self.selected {
                Paint::Solid(ColorRole::Primary)
            } else {
                Paint::Solid(ColorRole::OnSurfaceVariant)
            }),
    {
        if self.disabled {
            return Paint::Faded(ColorRole::OnSurface, DISABLED_CONTENT_PERCENT);
        }
        if self.selected {
            Paint::Solid(ColorRole::Primary)
        } else {
            Paint::Solid(ColorRole::OnSurfaceVariant)
        }
    }

    /// The dot: faded when disabled, primary otherwise.
    pub fn inner_color(&self) -> (p: Paint)
        ensures
            p == (if self.disabled {
                Paint::Faded(ColorRole::OnSurface, DISABLED_CONTENT_PERCENT)
            } else {
                Paint::Solid(ColorRole::Primary)
            }),
    {
        if self.disabled {
            return Paint::Faded(ColorRole::OnSurface, DISABLED_CONTENT_PERCENT);
        }
        Paint::Solid(ColorRole::Primary)
    }

    /// The dot as drawn: only a selected radio shows it.
    pub fn dot_color(&self) -> (p: Paint)
        ensures
            p == (if self.selected {
                if self.disabled {
                    Paint::Faded(ColorRole::OnSurface, DISABLED_CONTENT_PERCENT)
                } else {
                    Paint::Solid(ColorRole::Primary)
                }
            } else {
                Paint::Transparent
            }),
    {
        if self.selected {
            self.inner_color()
        } else {
            Paint::Transparent
        }
    }

    /// The hover and press overlay: primary when selected, on-surface
    /// otherwise.
    pub fn state_layer_color(&self) -> (p: Paint)
        ensures
            p == (if self.selected {
                Paint::Solid(ColorRole::Primary)
            } else {
                Paint::Solid(ColorRole::OnSurface)
            }),
    {
        if self.selected {
            Paint::Solid(ColorRole::Primary)
        } else {
            Paint::Solid(ColorRole::OnSurface)
        }
    }

    /// Applies what the pointer did to the radio `entity`; returns the
    /// change to report where a press selected a radio that was not
    /// selected.
    pub fn apply_interaction(&mut self, entity: u64, interaction: Interaction) -> (change: Option<
        RadioChangeEvent,
    >)
        ensures
            *final(self) == radio_after(*old(self), interaction),
            match change {
                Some(c) => !old(self).disabled && interaction == Interaction::Pressed
                    && !old(self).selected && c.entity == entity && c.selected && c.group == old(
                    self,
                ).group,
                None => old(self).disabled || interaction != Interaction::Pressed
                    || old(self).selected,
            },
    {
        if self.disabled {
            return None;
        }
        match interaction {
            Interaction::Pressed => {
                self.pressed = true;
                self.hovered = false;
                if !self.selected {
                    self.selected = true;
                    Some(RadioChangeEvent { entity, group: self.group.clone(), selected: true })
                } else {
                    None
                }
            },
            Interaction::Hovered => {
                self.pressed = false;
                self.hovered = true;
                None
            },
            Interaction::Idle => {
                self.pressed = false;
                self.hovered = false;
                None
            },
        }
    }
}

impl Default for MaterialRadio {
    fn default() -> (r: Self)
        ensures
            is_fresh_radio(r),
    {
        Self::new()
    }
}

/// A named radio group and the radio it has selected (by entity id).
#[derive(Debug, Clone)]
pub struct RadioGroup {
    pub name: String,
    pub selected: Option<u64>,
}

impl RadioGroup {
    pub fn new(name: &str) -> (g: Self)
        ensures
            g.name@ == name@,
            g.selected is None,
    {
        Self { name: String::from_str(name), selected: None }
    }
}

/// Whether a radio belongs to the group named `name`.
pub open spec fn in_group(r: MaterialRadio, name: Seq<char>) -> bool {
    group_of(r) == Some(name)
}

/// A radio after another radio of the group `name` was selected: it is
/// deselected if it belongs to that group.
pub open spec fn peer_after(r: MaterialRadio, name: Seq<char>) -> MaterialRadio {
    if in_group(r, name) && r.selected {
        MaterialRadio { selected: false, ..r }
    } else {
        r
    }
}

/// The radios after `radios[source]` was selected: the other radios of
/// its group are deselected (an ungrouped radio affects no other).
pub open spec fn peers_deselected(
    radios: Seq<MaterialRadio>,
    source: int,
    group: Option<Seq<char>>,
) -> Seq<MaterialRadio> {
    Seq::new(
        radios.len(),
        |i: int|
            match group {
                Some(name) => if i != source {
                    peer_after(radios[i], name)
                } else {
                    radios[i]
                },
                None => radios[i],
            },
    )
}

/// Deselects the other radios of the group of a newly selected radio.
pub fn deselect_group_peers(radios: &mut Vec<MaterialRadio>, source: usize, group: Option<&str>)
    ensures
        final(radios)@ == peers_deselected(
            old(radios)@,
            source as int,
            match group {
                Some(g) => Some(g@),
                None => None,
            },
        ),
{
    let ghost start = radios@;
    let ghost gv: Option<Seq<char>> = match group {
        Some(g) => Some(g@),
        None => None,
    };
    if let Some(name) = group {
        let mut i: usize = 0;
        while i < radios.len()
            invariant
                radios@.len() == start.len(),
                i <= radios@.len(),
                gv == Some(name@),
                forall|t: int|
                    0 <= t < i ==> #[trigger] radios@[t] == (if t != source {
                        peer_after(start[t], name@)
                    } else {
                        start[t]
                    }),
                forall|t: int| i <= t < radios@.len() ==> #[trigger] radios@[t] == start[t],
            decreases radios.len() - i,
        {
            if i != source {
                let same = match &radios[i].group {
                    Some(g) => str_equal(g.as_str(), name),
                    None => false,
                };
                if same && radios[i].selected {
                    radios[i].selected = false;
                }
            }
            i = i + 1;
        }
    }
    proof {
        assert(radios@ =~= peers_deselected(start, source as int, gv));
    }
}

/// Pressing an enabled radio of a group leaves it the only selected radio
/// of that group; radios of other groups are untouched.
pub proof fn lemma_press_selects_only_source(
    radios: Seq<MaterialRadio>,
    source: int,
    name: Seq<char>,
)
    requires
        0 <= source < radios.len(),
        !radios[source].disabled,
        in_group(radios[source], name),
    ensures
        ({
            let pressed = radios.update(source, radio_after(radios[source], Interaction::Pressed));
            let after = peers_deselected(pressed, source, Some(name));
            &&& after.len() == radios.len()
            &&& forall|i: int|
                0 <= i < after.len() && in_group(#[trigger] after[i], name) ==> (after[i].selected
                    <==> i == source)
            &&& forall|i: int|
                0 <= i < after.len() && !in_group(radios[i], name) ==> #[trigger] after[i]
                    == radios[i]
        }),
{
    let pressed = radios.update(source, radio_after(radios[source], Interaction::Pressed));
    let after = peers_deselected(pressed, source, Some(name));
    assert forall|i: int| 0 <= i < after.len() && in_group(#[trigger] after[i], name) implies (
    after[i].selected <==> i == source) by {
        if i != source {
            assert(pressed[i] == radios[i]);
        }
    }
    assert forall|i: int| 0 <= i < after.len() && !in_group(radios[i], name) implies #[trigger] after[i]
        == radios[i] by {
        assert(i != source);
        assert(pressed[i] == radios[i]);
    }
}

/// Builds a radio step by step.
pub struct RadioBuilder {
    radio: MaterialRadio,
}

impl View for RadioBuilder {
    type V = MaterialRadio;

    closed spec fn view(&self) -> MaterialRadio {
        self.radio
    }
}

impl RadioBuilder {
    pub fn new() -> (b: Self)
        ensures
            is_fresh_radio(b@),
    {
        Self { radio: MaterialRadio::new() }
    }

    pub fn selected(self, selected: bool) -> (b: Self)
        ensures
            b@ == (MaterialRadio { selected: selected, ..self@ }),
    {
        Self { radio: self.radio.selected(selected) }
    }

    pub fn disabled(self, disabled: bool) -> (b: Self)
        ensures
            b@ == (MaterialRadio { disabled: disabled, ..self@ }),
    {
        Self { radio: self.radio.disabled(disabled) }
    }

    pub fn group(self, group: &str) -> (b: Self)
        ensures
            group_of(b@) == Some(group@),
            b@ == (MaterialRadio { group: b@.group, ..self@ }),
    {
        Self { radio: self.radio.group(group) }
    }

    /// The radio.
    pub fn build(self) -> (r: MaterialRadio)
        ensures
            r == self@,
    {
        self.radio
    }
}

impl Default for RadioBuilder {
    fn default() -> (b: Self)
        ensures
            is_fresh_radio(b@),
    {
        Self::new()
    }
}

} // verus!
