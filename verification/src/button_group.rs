//! Button groups (segmented buttons): a row or column of checkable
//! buttons with optional single selection and required selection.
use vstd::prelude::*;

use crate::button::MaterialButton;
use crate::style::Rounding;

verus! {

/// Direction in which a group lays out its buttons.
#[derive(Debug, Clone, Copy, PartialEq, Eq, Structural)]
pub enum ButtonGroupOrientation {
    Horizontal,
    Vertical,
}

impl Default for ButtonGroupOrientation {
    fn default() -> (o: Self)
        ensures
            o == ButtonGroupOrientation::Horizontal,
    {
        ButtonGroupOrientation::Horizontal
    }
}

/// A button group. Its direct children are its buttons, in order.
#[derive(Debug, Clone, Copy, PartialEq, Eq, Structural)]
pub struct MaterialButtonGroup {
    pub orientation: ButtonGroupOrientation,
    /// At most one button may be checked.
    pub single_selection: bool,
    /// The last checked button cannot be unchecked.
    pub selection_required: bool,
    /// Gap between buttons, in pixels.
    pub spacing: i32,
}

/// A horizontal group without selection rules and without gaps.
pub open spec fn default_group() -> MaterialButtonGroup {
    MaterialButtonGroup {
        orientation: ButtonGroupOrientation::Horizontal,
        single_selection: false,
        selection_required: false,
        spacing: 0,
    }
}

impl Default for MaterialButtonGroup {
    fn default() -> (g: Self)
        ensures
            g == default_group(),
    {
        Self {
            orientation: ButtonGroupOrientation::Horizontal,
            single_selection: false,
            selection_required: false,
            spacing: 0,
        }
    }
}

/// Whether a button counts as checked within its group.
pub open spec fn is_on(b: MaterialButton) -> bool {
    b.checkable && b.checked
}

/// Number of checked buttons.
pub open spec fn checked_count(s: Seq<MaterialButton>) -> nat
    decreases s.len(),
{
    if s.len() == 0 {
        0
    } else {
        checked_count(s.drop_last()) + if is_on(s.last()) {
            1nat
        } else {
            0nat
        }
    }
}

/// What a press on one button of a group changes.
#[derive(Debug, Clone, Copy, PartialEq, Eq, Structural)]
pub struct TogglePlan {
    /// The pressed button.
    pub clicked: usize,
    /// The checked state the pressed button takes, if it changes.
    pub clicked_set_checked: Option<bool>,
    /// Whether every other checkable button is unchecked.
    pub uncheck_others: bool,
}

/// The change a press on `buttons[clicked]` calls for: none for a
/// disabled or non-checkable button; with single selection, checking a
/// button unchecks the others and unchecking is refused where selection
/// is required; with multiple selection, unchecking the last checked
/// button is refused where selection is required.
pub open spec fn toggle_plan_spec(
    g: MaterialButtonGroup,
    buttons: Seq<MaterialButton>,
    clicked: usize,
) -> Option<TogglePlan> {
    let b = buttons[clicked as int];
    if b.disabled || !b.checkable {
        None
    } else if g.single_selection {
        if b.checked {
            if !g.selection_required {
                Some(TogglePlan { clicked, clicked_set_checked: Some(false), uncheck_others: false })
            } else {
                None
            }
        } else {
            Some(TogglePlan { clicked, clicked_set_checked: Some(true), uncheck_others: true })
        }
    } else {
        if b.checked {
            if !(g.selection_required && checked_count(buttons) <= 1) {
                Some(TogglePlan { clicked, clicked_set_checked: Some(false), uncheck_others: false })
            } else {
                None
            }
        } else {
            Some(TogglePlan { clicked, clicked_set_checked: Some(true), uncheck_others: false })
        }
    }
}

/// A button of the group after a plan is carried out.
pub open spec fn planned_button(b: MaterialButton, i: int, p: TogglePlan) -> MaterialButton {
    if i == p.clicked && p.clicked_set_checked is Some {
        MaterialButton { checked: p.clicked_set_checked->0, ..b }
    } else if p.uncheck_others && i != p.clicked && b.checkable {
        MaterialButton { checked: false, ..b }
    } else {
        b
    }
}

/// The group's buttons after a plan is carried out.
pub open spec fn plan_applied(s: Seq<MaterialButton>, p: TogglePlan) -> Seq<MaterialButton> {
    Seq::new(s.len(), |i: int| planned_button(s[i], i, p))
}

/// The plans for presses on several buttons, all judged on the buttons as
/// they were before any press (presses outside the group are skipped).
pub open spec fn plans_for(
    g: MaterialButtonGroup,
    buttons: Seq<MaterialButton>,
    pressed: Seq<usize>,
) -> Seq<TogglePlan>
    decreases pressed.len(),
{
    if pressed.len() == 0 {
        Seq::empty()
    } else {
        let rest = plans_for(g, buttons, pressed.drop_last());
        let c = pressed.last();
        if c < buttons.len() && toggle_plan_spec(g, buttons, c) is Some {
            rest.push(toggle_plan_spec(g, buttons, c)->0)
        } else {
            rest
        }
    }
}

/// The buttons after carrying out plans in order.
pub open spec fn plans_applied(s: Seq<MaterialButton>, plans: Seq<TogglePlan>) -> Seq<
    MaterialButton,
>
    decreases plans.len(),
{
    if plans.len() == 0 {
        s
    } else {
        plan_applied(plans_applied(s, plans.drop_last()), plans.last())
    }
}

/// Corner radii of one button of a group.
#[derive(Debug, Clone, Copy, PartialEq, Eq, Structural)]
pub struct CornerRadii {
    pub top_left: Rounding,
    pub top_right: Rounding,
    pub bottom_left: Rounding,
    pub bottom_right: Rounding,
}

/// All four corners alike.
pub open spec fn all_corners(r: Rounding) -> CornerRadii {
    CornerRadii { top_left: r, top_right: r, bottom_left: r, bottom_right: r }
}

/// The corners of the button at `index` of `count` connected buttons: a
/// lone button keeps `r` all round; otherwise only the outer corners of
/// the first and the last button are rounded, and inner buttons are
/// square.
pub open spec fn segment_corners(
    orientation: ButtonGroupOrientation,
    index: int,
    count: int,
    r: Rounding,
) -> CornerRadii {
    let z = Rounding::Px(0);
    if count <= 1 {
        all_corners(r)
    } else if index == 0 {
        match orientation {
            ButtonGroupOrientation::Horizontal => CornerRadii {
                top_left: r,
                bottom_left: r,
                top_right: z,
                bottom_right: z,
            },
            ButtonGroupOrientation::Vertical => CornerRadii {
                top_left: r,
                top_right: r,
                bottom_left: z,
                bottom_right: z,
            },
        }
    } else if index + 1 == count {
        match orientation {
            ButtonGroupOrientation::Horizontal => CornerRadii {
                top_left: z,
                bottom_left: z,
                top_right: r,
                bottom_right: r,
            },
            ButtonGroupOrientation::Vertical => CornerRadii {
                top_left: z,
                top_right: z,
                bottom_left: r,
                bottom_right: r,
            },
        }
    } else {
        all_corners(z)
    }
}

/// The radius a button asks for: its own, else fully rounded.
pub open spec fn button_rounding(b: MaterialButton) -> Rounding {
    match b.corner_radius {
        Some(px) => Rounding::Px(px),
        None => Rounding::Full,
    }
}

/// Number of checkable buttons among the first `n`.
pub open spec fn checkable_before(s: Seq<MaterialButton>, n: int) -> nat
    decreases n,
{
    if n <= 0 {
        0
    } else {
        checkable_before(s, n - 1) + if s[n - 1].checkable {
            1nat
        } else {
            0nat
        }
    }
}

/// Flex direction of a group's layout.
#[derive(Debug, Clone, Copy, PartialEq, Eq, Structural)]
pub enum FlexDirection {
    Row,
    Column,
}

/// How a group lays out its buttons: along the orientation, with the
/// spacing as the gap on that axis only.
#[derive(Debug, Clone, Copy, PartialEq, Eq, Structural)]
pub struct GroupLayout {
    pub direction: FlexDirection,
    pub column_gap: i32,
    pub row_gap: i32,
}

proof fn lemma_checked_count_prefix(s: Seq<MaterialButton>, i: int)
    requires
        0 <= i < s.len(),
    ensures
        checked_count(s.subrange(0, i + 1)) == checked_count(s.subrange(0, i)) + if is_on(s[i]) {
            1nat
        } else {
            0nat
        },
{
    assert(s.subrange(0, i + 1).drop_last() =~= s.subrange(0, i));
}

impl MaterialButtonGroup {
    pub fn new() -> (g: Self)
        ensures
            g == default_group(),
    {
        Self::default()
    }

    pub fn orientation(self, orientation: ButtonGroupOrientation) -> (g: Self)
        ensures
            g == (MaterialButtonGroup { orientation: orientation, ..self }),
    {
        let mut this = self;
        this.orientation = orientation;
        this
    }

    pub fn vertical(self) -> (g: Self)
        ensures
            g == (MaterialButtonGroup { orientation: ButtonGroupOrientation::Vertical, ..self }),
    {
        self.orientation(ButtonGroupOrientation::Vertical)
    }

    pub fn horizontal(self) -> (g: Self)
        ensures
            g == (MaterialButtonGroup { orientation: ButtonGroupOrientation::Horizontal, ..self }),
    {
        self.orientation(ButtonGroupOrientation::Horizontal)
    }

    pub fn single_selection(self, enabled: bool) -> (g: Self)
        ensures
            g == (MaterialButtonGroup { single_selection: enabled, ..self }),
    {
        let mut this = self;
        this.single_selection = enabled;
        this
    }

    pub fn selection_required(self, required: bool) -> (g: Self)
        ensures
            g == (MaterialButtonGroup { selection_required: required, ..self }),
    {
        let mut this = self;
        this.selection_required = required;
        this
    }

    pub fn spacing(self, px: i32) -> (g: Self)
        ensures
            g == (MaterialButtonGroup { spacing: px, ..self }),
    {
        let mut this = self;
        this.spacing = px;
        this
    }

    /// The flex layout of the group.
    pub fn layout(&self) -> (l: GroupLayout)
        ensures
            l == (match self.orientation {
                ButtonGroupOrientation::Horizontal => GroupLayout {
                    direction: FlexDirection::Row,
                    column_gap: self.spacing,
                    row_gap: 0,
                },
                ButtonGroupOrientation::Vertical => GroupLayout {
                    direction: FlexDirection::Column,
                    column_gap: 0,
                    row_gap: self.spacing,
                },
            }),
    {
        match self.orientation {
            ButtonGroupOrientation::Horizontal => GroupLayout {
                direction: FlexDirection::Row,
                column_gap: self.spacing,
                row_gap: 0,
            },
            ButtonGroupOrientation::Vertical => GroupLayout {
                direction: FlexDirection::Column,
                column_gap: 0,
                row_gap: self.spacing,
            },
        }
    }

    /// The change that a press on `buttons[clicked]` calls for.
    pub fn plan_toggle(&self, buttons: &Vec<MaterialButton>, clicked: usize) -> (p: Option<
        TogglePlan,
    >)
        requires
            clicked < buttons@.len(),
        ensures
            p == toggle_plan_spec(*self, buttons@, clicked),
    {
        let b = &buttons[clicked];
        if b.disabled || !b.checkable {
            return None;
        }
        let mut count: usize = 0;
        let mut i: usize = 0;
        while i < buttons.len()
            invariant
                i <= buttons@.len(),
                count == checked_count(buttons@.subrange(0, i as int)),
                count <= i,
            decreases buttons.len() - i,
        {
            proof {
                lemma_checked_count_prefix(buttons@, i as int);
            }
            if buttons[i].checkable && buttons[i].checked {
                count = count + 1;
            }
            i = i + 1;
        }
        proof {
            assert(buttons@.subrange(0, buttons@.len() as int) =~= buttons@);
        }
        if self.single_selection {
            if b.checked {
                if !self.selection_required {
                    Some(TogglePlan { clicked, clicked_set_checked: Some(false), uncheck_others: false })
                } else {
                    None
                }
            } else {
                Some(TogglePlan { clicked, clicked_set_checked: Some(true), uncheck_others: true })
            }
        } else {
            if b.checked {
                if !(self.selection_required && count <= 1) {
                    Some(TogglePlan { clicked, clicked_set_checked: Some(false), uncheck_others: false })
                } else {
                    None
                }
            } else {
                Some(TogglePlan { clicked, clicked_set_checked: Some(true), uncheck_others: false })
            }
        }
    }

    /// Handles presses on the buttons at the positions `pressed`, in order:
    /// every plan is judged on the buttons as they were before the presses,
    /// then the plans are carried out in order.
    pub fn toggle_pressed(&self, buttons: &mut Vec<MaterialButton>, pressed: &Vec<usize>)
        ensures
            final(buttons)@ == plans_applied(old(buttons)@, plans_for(*self, old(buttons)@, pressed@)),
    {
        let mut plans: Vec<TogglePlan> = Vec::new();
        let mut k: usize = 0;
        while k < pressed.len()
            invariant
                k <= pressed@.len(),
                buttons@ == old(buttons)@,
                plans@ == plans_for(*self, buttons@, pressed@.subrange(0, k as int)),
                plans@.len() <= k,
                forall|j: int| 0 <= j < plans@.len() ==> #[trigger] plans@[j].clicked < buttons@.len(),
            decreases pressed.len() - k,
        {
            proof {
                assert(pressed@.subrange(0, k + 1).drop_last() =~= pressed@.subrange(0, k as int));
            }
            let c = pressed[k];
            if c < buttons.len() {
                if let Some(p) = self.plan_toggle(buttons, c) {
                    plans.push(p);
                }
            }
            k = k + 1;
        }
        proof {
            assert(pressed@.subrange(0, pressed@.len() as int) =~= pressed@);
        }
        let ghost start = buttons@;
        let mut n: usize = 0;
        while n < plans.len()
            invariant
                n <= plans@.len(),
                buttons@ == plans_applied(start, plans@.subrange(0, n as int)),
                buttons@.len() == start.len(),
                forall|j: int| 0 <= j < plans@.len() ==> #[trigger] plans@[j].clicked < start.len(),
            decreases plans.len() - n,
        {
            proof {
                assert(plans@.subrange(0, n + 1).drop_last() =~= plans@.subrange(0, n as int));
            }
            apply_toggle_plan(buttons, plans[n]);
            n = n + 1;
        }
        proof {
            assert(plans@.subrange(0, plans@.len() as int) =~= plans@);
        }
    }

    /// The corners of each button: checkable buttons are connected in
    /// order, by their position among the checkable ones; other buttons
    /// get `None`.
    pub fn corner_radii(&self, buttons: &Vec<MaterialButton>) -> (r: Vec<Option<CornerRadii>>)
        ensures
            r@.len() == buttons@.len(),
            forall|i: int|
                0 <= i < buttons@.len() ==> #[trigger] r@[i] == (if buttons@[i].checkable {
                    Some(
                        segment_corners(
                            self.orientation,
                            checkable_before(buttons@, i) as int,
                            checkable_before(buttons@, buttons@.len() as int) as int,
                            button_rounding(buttons@[i]),
                        ),
                    )
                } else {
                    None
                }),
    {
        let mut count: usize = 0;
        let mut i: usize = 0;
        while i < buttons.len()
            invariant
                i <= buttons@.len(),
                count == checkable_before(buttons@, i as int),
                count <= i,
            decreases buttons.len() - i,
        {
            if buttons[i].checkable {
                count = count + 1;
            }
            i = i + 1;
        }
        let mut r: Vec<Option<CornerRadii>> = Vec::new();
        let mut index: usize = 0;
        let mut j: usize = 0;
        while j < buttons.len()
            invariant
                j <= buttons@.len(),
                r@.len() == j,
                index == checkable_before(buttons@, j as int),
                index <= j,
                count == checkable_before(buttons@, buttons@.len() as int),
                forall|t: int|
                    0 <= t < j ==> #[trigger] r@[t] == (if buttons@[t].checkable {
                        Some(
                            segment_corners(
                                self.orientation,
                                checkable_before(buttons@, t) as int,
                                count as int,
                                button_rounding(buttons@[t]),
                            ),
                        )
                    } else {
                        None
                    }),
            decreases buttons.len() - j,
        {
            let b = &buttons[j];
            if b.checkable {
                let radius = b.effective_corner_radius();
                let corners = segment_border_radius(self.orientation, index, count, radius);
                r.push(Some(corners));
                index = index + 1;
            } else {
                r.push(None);
            }
            j = j + 1;
        }
        r
    }
}

/// Carries out a plan on the group's buttons.
pub fn apply_toggle_plan(buttons: &mut Vec<MaterialButton>, plan: TogglePlan)
    requires
        plan.clicked < old(buttons)@.len(),
    ensures
        final(buttons)@ == plan_applied(old(buttons)@, plan),
{
    let ghost start = buttons@;
    if plan.uncheck_others {
        let mut i: usize = 0;
        while i < buttons.len()
            invariant
                buttons@.len() == start.len(),
                i <= buttons@.len(),
                plan.uncheck_others,
                forall|t: int|
                    0 <= t < i ==> #[trigger] buttons@[t] == (if t != plan.clicked && start[t].checkable {
                        MaterialButton { checked: false, ..start[t] }
                    } else {
                        start[t]
                    }),
                forall|t: int| i <= t < buttons@.len() ==> #[trigger] buttons@[t] == start[t],
            decreases buttons.len() - i,
        {
            if i != plan.clicked && buttons[i].checkable {
                buttons[i].checked = false;
            }
            i = i + 1;
        }
    }
    if let Some(set_checked) = plan.clicked_set_checked {
        buttons[plan.clicked].checked = set_checked;
    }
    proof {
        assert(buttons@ =~= plan_applied(start, plan));
    }
}

/// The corners of the button at `index` of `count` connected buttons.
pub fn segment_border_radius(
    orientation: ButtonGroupOrientation,
    index: usize,
    count: usize,
    r: Rounding,
) -> (c: CornerRadii)
    ensures
        c == segment_corners(orientation, index as int, count as int, r),
{
    let z = Rounding::Px(0);
    if count <= 1 {
        return CornerRadii { top_left: r, top_right: r, bottom_left: r, bottom_right: r };
    }
    match orientation {
        ButtonGroupOrientation::Horizontal => {
            if index == 0 {
                CornerRadii { top_left: r, bottom_left: r, top_right: z, bottom_right: z }
            } else if index == count - 1 {
                CornerRadii { top_left: z, bottom_left: z, top_right: r, bottom_right: r }
            } else {
                CornerRadii { top_left: z, top_right: z, bottom_left: z, bottom_right: z }
            }
        },
        ButtonGroupOrientation::Vertical => {
            if index == 0 {
                CornerRadii { top_left: r, top_right: r, bottom_left: z, bottom_right: z }
            } else if index == count - 1 {
                CornerRadii { top_left: z, top_right: z, bottom_left: r, bottom_right: r }
            } else {
                CornerRadii { top_left: z, top_right: z, bottom_left: z, bottom_right: z }
            }
        },
    }
}

/// No two buttons are checked.
pub open spec fn at_most_one_on(s: Seq<MaterialButton>) -> bool {
    forall|i: int, j: int| 0 <= i < j < s.len() ==> !(#[trigger] is_on(s[i]) && #[trigger] is_on(s[j]))
}

/// Some button is checked.
pub open spec fn some_on(s: Seq<MaterialButton>) -> bool {
    exists|i: int| 0 <= i < s.len() && #[trigger] is_on(s[i])
}

proof fn lemma_count_bound(s: Seq<MaterialButton>, c: int)
    requires
        forall|j: int| 0 <= j < s.len() && j != c ==> !#[trigger] is_on(s[j]),
    ensures
        checked_count(s) <= (if 0 <= c < s.len() { 1nat } else { 0nat }),
    decreases s.len(),
{
    if s.len() > 0 {
        let t = s.drop_last();
        assert forall|j: int| 0 <= j < t.len() && j != c implies !#[trigger] is_on(t[j]) by {
            assert(t[j] == s[j]);
        }
        lemma_count_bound(t, c);
        if c != s.len() - 1 {
            assert(!is_on(s[s.len() - 1]));
        }
    }
}

/// In a single-selection group, pressing an enabled, checkable, unchecked
/// button checks it and leaves it the only checked button.
pub proof fn lemma_single_selection_selects_only_clicked(
    g: MaterialButtonGroup,
    s: Seq<MaterialButton>,
    c: usize,
)
    requires
        g.single_selection,
        c < s.len(),
        !s[c as int].disabled,
        s[c as int].checkable,
        !s[c as int].checked,
    ensures
        toggle_plan_spec(g, s, c) is Some,
        forall|i: int|
            0 <= i < s.len() ==> (is_on(#[trigger] plan_applied(s, toggle_plan_spec(g, s, c)->0)[i])
                <==> i == c),
{
}

/// A press in a single-selection group never leaves two buttons checked,
/// where at most one was checked before.
pub proof fn lemma_single_selection_keeps_one(
    g: MaterialButtonGroup,
    s: Seq<MaterialButton>,
    c: usize,
)
    requires
        g.single_selection,
        c < s.len(),
        at_most_one_on(s),
    ensures
        match toggle_plan_spec(g, s, c) {
            Some(p) => at_most_one_on(plan_applied(s, p)),
            None => true,
        },
{
    match toggle_plan_spec(g, s, c) {
        Some(p) => {
            let t = plan_applied(s, p);
            assert forall|i: int, j: int| 0 <= i < j < t.len() implies !(#[trigger] is_on(t[i])
                && #[trigger] is_on(t[j])) by {
                assert(t[i] == planned_button(s[i], i, p));
                assert(t[j] == planned_button(s[j], j, p));
            }
        },
        None => {},
    }
}

/// Where selection is required, a press never leaves a group that had a
/// checked button without one.
pub proof fn lemma_selection_required_keeps_some(
    g: MaterialButtonGroup,
    s: Seq<MaterialButton>,
    c: usize,
)
    requires
        g.selection_required,
        c < s.len(),
        some_on(s),
    ensures
        match toggle_plan_spec(g, s, c) {
            Some(p) => some_on(plan_applied(s, p)),
            None => true,
        },
{
    match toggle_plan_spec(g, s, c) {
        Some(p) => {
            let t = plan_applied(s, p);
            if p.clicked_set_checked == Some(true) {
                assert(is_on(t[c as int]));
            } else {
                // unchecking: the group is multi-select and has another
                // checked button
                let ghost other = choose|j: int| 0 <= j < s.len() && j != c && is_on(s[j]);
                if !(exists|j: int| 0 <= j < s.len() && j != c && #[trigger] is_on(s[j])) {
                    lemma_count_bound(s, c as int);
                    assert(false);
                }
                assert(t[other] == s[other]);
                assert(is_on(t[other]));
            }
        },
        None => {},
    }
}

/// Builds a button group step by step.
pub struct ButtonGroupBuilder {
    group: MaterialButtonGroup,
}

impl View for ButtonGroupBuilder {
    type V = MaterialButtonGroup;

    closed spec fn view(&self) -> MaterialButtonGroup {
        self.group
    }
}

impl ButtonGroupBuilder {
    pub fn new() -> (b: Self)
        ensures
            b@ == default_group(),
    {
        Self { group: MaterialButtonGroup::default() }
    }

    pub fn horizontal(self) -> (b: Self)
        ensures
            b@ == (MaterialButtonGroup { orientation: ButtonGroupOrientation::Horizontal, ..self@ }),
    {
        Self { group: self.group.horizontal() }
    }

    pub fn vertical(self) -> (b: Self)
        ensures
            b@ == (MaterialButtonGroup { orientation: ButtonGroupOrientation::Vertical, ..self@ }),
    {
        Self { group: self.group.vertical() }
    }

    pub fn single_selection(self, enabled: bool) -> (b: Self)
        ensures
            b@ == (MaterialButtonGroup { single_selection: enabled, ..self@ }),
    {
        Self { group: self.group.single_selection(enabled) }
    }

    pub fn selection_required(self, required: bool) -> (b: Self)
        ensures
            b@ == (MaterialButtonGroup { selection_required: required, ..self@ }),
    {
        Self { group: self.group.selection_required(required) }
    }

    pub fn spacing(self, px: i32) -> (b: Self)
        ensures
            b@ == (MaterialButtonGroup { spacing: px, ..self@ }),
    {
        Self { group: self.group.spacing(px) }
    }

    pub fn build(self) -> (g: MaterialButtonGroup)
        ensures
            g == self@,
    {
        self.group
    }
}

} // verus!
