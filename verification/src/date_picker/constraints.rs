//! Which dates and months a picker lets the user choose.
use vstd::prelude::*;

use super::types::{
    add_months_spec, date_lt, month_le, month_lt, sakamoto_fits, weekday_for_date, weekday_of,
    date_before, month_before, Date, Month, Weekday,
};

verus! {

/// Decides whether a date may be chosen. Besides the built-in rules,
/// callers implement it for validators of their own and hand those to
/// `CalendarConstraints::with_validator`; `admits` says where `is_valid`
/// may be called and `accepts` what it answers (unverified callers write
/// them as plain functions, which nothing checks there).
pub trait DateValidator {
    /// The dates on which `is_valid` is defined.
    spec fn admits(&self, date: Date) -> bool;

    /// Whether the validator accepts a date.
    spec fn accepts(&self, date: Date) -> bool;

    /// Whether `date` may be chosen.
    fn is_valid(&self, date: Date) -> (r: bool)
        requires
            self.admits(date),
        ensures
            r == self.accepts(date),
    ;
}

/// Whether the weekday formula can be evaluated for a date.
pub open spec fn weekday_defined(date: Date) -> bool {
    1 <= date.month <= 12 && sakamoto_fits(date.year as int, date.month as int, date.day as int)
}

/// Accepts every date.
#[derive(Debug, Clone, Copy, PartialEq, Eq, Structural)]
pub struct AllDatesValidator;

impl DateValidator for AllDatesValidator {
    open spec fn admits(&self, date: Date) -> bool {
        true
    }

    open spec fn accepts(&self, date: Date) -> bool {
        true
    }

    fn is_valid(&self, date: Date) -> (r: bool) {
        true
    }
}

/// Accepts Monday to Friday.
#[derive(Debug, Clone, Copy, PartialEq, Eq, Structural)]
pub struct NoWeekendsValidator;

impl DateValidator for NoWeekendsValidator {
    open spec fn admits(&self, date: Date) -> bool {
        weekday_defined(date)
    }

    open spec fn accepts(&self, date: Date) -> bool {
        weekday_of(date) != Weekday::Sat && weekday_of(date) != Weekday::Sun
    }

    fn is_valid(&self, date: Date) -> (r: bool) {
        let wd = weekday_for_date(date);
        wd != Weekday::Sat && wd != Weekday::Sun
    }
}

/// Whether a date occurs in a list.
fn list_contains(list: &Vec<Date>, date: Date) -> (r: bool)
    ensures
        r == list@.contains(date),
{
    let mut i: usize = 0;
    while i < list.len()
        invariant
            i <= list@.len(),
            forall|j: int| 0 <= j < i ==> list@[j] != date,
        decreases list.len() - i,
    {
        if list[i] == date {
            proof {
                assert(list@[i as int] == date);
            }
            return true;
        }
        i = i + 1;
    }
    false
}

/// Accepts only the listed dates.
#[derive(Debug, Clone, PartialEq, Eq)]
pub struct AllowListValidator {
    allowed: Vec<Date>,
}

impl View for AllowListValidator {
    type V = Seq<Date>;

    closed spec fn view(&self) -> Seq<Date> {
        self.allowed@
    }
}

impl AllowListValidator {
    pub fn new(allowed: Vec<Date>) -> (v: Self)
        ensures
            v@ == allowed@,
    {
        Self { allowed }
    }
}

impl DateValidator for AllowListValidator {
    open spec fn admits(&self, date: Date) -> bool {
        true
    }

    open spec fn accepts(&self, date: Date) -> bool {
        self@.contains(date)
    }

    fn is_valid(&self, date: Date) -> (r: bool) {
        list_contains(&self.allowed, date)
    }
}

/// Accepts every date except the listed ones.
#[derive(Debug, Clone, PartialEq, Eq)]
pub struct BlockListValidator {
    blocked: Vec<Date>,
}

impl View for BlockListValidator {
    type V = Seq<Date>;

    closed spec fn view(&self) -> Seq<Date> {
        self.blocked@
    }
}

impl BlockListValidator {
    pub fn new(blocked: Vec<Date>) -> (v: Self)
        ensures
            v@ == blocked@,
    {
        Self { blocked }
    }
}

impl DateValidator for BlockListValidator {
    open spec fn admits(&self, date: Date) -> bool {
        true
    }

    open spec fn accepts(&self, date: Date) -> bool {
        !self@.contains(date)
    }

    fn is_valid(&self, date: Date) -> (r: bool) {
        !list_contains(&self.blocked, date)
    }
}

/// Accepts the dates within optional inclusive bounds.
#[derive(Debug, Clone, Copy, PartialEq, Eq, Structural)]
pub struct BoundsValidator {
    min: Option<Date>,
    max: Option<Date>,
}

/// Whether a date lies within optional inclusive bounds.
pub open spec fn within_bounds(min: Option<Date>, max: Option<Date>, date: Date) -> bool {
    (match min {
        Some(lo) => !date_lt(date, lo),
        None => true,
    }) && (match max {
        Some(hi) => !date_lt(hi, date),
        None => true,
    })
}

impl View for BoundsValidator {
    type V = (Option<Date>, Option<Date>);

    closed spec fn view(&self) -> (Option<Date>, Option<Date>) {
        (self.min, self.max)
    }
}

impl BoundsValidator {
    pub fn new(min: Option<Date>, max: Option<Date>) -> (v: Self)
        ensures
            v@ == (min, max),
    {
        Self { min, max }
    }
}

impl DateValidator for BoundsValidator {
    open spec fn admits(&self, date: Date) -> bool {
        true
    }

    open spec fn accepts(&self, date: Date) -> bool {
        within_bounds(self@.0, self@.1, date)
    }

    fn is_valid(&self, date: Date) -> (r: bool) {
        if let Some(min) = self.min {
            if date_before(date, min) {
                return false;
            }
        }
        if let Some(max) = self.max {
            if date_before(max, date) {
                return false;
            }
        }
        true
    }
}

/// One of the validators above; a composite holds a list of them.
#[derive(Debug, PartialEq, Eq)]
pub enum DateRule {
    AllDates(AllDatesValidator),
    NoWeekends(NoWeekendsValidator),
    AllowList(AllowListValidator),
    BlockList(BlockListValidator),
    Bounds(BoundsValidator),
    Composite(CompositeValidator<DateRule>),
}

/// Accepts the dates that every one of its validators accepts. Its
/// validators are built-in rules (`DateRule`) or any other validators of
/// one type.
#[derive(Debug, PartialEq, Eq)]
pub struct CompositeValidator<V> {
    /// The validators, in the order they were added.
    pub validators: Vec<V>,
}

impl<V> View for CompositeValidator<V> {
    type V = Seq<V>;

    closed spec fn view(&self) -> Seq<V> {
        self.validators@
    }
}

/// Whether every validator of `vs` accepts `date` (`admits`: is defined
/// on it).
pub open spec fn all_hold<V: DateValidator>(vs: Seq<V>, date: Date, admits: bool) -> bool
    decreases vs.len(),
{
    if vs.len() == 0 {
        true
    } else {
        (if admits {
            vs[0].admits(date)
        } else {
            vs[0].accepts(date)
        }) && all_hold(vs.drop_first(), date, admits)
    }
}

/// A list of validators holds of a date exactly when each of them does.
pub proof fn lemma_all_hold_each<V: DateValidator>(vs: Seq<V>, date: Date, admits: bool)
    ensures
        all_hold(vs, date, admits) <==> forall|i: int|
            0 <= i < vs.len() ==> (if admits {
                (#[trigger] vs[i]).admits(date)
            } else {
                vs[i].accepts(date)
            }),
    decreases vs.len(),
{
    if vs.len() > 0 {
        let rest = vs.drop_first();
        lemma_all_hold_each(rest, date, admits);
        assert forall|i: int| 1 <= i < vs.len() implies vs[i] == rest[i - 1] by {}
        if forall|i: int|
            0 <= i < vs.len() ==> (if admits {
                (#[trigger] vs[i]).admits(date)
            } else {
                vs[i].accepts(date)
            }) {
            assert(if admits { vs[0].admits(date) } else { vs[0].accepts(date) });
            assert forall|i: int| 0 <= i < rest.len() implies (if admits {
                (#[trigger] rest[i]).admits(date)
            } else {
                rest[i].accepts(date)
            }) by {
                assert(rest[i] == vs[i + 1]);
            }
        }
    }
}

/// Whether every rule of `rules` accepts `date` (`admits`: is defined on it).
pub open spec fn all_rules(rules: Seq<DateRule>, date: Date, admits: bool) -> bool
    decreases rules,
{
    if rules.len() == 0 {
        true
    } else {
        rule_holds(rules[0], date, admits) && all_rules(rules.drop_first(), date, admits)
    }
}

/// Whether a rule accepts (`admits` false) or is defined on (`admits`
/// true) a date.
pub open spec fn rule_holds(rule: DateRule, date: Date, admits: bool) -> bool
    decreases rule,
{
    match rule {
        DateRule::AllDates(v) => true,
        DateRule::NoWeekends(v) => if admits {
            v.admits(date)
        } else {
            v.accepts(date)
        },
        DateRule::AllowList(v) => admits || v.accepts(date),
        DateRule::BlockList(v) => admits || v.accepts(date),
        DateRule::Bounds(v) => admits || v.accepts(date),
        DateRule::Composite(c) => all_rules(c.validators@, date, admits),
    }
}

/// Every rule is defined on each date whose weekday can be computed.
pub proof fn lemma_rule_admits(rule: DateRule, date: Date)
    requires
        weekday_defined(date),
    ensures
        rule_holds(rule, date, true),
    decreases rule,
{
    match rule {
        DateRule::Composite(c) => {
            assert(decreases_to!(rule => c.validators));
            lemma_rules_admit(c.validators@, date);
        },
        _ => {},
    }
}

/// Every list of rules is defined on each date whose weekday can be computed.
pub proof fn lemma_rules_admit(rules: Seq<DateRule>, date: Date)
    requires
        weekday_defined(date),
    ensures
        all_rules(rules, date, true),
    decreases rules,
{
    if rules.len() > 0 {
        lemma_rule_admits(rules[0], date);
        lemma_rules_admit(rules.drop_first(), date);
    }
}

/// What each built-in rule accepts: every date; Monday to Friday; the
/// listed dates; all but the listed dates; the dates within the bounds;
/// and, for a composite, the dates its parts all accept.
pub proof fn lemma_simple_rules(
    date: Date,
    b: BoundsValidator,
    allow: AllowListValidator,
    block: BlockListValidator,
    c: CompositeValidator<DateRule>,
)
    ensures
        rule_holds(DateRule::AllDates(AllDatesValidator), date, true),
        rule_holds(DateRule::AllDates(AllDatesValidator), date, false),
        rule_holds(DateRule::Bounds(b), date, true),
        rule_holds(DateRule::Bounds(b), date, false) == within_bounds(b@.0, b@.1, date),
        rule_holds(DateRule::NoWeekends(NoWeekendsValidator), date, false) == (weekday_of(date)
            != Weekday::Sat && weekday_of(date) != Weekday::Sun),
        rule_holds(DateRule::AllowList(allow), date, false) == allow@.contains(date),
        rule_holds(DateRule::BlockList(block), date, false) == !block@.contains(date),
        rule_holds(DateRule::Composite(c), date, false) <==> forall|i: int|
            0 <= i < c@.len() ==> (#[trigger] c@[i]).accepts(date),
{
    lemma_all_rules_each(c@, date, false);
}

/// A list of rules holds of a date exactly when each of its rules does.
pub proof fn lemma_all_rules_each(rules: Seq<DateRule>, date: Date, admits: bool)
    ensures
        all_rules(rules, date, admits) <==> forall|i: int|
            0 <= i < rules.len() ==> rule_holds(#[trigger] rules[i], date, admits),
    decreases rules.len(),
{
    if rules.len() > 0 {
        let rest = rules.drop_first();
        lemma_all_rules_each(rest, date, admits);
        assert forall|i: int| 1 <= i < rules.len() implies rules[i] == rest[i - 1] by {}
        if all_rules(rules, date, admits) {
            assert forall|i: int| 0 <= i < rules.len() implies rule_holds(
                #[trigger] rules[i],
                date,
                admits,
            ) by {
                if i > 0 {
                    assert(rules[i] == rest[i - 1]);
                }
            }
        }
        if forall|i: int| 0 <= i < rules.len() ==> rule_holds(#[trigger] rules[i], date, admits) {
            assert(rule_holds(rules[0], date, admits));
            assert forall|i: int| 0 <= i < rest.len() implies rule_holds(
                #[trigger] rest[i],
                date,
                admits,
            ) by {
                assert(rest[i] == rules[i + 1]);
            }
        }
    }
}

/// A composite accepts a date exactly when every one of its validators
/// accepts it (so an empty composite accepts every date), and is defined
/// on a date exactly when every one of them is.
pub proof fn lemma_composite_accepts<V: DateValidator>(c: CompositeValidator<V>, date: Date)
    ensures
        c.accepts(date) <==> forall|i: int| 0 <= i < c@.len() ==> (#[trigger] c@[i]).accepts(date),
        c.admits(date) <==> forall|i: int| 0 <= i < c@.len() ==> (#[trigger] c@[i]).admits(date),
        c@.len() == 0 ==> c.accepts(date),
{
    lemma_all_hold_each(c@, date, false);
    lemma_all_hold_each(c@, date, true);
}

/// A composite rule accepts, and is defined on, the dates that the
/// composite itself does.
pub proof fn lemma_composite_rule(c: CompositeValidator<DateRule>, date: Date)
    ensures
        DateRule::Composite(c).accepts(date) == c.accepts(date),
        DateRule::Composite(c).admits(date) == c.admits(date),
{
    lemma_all_rules_each(c@, date, false);
    lemma_all_rules_each(c@, date, true);
    lemma_all_hold_each(c@, date, false);
    lemma_all_hold_each(c@, date, true);
}

impl<V> CompositeValidator<V> {
    pub fn new() -> (v: Self)
        ensures
            v@ == Seq::<V>::empty(),
    {
        Self { validators: Vec::new() }
    }

    /// Adds a validator at the end.
    pub fn add(self, validator: V) -> (v: Self)
        ensures
            v@ == self@.push(validator),
    {
        let mut this = self;
        this.validators.push(validator);
        this
    }
}

impl<V> Default for CompositeValidator<V> {
    fn default() -> (v: Self)
        ensures
            v@ == Seq::<V>::empty(),
    {
        Self::new()
    }
}

/// Whether every validator of the list accepts `date`.
fn check_each<V: DateValidator>(vs: &Vec<V>, date: Date) -> (r: bool)
    requires
        all_hold(vs@, date, true),
    ensures
        r == all_hold(vs@, date, false),
{
    proof {
        lemma_all_hold_each(vs@, date, true);
        lemma_all_hold_each(vs@, date, false);
    }
    let mut i: usize = 0;
    while i < vs.len()
        invariant
            i <= vs@.len(),
            forall|j: int| 0 <= j < vs@.len() ==> (#[trigger] vs@[j]).admits(date),
            forall|j: int| 0 <= j < i ==> (#[trigger] vs@[j]).accepts(date),
            all_hold(vs@, date, false) <==> forall|j: int|
                0 <= j < vs@.len() ==> (#[trigger] vs@[j]).accepts(date),
        decreases vs.len() - i,
    {
        if !vs[i].is_valid(date) {
            return false;
        }
        i = i + 1;
    }
    true
}

proof fn lemma_all_rules_step(rules: Seq<DateRule>, i: int, date: Date, admits: bool)
    requires
        0 <= i < rules.len(),
    ensures
        all_rules(rules.subrange(i, rules.len() as int), date, admits) == (rule_holds(
            rules[i],
            date,
            admits,
        ) && all_rules(rules.subrange(i + 1, rules.len() as int), date, admits)),
{
    assert(rules.subrange(i, rules.len() as int).drop_first() =~= rules.subrange(
        i + 1,
        rules.len() as int,
    ));
}

/// Whether every rule of the list accepts `date`.
fn check_all(rules: &Vec<DateRule>, date: Date) -> (r: bool)
    requires
        all_rules(rules@, date, true),
    ensures
        r == all_rules(rules@, date, false),
    decreases rules, 1int,
{
    let n = rules.len();
    let mut i: usize = 0;
    proof {
        assert(rules@.subrange(0, n as int) =~= rules@);
    }
    while i < n
        invariant
            n == rules@.len(),
            i <= n,
            all_rules(rules@.subrange(i as int, n as int), date, true),
            all_rules(rules@, date, false) == all_rules(
                rules@.subrange(i as int, n as int),
                date,
                false,
            ),
        decreases n - i,
    {
        proof {
            lemma_all_rules_step(rules@, i as int, date, true);
            lemma_all_rules_step(rules@, i as int, date, false);
        }
        let rule = &rules[i];
        proof {
            assert(decreases_to!(rules => rules@));
            assert(decreases_to!(rules@ => rules@[i as int]));
        }
        if !rule.check(date) {
            return false;
        }
        i = i + 1;
    }
    proof {
        assert(rules@.subrange(n as int, n as int) =~= Seq::<DateRule>::empty());
    }
    true
}

impl DateRule {
    /// Whether the rule accepts `date`.
    pub fn check(&self, date: Date) -> (r: bool)
        requires
            rule_holds(*self, date, true),
        ensures
            r == rule_holds(*self, date, false),
        decreases self, 0int,
    {
        match self {
            DateRule::AllDates(v) => v.is_valid(date),
            DateRule::NoWeekends(v) => v.is_valid(date),
            DateRule::AllowList(v) => v.is_valid(date),
            DateRule::BlockList(v) => v.is_valid(date),
            DateRule::Bounds(v) => v.is_valid(date),
            DateRule::Composite(c) => check_all(&c.validators, date),
        }
    }
}

impl DateValidator for DateRule {
    open spec fn admits(&self, date: Date) -> bool {
        rule_holds(*self, date, true)
    }

    open spec fn accepts(&self, date: Date) -> bool {
        rule_holds(*self, date, false)
    }

    fn is_valid(&self, date: Date) -> (r: bool) {
        self.check(date)
    }
}

impl<V: DateValidator> DateValidator for CompositeValidator<V> {
    open spec fn admits(&self, date: Date) -> bool {
        all_hold(self@, date, true)
    }

    open spec fn accepts(&self, date: Date) -> bool {
        all_hold(self@, date, false)
    }

    fn is_valid(&self, date: Date) -> (r: bool) {
        check_each(&self.validators, date)
    }
}

// ---------------------------------------------------------------------------
// Calendar constraints
// ---------------------------------------------------------------------------

/// The selectable months, the month shown on opening, and the validator
/// that decides which dates may be chosen: one of the built-in rules
/// (`DateRule`), or any other implementation of `DateValidator`.
#[derive(Debug, PartialEq, Eq)]
pub struct CalendarConstraints<V> {
    /// First selectable month.
    pub start: Month,
    /// Last selectable month.
    pub end: Month,
    /// Month shown when the picker opens.
    pub opening: Month,
    /// Which dates may be chosen.
    pub validator: V,
}

impl Default for CalendarConstraints<DateRule> {
    /// Fifty years either side of January 2025, opening on January 2025,
    /// every date allowed.
    fn default() -> (c: Self)
        ensures
            c.start == (Month { year: 1975, month: 1 }),
            c.end == (Month { year: 2075, month: 1 }),
            c.opening == (Month { year: 2025, month: 1 }),
            c.validator == DateRule::AllDates(AllDatesValidator),
    {
        let current = Month::current();
        let start = current.add_months(-600);
        let end = current.add_months(600);
        Self { start, end, opening: current, validator: DateRule::AllDates(AllDatesValidator) }
    }
}

impl CalendarConstraints<DateRule> {
    pub fn new() -> (c: Self)
        ensures
            c.start == (Month { year: 1975, month: 1 }),
            c.end == (Month { year: 2075, month: 1 }),
            c.opening == (Month { year: 2025, month: 1 }),
            c.validator == DateRule::AllDates(AllDatesValidator),
    {
        Self::default()
    }
}

impl<V> CalendarConstraints<V> {
    pub fn with_bounds(self, start: Month, end: Month) -> (c: Self)
        ensures
            c == (CalendarConstraints { start, end, ..self }),
    {
        let mut this = self;
        this.start = start;
        this.end = end;
        this
    }

    pub fn with_opening(self, opening: Month) -> (c: Self)
        ensures
            c == (CalendarConstraints { opening, ..self }),
    {
        let mut this = self;
        this.opening = opening;
        this
    }

    /// Replaces the validator; the months are kept.
    pub fn with_validator<W: DateValidator>(self, validator: W) -> (c: CalendarConstraints<W>)
        ensures
            c.start == self.start,
            c.end == self.end,
            c.opening == self.opening,
            c.validator == validator,
    {
        CalendarConstraints {
            start: self.start,
            end: self.end,
            opening: self.opening,
            validator: validator,
        }
    }

    /// Bounds the months by the months of `min` and `max` (where given)
    /// and replaces the validator by the inclusive date bounds.
    pub fn with_min_max_dates(self, min: Option<Date>, max: Option<Date>) -> (c: CalendarConstraints<
        BoundsValidator,
    >)
        ensures
            c.start == match min {
                Some(lo) => Month { year: lo.year, month: lo.month },
                None => self.start,
            },
            c.end == match max {
                Some(hi) => Month { year: hi.year, month: hi.month },
                None => self.end,
            },
            c.opening == self.opening,
            c.validator@ == (min, max),
    {
        let start = match min {
            Some(lo) => Month::new(lo.year, lo.month),
            None => self.start,
        };
        let end = match max {
            Some(hi) => Month::new(hi.year, hi.month),
            None => self.end,
        };
        CalendarConstraints {
            start: start,
            end: end,
            opening: self.opening,
            validator: BoundsValidator::new(min, max),
        }
    }

    /// Whether `month` lies within the selectable months.
    pub fn is_month_enabled(&self, month: Month) -> (r: bool)
        ensures
            r == (month_le(self.start, month) && month_le(month, self.end)),
    {
        !month_before(month, self.start) && !month_before(self.end, month)
    }
}

} // verus!
