//! Selection strategies: a single date, or a range of dates.
use vstd::prelude::*;

use super::types::{Date, DateSelection};

verus! {

/// A strategy that holds the current date selection.
pub trait DateSelector {
    /// The selection the selector currently reports.
    spec fn current(&self) -> Option<DateSelection>;

    /// The current selection.
    fn selection(&self) -> (r: Option<DateSelection>)
        ensures
            r == self.current(),
    ;

    /// Replaces the selection; afterwards there is one.
    fn set_selection(&mut self, selection: DateSelection)
        ensures
            final(self).current() is Some,
    ;

    /// Removes the selection.
    fn clear(&mut self)
        ensures
            final(self).current() is None,
    ;
}

/// Holds at most one date.
#[derive(Debug, Clone, Copy, PartialEq, Eq, Structural)]
pub struct SingleDateSelector {
    date: Option<Date>,
}

impl View for SingleDateSelector {
    type V = Option<Date>;

    closed spec fn view(&self) -> Option<Date> {
        self.date
    }
}

/// The date a single selector keeps from a selection: the date itself, or
/// the start of a range.
pub open spec fn single_kept(selection: DateSelection) -> Date {
    match selection {
        DateSelection::Single(d) => d,
        DateSelection::Range { start, .. } => start,
    }
}

impl SingleDateSelector {
    pub fn new() -> (s: Self)
        ensures
            s@ is None,
    {
        Self { date: None }
    }

    pub fn with_date(date: Date) -> (s: Self)
        ensures
            s@ == Some(date),
    {
        Self { date: Some(date) }
    }
}

impl Default for SingleDateSelector {
    fn default() -> (s: Self)
        ensures
            s@ is None,
    {
        Self::new()
    }
}

impl DateSelector for SingleDateSelector {
    open spec fn current(&self) -> Option<DateSelection> {
        match self@ {
            Some(d) => Some(DateSelection::Single(d)),
            None => None,
        }
    }

    fn selection(&self) -> (r: Option<DateSelection>) {
        match self.date {
            Some(d) => Some(DateSelection::Single(d)),
            None => None,
        }
    }

    fn set_selection(&mut self, selection: DateSelection)
        ensures
            final(self)@ == Some(single_kept(selection)),
    {
        match selection {
            DateSelection::Single(date) => {
                self.date = Some(date);
            },
            DateSelection::Range { start, .. } => {
                self.date = Some(start);
            },
        }
    }

    fn clear(&mut self)
        ensures
            final(self)@ is None,
    {
        self.date = None;
    }
}

/// Holds a range start and an optional end.
#[derive(Debug, Clone, Copy, PartialEq, Eq, Structural)]
pub struct RangeDateSelector {
    start: Option<Date>,
    end: Option<Date>,
}

impl View for RangeDateSelector {
    type V = (Option<Date>, Option<Date>);

    closed spec fn view(&self) -> (Option<Date>, Option<Date>) {
        (self.start, self.end)
    }
}

/// The (start, end) a range selector keeps from a selection: a single date
/// starts a new open range.
pub open spec fn range_kept(selection: DateSelection) -> (Option<Date>, Option<Date>) {
    match selection {
        DateSelection::Single(d) => (Some(d), None),
        DateSelection::Range { start, end } => (Some(start), end),
    }
}

impl RangeDateSelector {
    pub fn new() -> (s: Self)
        ensures
            s@ == (None::<Date>, None::<Date>),
    {
        Self { start: None, end: None }
    }

    pub fn with_range(start: Date, end: Option<Date>) -> (s: Self)
        ensures
            s@ == (Some(start), end),
    {
        Self { start: Some(start), end }
    }

    pub fn start(&self) -> (r: Option<Date>)
        ensures
            r == self@.0,
    {
        self.start
    }

    pub fn end(&self) -> (r: Option<Date>)
        ensures
            r == self@.1,
    {
        self.end
    }

    /// Whether both ends are set.
    pub fn is_complete(&self) -> (r: bool)
        ensures
            r == (self@.0 is Some && self@.1 is Some),
    {
        self.start.is_some() && self.end.is_some()
    }
}

impl Default for RangeDateSelector {
    fn default() -> (s: Self)
        ensures
            s@ == (None::<Date>, None::<Date>),
    {
        Self::new()
    }
}

impl DateSelector for RangeDateSelector {
    open spec fn current(&self) -> Option<DateSelection> {
        match self@.0 {
            Some(start) => Some(DateSelection::Range { start, end: self@.1 }),
            None => None,
        }
    }

    fn selection(&self) -> (r: Option<DateSelection>) {
        match self.start {
            Some(start) => Some(DateSelection::Range { start, end: self.end }),
            None => None,
        }
    }

    fn set_selection(&mut self, selection: DateSelection)
        ensures
            final(self)@ == range_kept(selection),
    {
        match selection {
            DateSelection::Single(date) => {
                self.start = Some(date);
                self.end = None;
            },
            DateSelection::Range { start, end } => {
                self.start = Some(start);
                self.end = end;
            },
        }
    }

    fn clear(&mut self)
        ensures
            final(self)@ == (None::<Date>, None::<Date>),
    {
        self.start = None;
        self.end = None;
    }
}

/// After a range is stored in a range selector, the selector reports
/// exactly that range; after a single date, an open range starting there.
pub proof fn lemma_range_selector_reads_back(s: RangeDateSelector, selection: DateSelection)
    requires
        s@ == range_kept(selection),
    ensures
        s.current() == Some(
            match selection {
                DateSelection::Single(d) => DateSelection::Range { start: d, end: None },
                DateSelection::Range { start, end } => DateSelection::Range { start, end },
            },
        ),
{
}

/// After a single date is stored in a single selector it reports that
/// date; a range stored there is reduced to its start.
pub proof fn lemma_single_selector_reads_back(s: SingleDateSelector, selection: DateSelection)
    requires
        s@ == Some(single_kept(selection)),
    ensures
        s.current() == Some(DateSelection::Single(single_kept(selection))),
{
}

} // verus!
