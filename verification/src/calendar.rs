//! Calendar listings: the view modes a calendar request may ask for.
//!
//! The calendar payload itself carries dates and fractional student marks,
//! so its structural decode stays with the unverified transport edge; the
//! fixed view-mode names the service accepts stand here.

use vstd::prelude::*;

verus! {

/// The view mode of a calendar request, under the wire names the service
/// accepts.
#[derive(Clone, Copy, PartialEq, Eq, Structural, Debug)]
pub enum CalView {
    Month,
    AgendaWeek,
    AgendaDay,
    ListWeek,
}

impl CalView {
    /// The fixed wire name of this view mode.
    pub open spec fn spec_wire_name(self) -> Seq<char> {
        match self {
            CalView::Month => "month"@,
            CalView::AgendaWeek => "agendaWeek"@,
            CalView::AgendaDay => "agendaDay"@,
            CalView::ListWeek => "listWeek"@,
        }
    }

    /// The fixed wire name of this view mode.
    pub fn wire_name(self) -> (r: &'static str)
        ensures
            r@ == self.spec_wire_name(),
    {
        match self {
            CalView::Month => "month",
            CalView::AgendaWeek => "agendaWeek",
            CalView::AgendaDay => "agendaDay",
            CalView::ListWeek => "listWeek",
        }
    }
}

} // verus!
