use vstd::prelude::*;
use crate::countup::{CountView, Countup, DisplayMode};

verus! {

/// Column where the numbers end, in pixels from the left.
pub const COL_NUM: i32 = 120;

/// Column where the unit names begin, in pixels from the left.
pub const COL_PERIOD: i32 = 128;

/// The unit a row of the display is counted in.
#[derive(Clone, Copy, Debug, PartialEq, Eq, Structural)]
pub enum Unit {
    Years,
    Months,
    Weeks,
    Days,
}

/// One row of the display: a number, the unit it counts, and the row's
/// vertical position in pixels.
#[derive(Clone, Copy, Debug, PartialEq, Eq, Structural)]
pub struct Row {
    pub value: u64,
    pub unit: Unit,
    pub y: i32,
}

pub struct RowView {
    pub value: int,
    pub unit: Unit,
    pub y: int,
}

impl View for Row {
    type V = RowView;

    open spec fn view(&self) -> RowView {
        RowView { value: self.value as int, unit: self.unit, y: self.y as int }
    }
}

/// Everything the host needs to draw one frame: the start-date label of the
/// heading, and the rows below it, in order.
#[derive(Debug)]
pub struct RenderModel {
    pub start: String,
    pub rows: Vec<Row>,
}

pub struct RenderModelView {
    pub start: Seq<char>,
    pub rows: Seq<RowView>,
}

impl View for RenderModel {
    type V = RenderModelView;

    open spec fn view(&self) -> RenderModelView {
        RenderModelView { start: self.start@, rows: self.rows@.map_values(|r: Row| r@) }
    }
}

/// The split presentation of `d` days: whole years of 365 days, then whole
/// months of 28 days out of the remainder, then the days left over.
pub open spec fn spec_split_rows(d: int) -> Seq<RowView> {
    let years = d / 365;
    let after_years = d - years * 365;
    let months = after_years / 28;
    let days = after_years - months * 28;
    seq![
        RowView { value: years, unit: Unit::Years, y: 24 },
        RowView { value: months, unit: Unit::Months, y: 40 },
        RowView { value: days, unit: Unit::Days, y: 56 },
    ]
}

/// The diff presentation of `d` days: the same span counted four independent
/// ways, each computed from `d` alone.
pub open spec fn spec_diff_rows(d: int) -> Seq<RowView> {
    seq![
        RowView { value: d, unit: Unit::Days, y: 24 },
        RowView { value: d / 7, unit: Unit::Weeks, y: 40 },
        RowView { value: d / 28, unit: Unit::Months, y: 56 },
        RowView { value: d / 365, unit: Unit::Years, y: 72 },
    ]
}

/// What one frame shows for the state `v`: the label, and the rows of the
/// mode `v` is in, computed from the shown day count alone.
pub open spec fn spec_render_model(v: CountView) -> RenderModelView {
    RenderModelView {
        start: v.start,
        rows: match v.display_mode {
            DisplayMode::Split => spec_split_rows(v.current_days),
            DisplayMode::Diff => spec_diff_rows(v.current_days),
        },
    }
}

/// The split-mode rows for `current_days` shown days, labelled `start`.
pub fn render_split(current_days: u64, start: &String) -> (r: RenderModel)
    ensures
        r@.start == start@,
        r@.rows == spec_split_rows(current_days as int),
{
    let years = current_days / 365;
    proof {
        assert(years * 365 <= current_days) by (nonlinear_arith)
            requires
                years == (current_days as int) / 365,
                current_days >= 0,
        ;
    }
    let after_years = current_days - years * 365;
    let months = after_years / 28;
    proof {
        assert(months * 28 <= after_years) by (nonlinear_arith)
            requires
                months == (after_years as int) / 28,
                after_years >= 0,
        ;
    }
    let days = after_years - months * 28;
    let rows = vec![
        Row { value: years, unit: Unit::Years, y: 24 },
        Row { value: months, unit: Unit::Months, y: 40 },
        Row { value: days, unit: Unit::Days, y: 56 },
    ];
    let r = RenderModel { start: start.clone(), rows };
    proof {
        assert(r@.rows =~= spec_split_rows(current_days as int));
    }
    r
}

/// The diff-mode rows for `current_days` shown days, labelled `start`.
pub fn render_diff(current_days: u64, start: &String) -> (r: RenderModel)
    ensures
        r@.start == start@,
        r@.rows == spec_diff_rows(current_days as int),
{
    let weeks = current_days / 7;
    let months = current_days / 28;
    let years = current_days / 365;
    let rows = vec![
        Row { value: current_days, unit: Unit::Days, y: 24 },
        Row { value: weeks, unit: Unit::Weeks, y: 40 },
        Row { value: months, unit: Unit::Months, y: 56 },
        Row { value: years, unit: Unit::Years, y: 72 },
    ];
    let r = RenderModel { start: start.clone(), rows };
    proof {
        assert(r@.rows =~= spec_diff_rows(current_days as int));
    }
    r
}

impl Countup {
    /// Produce the frame for the current state. Pure: the state is read, not
    /// changed, and equal states always yield the same frame.
    pub fn render_model(&self) -> (r: RenderModel)
        ensures
            r@ == spec_render_model(self@),
    {
        let r = match self.display_mode {
            DisplayMode::Split => render_split(self.current_days, &self.start),
            DisplayMode::Diff => render_diff(self.current_days, &self.start),
        };
        proof {
            assert(r@ =~= spec_render_model(self@));
        }
        r
    }
}

} // verus!
