//! The series table functions `jiff_datetime_series` and `jiff_date_series`:
//! their tables, their cursors, and what a scan of them yields.

use vstd::prelude::*;

use jiff::civil::{DateSeries, DateTimeSeries};

use crate::date::{date_from_value, date_from_value_spec, result_date};
use crate::datetime::{datetime_from_value, datetime_from_value_spec, result_datetime};
use crate::jiff_civil::{date_display, datetime_display};
use crate::jiff_span::{
    date_series, date_series_items, date_series_next, date_series_rest, datetime_series,
    datetime_series_items, datetime_series_next, datetime_series_rest,
};
use crate::model::{CivilDate, CivilDateTime, SpanUnits};
use crate::span::{span_from_value, span_from_value_spec};
use crate::sql::{arg_text, msg, read_text, Failure, FailureView, SqlArg, SqlValue};
use crate::vtab::{
    series_column, SeriesColumn, date_series_plan, datetime_series_plan, date_series_use, argument_use, range_letters,
    series_admission, BestIndexFailure, ConstraintInfo, IndexPlan, ESTIMATED_ROWS, SERIES_IDXNUM,
};

verus! {

/// The mathematical form of a series cursor: the number of the current row,
/// the current item (none once the scan is over), and, once a scan has
/// begun, the items the series has yet to yield.
pub struct SeriesCursorView<T> {
    pub rowid: int,
    pub current: Option<T>,
    pub rest: Option<Seq<T>>,
}

/// A cursor that has not begun a scan.
pub open spec fn unstarted<T>() -> SeriesCursorView<T> {
    SeriesCursorView { rowid: 0, current: None, rest: None }
}

/// A cursor at the first row of a scan of `items`.
pub open spec fn started<T>(items: Seq<T>) -> SeriesCursorView<T> {
    SeriesCursorView { rowid: 1, current: Some(items[0]), rest: Some(items.drop_first()) }
}

/// One step of a scan: the next row holds the next item of the series, or
/// none once the series is spent; a cursor that has not begun stays empty.
pub open spec fn series_step<T>(v: SeriesCursorView<T>) -> SeriesCursorView<T> {
    match v.rest {
        Some(r) => if r.len() > 0 {
            SeriesCursorView { rowid: v.rowid + 1, current: Some(r[0]), rest: Some(r.drop_first()) }
        } else {
            SeriesCursorView { rowid: v.rowid + 1, current: None, rest: Some(r) }
        },
        None => SeriesCursorView { rowid: v.rowid, current: None, rest: None },
    }
}

/// The cursor after `n` steps.
pub open spec fn series_steps<T>(v: SeriesCursorView<T>, n: nat) -> SeriesCursorView<T>
    decreases n,
{
    if n == 0 {
        v
    } else {
        series_step(series_steps(v, (n - 1) as nat))
    }
}

/// Row `n + 1` of a scan of `items` holds the item at `n`, while there is
/// one, and no item after the last: the scan yields the series in order,
/// numbering the rows from 1.
pub proof fn lemma_scan_yields_series<T>(items: Seq<T>, n: nat)
    requires
        items.len() > 0,
    ensures
        series_steps(started(items), n).rowid == n + 1,
        series_steps(started(items), n).current == (if n < items.len() {
            Some(items[n as int])
        } else {
            None
        }),
        series_steps(started(items), n).rest == Some(
            items.skip(if n + 1 <= items.len() {
                n + 1 as int
            } else {
                items.len() as int
            }),
        ),
    decreases n,
{
    if n > 0 {
        lemma_scan_yields_series(items, (n - 1) as nat);
        let k: int = if n <= items.len() {
            n as int
        } else {
            items.len() as int
        };
        let r = items.skip(k);
        if n < items.len() {
            assert(r[0] == items[n as int]);
            assert(r.drop_first() =~= items.skip(n + 1 as int));
        }
    } else {
        assert(items.drop_first() =~= items.skip(1));
    }
}

/// The text that `jiff_datetime_series` declares its columns with.
pub const DATETIME_SERIES_SCHEMA: &'static str = "CREATE TABLE x(datetime, start hidden, period hidden)";

/// The start and span `jiff_datetime_series` scans with: the texts must name
/// a datetime and a span (else the call stops), and the span must not be
/// zero.
pub open spec fn datetime_series_args(start: SqlArg, period: SqlArg) -> Result<
    (CivilDateTime, SpanUnits),
    FailureView,
> {
    match arg_text(start) {
        Err(f) => Err(f),
        Ok(t) => match datetime_from_value_spec(t) {
            Err(_) => Err(FailureView::Halt),
            Ok(dt) => match arg_text(period) {
                Err(f) => Err(f),
                Ok(p) => match span_from_value_spec(p) {
                    Err(_) => Err(FailureView::Halt),
                    Ok(u) => if u.all_zero() {
                        Err(msg("jiff_datetime_series span cannot be zero"@))
                    } else {
                        Ok((dt, u))
                    },
                },
            },
        },
    }
}

/// The table behind `jiff_datetime_series`.
pub struct DatetimeSeriesTable {}

impl DatetimeSeriesTable {
    /// Connects the table: its schema and the table.
    pub fn connect() -> (r: (String, DatetimeSeriesTable))
        ensures
            r.0@ == DATETIME_SERIES_SCHEMA@,
    {
        (DATETIME_SERIES_SCHEMA.to_owned(), DatetimeSeriesTable {  })
    }

    /// Plans a query (see [`datetime_series_plan`]).
    pub fn best_index(&self, constraints: &Vec<ConstraintInfo>) -> (r: Result<
        IndexPlan,
        BestIndexFailure,
    >)
        ensures
            match series_admission(constraints@) {
                Some(f) => r == Err::<IndexPlan, BestIndexFailure>(f),
                None => r matches Ok(p) && p.uses@ == constraints@.map_values(
                    |c: ConstraintInfo| argument_use(c),
                ) && p.idxnum == SERIES_IDXNUM && p.idxstr is None && p.estimated_rows
                    == ESTIMATED_ROWS,
            },
    {
        datetime_series_plan(constraints)
    }

    /// Opens a cursor that has not begun a scan.
    pub fn open(&mut self) -> (r: DatetimeSeriesCursor)
        ensures
            r@ == unstarted::<CivilDateTime>(),
            r.wf(),
    {
        DatetimeSeriesCursor::new()
    }
}

/// A scan of `jiff_datetime_series`.
pub struct DatetimeSeriesCursor {
    rowid: i64,
    iter: Option<DateTimeSeries>,
    current: Option<CivilDateTime>,
}

impl View for DatetimeSeriesCursor {
    type V = SeriesCursorView<CivilDateTime>;

    closed spec fn view(&self) -> SeriesCursorView<CivilDateTime> {
        SeriesCursorView {
            rowid: self.rowid as int,
            current: self.current,
            rest: match self.iter {
                Some(it) => Some(datetime_series_rest(it)),
                None => None,
            },
        }
    }
}

impl DatetimeSeriesCursor {
    /// Every datetime the cursor holds or has yet to yield is valid, and
    /// the row number is not negative.
    pub open spec fn wf(&self) -> bool {
        &&& self@.rowid >= 0
        &&& self@.current matches Some(dt) ==> dt.wf()
        &&& self@.rest matches Some(r) ==> forall|i: int| 0 <= i < r.len() ==> (#[trigger] r[i]).wf()
    }

    /// A cursor that has not begun a scan.
    pub fn new() -> (r: DatetimeSeriesCursor)
        ensures
            r@ == unstarted::<CivilDateTime>(),
            r.wf(),
    {
        DatetimeSeriesCursor { rowid: 0, iter: None, current: None }
    }

    /// Begins a scan from the start and period the arguments name: the
    /// first row holds the start itself. A failure leaves the cursor as it
    /// was.
    pub fn filter(&mut self, start: &SqlArg, period: &SqlArg) -> (r: Result<(), Failure>)
        requires
            old(self).wf(),
        ensures
            final(self).wf(),
            match datetime_series_args(*start, *period) {
                Err(f) => (r matches Err(e) && e@ == f) && final(self)@ == old(self)@,
                Ok((dt, u)) => r is Ok && final(self)@ == started(datetime_series_items(dt, u))
                    && final(self)@.current == Some(dt),
            },
    {
        let start = match datetime_from_value(read_text(start)?) {
            Ok(dt) => dt,
            Err(_) => return Err(Failure::Halt),
        };
        let span = match span_from_value(read_text(period)?) {
            Ok(s) => s,
            Err(_) => return Err(Failure::Halt),
        };
        if span.is_zero() {
            return Err(Failure::Message("jiff_datetime_series span cannot be zero".to_owned()));
        }
        self.iter = Some(datetime_series(start, &span));
        self.rowid = 0;
        self.next();
        Ok(())
    }

    /// Moves to the next row.
    pub fn next(&mut self)
        requires
            old(self).wf(),
            old(self)@.rest is Some ==> old(self)@.rowid < i64::MAX,
        ensures
            final(self).wf(),
            final(self)@ == series_step(old(self)@),
    {
        match &mut self.iter {
            Some(it) => {
                self.current = datetime_series_next(it);
                self.rowid = self.rowid + 1;
            },
            None => {
                self.current = None;
            },
        }
    }

    /// Whether the scan is over (no current row).
    pub fn eof(&self) -> (r: bool)
        ensures
            r == self@.current is None,
    {
        self.current.is_none()
    }

    /// The value of column `i` of the current row: the datetime in column
    /// 0, `NULL` in the hidden start and period columns and anywhere else.
    pub fn column(&self, i: i32) -> (r: SqlValue)
        requires
            self.wf(),
        ensures
            match (i, self@.current) {
                (0, Some(dt)) => r matches SqlValue::Text(t) && t@ == datetime_display(dt),
                _ => r is Null,
            },
    {
        match series_column(i) {
            Some(SeriesColumn::Value) => match self.current {
                Some(dt) => SqlValue::Text(result_datetime(dt)),
                None => SqlValue::Null,
            },
            Some(SeriesColumn::Start) | Some(SeriesColumn::Period) | None => SqlValue::Null,
        }
    }

    /// The number of the current row.
    pub fn rowid(&self) -> (r: i64)
        ensures
            r == self@.rowid,
    {
        self.rowid
    }
}

/// The text that `jiff_date_series` declares its columns with.
pub const DATE_SERIES_SCHEMA: &'static str = "CREATE TABLE x(date, start hidden, period hidden)";

/// The start and span `jiff_date_series` scans with: the texts must name a
/// date and a span, and the span must not be zero.
pub open spec fn date_series_args(start: SqlArg, period: SqlArg) -> Result<
    (CivilDate, SpanUnits),
    FailureView,
> {
    match arg_text(start) {
        Err(f) => Err(f),
        Ok(t) => match date_from_value_spec(t) {
            Err(f) => Err(f),
            Ok(d) => match arg_text(period) {
                Err(f) => Err(f),
                Ok(p) => match span_from_value_spec(p) {
                    Err(f) => Err(f),
                    Ok(u) => if u.all_zero() {
                        Err(msg("jiff_date_series span cannot be zero"@))
                    } else {
                        Ok((d, u))
                    },
                },
            },
        },
    }
}

/// The table behind `jiff_date_series`.
pub struct DateSeriesTable {}

impl DateSeriesTable {
    /// Connects the table: its schema and the table.
    pub fn connect() -> (r: (String, DateSeriesTable))
        ensures
            r.0@ == DATE_SERIES_SCHEMA@,
    {
        (DATE_SERIES_SCHEMA.to_owned(), DateSeriesTable {  })
    }

    /// Plans a query (see [`date_series_plan`]).
    pub fn best_index(&self, constraints: &Vec<ConstraintInfo>) -> (r: Result<
        IndexPlan,
        BestIndexFailure,
    >)
        requires
            constraints.len() <= i32::MAX - 3,
        ensures
            match series_admission(constraints@) {
                Some(f) => r == Err::<IndexPlan, BestIndexFailure>(f),
                None => r matches Ok(p) && p.uses@ == Seq::new(
                    constraints.len() as nat,
                    |i: int| date_series_use(constraints@, i),
                ) && p.idxnum == SERIES_IDXNUM && (p.idxstr matches Some(t) && t@
                    == range_letters(constraints@)) && p.estimated_rows == ESTIMATED_ROWS,
            },
    {
        date_series_plan(constraints)
    }

    /// Opens a cursor that has not begun a scan.
    pub fn open(&mut self) -> (r: DateSeriesCursor)
        ensures
            r@ == unstarted::<CivilDate>(),
            r.wf(),
    {
        DateSeriesCursor::new()
    }
}

/// A scan of `jiff_date_series`.
pub struct DateSeriesCursor {
    rowid: i64,
    iter: Option<DateSeries>,
    current: Option<CivilDate>,
}

impl View for DateSeriesCursor {
    type V = SeriesCursorView<CivilDate>;

    closed spec fn view(&self) -> SeriesCursorView<CivilDate> {
        SeriesCursorView {
            rowid: self.rowid as int,
            current: self.current,
            rest: match self.iter {
                Some(it) => Some(date_series_rest(it)),
                None => None,
            },
        }
    }
}

impl DateSeriesCursor {
    /// Every date the cursor holds or has yet to yield is valid, and the row
    /// number is not negative.
    pub open spec fn wf(&self) -> bool {
        &&& self@.rowid >= 0
        &&& self@.current matches Some(d) ==> d.wf()
        &&& self@.rest matches Some(r) ==> forall|i: int| 0 <= i < r.len() ==> (#[trigger] r[i]).wf()
    }

    /// A cursor that has not begun a scan.
    pub fn new() -> (r: DateSeriesCursor)
        ensures
            r@ == unstarted::<CivilDate>(),
            r.wf(),
    {
        DateSeriesCursor { rowid: 0, iter: None, current: None }
    }

    /// Begins a scan from the start and period the arguments name: the
    /// first row holds the start itself. A failure leaves the cursor as it
    /// was. The range constraints the plan hands on are not applied here:
    /// SQLite checks them on each row.
    pub fn filter(&mut self, start: &SqlArg, period: &SqlArg) -> (r: Result<(), Failure>)
        requires
            old(self).wf(),
        ensures
            final(self).wf(),
            match date_series_args(*start, *period) {
                Err(f) => (r matches Err(e) && e@ == f) && final(self)@ == old(self)@,
                Ok((d, u)) => r is Ok && final(self)@ == started(date_series_items(d, u))
                    && final(self)@.current == Some(d),
            },
    {
        let start = date_from_value(read_text(start)?)?;
        let span = span_from_value(read_text(period)?)?;
        if span.is_zero() {
            return Err(Failure::Message("jiff_date_series span cannot be zero".to_owned()));
        }
        self.iter = Some(date_series(start, &span));
        self.rowid = 0;
        self.next();
        Ok(())
    }

    /// Moves to the next row.
    pub fn next(&mut self)
        requires
            old(self).wf(),
            old(self)@.rest is Some ==> old(self)@.rowid < i64::MAX,
        ensures
            final(self).wf(),
            final(self)@ == series_step(old(self)@),
    {
        match &mut self.iter {
            Some(it) => {
                self.current = date_series_next(it);
                self.rowid = self.rowid + 1;
            },
            None => {
                self.current = None;
            },
        }
    }

    /// Whether the scan is over (no current row).
    pub fn eof(&self) -> (r: bool)
        ensures
            r == self@.current is None,
    {
        self.current.is_none()
    }

    /// The value of column `i` of the current row: the date in column 0,
    /// `NULL` in the hidden start and period columns and anywhere else.
    pub fn column(&self, i: i32) -> (r: SqlValue)
        requires
            self.wf(),
        ensures
            match (i, self@.current) {
                (0, Some(d)) => r matches SqlValue::Text(t) && t@ == date_display(d),
                _ => r is Null,
            },
    {
        match series_column(i) {
            Some(SeriesColumn::Value) => match self.current {
                Some(d) => SqlValue::Text(result_date(d)),
                None => SqlValue::Null,
            },
            Some(SeriesColumn::Start) | Some(SeriesColumn::Period) | None => SqlValue::Null,
        }
    }

    /// The number of the current row.
    pub fn rowid(&self) -> (r: i64)
        ensures
            r == self@.rowid,
    {
        self.rowid
    }
}

} // verus!
