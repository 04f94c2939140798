//! The table function `jiff_timezone_transitions`: the offset changes of a
//! time zone from the current instant on.

use vstd::prelude::*;


use crate::jiff_civil::timestamp_display;
use crate::jiff_zone::{
    instant_now, next_transition, offset_display, offset_limit, offset_text, tz_get, tz_utc,
    FoundTransition, Transition, ZoneId, ZoneValue,
};
use crate::model::Instant;
use crate::sql::{msg, Failure, SqlValue};
use crate::timestamp::result_timestamp;
use crate::vtab::{
    transitions_column, TransitionsColumn, offers, transitions_idxnum, transitions_plan, unused, BestIndexFailure, ConstraintInfo,
    ConstraintOp, IndexPlan, ESTIMATED_ROWS, TIMESTAMP_COLUMN, TIMEZONE_COLUMN,
};

verus! {

/// The text that `jiff_timezone_transitions` declares its columns with.
pub const TRANSITIONS_SCHEMA: &'static str =
    "CREATE TABLE x(timestamp, offset, dst, abbreviation, timezone hidden)";

/// The zone whose transitions a scan lists.
pub const TRANSITIONS_ZONE: &'static str = "America/Los_Angeles";

/// The message of a column read with no current row.
pub open spec fn no_current_item() -> Seq<char> {
    "No current item in TimezoneTransitionsCursor"@
}

/// The table behind `jiff_timezone_transitions`.
pub struct TimezoneTransitionsTable {}

impl TimezoneTransitionsTable {
    /// Connects the table: its schema and the table.
    pub fn connect() -> (r: (String, TimezoneTransitionsTable))
        ensures
            r.0@ == TRANSITIONS_SCHEMA@,
    {
        (TRANSITIONS_SCHEMA.to_owned(), TimezoneTransitionsTable {  })
    }

    /// Plans a query (see [`transitions_plan`]).
    pub fn best_index(&self, constraints: &Vec<ConstraintInfo>) -> (r: Result<
        IndexPlan,
        BestIndexFailure,
    >)
        ensures
            offers(constraints@, TIMEZONE_COLUMN, ConstraintOp::Eq) ==> r == Err::<
                IndexPlan,
                BestIndexFailure,
            >(BestIndexFailure::Error),
            !offers(constraints@, TIMEZONE_COLUMN, ConstraintOp::Eq) ==> (r matches Ok(p)
                && p.uses@ == Seq::new(constraints.len() as nat, |i: int| unused()) && p.idxnum
                == transitions_idxnum(
                offers(constraints@, TIMESTAMP_COLUMN, ConstraintOp::Lt),
                offers(constraints@, TIMESTAMP_COLUMN, ConstraintOp::Gt),
            ) && p.idxstr is None && p.estimated_rows == ESTIMATED_ROWS),
    {
        transitions_plan(constraints)
    }

    /// Opens a cursor that has not begun a scan.
    pub fn open(&mut self) -> (r: TimezoneTransitionsCursor)
        ensures
            r@ == (TransitionsCursorView {
                zone: ZoneId::Utc,
                rowid: 0,
                after: None,
                current: None,
                preceding: None,
            }),
            r.wf(),
    {
        TimezoneTransitionsCursor::new()
    }
}

/// The mathematical form of a transitions cursor: the zone it walks, the
/// number of the current row, the instant after which the scan looks for the next transition
/// (none before a scan), the current transition (none once the scan is
/// over), and the instant of the zone's latest transition before the
/// current one (none if it has none, or there is no current row).
pub struct TransitionsCursorView {
    pub zone: ZoneId,
    pub rowid: int,
    pub after: Option<Instant>,
    pub current: Option<Transition>,
    pub preceding: Option<Instant>,
}

/// The scan stands on the zone's first transition strictly after `now` (or
/// on none): no transition of the zone lies between `now` and it.
pub open spec fn first_after(v: TransitionsCursorView, now: Instant) -> bool {
    v.current matches Some(t) ==> {
        &&& t.at.total_nanos() > now.total_nanos()
        &&& v.preceding matches Some(q) ==> q.total_nanos() <= now.total_nanos()
    }
}

/// A scan of `jiff_timezone_transitions`.
pub struct TimezoneTransitionsCursor {
    rowid: i64,
    tz: ZoneValue,
    after: Option<Instant>,
    current: Option<FoundTransition>,
}

impl View for TimezoneTransitionsCursor {
    type V = TransitionsCursorView;

    closed spec fn view(&self) -> TransitionsCursorView {
        TransitionsCursorView {
            zone: self.tz@,
            rowid: self.rowid as int,
            after: self.after,
            current: match self.current {
                Some(f) => Some(f.found()),
                None => None,
            },
            preceding: match self.current {
                Some(f) => f.preceding(),
                None => None,
            },
        }
    }
}

impl TimezoneTransitionsCursor {
    /// The row number is not negative; the scan's position is a valid
    /// instant; the current transition, if any, is valid and is where the
    /// scan stands.
    pub open spec fn wf(&self) -> bool {
        &&& self@.rowid >= 0
        &&& self@.after matches Some(a) ==> a.wf()
        &&& self@.current matches Some(t) ==> {
            &&& t.at.wf()
            &&& -offset_limit() <= t.offset_seconds <= offset_limit()
            &&& self@.after == Some(t.at)
        }
    }

    /// A cursor that has not begun a scan (its zone is UTC until one does).
    pub fn new() -> (r: TimezoneTransitionsCursor)
        ensures
            r@ == (TransitionsCursorView {
                zone: ZoneId::Utc,
                rowid: 0,
                after: None,
                current: None,
                preceding: None,
            }),
            r.wf(),
    {
        TimezoneTransitionsCursor { rowid: 0, tz: tz_utc(), after: None, current: None }
    }

    /// Begins a scan of the transitions of America/Los_Angeles after the
    /// current instant, whatever the plan: the first row holds the first of
    /// them. A host without that zone, or whose clock lies outside the
    /// supported range, stops the call, leaving the cursor as it was.
    pub fn filter(&mut self) -> (r: Result<(), Failure>)
        requires
            old(self).wf(),
        ensures
            final(self).wf(),
            r is Ok || (r matches Err(Failure::Halt) && final(self)@ == old(self)@),
            r is Ok ==> final(self)@.rowid == 1 && final(self)@.after is Some
                && final(self)@.zone == ZoneId::Named(TRANSITIONS_ZONE@),
            r is Ok ==> exists|now: Instant| now.wf() && first_after(final(self)@, now),
    {
        let tz = match tz_get(TRANSITIONS_ZONE) {
            Ok(tz) => tz,
            Err(_) => return Err(Failure::Halt),
        };
        let now = match instant_now() {
            Some(t) => t,
            None => return Err(Failure::Halt),
        };
        self.tz = tz;
        self.after = Some(now);
        self.rowid = 0;
        self.current = None;
        self.next();
        assert(now.wf() && first_after(self@, now));
        Ok(())
    }

    /// Moves to the next row: the zone's first transition after the current
    /// position, which is strictly later; none when the zone has no more.
    /// No transition is skipped: the zone's latest transition before the new
    /// row lies at or before the position the scan stood at.
    pub fn next(&mut self)
        requires
            old(self).wf(),
            old(self)@.after is Some,
            old(self)@.rowid < i64::MAX,
        ensures
            final(self).wf(),
            final(self)@.zone == old(self)@.zone,
            final(self)@.rowid == old(self)@.rowid + 1,
            final(self)@.after == match final(self)@.current {
                Some(t) => Some(t.at),
                None => old(self)@.after,
            },
            final(self)@.current matches Some(t) ==> t.at.total_nanos() > old(
                self,
            )@.after->Some_0.total_nanos(),
            old(self)@.current matches Some(p) ==> (final(self)@.current matches Some(t)
                ==> t.at.total_nanos() > p.at.total_nanos()),
            final(self)@.current is Some ==> (final(self)@.preceding matches Some(q)
                ==> q.total_nanos() <= old(self)@.after->Some_0.total_nanos()),
            final(self)@.current is None ==> final(self)@.preceding is None,
    {
        let after = self.after.unwrap();
        self.current = next_transition(&self.tz, after);
        match &self.current {
            Some(f) => {
                self.after = Some(f.transition().at);
            },
            None => {},
        }
        self.rowid = self.rowid + 1;
    }

    /// Whether a scan has begun.
    pub fn scanning(&self) -> (r: bool)
        ensures
            r == self@.after is Some,
    {
        self.after.is_some()
    }

    /// Whether the scan is over (no current row).
    pub fn eof(&self) -> (r: bool)
        ensures
            r == self@.current is None,
    {
        self.current.is_none()
    }

    /// The value of column `i` of the current row: the transition's instant,
    /// its offset, whether it is daylight saving time, and its abbreviation
    /// in columns 0 to 3; `NULL` in the hidden zone column. With no current
    /// row the call fails; a column beyond these stops it.
    pub fn column(&self, i: i32) -> (r: Result<SqlValue, Failure>)
        requires
            self.wf(),
        ensures
            match self@.current {
                None => r matches Err(e) && e@ == msg(no_current_item()),
                Some(t) => match i {
                    0 => r matches Ok(SqlValue::Text(s)) && s@ == timestamp_display(t.at),
                    1 => r matches Ok(SqlValue::Text(s)) && s@ == offset_display(
                        t.offset_seconds as int,
                    ),
                    2 => r matches Ok(SqlValue::Bool(b)) && b == t.dst,
                    3 => r matches Ok(SqlValue::Text(s)) && s@ == t.abbreviation@,
                    4 => r matches Ok(SqlValue::Null),
                    _ => r matches Err(Failure::Halt),
                },
            },
    {
        let item = match &self.current {
            Some(f) => f.transition(),
            None => {
                return Err(
                    Failure::Message("No current item in TimezoneTransitionsCursor".to_owned()),
                )
            },
        };
        match transitions_column(i) {
            Some(TransitionsColumn::Timestamp) => Ok(SqlValue::Text(result_timestamp(item.at))),
            Some(TransitionsColumn::Offset) => match offset_text(item.offset_seconds) {
                Some(s) => Ok(SqlValue::Text(s)),
                None => Err(Failure::Halt),
            },
            Some(TransitionsColumn::Dst) => Ok(SqlValue::Bool(item.dst)),
            Some(TransitionsColumn::Abbreviation) => Ok(SqlValue::Text(item.abbreviation.clone())),
            Some(TransitionsColumn::Timezone) => Ok(SqlValue::Null),
            None => Err(Failure::Halt),
        }
    }

    /// The number of the current row.
    pub fn rowid(&self) -> (r: i64)
        ensures
            r == self@.rowid,
    {
        self.rowid
    }
}

} // verus!
