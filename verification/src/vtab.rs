//! Query planning for the table functions: which constraints SQLite offers a
//! series table a plan can use, and the plan each table chooses.

use vstd::prelude::*;

verus! {

/// The comparison of a constraint SQLite offers a table function.
#[derive(Clone, Copy, Debug, PartialEq, Eq, Structural)]
pub enum ConstraintOp {
    Eq,
    Gt,
    Ge,
    Lt,
    Le,
    /// Any other comparison (`MATCH`, `LIKE`, `!=`, ...), or none.
    Other,
}

/// One constraint SQLite offers a table function while planning a query.
#[derive(Clone, Copy, Debug, PartialEq, Eq, Structural)]
pub struct ConstraintInfo {
    /// The column the constraint is on.
    pub column: i32,
    /// Whether the plan may use it.
    pub usable: bool,
    /// The comparison it makes.
    pub op: ConstraintOp,
}

/// What a plan does with one constraint: whether SQLite may skip checking it
/// again, and which argument of `filter` (counting from 1; 0 for none)
/// receives its value.
#[derive(Clone, Copy, Debug, PartialEq, Eq, Structural)]
pub struct ConstraintUse {
    pub omit: bool,
    pub argv_index: i32,
}

/// A query plan of a table function.
#[derive(Debug)]
pub struct IndexPlan {
    /// What the plan does with each constraint, in the order offered.
    pub uses: Vec<ConstraintUse>,
    /// The plan's number, handed back to `filter`.
    pub idxnum: i32,
    /// The plan's text, handed back to `filter`, if it has one.
    pub idxstr: Option<String>,
    /// The rows the plan expects to produce (its cost estimate is the same
    /// number).
    pub estimated_rows: i64,
}

/// Why no plan is offered.
#[derive(Clone, Copy, Debug, PartialEq, Eq, Structural)]
pub enum BestIndexFailure {
    /// The constraints cannot be used as given (SQLite's `SQLITE_CONSTRAINT`).
    Constraint,
    /// The query lacks what the table needs (SQLite's `SQLITE_ERROR`).
    Error,
}

/// The columns of a series table: the item, then the hidden start and
/// period.
#[derive(Clone, Copy, Debug, PartialEq, Eq, Structural)]
pub enum SeriesColumn {
    Value,
    Start,
    Period,
}

/// The column of a series table at an index, if there is one.
pub fn series_column(index: i32) -> (r: Option<SeriesColumn>)
    ensures
        r == (if index == 0 {
            Some(SeriesColumn::Value)
        } else if index == START_COLUMN {
            Some(SeriesColumn::Start)
        } else if index == PERIOD_COLUMN {
            Some(SeriesColumn::Period)
        } else {
            None::<SeriesColumn>
        }),
{
    if index == 0 {
        Some(SeriesColumn::Value)
    } else if index == START_COLUMN {
        Some(SeriesColumn::Start)
    } else if index == PERIOD_COLUMN {
        Some(SeriesColumn::Period)
    } else {
        None
    }
}

/// The columns of `jiff_timezone_transitions`.
#[derive(Clone, Copy, Debug, PartialEq, Eq, Structural)]
pub enum TransitionsColumn {
    Timestamp,
    Offset,
    Dst,
    Abbreviation,
    Timezone,
}

/// The column of `jiff_timezone_transitions` at an index, if there is one.
pub fn transitions_column(index: i32) -> (r: Option<TransitionsColumn>)
    ensures
        r == (if index == 0 {
            Some(TransitionsColumn::Timestamp)
        } else if index == 1 {
            Some(TransitionsColumn::Offset)
        } else if index == 2 {
            Some(TransitionsColumn::Dst)
        } else if index == 3 {
            Some(TransitionsColumn::Abbreviation)
        } else if index == 4 {
            Some(TransitionsColumn::Timezone)
        } else {
            None::<TransitionsColumn>
        }),
{
    if index == 0 {
        Some(TransitionsColumn::Timestamp)
    } else if index == 1 {
        Some(TransitionsColumn::Offset)
    } else if index == 2 {
        Some(TransitionsColumn::Dst)
    } else if index == 3 {
        Some(TransitionsColumn::Abbreviation)
    } else if index == 4 {
        Some(TransitionsColumn::Timezone)
    } else {
        None
    }
}

/// A constraint that the plan leaves alone.
pub open spec fn unused() -> ConstraintUse {
    ConstraintUse { omit: false, argv_index: 0 }
}

/// The rows every plan of these tables expects.
pub const ESTIMATED_ROWS: i64 = 100000;

/// The column of a series table that holds its start.
pub const START_COLUMN: i32 = 1;

/// The column of a series table that holds its period.
pub const PERIOD_COLUMN: i32 = 2;

/// The plan number of a series table.
pub const SERIES_IDXNUM: i32 = 2;

/// A constraint a series plan can take its start or period from: a usable
/// equality.
pub open spec fn usable_eq(c: ConstraintInfo) -> bool {
    c.usable && c.op == ConstraintOp::Eq
}

/// A constraint on the start or period column that a series plan cannot use.
pub open spec fn refused_argument(c: ConstraintInfo) -> bool {
    (c.column == START_COLUMN || c.column == PERIOD_COLUMN) && !usable_eq(c)
}

/// Some constraint is on the given column.
pub open spec fn has_column(cs: Seq<ConstraintInfo>, column: i32) -> bool {
    exists|i: int| 0 <= i < cs.len() && (#[trigger] cs[i]).column == column
}

/// How a series plan uses a constraint on its start or period (the start is
/// the first argument of `filter`, the period the second).
pub open spec fn argument_use(c: ConstraintInfo) -> ConstraintUse {
    if c.column == START_COLUMN {
        ConstraintUse { omit: true, argv_index: 1 }
    } else if c.column == PERIOD_COLUMN {
        ConstraintUse { omit: true, argv_index: 2 }
    } else {
        unused()
    }
}

/// Whether a series table can be planned with these constraints: a start
/// or period constraint that is not a usable equality refuses the
/// constraints; a query without both refuses the table.
pub open spec fn series_admission(cs: Seq<ConstraintInfo>) -> Option<BestIndexFailure> {
    if exists|i: int| 0 <= i < cs.len() && refused_argument(#[trigger] cs[i]) {
        Some(BestIndexFailure::Constraint)
    } else if !has_column(cs, START_COLUMN) || !has_column(cs, PERIOD_COLUMN) {
        Some(BestIndexFailure::Error)
    } else {
        None
    }
}

/// Adding a constraint to a list adds its column to the columns present.
proof fn lemma_has_column_push(s: Seq<ConstraintInfo>, c: ConstraintInfo, column: i32)
    ensures
        has_column(s.push(c), column) <==> has_column(s, column) || c.column == column,
{
    let t = s.push(c);
    if c.column == column {
        assert(t[s.len() as int] == c);
    }
    if has_column(t, column) && c.column != column {
        let k = choose|k: int| 0 <= k < t.len() && (#[trigger] t[k]).column == column;
        assert(s[k] == t[k]);
    }
    if has_column(s, column) {
        let k = choose|k: int| 0 <= k < s.len() && (#[trigger] s[k]).column == column;
        assert(t[k] == s[k]);
    }
}

/// The plan of `jiff_datetime_series`: the start and period equalities go to
/// `filter` as its first and second arguments, every other constraint is
/// left to SQLite.
pub fn datetime_series_plan(cs: &Vec<ConstraintInfo>) -> (r: Result<IndexPlan, BestIndexFailure>)
    ensures
        match series_admission(cs@) {
            Some(f) => r == Err::<IndexPlan, BestIndexFailure>(f),
            None => r matches Ok(p) && p.uses@ == cs@.map_values(|c: ConstraintInfo| argument_use(c))
                && p.idxnum == SERIES_IDXNUM && p.idxstr is None && p.estimated_rows
                == ESTIMATED_ROWS,
        },
{
    let mut has_start = false;
    let mut has_period = false;
    let mut uses: Vec<ConstraintUse> = Vec::new();
    let mut i: usize = 0;
    while i < cs.len()
        invariant
            i <= cs.len(),
            forall|j: int| 0 <= j < i ==> !refused_argument(#[trigger] cs@[j]),
            has_start <==> has_column(cs@.take(i as int), START_COLUMN),
            has_period <==> has_column(cs@.take(i as int), PERIOD_COLUMN),
            uses@ == cs@.take(i as int).map_values(|c: ConstraintInfo| argument_use(c)),
        decreases cs.len() - i,
    {
        let c = cs[i];
        proof {
            assert(cs@.take(i + 1) == cs@.take(i as int).push(c));
        }
        if c.column == START_COLUMN || c.column == PERIOD_COLUMN {
            if !(c.usable && c.op == ConstraintOp::Eq) {
                assert(refused_argument(cs@[i as int]));
                return Err(BestIndexFailure::Constraint);
            }
            if c.column == START_COLUMN {
                uses.push(ConstraintUse { omit: true, argv_index: 1 });
                has_start = true;
            } else {
                uses.push(ConstraintUse { omit: true, argv_index: 2 });
                has_period = true;
            }
        } else {
            uses.push(ConstraintUse { omit: false, argv_index: 0 });
        }
        proof {
            let t = cs@.take(i + 1);
            assert(t.last() == c);
            assert(t == cs@.take(i as int).push(c));
            lemma_has_column_push(cs@.take(i as int), c, START_COLUMN);
            lemma_has_column_push(cs@.take(i as int), c, PERIOD_COLUMN);
            assert(uses@ == t.map_values(|c: ConstraintInfo| argument_use(c)));
        }
        i = i + 1;
    }
    proof {
        assert(cs@.take(cs.len() as int) == cs@);
    }
    if !has_start || !has_period {
        return Err(BestIndexFailure::Error);
    }
    Ok(IndexPlan { uses, idxnum: SERIES_IDXNUM, idxstr: None, estimated_rows: ESTIMATED_ROWS })
}

/// The column of `jiff_date_series` that holds its dates.
pub const DATE_COLUMN: i32 = 0;

/// The letter a date-series plan records for a usable range constraint on
/// its dates (`A` for `>`, `B` for `>=`, `C` for `<`, `D` for `<=`); none
/// for any other constraint.
pub open spec fn range_letter(c: ConstraintInfo) -> Seq<char> {
    if c.column == DATE_COLUMN && c.usable {
        match c.op {
            ConstraintOp::Gt => seq!['A'],
            ConstraintOp::Ge => seq!['B'],
            ConstraintOp::Lt => seq!['C'],
            ConstraintOp::Le => seq!['D'],
            _ => seq![],
        }
    } else {
        seq![]
    }
}

/// The letters of the range constraints among `cs`, in order.
pub open spec fn range_letters(cs: Seq<ConstraintInfo>) -> Seq<char>
    decreases cs.len(),
{
    if cs.len() == 0 {
        seq![]
    } else {
        range_letters(cs.drop_last()) + range_letter(cs.last())
    }
}

/// How the date-series plan uses the constraint at `i`: the start and
/// period as for every series; each range constraint on the dates goes to
/// `filter` after them, in order (from its third argument on), and is still
/// checked by SQLite.
pub open spec fn date_series_use(cs: Seq<ConstraintInfo>, i: int) -> ConstraintUse {
    let c = cs[i];
    if c.column == START_COLUMN || c.column == PERIOD_COLUMN {
        argument_use(c)
    } else if range_letter(c).len() > 0 {
        ConstraintUse { omit: false, argv_index: (3 + range_letters(cs.take(i)).len()) as i32 }
    } else {
        unused()
    }
}

/// The letter of a range constraint, if it is one.
fn range_letter_of(c: ConstraintInfo) -> (r: Option<&'static str>)
    ensures
        match r {
            Some(t) => range_letter(c).len() == 1 && t@ == range_letter(c),
            None => range_letter(c).len() == 0,
        },
{
    if c.column == DATE_COLUMN && c.usable {
        match c.op {
            ConstraintOp::Gt => {
                proof {
                    reveal_strlit("A");
                }
                Some("A")
            },
            ConstraintOp::Ge => {
                proof {
                    reveal_strlit("B");
                }
                Some("B")
            },
            ConstraintOp::Lt => {
                proof {
                    reveal_strlit("C");
                }
                Some("C")
            },
            ConstraintOp::Le => {
                proof {
                    reveal_strlit("D");
                }
                Some("D")
            },
            _ => None,
        }
    } else {
        None
    }
}

/// The plan of `jiff_date_series`: as for `jiff_datetime_series`, and each
/// usable range constraint on the dates is handed to `filter` after the
/// start and period, its letter recorded in the plan's text.
pub fn date_series_plan(cs: &Vec<ConstraintInfo>) -> (r: Result<IndexPlan, BestIndexFailure>)
    requires
        cs.len() <= i32::MAX - 3,
    ensures
        match series_admission(cs@) {
            Some(f) => r == Err::<IndexPlan, BestIndexFailure>(f),
            None => r matches Ok(p) && p.uses@ == Seq::new(
                cs.len() as nat,
                |i: int| date_series_use(cs@, i),
            ) && p.idxnum == SERIES_IDXNUM && (p.idxstr matches Some(t) && t@ == range_letters(
                cs@,
            )) && p.estimated_rows == ESTIMATED_ROWS,
        },
{
    let mut has_start = false;
    let mut has_period = false;
    let mut uses: Vec<ConstraintUse> = Vec::new();
    let mut letters = String::new();
    let mut argv_extra: i32 = 3;
    let mut i: usize = 0;
    while i < cs.len()
        invariant
            i <= cs.len(),
            cs.len() <= i32::MAX - 3,
            forall|j: int| 0 <= j < i ==> !refused_argument(#[trigger] cs@[j]),
            has_start <==> has_column(cs@.take(i as int), START_COLUMN),
            has_period <==> has_column(cs@.take(i as int), PERIOD_COLUMN),
            uses@ == Seq::new(i as nat, |j: int| date_series_use(cs@, j)),
            letters@ == range_letters(cs@.take(i as int)),
            letters@.len() <= i,
            argv_extra == 3 + letters@.len(),
        decreases cs.len() - i,
    {
        let c = cs[i];
        let ghost t = cs@.take(i + 1);
        proof {
            assert(t.drop_last() == cs@.take(i as int));
            assert(t.last() == c);
        }
        if c.column == START_COLUMN || c.column == PERIOD_COLUMN {
            if !(c.usable && c.op == ConstraintOp::Eq) {
                assert(refused_argument(cs@[i as int]));
                return Err(BestIndexFailure::Constraint);
            }
            if c.column == START_COLUMN {
                uses.push(ConstraintUse { omit: true, argv_index: 1 });
                has_start = true;
            } else {
                uses.push(ConstraintUse { omit: true, argv_index: 2 });
                has_period = true;
            }
        } else {
            match range_letter_of(c) {
                Some(letter) => {
                    uses.push(ConstraintUse { omit: false, argv_index: argv_extra });
                    letters.append(letter);
                    argv_extra = argv_extra + 1;
                },
                None => {
                    uses.push(ConstraintUse { omit: false, argv_index: 0 });
                },
            }
        }
        proof {
            assert(range_letters(t) == range_letters(cs@.take(i as int)) + range_letter(c));
            assert(t == cs@.take(i as int).push(c));
            lemma_has_column_push(cs@.take(i as int), c, START_COLUMN);
            lemma_has_column_push(cs@.take(i as int), c, PERIOD_COLUMN);
            assert(uses@ =~= Seq::new((i + 1) as nat, |j: int| date_series_use(cs@, j)));
        }
        i = i + 1;
    }
    proof {
        assert(cs@.take(cs.len() as int) == cs@);
    }
    if !has_start || !has_period {
        return Err(BestIndexFailure::Error);
    }
    Ok(
        IndexPlan {
            uses,
            idxnum: SERIES_IDXNUM,
            idxstr: Some(letters),
            estimated_rows: ESTIMATED_ROWS,
        },
    )
}

/// The column of `jiff_timezone_transitions` that holds the instants.
pub const TIMESTAMP_COLUMN: i32 = 0;

/// The column of `jiff_timezone_transitions` that names the zone.
pub const TIMEZONE_COLUMN: i32 = 4;

/// Some constraint among `cs` is usable, on the given column, with the given
/// comparison.
pub open spec fn offers(cs: Seq<ConstraintInfo>, column: i32, op: ConstraintOp) -> bool {
    exists|i: int|
        0 <= i < cs.len() && (#[trigger] cs[i]).usable && cs[i].column == column && cs[i].op == op
}

/// The plan number of `jiff_timezone_transitions`: 3 with both a lower
/// (`>`) and an upper (`<`) bound on the instants, 2 with only an upper,
/// 1 with only a lower, 0 with neither.
pub open spec fn transitions_idxnum(before: bool, after: bool) -> i32 {
    if before && after {
        3
    } else if before {
        2
    } else if after {
        1
    } else {
        0
    }
}

/// Adding a constraint to a list adds what it offers.
proof fn lemma_offers_push(s: Seq<ConstraintInfo>, c: ConstraintInfo, column: i32, op: ConstraintOp)
    ensures
        offers(s.push(c), column, op) <==> offers(s, column, op) || (c.usable && c.column == column
            && c.op == op),
{
    let t = s.push(c);
    if c.usable && c.column == column && c.op == op {
        assert(t[s.len() as int] == c);
    }
    if offers(t, column, op) && !(c.usable && c.column == column && c.op == op) {
        let k = choose|k: int|
            0 <= k < t.len() && (#[trigger] t[k]).usable && t[k].column == column && t[k].op
                == op;
        assert(s[k] == t[k]);
    }
    if offers(s, column, op) {
        let k = choose|k: int|
            0 <= k < s.len() && (#[trigger] s[k]).usable && s[k].column == column && s[k].op
                == op;
        assert(t[k] == s[k]);
    }
}

/// The plan of `jiff_timezone_transitions`: a usable equality on the zone
/// column refuses the query; otherwise the plan number records which bounds
/// on the instants are offered, and every constraint is left to SQLite.
pub fn transitions_plan(cs: &Vec<ConstraintInfo>) -> (r: Result<IndexPlan, BestIndexFailure>)
    ensures
        offers(cs@, TIMEZONE_COLUMN, ConstraintOp::Eq) ==> r == Err::<IndexPlan, BestIndexFailure>(
            BestIndexFailure::Error,
        ),
        !offers(cs@, TIMEZONE_COLUMN, ConstraintOp::Eq) ==> (r matches Ok(p) && p.uses@
            == Seq::new(cs.len() as nat, |i: int| unused()) && p.idxnum == transitions_idxnum(
            offers(cs@, TIMESTAMP_COLUMN, ConstraintOp::Lt),
            offers(cs@, TIMESTAMP_COLUMN, ConstraintOp::Gt),
        ) && p.idxstr is None && p.estimated_rows == ESTIMATED_ROWS),
{
    let mut has_before = false;
    let mut has_after = false;
    let mut has_tz = false;
    let mut uses: Vec<ConstraintUse> = Vec::new();
    let mut i: usize = 0;
    while i < cs.len()
        invariant
            i <= cs.len(),
            has_before <==> offers(cs@.take(i as int), TIMESTAMP_COLUMN, ConstraintOp::Lt),
            has_after <==> offers(cs@.take(i as int), TIMESTAMP_COLUMN, ConstraintOp::Gt),
            has_tz <==> offers(cs@.take(i as int), TIMEZONE_COLUMN, ConstraintOp::Eq),
            uses@ == Seq::new(i as nat, |j: int| unused()),
        decreases cs.len() - i,
    {
        let c = cs[i];
        if c.usable && c.column == TIMESTAMP_COLUMN {
            if c.op == ConstraintOp::Gt {
                has_after = true;
            }
            if c.op == ConstraintOp::Lt {
                has_before = true;
            }
        }
        if c.usable && c.column == TIMEZONE_COLUMN && c.op == ConstraintOp::Eq {
            has_tz = true;
        }
        uses.push(ConstraintUse { omit: false, argv_index: 0 });
        proof {
            assert(cs@.take(i + 1) == cs@.take(i as int).push(c));
            lemma_offers_push(cs@.take(i as int), c, TIMESTAMP_COLUMN, ConstraintOp::Lt);
            lemma_offers_push(cs@.take(i as int), c, TIMESTAMP_COLUMN, ConstraintOp::Gt);
            lemma_offers_push(cs@.take(i as int), c, TIMEZONE_COLUMN, ConstraintOp::Eq);
            assert(uses@ =~= Seq::new((i + 1) as nat, |j: int| unused()));
        }
        i = i + 1;
    }
    proof {
        assert(cs@.take(cs.len() as int) == cs@);
    }
    if has_tz {
        return Err(BestIndexFailure::Error);
    }
    let idxnum: i32 = if has_before && has_after {
        3
    } else if has_before {
        2
    } else if has_after {
        1
    } else {
        0
    };
    Ok(IndexPlan { uses, idxnum, idxstr: None, estimated_rows: ESTIMATED_ROWS })
}

} // verus!
