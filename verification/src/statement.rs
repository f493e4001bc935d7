//! Statements and the cursors over their rows.
//!
//! A statement carries what the engine told of it when it was prepared, and
//! the access mode that decides how its rows are rendered. A cursor takes a
//! copy of the column names and of the mode when it is made, and renders by
//! that copy from then on.
//!
//! A statement does not look back at the database that prepared it. Closing
//! the database refuses new work on the database; a statement that was
//! prepared before keeps working for as long as its holder keeps it.

use crate::errors::Error;
use crate::object::{lemma_position_is, HostObject, Properties};
use crate::params::{argument_view, map_params, names_view, spec_map_params, HostParams, Params, ParamsData};
use crate::row::{map_row, projects_to, row_view, spec_map_row, texts_view, Projected, ProjectedData};
use crate::value::{HostData, HostValue, SqlData, SqlValue};
use vstd::prelude::*;
use vstd::string::*;

verus! {

/// How the rows of a statement are rendered: four switches, each set on its
/// own.
#[derive(Debug, Clone, Copy, PartialEq, Eq, Structural)]
pub struct AccessMode {
    /// Rows are lists, not keyed records.
    pub raw: bool,
    /// A row is the value of its first column.
    pub pluck: bool,
    /// Integers are handed out as big integers, not as doubles.
    pub safe_ints: bool,
    /// The time a fetch took is attached to a keyed record.
    pub timing: bool,
}

/// What the engine tells of one column of a statement.
#[derive(Debug, Clone, PartialEq, Eq)]
pub struct Column {
    pub name: String,
    pub origin_name: Option<String>,
    pub table_name: Option<String>,
    pub database_name: Option<String>,
    pub decl_type: Option<String>,
}

/// The names of a list of columns, in order.
pub open spec fn column_names_of(columns: Seq<Column>) -> Seq<Seq<char>> {
    columns.map_values(|c: Column| c.name@)
}

/// The host value for a text that may be missing: the text, or null.
pub open spec fn optional_text(text: Option<String>) -> HostData {
    match text {
        Some(t) => HostData::String(t@),
        None => HostData::Null,
    }
}

/// The record that describes a column to the host.
pub open spec fn column_description(column: Column) -> Properties {
    seq![
        ("name"@, HostData::String(column.name@)),
        ("column"@, optional_text(column.origin_name)),
        ("table"@, optional_text(column.table_name)),
        ("database"@, optional_text(column.database_name)),
        ("type"@, optional_text(column.decl_type)),
    ]
}

/// What the host is told when a statement has run.
#[derive(Debug, Clone, Copy, PartialEq, Eq, Structural)]
#[allow(non_snake_case)]
pub struct RunResult {
    /// The rows that the statement changed.
    pub changes: u64,
    /// How long the run took, in nanoseconds.
    pub duration: u64,
    /// The row id of the last row inserted on the connection.
    pub lastInsertRowid: i64,
}

/// The changes that a run is reported with: none where the connection's
/// count of all changes did not move, else the engine's count for the
/// statement.
pub open spec fn reported_changes(
    total_changes_before: u64,
    total_changes_after: u64,
    changes: u64,
) -> u64 {
    if total_changes_after == total_changes_before {
        0
    } else {
        changes
    }
}

/// What the host is given for the first row of a statement.
#[derive(Debug, Clone, PartialEq, Eq)]
pub enum GetResult {
    /// The statement gave no row.
    Undefined,
    /// The rendered row, and with it the time the fetch took where that is
    /// attached.
    Row { value: Projected, duration: Option<u64> },
}

/// What the first row of a statement is rendered as, or nothing where the
/// row lacks a value: no row gives the undefined result; a row is rendered
/// by the mode, and the duration stays with a keyed record only.
pub open spec fn spec_get_result(
    row: Option<Seq<SqlData>>,
    names: Seq<Seq<char>>,
    safe_ints: bool,
    raw: bool,
    pluck: bool,
    duration: Option<u64>,
) -> Option<Option<(ProjectedData, Option<u64>)>> {
    match row {
        None => Some(None),
        Some(values) => match spec_map_row(names, values, safe_ints, raw, pluck) {
            None => None,
            Some(data) => Some(
                Some(
                    (
                        data,
                        if raw || pluck {
                            None
                        } else {
                            duration
                        },
                    ),
                ),
            ),
        },
    }
}

/// Whether an outcome of `get` is the one that the rules give.
pub open spec fn gets(
    outcome: Result<GetResult, Error>,
    expected: Option<Option<(ProjectedData, Option<u64>)>>,
) -> bool {
    match expected {
        None => outcome is Err && outcome->Err_0 == Error::InvalidColumnIndex,
        Some(None) => outcome is Ok && outcome->Ok_0 is Undefined,
        Some(Some((data, duration))) => outcome is Ok && outcome->Ok_0 is Row
            && outcome->Ok_0->value@ == data && outcome->Ok_0->duration == duration,
    }
}

/// The row that a cursor hands out for what the engine gave: nothing once
/// the cursor has handed out the end.
pub open spec fn step_row(exhausted: bool, fetched: Option<Seq<SqlData>>) -> Option<
    Seq<SqlData>,
> {
    if exhausted {
        None
    } else {
        fetched
    }
}

/// Whether a cursor has handed out the end, after a sequence of steps with
/// what the engine gave at each.
pub open spec fn exhausted_after(
    exhausted: bool,
    fetches: Seq<Option<Seq<SqlData>>>,
) -> bool
    decreases fetches.len(),
{
    if fetches.len() == 0 {
        exhausted
    } else {
        exhausted_after(exhausted, fetches.drop_last()) || fetches.last() is None
    }
}

/// Once a cursor has handed out the end, every later step hands out the end,
/// whatever the engine gives.
pub proof fn lemma_end_is_final(
    exhausted: bool,
    fetches: Seq<Option<Seq<SqlData>>>,
    i: int,
    j: int,
)
    requires
        0 <= i < j < fetches.len(),
        step_row(exhausted_after(exhausted, fetches.take(i)), fetches[i]) is None,
    ensures
        step_row(exhausted_after(exhausted, fetches.take(j)), fetches[j]) is None,
    decreases j - i,
{
    assert(fetches.take(i + 1).drop_last() =~= fetches.take(i));
    assert(fetches.take(i + 1).last() == fetches[i]);
    assert(exhausted_after(exhausted, fetches.take(i + 1)));
    if i + 1 < j {
        assert(step_row(exhausted_after(exhausted, fetches.take(i + 1)), fetches[i + 1]) is None);
        lemma_end_is_final(exhausted, fetches, i + 1, j);
    }
}

/// What a row that may be absent holds.
pub open spec fn optional_row_view(row: Option<Vec<SqlValue>>) -> Option<Seq<SqlData>> {
    match row {
        Some(values) => Some(row_view(values@)),
        None => None,
    }
}

/// Copies a list of texts.
pub fn clone_texts(texts: &Vec<String>) -> (copy: Vec<String>)
    ensures
        texts_view(copy@) == texts_view(texts@),
{
    let mut copy: Vec<String> = Vec::new();
    let mut i: usize = 0;
    while i < texts.len()
        invariant
            i <= texts@.len(),
            texts_view(copy@) == texts_view(texts@).take(i as int),
        decreases texts@.len() - i,
    {
        let ghost before = texts_view(copy@);
        copy.push(texts[i].clone());
        i = i + 1;
        assert(texts_view(copy@) =~= before.push(texts@[i - 1]@));
        assert(texts_view(texts@).take(i as int) =~= before.push(texts@[i - 1]@));
    }
    assert(texts_view(texts@).take(i as int) =~= texts_view(texts@));
    copy
}

fn optional_text_value(text: &Option<String>) -> (value: HostValue)
    ensures
        value@ == optional_text(*text),
{
    match text {
        Some(t) => HostValue::String(t.clone()),
        None => HostValue::Null,
    }
}

fn describe_column(column: &Column) -> (object: HostObject)
    ensures
        object@ == column_description(*column),
{
    proof {
        reveal_strlit("name");
        reveal_strlit("column");
        reveal_strlit("table");
        reveal_strlit("database");
        reveal_strlit("type");
        assert("name"@[0] != "type"@[0]);
        assert("name"@.len() == 4 && "column"@.len() == 6 && "table"@.len() == 5);
        assert("database"@.len() == 8 && "type"@.len() == 4);
    }
    let mut object = HostObject::new();
    proof {
        lemma_position_is(object@, "name"@, 0);
    }
    object.set(String::from_str("name"), HostValue::String(column.name.clone()));
    assert(object@.len() == 1 && object@[0] == column_description(*column)[0]);
    proof {
        assert forall|i: int| 0 <= i < 1 implies object@[i].0 != "column"@ by {
            assert(object@[i] == column_description(*column)[i]);
        }
        lemma_position_is(object@, "column"@, 1);
    }
    object.set(String::from_str("column"), optional_text_value(&column.origin_name));
    assert(object@.len() == 2 && object@[0] == column_description(*column)[0] && object@[1]
        == column_description(*column)[1]);
    proof {
        assert forall|i: int| 0 <= i < 2 implies object@[i].0 != "table"@ by {
            assert(object@[i] == column_description(*column)[i]);
        }
        lemma_position_is(object@, "table"@, 2);
    }
    object.set(String::from_str("table"), optional_text_value(&column.table_name));
    assert(object@.len() == 3 && object@[0] == column_description(*column)[0] && object@[1]
        == column_description(*column)[1] && object@[2] == column_description(*column)[2]);
    proof {
        assert forall|i: int| 0 <= i < 3 implies object@[i].0 != "database"@ by {
            assert(object@[i] == column_description(*column)[i]);
        }
        lemma_position_is(object@, "database"@, 3);
    }
    object.set(String::from_str("database"), optional_text_value(&column.database_name));
    assert(object@.len() == 4 && object@[0] == column_description(*column)[0] && object@[1]
        == column_description(*column)[1] && object@[2] == column_description(*column)[2]
        && object@[3] == column_description(*column)[3]);
    proof {
        assert forall|i: int| 0 <= i < 4 implies object@[i].0 != "type"@ by {
            assert(object@[i] == column_description(*column)[i]);
        }
        lemma_position_is(object@, "type"@, 4);
    }
    object.set(String::from_str("type"), optional_text_value(&column.decl_type));
    assert(object@ =~= column_description(*column));
    object
}

/// A prepared statement, as the binding sees it.
#[derive(Debug, PartialEq, Eq)]
pub struct Statement {
    columns: Vec<Column>,
    column_names: Vec<String>,
    parameter_names: Vec<Option<String>>,
    mode: AccessMode,
}

impl Statement {
    #[verifier::type_invariant]
    spec fn names_match_columns(self) -> bool {
        texts_view(self.column_names@) == column_names_of(self.columns@)
    }

    /// The columns of the statement's rows.
    pub closed spec fn spec_columns(&self) -> Seq<Column> {
        self.columns@
    }

    /// The names that the statement declares for its parameters; none for a
    /// parameter without a name.
    pub closed spec fn spec_parameter_names(&self) -> Seq<Option<Seq<char>>> {
        names_view(self.parameter_names@)
    }

    /// The access mode.
    pub closed spec fn spec_mode(&self) -> AccessMode {
        self.mode
    }

    /// The statement with the same columns and parameters and another mode.
    pub open spec fn same_but_mode(&self, other: &Statement, mode: AccessMode) -> bool {
        &&& other.spec_columns() == self.spec_columns()
        &&& other.spec_parameter_names() == self.spec_parameter_names()
        &&& other.spec_mode() == mode
    }

    /// The statement for what the engine prepared: its columns, the names
    /// of its parameters in order, and the mode it starts with.
    pub fn new(columns: Vec<Column>, parameter_names: Vec<Option<String>>, mode: AccessMode) -> (stmt:
        Self)
        ensures
            stmt.spec_columns() == columns@,
            stmt.spec_parameter_names() == names_view(parameter_names@),
            stmt.spec_mode() == mode,
    {
        let mut column_names: Vec<String> = Vec::new();
        let mut i: usize = 0;
        while i < columns.len()
            invariant
                i <= columns@.len(),
                texts_view(column_names@) == column_names_of(columns@).take(i as int),
            decreases columns@.len() - i,
        {
            let ghost before = texts_view(column_names@);
            column_names.push(columns[i].name.clone());
            i = i + 1;
            assert(texts_view(column_names@) =~= before.push(columns@[i - 1].name@));
            assert(column_names_of(columns@).take(i as int) =~= before.push(
                columns@[i - 1].name@,
            ));
        }
        assert(column_names_of(columns@).take(i as int) =~= column_names_of(columns@));
        Statement { columns, column_names, parameter_names, mode }
    }

    /// The access mode.
    pub fn mode(&self) -> (mode: AccessMode)
        ensures
            mode == self.spec_mode(),
    {
        self.mode
    }

    /// The names of the columns, in order.
    pub fn column_names(&self) -> (names: &Vec<String>)
        ensures
            texts_view(names@) == column_names_of(self.spec_columns()),
    {
        proof {
            use_type_invariant(self);
        }
        &self.column_names
    }

    /// Whether the statement returns data: whether it has a column.
    pub fn is_reader(&self) -> (reader: bool)
        ensures
            reader == (self.spec_columns().len() > 0),
    {
        self.columns.len() > 0
    }

    /// The bindings for the argument of a call to this statement.
    pub fn bind(&self, params: &Option<HostParams>) -> (bound: Result<Params, Error>)
        ensures
            match spec_map_params(self.spec_parameter_names(), argument_view(*params)) {
                Ok(data) => bound is Ok && bound->Ok_0@ == data,
                Err(e) => bound is Err && bound->Err_0 == Error::Bind(e),
            },
    {
        match map_params(&self.parameter_names, params) {
            Ok(bound) => Ok(bound),
            Err(e) => Err(Error::Bind(e)),
        }
    }

    /// What the host is told of a run, from what the connection showed: its
    /// count of all changes before and after the run, its count of the
    /// changes of the last statement, and the last row id; and from the time
    /// the run took.
    pub fn run(
        &self,
        total_changes_before: u64,
        total_changes_after: u64,
        changes: u64,
        last_insert_rowid: i64,
        duration: u64,
    ) -> (result: RunResult)
        ensures
            result.changes == reported_changes(total_changes_before, total_changes_after, changes),
            result.duration == duration,
            result.lastInsertRowid == last_insert_rowid,
    {
        let changes = if total_changes_after == total_changes_before {
            0
        } else {
            changes
        };
        RunResult { changes, duration, lastInsertRowid: last_insert_rowid }
    }

    /// What the host is given for the first row that the statement gave, or
    /// for its having given none. `duration` is the time the fetch took; it
    /// is attached only where the timing switch is set.
    pub fn get(&self, row: &Option<Vec<SqlValue>>, duration: u64) -> (outcome: Result<
        GetResult,
        Error,
    >)
        ensures
            gets(
                outcome,
                spec_get_result(
                    optional_row_view(*row),
                    column_names_of(self.spec_columns()),
                    self.spec_mode().safe_ints,
                    self.spec_mode().raw,
                    self.spec_mode().pluck,
                    if self.spec_mode().timing {
                        Some(duration)
                    } else {
                        None
                    },
                ),
            ),
    {
        proof {
            use_type_invariant(self);
        }
        let timed = if self.mode.timing {
            Some(duration)
        } else {
            None
        };
        Self::get_internal(
            row,
            &self.column_names,
            self.mode.safe_ints,
            self.mode.raw,
            self.mode.pluck,
            timed,
        )
    }

    /// Renders the first row of a result, or its absence.
    pub fn get_internal(
        row: &Option<Vec<SqlValue>>,
        column_names: &Vec<String>,
        safe_ints: bool,
        raw: bool,
        pluck: bool,
        duration: Option<u64>,
    ) -> (outcome: Result<GetResult, Error>)
        ensures
            gets(
                outcome,
                spec_get_result(
                    optional_row_view(*row),
                    texts_view(column_names@),
                    safe_ints,
                    raw,
                    pluck,
                    duration,
                ),
            ),
    {
        match row {
            Some(values) => match map_row(column_names, values, safe_ints, raw, pluck) {
                Ok(value) => {
                    let attached = if raw || pluck {
                        None
                    } else {
                        duration
                    };
                    Ok(GetResult::Row { value, duration: attached })
                },
                Err(e) => Err(e),
            },
            None => Ok(GetResult::Undefined),
        }
    }

    /// A cursor over the rows of one execution. It takes the column names
    /// and the mode as they are now.
    pub fn iterate(&self) -> (rows: RowsIterator)
        ensures
            rows.is_cursor_of(self),
            !rows.spec_exhausted(),
    {
        proof {
            use_type_invariant(self);
        }
        RowsIterator::new(
            clone_texts(&self.column_names),
            self.mode.safe_ints,
            self.mode.raw,
            self.mode.pluck,
        )
    }

    /// Sets raw mode, or clears it; without an argument it is set. Only a
    /// statement that returns data has a raw mode.
    pub fn raw(&mut self, raw: Option<bool>) -> (outcome: Result<(), Error>)
        ensures
            old(self).spec_columns().len() == 0 ==> outcome == Err::<(), Error>(
                Error::RawWithoutData,
            ) && *final(self) == *old(self),
            old(self).spec_columns().len() > 0 ==> outcome is Ok && old(self).same_but_mode(
                final(self),
                AccessMode {
                    raw: match raw {
                        Some(b) => b,
                        None => true,
                    },
                    ..old(self).spec_mode()
                },
            ),
    {
        proof {
            use_type_invariant(&*self);
        }
        if self.columns.len() == 0 {
            return Err(Error::RawWithoutData);
        }
        self.mode.raw = match raw {
            Some(b) => b,
            None => true,
        };
        Ok(())
    }

    /// Sets pluck mode, or clears it; without an argument it is set.
    pub fn pluck(&mut self, pluck: Option<bool>)
        ensures
            old(self).same_but_mode(
                final(self),
                AccessMode {
                    pluck: match pluck {
                        Some(b) => b,
                        None => true,
                    },
                    ..old(self).spec_mode()
                },
            ),
    {
        proof {
            use_type_invariant(&*self);
        }
        self.mode.pluck = match pluck {
            Some(b) => b,
            None => true,
        };
    }

    /// Sets the timing switch, or clears it; without an argument it is set.
    pub fn timing(&mut self, timing: Option<bool>)
        ensures
            old(self).same_but_mode(
                final(self),
                AccessMode {
                    timing: match timing {
                        Some(b) => b,
                        None => true,
                    },
                    ..old(self).spec_mode()
                },
            ),
    {
        proof {
            use_type_invariant(&*self);
        }
        self.mode.timing = match timing {
            Some(b) => b,
            None => true,
        };
    }

    /// Sets safe integers, or clears them; without an argument they are set.
    #[allow(non_snake_case)]
    pub fn safeIntegers(&mut self, toggle: Option<bool>)
        ensures
            old(self).same_but_mode(
                final(self),
                AccessMode {
                    safe_ints: match toggle {
                        Some(b) => b,
                        None => true,
                    },
                    ..old(self).spec_mode()
                },
            ),
    {
        proof {
            use_type_invariant(&*self);
        }
        self.mode.safe_ints = match toggle {
            Some(b) => b,
            None => true,
        };
    }

    /// The description of each column, in order.
    pub fn columns(&self) -> (described: Vec<HostObject>)
        ensures
            described@.len() == self.spec_columns().len(),
            forall|i: int|
                0 <= i < described@.len() ==> (#[trigger] described@[i])@ == column_description(
                    self.spec_columns()[i],
                ),
    {
        let mut described: Vec<HostObject> = Vec::new();
        let mut i: usize = 0;
        while i < self.columns.len()
            invariant
                i <= self.columns@.len(),
                described@.len() == i,
                forall|j: int|
                    0 <= j < i ==> (#[trigger] described@[j])@ == column_description(
                        self.columns@[j],
                    ),
            decreases self.columns@.len() - i,
        {
            described.push(describe_column(&self.columns[i]));
            i = i + 1;
        }
        described
    }
}

/// A cursor over the rows of one execution of a statement.
#[derive(Debug, Clone, PartialEq, Eq)]
pub struct RowsIterator {
    column_names: Vec<String>,
    safe_ints: bool,
    raw: bool,
    pluck: bool,
    exhausted: bool,
}

impl RowsIterator {
    /// The column names that the cursor renders by.
    pub closed spec fn spec_column_names(&self) -> Seq<Seq<char>> {
        texts_view(self.column_names@)
    }

    /// Whether the cursor hands out integers as big integers.
    pub closed spec fn spec_safe_ints(&self) -> bool {
        self.safe_ints
    }

    /// Whether the cursor renders rows as lists.
    pub closed spec fn spec_raw(&self) -> bool {
        self.raw
    }

    /// Whether the cursor plucks the first column.
    pub closed spec fn spec_pluck(&self) -> bool {
        self.pluck
    }

    /// Whether the cursor has handed out the end of the rows.
    pub closed spec fn spec_exhausted(&self) -> bool {
        self.exhausted
    }

    /// Whether the cursor renders by the column names and the mode of the
    /// statement.
    pub open spec fn is_cursor_of(&self, stmt: &Statement) -> bool {
        &&& self.spec_column_names() == column_names_of(stmt.spec_columns())
        &&& self.spec_safe_ints() == stmt.spec_mode().safe_ints
        &&& self.spec_raw() == stmt.spec_mode().raw
        &&& self.spec_pluck() == stmt.spec_mode().pluck
    }

    /// Whether two cursors render alike.
    pub open spec fn renders_as(&self, other: &RowsIterator) -> bool {
        &&& other.spec_column_names() == self.spec_column_names()
        &&& other.spec_safe_ints() == self.spec_safe_ints()
        &&& other.spec_raw() == self.spec_raw()
        &&& other.spec_pluck() == self.spec_pluck()
    }

    /// A cursor at its start.
    pub fn new(column_names: Vec<String>, safe_ints: bool, raw: bool, pluck: bool) -> (rows: Self)
        ensures
            rows.spec_column_names() == texts_view(column_names@),
            rows.spec_safe_ints() == safe_ints,
            rows.spec_raw() == raw,
            rows.spec_pluck() == pluck,
            !rows.spec_exhausted(),
    {
        RowsIterator { column_names, safe_ints, raw, pluck, exhausted: false }
    }

    /// Whether the cursor has handed out the end of the rows. From then on
    /// the engine need not be asked.
    pub fn is_exhausted(&self) -> (exhausted: bool)
        ensures
            exhausted == self.spec_exhausted(),
    {
        self.exhausted
    }

    /// Advances the cursor. `fetched` is what the engine gave for the next
    /// row: a row, or nothing at the end. The record holds that row, and is
    /// the end marker where there is none; after the end every record is the
    /// end marker, whatever is handed in.
    pub fn next(&mut self, fetched: Option<Vec<SqlValue>>) -> (record: Record)
        ensures
            old(self).renders_as(final(self)),
            final(self).spec_exhausted() == (old(self).spec_exhausted() || fetched is None),
            record.spec_row() == step_row(old(self).spec_exhausted(), optional_row_view(fetched)),
            record.is_record_of(old(self)),
    {
        let row = if self.exhausted {
            None
        } else {
            fetched
        };
        if row.is_none() {
            self.exhausted = true;
        }
        Record {
            row,
            column_names: clone_texts(&self.column_names),
            safe_ints: self.safe_ints,
            raw: self.raw,
            pluck: self.pluck,
        }
    }
}

/// A cursor over the rows of one execution, with the column names that the
/// result itself reports.
pub fn statement_iterate_sync(stmt: &Statement, column_names: Vec<String>) -> (rows: RowsIterator)
    ensures
        rows.spec_column_names() == texts_view(column_names@),
        rows.spec_safe_ints() == stmt.spec_mode().safe_ints,
        rows.spec_raw() == stmt.spec_mode().raw,
        rows.spec_pluck() == stmt.spec_mode().pluck,
        !rows.spec_exhausted(),
{
    let mode = stmt.mode();
    RowsIterator::new(column_names, mode.safe_ints, mode.raw, mode.pluck)
}

/// One step of a cursor: a row with what is needed to render it, or the end
/// marker.
#[derive(Debug, Clone, PartialEq, Eq)]
pub struct Record {
    row: Option<Vec<SqlValue>>,
    column_names: Vec<String>,
    safe_ints: bool,
    raw: bool,
    pluck: bool,
}

impl Record {
    /// The row, or nothing for the end marker.
    pub closed spec fn spec_row(&self) -> Option<Seq<SqlData>> {
        optional_row_view(self.row)
    }

    /// The column names that the record renders by.
    pub closed spec fn spec_column_names(&self) -> Seq<Seq<char>> {
        texts_view(self.column_names@)
    }

    /// Whether integers are handed out as big integers.
    pub closed spec fn spec_safe_ints(&self) -> bool {
        self.safe_ints
    }

    /// Whether the row is rendered as a list.
    pub closed spec fn spec_raw(&self) -> bool {
        self.raw
    }

    /// Whether the first column is plucked.
    pub closed spec fn spec_pluck(&self) -> bool {
        self.pluck
    }

    /// Whether the record renders by the column names and the mode of the
    /// cursor.
    pub open spec fn is_record_of(&self, rows: &RowsIterator) -> bool {
        &&& self.spec_column_names() == rows.spec_column_names()
        &&& self.spec_safe_ints() == rows.spec_safe_ints()
        &&& self.spec_raw() == rows.spec_raw()
        &&& self.spec_pluck() == rows.spec_pluck()
    }

    /// What the record renders as: its row by its own names and mode; the
    /// end marker is null.
    pub open spec fn spec_value(&self) -> Option<ProjectedData> {
        match self.spec_row() {
            Some(row) => spec_map_row(
                self.spec_column_names(),
                row,
                self.spec_safe_ints(),
                self.spec_raw(),
                self.spec_pluck(),
            ),
            None => Some(ProjectedData::Value(HostData::Null)),
        }
    }

    /// The rendered row; null for the end marker.
    pub fn value(&self) -> (outcome: Result<Projected, Error>)
        ensures
            projects_to(outcome, self.spec_value()),
    {
        match &self.row {
            Some(row) => map_row(&self.column_names, row, self.safe_ints, self.raw, self.pluck),
            None => Ok(Projected::Value(HostValue::Null)),
        }
    }

    /// Whether this is the end marker.
    pub fn done(&self) -> (done: bool)
        ensures
            done == (self.spec_row() is None),
    {
        self.row.is_none()
    }
}

/// A cursor renders by the mode that its statement had when the cursor was
/// made: a record of the cursor renders its row by the column names and the
/// mode of the statement as it was then, whatever the statement has become
/// since.
pub proof fn lemma_cursor_keeps_its_mode(
    created: Statement,
    later: Statement,
    rows: RowsIterator,
    record: Record,
)
    requires
        rows.is_cursor_of(&created),
        record.is_record_of(&rows),
        record.spec_row() is Some,
    ensures
        record.spec_value() == spec_map_row(
            column_names_of(created.spec_columns()),
            record.spec_row()->Some_0,
            created.spec_mode().safe_ints,
            created.spec_mode().raw,
            created.spec_mode().pluck,
        ),
{
}

} // verus!
