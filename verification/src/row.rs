//! The row projector: one fetched row as the host sees it.
//!
//! A row is rendered as a keyed record, with one property for each column
//! name, or in raw mode as a list in column order. Pluck mode overrides both
//! and hands out the value of the first column alone.

use crate::errors::Error;
use crate::object::{
    distinct_keys, lemma_position_is, lemma_set, spec_get, spec_set, HostObject, Properties,
};
use crate::value::{convert_value_to_js, spec_convert_value, HostData, HostValue, SqlData, SqlValue};
use vstd::prelude::*;

verus! {

/// A rendered row.
#[derive(Debug, Clone, PartialEq, Eq)]
pub enum Projected {
    /// A single value: the plucked column.
    Value(HostValue),
    /// The values in column order.
    Array(Vec<HostValue>),
    /// The values under their column names.
    Object(HostObject),
}

/// What a [`Projected`] holds.
pub enum ProjectedData {
    Value(HostData),
    Array(Seq<HostData>),
    Object(Properties),
}

impl View for Projected {
    type V = ProjectedData;

    open spec fn view(&self) -> ProjectedData {
        match *self {
            Projected::Value(value) => ProjectedData::Value(value@),
            Projected::Array(values) => ProjectedData::Array(values@.map_values(|v: HostValue| v@)),
            Projected::Object(object) => ProjectedData::Object(object@),
        }
    }
}

/// What a list of texts holds.
pub open spec fn texts_view(texts: Seq<String>) -> Seq<Seq<char>> {
    texts.map_values(|t: String| t@)
}

/// What a row of engine values holds.
pub open spec fn row_view(row: Seq<SqlValue>) -> Seq<SqlData> {
    row.map_values(|v: SqlValue| v@)
}

/// The host values for the values of a row.
pub open spec fn spec_convert_row(row: Seq<SqlData>, safe_ints: bool) -> Seq<HostData> {
    row.map_values(|v: SqlData| spec_convert_value(v, safe_ints))
}

/// The record that is written column by column, from left to right: the
/// value of each column under its name.
pub open spec fn spec_record(names: Seq<Seq<char>>, values: Seq<HostData>) -> Properties
    decreases names.len(),
{
    if names.len() == 0 {
        Seq::empty()
    } else {
        spec_set(spec_record(names.drop_last(), values), names.last(), values[names.len() - 1])
    }
}

/// A row as the host sees it, or nothing where the row lacks a value that the
/// rendering needs. Plucking hands out the first column's value, and null
/// where there is no column; raw mode the values of the columns in order;
/// else the record of the columns.
pub open spec fn spec_map_row(
    names: Seq<Seq<char>>,
    row: Seq<SqlData>,
    safe_ints: bool,
    raw: bool,
    pluck: bool,
) -> Option<ProjectedData> {
    if pluck {
        if names.len() == 0 {
            Some(ProjectedData::Value(HostData::Null))
        } else if row.len() == 0 {
            None
        } else {
            Some(ProjectedData::Value(spec_convert_value(row[0], safe_ints)))
        }
    } else if row.len() < names.len() {
        None
    } else if raw {
        Some(ProjectedData::Array(spec_convert_row(row.take(names.len() as int), safe_ints)))
    } else {
        Some(ProjectedData::Object(spec_record(names, spec_convert_row(row, safe_ints))))
    }
}

/// Whether an outcome of rendering is the one that the rules give: the
/// rendered row, or the failure for a missing column.
pub open spec fn projects_to(outcome: Result<Projected, Error>, expected: Option<ProjectedData>) -> bool {
    match expected {
        Some(data) => outcome is Ok && outcome->Ok_0@ == data,
        None => outcome is Err && outcome->Err_0 == Error::InvalidColumnIndex,
    }
}

/// The record of a row keeps its keys distinct.
pub proof fn lemma_record_distinct(names: Seq<Seq<char>>, values: Seq<HostData>)
    ensures
        distinct_keys(spec_record(names, values)),
    decreases names.len(),
{
    if names.len() > 0 {
        lemma_record_distinct(names.drop_last(), values);
        lemma_set(
            spec_record(names.drop_last(), values),
            names.last(),
            values[names.len() - 1],
            names.last(),
        );
    }
}

/// Where several columns have one name, the last of them wins: the record
/// holds under a name the value of the last column of that name.
pub proof fn lemma_record_last_wins(names: Seq<Seq<char>>, values: Seq<HostData>, i: int)
    requires
        0 <= i < names.len(),
        forall|j: int| i < j < names.len() ==> names[j] != names[i],
    ensures
        spec_get(spec_record(names, values), names[i]) == Some(values[i]),
    decreases names.len(),
{
    let before = spec_record(names.drop_last(), values);
    lemma_set(before, names.last(), values[names.len() - 1], names[i]);
    if i < names.len() - 1 {
        lemma_record_last_wins(names.drop_last(), values, i);
    }
}

/// Where no two columns have one name, the record has one property for each
/// column, in the order of the columns: the value of the column under its
/// name.
pub proof fn lemma_record_of_distinct_names(names: Seq<Seq<char>>, values: Seq<HostData>)
    requires
        forall|i: int, j: int| 0 <= i < j < names.len() ==> names[i] != names[j],
    ensures
        spec_record(names, values) == Seq::new(names.len(), |i: int| (names[i], values[i])),
    decreases names.len(),
{
    if names.len() > 0 {
        let front = names.drop_last();
        assert forall|i: int, j: int| 0 <= i < j < front.len() implies front[i] != front[j] by {
            assert(front[i] == names[i] && front[j] == names[j]);
        }
        lemma_record_of_distinct_names(front, values);
        let before = spec_record(front, values);
        assert forall|i: int| 0 <= i < before.len() implies before[i].0 != names.last() by {
            assert(before[i].0 == front[i]);
            assert(front[i] == names[i]);
        }
        lemma_position_is(before, names.last(), before.len() as int);
        assert(spec_record(names, values) =~= Seq::new(
            names.len(),
            |i: int| (names[i], values[i]),
        ));
    } else {
        assert(spec_record(names, values) =~= Seq::new(
            names.len(),
            |i: int| (names[i], values[i]),
        ));
    }
}

/// A record has a key only if a column has that name.
pub proof fn lemma_record_keys(names: Seq<Seq<char>>, values: Seq<HostData>, key: Seq<char>)
    requires
        forall|j: int| 0 <= j < names.len() ==> names[j] != key,
    ensures
        spec_get(spec_record(names, values), key) is None,
    decreases names.len(),
{
    if names.len() > 0 {
        lemma_record_keys(names.drop_last(), values, key);
        lemma_set(
            spec_record(names.drop_last(), values),
            names.last(),
            values[names.len() - 1],
            key,
        );
    }
}

fn pluck_first(column_names: &Vec<String>, row: &Vec<SqlValue>, safe_ints: bool) -> (outcome: Result<
    Projected,
    Error,
>)
    ensures
        projects_to(
            outcome,
            spec_map_row(texts_view(column_names@), row_view(row@), safe_ints, false, true),
        ),
{
    if column_names.len() == 0 {
        Ok(Projected::Value(HostValue::Null))
    } else if row.len() == 0 {
        Err(Error::InvalidColumnIndex)
    } else {
        Ok(Projected::Value(convert_value_to_js(&row[0], safe_ints)))
    }
}

/// Renders a row as a keyed record, or as the first column's value where
/// `pluck` is set.
pub fn map_row_object(
    column_names: &Vec<String>,
    row: &Vec<SqlValue>,
    safe_ints: bool,
    pluck: bool,
) -> (outcome: Result<Projected, Error>)
    ensures
        projects_to(
            outcome,
            spec_map_row(texts_view(column_names@), row_view(row@), safe_ints, false, pluck),
        ),
{
    if pluck {
        return pluck_first(column_names, row, safe_ints);
    }
    let column_count: usize = column_names.len();
    if row.len() < column_count {
        return Err(Error::InvalidColumnIndex);
    }
    let ghost names = texts_view(column_names@);
    let ghost values = spec_convert_row(row_view(row@), safe_ints);
    let mut object = HostObject::new();
    let mut idx: usize = 0;
    assert(names.take(0) =~= Seq::<Seq<char>>::empty());
    while idx < column_count
        invariant
            idx <= column_count,
            column_count == column_names@.len(),
            column_count <= row@.len(),
            names == texts_view(column_names@),
            values == spec_convert_row(row_view(row@), safe_ints),
            object@ == spec_record(names.take(idx as int), values),
        decreases column_count - idx,
    {
        proof {
            assert(names.take(idx + 1).drop_last() =~= names.take(idx as int));
        }
        let value = convert_value_to_js(&row[idx], safe_ints);
        object.set(column_names[idx].clone(), value);
        idx = idx + 1;
    }
    assert(names.take(idx as int) =~= names);
    Ok(Projected::Object(object))
}

/// Renders a row as the list of its values in column order, or as the first
/// column's value where `pluck` is set.
pub fn map_row_raw(
    column_names: &Vec<String>,
    row: &Vec<SqlValue>,
    safe_ints: bool,
    pluck: bool,
) -> (outcome: Result<Projected, Error>)
    ensures
        projects_to(
            outcome,
            spec_map_row(texts_view(column_names@), row_view(row@), safe_ints, true, pluck),
        ),
{
    if pluck {
        return pluck_first(column_names, row, safe_ints);
    }
    let column_count: usize = column_names.len();
    if row.len() < column_count {
        return Err(Error::InvalidColumnIndex);
    }
    let ghost values = spec_convert_row(row_view(row@).take(column_count as int), safe_ints);
    let mut array: Vec<HostValue> = Vec::new();
    let mut idx: usize = 0;
    while idx < column_count
        invariant
            idx <= column_count <= row@.len(),
            values == spec_convert_row(row_view(row@).take(column_count as int), safe_ints),
            array@.map_values(|v: HostValue| v@) == values.take(idx as int),
        decreases column_count - idx,
    {
        let ghost before = array@.map_values(|v: HostValue| v@);
        let value = convert_value_to_js(&row[idx], safe_ints);
        array.push(value);
        idx = idx + 1;
        assert(array@.map_values(|v: HostValue| v@) =~= before.push(value@));
        assert(values.take(idx as int) =~= before.push(value@));
    }
    assert(values.take(idx as int) =~= values);
    Ok(Projected::Array(array))
}

/// Renders a row for the host.
pub fn map_row(
    column_names: &Vec<String>,
    row: &Vec<SqlValue>,
    safe_ints: bool,
    raw: bool,
    pluck: bool,
) -> (outcome: Result<Projected, Error>)
    ensures
        projects_to(
            outcome,
            spec_map_row(texts_view(column_names@), row_view(row@), safe_ints, raw, pluck),
        ),
{
    if raw {
        map_row_raw(column_names, row, safe_ints, pluck)
    } else {
        map_row_object(column_names, row, safe_ints, pluck)
    }
}

} // verus!
