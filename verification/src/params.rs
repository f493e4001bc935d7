//! The parameter binder: from the argument of a call to the bindings of a
//! prepared statement.
//!
//! The shape of the argument decides. A list binds by place, one value for
//! each element in order. A keyed record binds by name: each parameter that
//! the statement declares is looked up under its name without the leading
//! sigil, and is bound where the record has that key. Any other value is
//! bound alone, by place.

use crate::object::{lemma_set, spec_get, spec_set, HostObject, Properties};
use crate::text::{skip_first, spec_skip_first};
use crate::value::{map_value, spec_map_value, BindError, HostData, HostValue, SqlData, SqlValue};
use vstd::prelude::*;

verus! {

/// The argument of a call, by shape.
#[derive(Debug, Clone, PartialEq, Eq)]
pub enum HostParams {
    Array(Vec<HostValue>),
    Object(HostObject),
    Scalar(HostValue),
}

/// What a [`HostParams`] holds.
pub enum HostParamsData {
    Array(Seq<HostData>),
    Object(Properties),
    Scalar(HostData),
}

/// What a list of host values holds.
pub open spec fn values_view(values: Seq<HostValue>) -> Seq<HostData> {
    values.map_values(|v: HostValue| v@)
}

impl View for HostParams {
    type V = HostParamsData;

    open spec fn view(&self) -> HostParamsData {
        match *self {
            HostParams::Array(values) => HostParamsData::Array(values_view(values@)),
            HostParams::Object(object) => HostParamsData::Object(object@),
            HostParams::Scalar(value) => HostParamsData::Scalar(value@),
        }
    }
}

/// The bindings of a statement.
#[derive(Debug, Clone, PartialEq, Eq)]
pub enum Params {
    /// Nothing is bound.
    Empty,
    Positional(Vec<SqlValue>),
    Named(Vec<(String, SqlValue)>),
}

/// What a [`Params`] holds.
pub enum ParamsData {
    Empty,
    Positional(Seq<SqlData>),
    Named(Seq<(Seq<char>, SqlData)>),
}

impl View for Params {
    type V = ParamsData;

    open spec fn view(&self) -> ParamsData {
        match *self {
            Params::Empty => ParamsData::Empty,
            Params::Positional(values) => ParamsData::Positional(
                values@.map_values(|v: SqlValue| v@),
            ),
            Params::Named(pairs) => ParamsData::Named(
                pairs@.map_values(|p: (String, SqlValue)| (p.0@, p.1@)),
            ),
        }
    }
}

/// The view of the outcome of binding.
pub open spec fn params_view(outcome: Result<Params, BindError>) -> Result<ParamsData, BindError> {
    match outcome {
        Ok(params) => Ok(params@),
        Err(e) => Err(e),
    }
}

/// The name of a parameter, where it has one.
pub open spec fn name_view(name: Option<String>) -> Option<Seq<char>> {
    match name {
        Some(text) => Some(text@),
        None => None,
    }
}

/// The names that a statement declares for its parameters, in order.
pub open spec fn names_view(names: Seq<Option<String>>) -> Seq<Option<Seq<char>>> {
    names.map_values(|n: Option<String>| name_view(n))
}

/// The engine values for a list of host values, in order; or the failure of
/// the first that cannot be bound.
pub open spec fn spec_map_values(values: Seq<HostData>) -> Result<Seq<SqlData>, BindError>
    decreases values.len(),
{
    if values.len() == 0 {
        Ok(Seq::empty())
    } else {
        match spec_map_values(values.drop_last()) {
            Err(e) => Err(e),
            Ok(bound) => match spec_map_value(values.last()) {
                Ok(v) => Ok(bound.push(v)),
                Err(e) => Err(e),
            },
        }
    }
}

/// The bindings by name for the parameters that a statement declares, in
/// their order. A parameter is bound where it has a name and the record has
/// the name without its sigil as a key; every other is left out. The failure
/// is that of the first value that cannot be bound.
pub open spec fn spec_map_named(names: Seq<Option<Seq<char>>>, props: Properties) -> Result<
    Seq<(Seq<char>, SqlData)>,
    BindError,
>
    decreases names.len(),
{
    if names.len() == 0 {
        Ok(Seq::empty())
    } else {
        match spec_map_named(names.drop_last(), props) {
            Err(e) => Err(e),
            Ok(bound) => match names.last() {
                None => Ok(bound),
                Some(name) => match spec_get(props, spec_skip_first(name)) {
                    None => Ok(bound),
                    Some(value) => match spec_map_value(value) {
                        Ok(v) => Ok(bound.push((name, v))),
                        Err(e) => Err(e),
                    },
                },
            },
        }
    }
}

/// The bindings for the argument of a call.
pub open spec fn spec_map_params(
    names: Seq<Option<Seq<char>>>,
    params: Option<HostParamsData>,
) -> Result<ParamsData, BindError> {
    match params {
        None => Ok(ParamsData::Empty),
        Some(HostParamsData::Array(values)) => match spec_map_values(values) {
            Ok(bound) => Ok(ParamsData::Positional(bound)),
            Err(e) => Err(e),
        },
        Some(HostParamsData::Object(props)) => match spec_map_named(names, props) {
            Ok(bound) => Ok(ParamsData::Named(bound)),
            Err(e) => Err(e),
        },
        Some(HostParamsData::Scalar(value)) => match spec_map_value(value) {
            Ok(v) => Ok(ParamsData::Positional(seq![v])),
            Err(e) => Err(e),
        },
    }
}

/// The view of an argument that may be absent.
pub open spec fn argument_view(params: Option<HostParams>) -> Option<HostParamsData> {
    match params {
        Some(p) => Some(p@),
        None => None,
    }
}

/// A failure among the first values is the failure of the whole list.
pub proof fn lemma_map_values_fails(values: Seq<HostData>, n: int)
    requires
        0 <= n <= values.len(),
        spec_map_values(values.take(n)) is Err,
    ensures
        spec_map_values(values) == spec_map_values(values.take(n)),
    decreases values.len() - n,
{
    if n < values.len() {
        assert(values.take(n + 1).drop_last() =~= values.take(n));
        lemma_map_values_fails(values, n + 1);
    } else {
        assert(values.take(n) =~= values);
    }
}

/// A failure among the first parameters is the failure of them all.
pub proof fn lemma_map_named_fails(names: Seq<Option<Seq<char>>>, props: Properties, n: int)
    requires
        0 <= n <= names.len(),
        spec_map_named(names.take(n), props) is Err,
    ensures
        spec_map_named(names, props) == spec_map_named(names.take(n), props),
    decreases names.len() - n,
{
    if n < names.len() {
        assert(names.take(n + 1).drop_last() =~= names.take(n));
        lemma_map_named_fails(names, props, n + 1);
    } else {
        assert(names.take(n) =~= names);
    }
}

/// A list binds element by element: where it binds, there is one binding for
/// each element, that of the element; where it fails, some element cannot be
/// bound, every element before it can, and the failure is that element's.
pub proof fn lemma_map_values_elementwise(values: Seq<HostData>)
    ensures
        match spec_map_values(values) {
            Ok(bound) => bound.len() == values.len() && forall|i: int|
                0 <= i < values.len() ==> spec_map_value(#[trigger] values[i]) == Ok::<
                    SqlData,
                    BindError,
                >(bound[i]),
            Err(e) => exists|k: int|
                0 <= k < values.len() && spec_map_value(#[trigger] values[k]) == Err::<
                    SqlData,
                    BindError,
                >(e) && forall|j: int| 0 <= j < k ==> spec_map_value(#[trigger] values[j]) is Ok,
        },
    decreases values.len(),
{
    if values.len() > 0 {
        let front = values.drop_last();
        lemma_map_values_elementwise(front);
        match spec_map_values(front) {
            Ok(bound) => {
                assert forall|j: int| 0 <= j < front.len() implies spec_map_value(
                    #[trigger] values[j],
                ) is Ok by {
                    assert(values[j] == front[j]);
                }
                match spec_map_value(values.last()) {
                    Ok(v) => {
                        assert forall|i: int| 0 <= i < values.len() implies spec_map_value(
                            #[trigger] values[i],
                        ) == Ok::<SqlData, BindError>(bound.push(v)[i]) by {
                            if i < front.len() {
                                assert(values[i] == front[i]);
                            }
                        }
                    },
                    Err(e) => {
                        assert(spec_map_value(values[values.len() - 1]) == Err::<
                            SqlData,
                            BindError,
                        >(e));
                    },
                }
            },
            Err(e) => {
                let k = choose|k: int|
                    0 <= k < front.len() && spec_map_value(#[trigger] front[k]) == Err::<
                        SqlData,
                        BindError,
                    >(e) && forall|j: int|
                        0 <= j < k ==> spec_map_value(#[trigger] front[j]) is Ok;
                assert(values[k] == front[k]);
                assert forall|j: int| 0 <= j < k implies spec_map_value(
                    #[trigger] values[j],
                ) is Ok by {
                    assert(values[j] == front[j]);
                }
            },
        }
    }
}

/// A key that no declared parameter looks for is ignored: writing it into
/// the record changes nothing of what is bound by name.
pub proof fn lemma_unrelated_key_is_ignored(
    names: Seq<Option<Seq<char>>>,
    props: Properties,
    key: Seq<char>,
    value: HostData,
)
    requires
        forall|i: int|
            0 <= i < names.len() && (#[trigger] names[i]) is Some ==> spec_skip_first(
                names[i]->Some_0,
            ) != key,
    ensures
        spec_map_named(names, spec_set(props, key, value)) == spec_map_named(names, props),
    decreases names.len(),
{
    if names.len() > 0 {
        let front = names.drop_last();
        assert forall|i: int| 0 <= i < front.len() && (#[trigger] front[i]) is Some implies spec_skip_first(
            front[i]->Some_0,
        ) != key by {
            assert(front[i] == names[i]);
        }
        lemma_unrelated_key_is_ignored(front, props, key, value);
        assert(names.last() == names[names.len() - 1]);
        if let Some(name) = names.last() {
            lemma_set(props, key, value, spec_skip_first(name));
        }
    }
}

/// Binds a single value by place.
pub fn map_params_single(param: &HostValue) -> (bound: Result<Params, BindError>)
    ensures
        params_view(bound) == spec_map_params(Seq::empty(), Some(HostParamsData::Scalar(param@))),
{
    match map_value(param) {
        Ok(value) => {
            let mut values: Vec<SqlValue> = Vec::new();
            values.push(value);
            assert(values@.map_values(|v: SqlValue| v@) =~= seq![value@]);
            Ok(Params::Positional(values))
        },
        Err(e) => Err(e),
    }
}

/// Binds the elements of a list by place.
pub fn map_params_array(values: &Vec<HostValue>) -> (bound: Result<Params, BindError>)
    ensures
        params_view(bound) == spec_map_params(
            Seq::empty(),
            Some(HostParamsData::Array(values_view(values@))),
        ),
{
    let ghost all = values_view(values@);
    let mut params: Vec<SqlValue> = Vec::new();
    let mut i: usize = 0;
    assert(all.take(0) =~= Seq::<HostData>::empty());
    assert(params@.map_values(|v: SqlValue| v@) =~= Seq::<SqlData>::empty());
    while i < values.len()
        invariant
            i <= values@.len(),
            all == values_view(values@),
            spec_map_values(all.take(i as int)) == Ok::<Seq<SqlData>, BindError>(
                params@.map_values(|v: SqlValue| v@),
            ),
        decreases values@.len() - i,
    {
        let ghost before = params@.map_values(|v: SqlValue| v@);
        proof {
            assert(all.take(i + 1).drop_last() =~= all.take(i as int));
            assert(all.take(i + 1).last() == values@[i as int]@);
        }
        match map_value(&values[i]) {
            Ok(value) => {
                params.push(value);
                assert(params@.map_values(|v: SqlValue| v@) =~= before.push(value@));
            },
            Err(e) => {
                proof {
                    lemma_map_values_fails(all, i + 1);
                }
                return Err(e);
            },
        }
        i = i + 1;
    }
    assert(all.take(i as int) =~= all);
    Ok(Params::Positional(params))
}

/// Binds by name the declared parameters that the record has a key for.
pub fn map_params_object(names: &Vec<Option<String>>, object: &HostObject) -> (bound: Result<
    Params,
    BindError,
>)
    ensures
        params_view(bound) == spec_map_params(
            names_view(names@),
            Some(HostParamsData::Object(object@)),
        ),
{
    let ghost all = names_view(names@);
    let mut params: Vec<(String, SqlValue)> = Vec::new();
    let mut i: usize = 0;
    assert(all.take(0) =~= Seq::<Option<Seq<char>>>::empty());
    assert(params@.map_values(|p: (String, SqlValue)| (p.0@, p.1@)) =~= Seq::<
        (Seq<char>, SqlData),
    >::empty());
    while i < names.len()
        invariant
            i <= names@.len(),
            all == names_view(names@),
            spec_map_named(all.take(i as int), object@) == Ok::<
                Seq<(Seq<char>, SqlData)>,
                BindError,
            >(params@.map_values(|p: (String, SqlValue)| (p.0@, p.1@))),
        decreases names@.len() - i,
    {
        let ghost before = params@.map_values(|p: (String, SqlValue)| (p.0@, p.1@));
        proof {
            assert(all.take(i + 1).drop_last() =~= all.take(i as int));
            assert(all.take(i + 1).last() == name_view(names@[i as int]));
        }
        match &names[i] {
            Some(name) => {
                let key = skip_first(name.as_str());
                match object.get(key) {
                    Some(value) => match map_value(value) {
                        Ok(v) => {
                            params.push((name.clone(), v));
                            assert(params@.map_values(|p: (String, SqlValue)| (p.0@, p.1@))
                                =~= before.push((name@, v@)));
                        },
                        Err(e) => {
                            proof {
                                lemma_map_named_fails(all, object@, i + 1);
                            }
                            return Err(e);
                        },
                    },
                    None => {},
                }
            },
            None => {},
        }
        i = i + 1;
    }
    assert(all.take(i as int) =~= all);
    Ok(Params::Named(params))
}

/// Binds the argument of a call to a statement whose parameters have the
/// given names. An absent argument binds nothing.
pub fn map_params(names: &Vec<Option<String>>, params: &Option<HostParams>) -> (bound: Result<
    Params,
    BindError,
>)
    ensures
        params_view(bound) == spec_map_params(names_view(names@), argument_view(*params)),
{
    match params {
        None => Ok(Params::Empty),
        Some(HostParams::Array(values)) => map_params_array(values),
        Some(HostParams::Object(object)) => map_params_object(names, object),
        Some(HostParams::Scalar(value)) => map_params_single(value),
    }
}

} // verus!
