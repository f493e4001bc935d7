use libsql_js::errors::Error;
use libsql_js::object::HostObject;
use libsql_js::row::{map_row, map_row_object, map_row_raw, Projected};
use libsql_js::statement::{GetResult, Statement};
use libsql_js::value::{BigInt, HostValue, SqlValue};

fn names(list: &[&str]) -> Vec<String> {
    list.iter().map(|n| n.to_string()).collect()
}

fn number(x: f64) -> HostValue {
    HostValue::Number(x.to_bits())
}

fn text(s: &str) -> HostValue {
    HostValue::String(s.to_string())
}

fn entries(object: &HostObject) -> Vec<(String, HostValue)> {
    (0..object.len()).map(|i| (object.key_at(i).clone(), object.value_at(i).clone())).collect()
}

fn sample() -> (Vec<String>, Vec<SqlValue>) {
    (names(&["id", "name"]), vec![SqlValue::Integer(1), SqlValue::Text("a".to_string())])
}

#[test]
fn a_row_as_a_keyed_record() {
    let (columns, row) = sample();
    let projected = map_row(&columns, &row, false, false, false).unwrap();
    match projected {
        Projected::Object(object) => {
            assert_eq!(
                entries(&object),
                vec![("id".to_string(), number(1.0)), ("name".to_string(), text("a"))]
            );
            assert_eq!(object.get("id"), Some(&number(1.0)));
            assert_eq!(object.get("name"), Some(&text("a")));
            assert_eq!(object.get("other"), None);
        }
        other => panic!("not a record: {:?}", other),
    }
}

#[test]
fn a_row_as_a_list() {
    let (columns, row) = sample();
    assert_eq!(
        map_row(&columns, &row, false, true, false),
        Ok(Projected::Array(vec![number(1.0), text("a")]))
    );
    assert_eq!(
        map_row_raw(&columns, &row, false, false),
        Ok(Projected::Array(vec![number(1.0), text("a")]))
    );
}

#[test]
fn a_plucked_row_is_its_first_value() {
    let (columns, row) = sample();
    assert_eq!(map_row(&columns, &row, false, false, true), Ok(Projected::Value(number(1.0))));
    assert_eq!(map_row(&columns, &row, false, true, true), Ok(Projected::Value(number(1.0))));
    assert_eq!(map_row_object(&columns, &row, false, true), Ok(Projected::Value(number(1.0))));
    assert_eq!(map_row_raw(&columns, &row, false, true), Ok(Projected::Value(number(1.0))));
}

#[test]
fn plucking_without_columns_gives_null() {
    assert_eq!(map_row(&vec![], &vec![], false, false, true), Ok(Projected::Value(HostValue::Null)));
    assert_eq!(map_row(&vec![], &vec![], false, true, true), Ok(Projected::Value(HostValue::Null)));
    assert_eq!(
        map_row(&vec![], &vec![SqlValue::Integer(3)], true, false, true),
        Ok(Projected::Value(HostValue::Null))
    );
}

#[test]
fn a_row_without_columns() {
    assert_eq!(map_row(&vec![], &vec![], false, true, false), Ok(Projected::Array(vec![])));
    assert_eq!(
        map_row(&vec![], &vec![], false, false, false),
        Ok(Projected::Object(HostObject::new()))
    );
}

#[test]
fn safe_integers_decide_how_integers_are_rendered() {
    let (columns, row) = sample();
    let one = HostValue::BigInt(BigInt { negative: false, words: vec![1] });
    assert_eq!(
        map_row(&columns, &row, true, true, false),
        Ok(Projected::Array(vec![one.clone(), text("a")]))
    );
    assert_eq!(map_row(&columns, &row, true, false, true), Ok(Projected::Value(one.clone())));
    match map_row(&columns, &row, true, false, false).unwrap() {
        Projected::Object(object) => assert_eq!(object.get("id"), Some(&one)),
        other => panic!("not a record: {:?}", other),
    }
}

#[test]
fn the_last_of_equal_column_names_wins() {
    let columns = names(&["a", "b", "a", "c", "b"]);
    let row = vec![
        SqlValue::Integer(1),
        SqlValue::Integer(2),
        SqlValue::Integer(3),
        SqlValue::Integer(4),
        SqlValue::Integer(5),
    ];
    match map_row(&columns, &row, false, false, false).unwrap() {
        Projected::Object(object) => {
            assert_eq!(
                entries(&object),
                vec![
                    ("a".to_string(), number(3.0)),
                    ("b".to_string(), number(5.0)),
                    ("c".to_string(), number(4.0)),
                ]
            );
        }
        other => panic!("not a record: {:?}", other),
    }
    assert_eq!(
        map_row(&columns, &row, false, true, false),
        Ok(Projected::Array(vec![number(1.0), number(2.0), number(3.0), number(4.0), number(5.0)]))
    );
}

#[test]
fn a_row_that_lacks_a_value_is_refused() {
    let columns = names(&["a", "b"]);
    let row = vec![SqlValue::Integer(1)];
    assert_eq!(map_row(&columns, &row, false, false, false), Err(Error::InvalidColumnIndex));
    assert_eq!(map_row(&columns, &row, false, true, false), Err(Error::InvalidColumnIndex));
    assert_eq!(map_row(&columns, &row, false, false, true), Ok(Projected::Value(number(1.0))));
    assert_eq!(map_row(&columns, &vec![], false, false, true), Err(Error::InvalidColumnIndex));
    assert_eq!(map_row(&columns, &vec![], false, true, true), Err(Error::InvalidColumnIndex));
}

#[test]
fn values_beyond_the_columns_are_left_out() {
    let columns = names(&["a"]);
    let row = vec![SqlValue::Integer(1), SqlValue::Integer(2)];
    assert_eq!(map_row(&columns, &row, false, true, false), Ok(Projected::Array(vec![number(1.0)])));
    match map_row(&columns, &row, false, false, false).unwrap() {
        Projected::Object(object) => {
            assert_eq!(entries(&object), vec![("a".to_string(), number(1.0))])
        }
        other => panic!("not a record: {:?}", other),
    }
}

#[test]
fn every_kind_of_value_in_a_row() {
    let columns = names(&["n", "i", "r", "t", "b"]);
    let row = vec![
        SqlValue::Null,
        SqlValue::Integer(-2),
        SqlValue::Real(0.5f64.to_bits()),
        SqlValue::Text("x".to_string()),
        SqlValue::Blob(vec![1, 2]),
    ];
    assert_eq!(
        map_row(&columns, &row, false, true, false),
        Ok(Projected::Array(vec![
            HostValue::Null,
            number(-2.0),
            number(0.5),
            text("x"),
            HostValue::Buffer(vec![1, 2]),
        ]))
    );
}

#[test]
fn the_first_row_without_a_row_is_undefined() {
    let (columns, _) = sample();
    for raw in [false, true] {
        for pluck in [false, true] {
            assert_eq!(
                Statement::get_internal(&None, &columns, false, raw, pluck, Some(5)),
                Ok(GetResult::Undefined)
            );
        }
    }
}

#[test]
fn the_duration_stays_with_a_keyed_record_only() {
    let (columns, row) = sample();
    let row = Some(row);
    match Statement::get_internal(&row, &columns, false, false, false, Some(77)).unwrap() {
        GetResult::Row { value: Projected::Object(_), duration } => assert_eq!(duration, Some(77)),
        other => panic!("unexpected: {:?}", other),
    }
    match Statement::get_internal(&row, &columns, false, false, false, None).unwrap() {
        GetResult::Row { value: Projected::Object(_), duration } => assert_eq!(duration, None),
        other => panic!("unexpected: {:?}", other),
    }
    assert_eq!(
        Statement::get_internal(&row, &columns, false, true, false, Some(77)),
        Ok(GetResult::Row {
            value: Projected::Array(vec![number(1.0), text("a")]),
            duration: None
        })
    );
    assert_eq!(
        Statement::get_internal(&row, &columns, false, false, true, Some(77)),
        Ok(GetResult::Row { value: Projected::Value(number(1.0)), duration: None })
    );
    assert_eq!(
        Statement::get_internal(&Some(vec![]), &columns, false, false, false, Some(77)),
        Err(Error::InvalidColumnIndex)
    );
}

#[test]
fn an_object_keeps_the_order_of_first_writes() {
    let mut object = HostObject::new();
    assert_eq!(object.len(), 0);
    object.set("b".to_string(), number(1.0));
    object.set("a".to_string(), number(2.0));
    object.set("b".to_string(), number(3.0));
    assert_eq!(object.len(), 2);
    assert_eq!(object.key_at(0), "b");
    assert_eq!(object.value_at(0), &number(3.0));
    assert_eq!(object.key_at(1), "a");
    assert_eq!(object.value_at(1), &number(2.0));
    assert_eq!(object.get("a"), Some(&number(2.0)));
    assert_eq!(object.get("b"), Some(&number(3.0)));
    assert_eq!(object.get("c"), None);
    assert_eq!(object.get(""), None);
}
