use formula_engine::executor::{
    AddFormulaExecutor, Executor, ExecutorError, FormulaExecutor, LowerFormulaExecutor,
    UpperFormulaExecutor,
};
use formula_engine::value::{Number, Record, Value};

fn row(cells: Vec<(&str, Value)>) -> Record {
    let mut r = Record::new();
    for (k, v) in cells {
        r.insert(k.to_string(), v);
    }
    r
}

fn text(s: &str) -> Value {
    Value::Text(s.to_string())
}

fn num(m: i64, scale: u8) -> Value {
    Value::Number(Number { mantissa: m, scale })
}

fn text_of(v: Option<&Value>) -> Option<String> {
    match v {
        Some(Value::Text(s)) => Some(s.clone()),
        _ => None,
    }
}

fn number_of(v: Option<&Value>) -> Option<Number> {
    match v {
        Some(Value::Number(n)) => Some(*n),
        _ => None,
    }
}

#[test]
fn upper_maps_the_column_and_keeps_the_rest() {
    let data = vec![
        row(vec![("Name", text("straße")), ("Id", num(1, 0))]),
        row(vec![("Id", num(2, 0))]),
        row(vec![("Name", num(42, 0))]),
        row(vec![("Name", Value::Null)]),
        row(vec![("Name", Value::Bool(true))]),
        row(vec![("Name", Value::Composite("{\"a\":[1]}".to_string()))]),
    ];
    let params = row(vec![("text_column", text("Name"))]);
    let out = UpperFormulaExecutor.execute(&data, &params).unwrap();
    assert_eq!(out.len(), 6);
    assert_eq!(text_of(out[0].get("upper_result")), Some("STRASSE".to_string()));
    assert_eq!(number_of(out[0].get("Id")), Some(Number::from_i64(1)));
    assert!(out[1].get("upper_result").is_none());
    assert_eq!(number_of(out[1].get("Id")), Some(Number::from_i64(2)));
    assert_eq!(text_of(out[2].get("upper_result")), Some("42".to_string()));
    assert_eq!(text_of(out[3].get("upper_result")), Some("NULL".to_string()));
    assert_eq!(text_of(out[4].get("upper_result")), Some("TRUE".to_string()));
    assert_eq!(text_of(out[5].get("upper_result")), Some("{\"A\":[1]}".to_string()));
}

#[test]
fn lower_maps_the_column() {
    let data = vec![row(vec![("T", text("MiXeD Ünï"))]), row(vec![("T", num(-25, 1))])];
    let params = row(vec![("text_column", text("T"))]);
    let out = LowerFormulaExecutor.execute(&data, &params).unwrap();
    assert_eq!(text_of(out[0].get("lower_result")), Some("mixed ünï".to_string()));
    assert_eq!(text_of(out[1].get("lower_result")), Some("-2.5".to_string()));
    assert_eq!(text_of(out[0].get("T")), Some("MiXeD Ünï".to_string()));
}

#[test]
fn case_executors_need_a_text_column_name() {
    let data = vec![row(vec![("T", text("x"))])];
    assert_eq!(
        UpperFormulaExecutor.validate_parameters(&Record::new()),
        Err(ExecutorError::MissingParameter("text_column".to_string()))
    );
    let numeric = row(vec![("text_column", num(1, 0))]);
    assert!(LowerFormulaExecutor.validate_parameters(&numeric).is_ok());
    assert_eq!(
        LowerFormulaExecutor.execute(&data, &numeric).unwrap_err(),
        ExecutorError::MissingParameter("text_column".to_string())
    );
    assert_eq!(
        ExecutorError::MissingParameter("text_column".to_string()).message(),
        "Missing required parameter: text_column"
    );
}

#[test]
fn add_sums_two_columns() {
    let data = vec![row(vec![("a", num(2, 0)), ("b", num(3, 0))])];
    let params = row(vec![("number1", text("a")), ("number2", text("b"))]);
    let out = AddFormulaExecutor.execute(&data, &params).unwrap();
    assert_eq!(number_of(out[0].get("add_result")), Some(Number { mantissa: 50, scale: 1 }));
    assert_eq!(out[0].get("add_result").unwrap().display(), "5.0");
    assert_eq!(number_of(out[0].get("a")), Some(Number::from_i64(2)));
}

#[test]
fn add_counts_a_missing_operand_as_zero() {
    let data = vec![
        row(vec![("a", num(2, 0))]),
        row(vec![("b", num(3, 0))]),
        row(vec![]),
        row(vec![("a", text("7")), ("b", num(1, 0))]),
    ];
    let params = row(vec![("number1", text("a")), ("number2", text("b"))]);
    let out = AddFormulaExecutor.execute(&data, &params).unwrap();
    assert_eq!(number_of(out[0].get("add_result")), Some(Number { mantissa: 20, scale: 1 }));
    assert_eq!(number_of(out[1].get("add_result")), Some(Number { mantissa: 30, scale: 1 }));
    assert_eq!(number_of(out[2].get("add_result")), Some(Number { mantissa: 0, scale: 1 }));
    assert_eq!(number_of(out[3].get("add_result")), Some(Number { mantissa: 10, scale: 1 }));
}

#[test]
fn add_is_exact_on_decimals() {
    let data = vec![row(vec![("a", num(25, 1)), ("b", num(25, 2))])];
    let params = row(vec![("number1", text("a")), ("number2", text("b"))]);
    let out = AddFormulaExecutor.execute(&data, &params).unwrap();
    assert_eq!(number_of(out[0].get("add_result")), Some(Number { mantissa: 275, scale: 2 }));
}

#[test]
fn add_reports_a_sum_too_large_as_null() {
    let data = vec![row(vec![("a", num(9_000_000_000_000_000_000, 0)), ("b", num(9_000_000_000_000_000_000, 0))])];
    let params = row(vec![("number1", text("a")), ("number2", text("b"))]);
    let out = AddFormulaExecutor.execute(&data, &params).unwrap();
    assert!(matches!(out[0].get("add_result"), Some(Value::Null)));
}

#[test]
fn add_validation_names_the_missing_operand() {
    let only_first = row(vec![("number1", text("a"))]);
    assert_eq!(
        AddFormulaExecutor.validate_parameters(&Record::new()),
        Err(ExecutorError::MissingParameter("number1".to_string()))
    );
    assert_eq!(
        AddFormulaExecutor.validate_parameters(&only_first),
        Err(ExecutorError::MissingParameter("number2".to_string()))
    );
    assert_eq!(
        AddFormulaExecutor.execute(&[], &only_first).unwrap_err(),
        ExecutorError::MissingParameter("number2".to_string())
    );
}

#[test]
fn output_columns_are_fixed() {
    let p = Record::new();
    assert_eq!(Executor::Upper.get_output_columns(&p), vec!["upper_result".to_string()]);
    assert_eq!(Executor::Lower.get_output_columns(&p), vec!["lower_result".to_string()]);
    assert_eq!(Executor::Add.get_output_columns(&p), vec!["add_result".to_string()]);
}

#[test]
fn number_sum_that_does_not_fit_is_none() {
    let big = Number::from_i64(i64::MAX);
    assert_eq!(big.add(Number::from_i64(1)), None);
    assert_eq!(big.add(Number::from_i64(-1)), Some(Number::from_i64(i64::MAX - 1)));
    let tiny = Number { mantissa: 1, scale: 60 };
    assert_eq!(tiny.add(Number::from_i64(1)), None);
    assert_eq!(Number::from_i64(2).add(Number::from_i64(3)), Some(Number { mantissa: 50, scale: 1 }));
    assert_eq!(
        Number { mantissa: 15, scale: 1 }.add(Number::from_i64(1)),
        Some(Number { mantissa: 25, scale: 1 })
    );
}

#[test]
fn number_text_places_the_point() {
    assert_eq!(Number { mantissa: 5, scale: 2 }.to_text(), "0.05");
    assert_eq!(Number { mantissa: -1234, scale: 2 }.to_text(), "-12.34");
    assert_eq!(Number { mantissa: 50, scale: 1 }.to_text(), "5.0");
    assert_eq!(Number { mantissa: 0, scale: 0 }.to_text(), "0");
    assert_eq!(Number { mantissa: i64::MIN, scale: 0 }.to_text(), "-9223372036854775808");
}

#[test]
fn record_later_insert_replaces() {
    let mut r = Record::new();
    r.insert("k".to_string(), text("a"));
    r.insert("k".to_string(), text("b"));
    assert_eq!(text_of(r.get("k")), Some("b".to_string()));
    assert!(r.contains_key("k"));
    assert!(!r.contains_key("K"));
    let c = r.duplicate();
    assert_eq!(text_of(c.get("k")), Some("b".to_string()));
}
