use formula_engine::defaults::{get_current_timestamp, initialize_dynamic_formula_engine, timestamp_text};
use formula_engine::descriptor::{ConfigProblem, FormulaConfig, FormulaParameter};
use formula_engine::engine::{
    DynamicFormulaEngine, EngineError, ExecutionStatus, FormulaExecutionRequest, OutputConfig,
};
use formula_engine::executor::Executor;
use formula_engine::value::{Number, Record, Value};

fn param(name: &str, kind: &str, label: &str) -> FormulaParameter {
    FormulaParameter {
        name: name.to_string(),
        kind: kind.to_string(),
        label: label.to_string(),
        description: String::new(),
        required: true,
        default_value: None,
        options: None,
        placeholder: None,
        validation: None,
    }
}

fn config(name: &str, params: Vec<FormulaParameter>) -> FormulaConfig {
    FormulaConfig {
        id: None,
        name: name.to_string(),
        category: "Text & String".to_string(),
        description: "a formula".to_string(),
        syntax: String::new(),
        tip: None,
        parameters: params,
        examples: vec![],
        is_active: true,
        created_at: None,
        updated_at: None,
        is_enabled: None,
        show_in_engine: None,
    }
}

fn text_row(col: &str, v: &str) -> Record {
    let mut r = Record::new();
    r.insert(col.to_string(), Value::Text(v.to_string()));
    r
}

fn request(name: &str, data: Vec<Record>, params: Record) -> FormulaExecutionRequest {
    FormulaExecutionRequest {
        formula_name: name.to_string(),
        data,
        parameters: params,
        output_config: OutputConfig {
            output_column: "out".to_string(),
            include_metadata: false,
            sample_size: None,
        },
    }
}

fn upper_request(name: &str) -> FormulaExecutionRequest {
    request(name, vec![text_row("Name", "ada")], text_row("text_column", "Name"))
}

#[test]
fn register_then_list_shows_descriptor_once() {
    let mut e = DynamicFormulaEngine::new();
    assert!(e.register_formula(config("UP", vec![param("text_column", "single-select", "Col")]), Executor::Upper).is_ok());
    let listed = e.get_formulas();
    assert_eq!(listed.len(), 1);
    assert_eq!(listed[0].name, "UP");
    let mut second = config("UP", vec![]);
    second.description = "replaced".to_string();
    assert!(e.register_formula(second, Executor::Upper).is_ok());
    let listed = e.get_formulas();
    assert_eq!(listed.len(), 1);
    assert_eq!(listed[0].description, "replaced");
}

#[test]
fn register_refuses_invalid_descriptors() {
    let mut e = DynamicFormulaEngine::new();
    let cases = vec![
        (config("", vec![]), ConfigProblem::EmptyName),
        ({ let mut c = config("A", vec![]); c.category = String::new(); c }, ConfigProblem::EmptyCategory),
        ({ let mut c = config("A", vec![]); c.description = String::new(); c }, ConfigProblem::EmptyDescription),
        (config("A", vec![param("p", "text", "P"), param("", "text", "Q")]), ConfigProblem::EmptyParameterName(1)),
        (config("A", vec![param("p", "text", "")]), ConfigProblem::EmptyParameterLabel(0)),
        (config("A", vec![param("p", "Text", "P")]), ConfigProblem::InvalidParameterKind(0)),
    ];
    for (c, problem) in cases {
        match e.register_formula(c, Executor::Add) {
            Err(EngineError::Config(p)) => assert_eq!(p, problem),
            other => panic!("unexpected {:?}", other),
        }
    }
    assert!(e.get_formulas().is_empty());
    for kind in ["text", "number", "boolean", "single-select", "multi-select"] {
        assert!(e.register_formula(config("K", vec![param("p", kind, "P")]), Executor::Add).is_ok());
    }
    for kind in ["checkbox", "Boolean", "select", ""] {
        match e.register_formula(config("K", vec![param("p", kind, "P")]), Executor::Add) {
            Err(EngineError::Config(p)) => assert_eq!(p, ConfigProblem::InvalidParameterKind(0)),
            other => panic!("unexpected {:?}", other),
        }
    }
}

#[test]
fn register_refuses_another_executor_kind_under_a_bound_name() {
    let mut e = DynamicFormulaEngine::new();
    assert!(e.register_formula(config("F", vec![]), Executor::Upper).is_ok());
    match e.register_formula(config("F", vec![]), Executor::Lower) {
        Err(EngineError::Config(ConfigProblem::ExecutorMismatch)) => {}
        other => panic!("unexpected {:?}", other),
    }
    assert!(e.remove_formula("F").is_ok());
    assert!(e.register_formula(config("F", vec![]), Executor::Lower).is_ok());
}

#[test]
fn execute_unknown_name_is_not_found() {
    let e = initialize_dynamic_formula_engine();
    match e.execute_formula(upper_request("upper")) {
        Err(EngineError::NotFound(n)) => assert_eq!(n, "upper"),
        other => panic!("unexpected {:?}", other),
    }
}

#[test]
fn disable_then_enable_restores_execution() {
    let mut e = initialize_dynamic_formula_engine();
    assert!(e.set_formula_status("UPPER", false).is_ok());
    match e.execute_formula(upper_request("UPPER")) {
        Err(EngineError::Disabled(n)) => assert_eq!(n, "UPPER"),
        other => panic!("unexpected {:?}", other),
    }
    assert_eq!(e.get_active_formulas().len(), 2);
    assert!(e.set_formula_status("UPPER", true).is_ok());
    let res = e.execute_formula(upper_request("UPPER")).unwrap();
    assert_eq!(res.status, ExecutionStatus::Success);
    assert!(matches!(res.data[0].get("upper_result"), Some(Value::Text(t)) if t == "ADA"));
    assert!(matches!(e.set_formula_status("NOPE", true), Err(EngineError::NotFound(_))));
}

#[test]
fn descriptor_without_executor_is_executor_missing() {
    let mut e = DynamicFormulaEngine::new();
    assert!(e.register_descriptor(config("PENDING", vec![])).is_ok());
    match e.execute_formula(upper_request("PENDING")) {
        Err(EngineError::ExecutorMissing(n)) => assert_eq!(n, "PENDING"),
        other => panic!("unexpected {:?}", other),
    }
}

#[test]
fn update_keeps_executor_and_needs_existing_name() {
    let mut e = initialize_dynamic_formula_engine();
    assert!(matches!(e.update_formula(config("MISSING", vec![])), Err(EngineError::NotFound(_))));
    let mut c = config("UPPER", vec![]);
    c.description = "shout".to_string();
    assert!(e.update_formula(c).is_ok());
    assert_eq!(e.get_formula("UPPER").unwrap().description, "shout");
    let res = e.execute_formula(upper_request("UPPER")).unwrap();
    assert_eq!(res.status, ExecutionStatus::Success);
    assert!(matches!(e.update_formula(config("", vec![])), Err(EngineError::NotFound(_))));
    let mut bad = config("UPPER", vec![]);
    bad.category = String::new();
    assert!(matches!(e.update_formula(bad), Err(EngineError::Config(ConfigProblem::EmptyCategory))));
}

#[test]
fn remove_then_execute_is_not_found() {
    let mut e = initialize_dynamic_formula_engine();
    assert!(e.remove_formula("ADD").is_ok());
    assert!(matches!(e.remove_formula("ADD"), Err(EngineError::NotFound(_))));
    assert!(matches!(e.execute_formula(upper_request("ADD")), Err(EngineError::NotFound(_))));
    assert_eq!(e.get_formulas().len(), 2);
    assert!(e.get_formula("ADD").is_none());
}

#[test]
fn failed_validation_is_reported_in_the_result() {
    let e = initialize_dynamic_formula_engine();
    let res = e.execute_formula(request("UPPER", vec![text_row("Name", "x")], Record::new())).unwrap();
    assert_eq!(res.status, ExecutionStatus::Error);
    assert!(res.data.is_empty());
    assert_eq!(
        res.error_message.as_deref(),
        Some("Parameter validation failed: Missing required parameter: text_column")
    );
    let mut p = Record::new();
    p.insert("text_column".to_string(), Value::Number(Number::from_i64(3)));
    let res = e.execute_formula(request("UPPER", vec![text_row("Name", "x")], p)).unwrap();
    assert_eq!(res.status, ExecutionStatus::Error);
    assert_eq!(res.error_message.as_deref(), Some("Missing required parameter: text_column"));
}

#[test]
fn successful_execution_carries_metadata() {
    let e = initialize_dynamic_formula_engine();
    let rows = vec![text_row("Name", "ada"), text_row("Other", "b")];
    let res = e.execute_formula(request("LOWER", rows, text_row("text_column", "Name"))).unwrap();
    assert_eq!(res.status, ExecutionStatus::Success);
    assert_eq!(res.formula_name, "LOWER");
    assert!(res.error_message.is_none());
    assert!(matches!(res.metadata.get("input_rows"), Some(Value::Number(n)) if *n == Number::from_i64(2)));
    assert!(matches!(res.metadata.get("output_rows"), Some(Value::Number(n)) if *n == Number::from_i64(2)));
    assert!(matches!(res.metadata.get("formula_name"), Some(Value::Text(t)) if t == "LOWER"));
    assert!(res.metadata.get("processing_time_ms").is_some());
}

#[test]
fn default_engine_has_three_active_formulas() {
    let e = initialize_dynamic_formula_engine();
    let mut names: Vec<String> = e.get_active_formulas().iter().map(|c| c.name.clone()).collect();
    names.sort();
    assert_eq!(names, vec!["ADD", "LOWER", "UPPER"]);
    let add = e.get_formula("ADD").unwrap();
    assert_eq!(add.parameters.len(), 2);
    assert_eq!(add.category, "Mathematical");
}

#[test]
fn timestamp_text_is_decimal() {
    assert_eq!(timestamp_text(0), "0");
    assert_eq!(timestamp_text(1700000000), "1700000000");
    assert_eq!(timestamp_text(u64::MAX), "18446744073709551615");
}

#[test]
fn timestamp_is_decimal_seconds() {
    let t = get_current_timestamp();
    assert!(!t.is_empty());
    assert!(t.chars().all(|c| c.is_ascii_digit()));
    assert!(t.parse::<u64>().unwrap() > 1_600_000_000);
}
