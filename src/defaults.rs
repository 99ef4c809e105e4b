//! The registry as the service starts it: UPPER, LOWER and ADD.
use crate::descriptor::{
    config_problem, parameter_problem, parameters_problem, valid_kind, FormulaConfig, FormulaParameter,
};
use crate::engine::DynamicFormulaEngine;
use crate::executor::Executor;
use crate::value::{digits, push_digits};
use std::time::{SystemTime, UNIX_EPOCH};
use vstd::prelude::*;

verus! {

/// Relies on `SystemTime::now` and `SystemTime::duration_since(UNIX_EPOCH)`
/// (with `Duration::as_secs`): the whole seconds since the Unix epoch, or 0
/// for a clock set before it.
#[verifier::external_body]
fn unix_seconds() -> u64 {
    match SystemTime::now().duration_since(UNIX_EPOCH) {
        Ok(d) => d.as_secs(),
        Err(_) => 0,
    }
}

/// A time in seconds since the Unix epoch, as decimal text.
pub fn timestamp_text(secs: u64) -> (r: String)
    ensures
        r@ == digits(secs as nat),
{
    let mut s = String::new();
    push_digits(&mut s, secs);
    assert(s@ =~= digits(secs as nat));
    s
}

/// The current time as decimal seconds since the Unix epoch.
pub fn get_current_timestamp() -> (r: String)
    ensures
        exists|secs: u64| r@ == digits(secs as nat),
{
    timestamp_text(unix_seconds())
}

/// A required single-select parameter naming a column.
fn column_parameter(name: &str, label: &str, description: &str) -> (p: FormulaParameter)
    requires
        name@.len() > 0,
        label@.len() > 0,
    ensures
        p.name@ == name@,
        p.label@ == label@,
        valid_kind(p.kind@),
{
    FormulaParameter {
        name: String::from_str(name),
        kind: String::from_str("single-select"),
        label: String::from_str(label),
        description: String::from_str(description),
        required: true,
        default_value: None,
        options: None,
        placeholder: None,
        validation: None,
    }
}

fn builtin_config(
    id: &str,
    name: &str,
    category: &str,
    description: &str,
    syntax: &str,
    tip: &str,
    parameters: Vec<FormulaParameter>,
    example: &str,
) -> (c: FormulaConfig)
    requires
        name@.len() > 0,
        category@.len() > 0,
        description@.len() > 0,
        parameters_problem(parameters@, 0) is None,
    ensures
        c.name@ == name@,
        c.is_active,
        config_problem(c) is None,
        c.parameters == parameters,
{
    FormulaConfig {
        id: Some(String::from_str(id)),
        name: String::from_str(name),
        category: String::from_str(category),
        description: String::from_str(description),
        syntax: String::from_str(syntax),
        tip: Some(String::from_str(tip)),
        parameters,
        examples: vec![String::from_str(example)],
        is_active: true,
        created_at: Some(get_current_timestamp()),
        updated_at: Some(get_current_timestamp()),
        is_enabled: None,
        show_in_engine: None,
    }
}

/// A registry holding UPPER, LOWER and ADD, active and bound to their
/// executors.
pub fn initialize_dynamic_formula_engine() -> (r: DynamicFormulaEngine)
    ensures
        r.wf(),
        r@.dom() == set!["UPPER"@, "LOWER"@, "ADD"@],
        r@["UPPER"@].executor == Some(Executor::Upper) && r@["UPPER"@].config.is_active,
        r@["LOWER"@].executor == Some(Executor::Lower) && r@["LOWER"@].config.is_active,
        r@["ADD"@].executor == Some(Executor::Add) && r@["ADD"@].config.is_active,
{
    proof {
        reveal_strlit("UPPER");
        reveal_strlit("LOWER");
        reveal_strlit("ADD");
        reveal_strlit("Text & String");
        reveal_strlit("Mathematical");
        reveal_strlit("Converts text to uppercase");
        reveal_strlit("Converts text to lowercase");
        reveal_strlit("Adds two numeric values together");
        reveal_strlit("text_column");
        reveal_strlit("Text Column");
        reveal_strlit("number1");
        reveal_strlit("number2");
        reveal_strlit("First Number");
        reveal_strlit("Second Number");
    }
    assert("UPPER"@[0] != "LOWER"@[0]);
    assert("UPPER"@ != "LOWER"@);
    assert("UPPER"@.len() != "ADD"@.len());
    assert("LOWER"@.len() != "ADD"@.len());
    let mut engine = DynamicFormulaEngine::new();
    let p = column_parameter("text_column", "Text Column", "Column containing text to convert");
    let ps = vec![p];
    assert(parameter_problem(ps@[0], 0) is None);
    assert(parameters_problem(ps@, 1) is None);
    let upper = builtin_config(
        "upper",
        "UPPER",
        "Text & String",
        "Converts text to uppercase",
        "UPPER [text_column]",
        "Select a text column to convert to uppercase",
        ps,
        "UPPER [Name]",
    );
    let p = column_parameter("text_column", "Text Column", "Column containing text to convert");
    let ps = vec![p];
    assert(parameter_problem(ps@[0], 0) is None);
    assert(parameters_problem(ps@, 1) is None);
    let lower = builtin_config(
        "lower",
        "LOWER",
        "Text & String",
        "Converts text to lowercase",
        "LOWER [text_column]",
        "Select a text column to convert to lowercase",
        ps,
        "LOWER [Name]",
    );
    let p1 = column_parameter("number1", "First Number", "First numeric column to add");
    let p2 = column_parameter("number2", "Second Number", "Second numeric column to add");
    let ps = vec![p1, p2];
    assert(parameter_problem(ps@[0], 0) is None);
    assert(parameter_problem(ps@[1], 1) is None);
    assert(parameters_problem(ps@, 2) is None);
    assert(parameters_problem(ps@, 1) is None);
    let add = builtin_config(
        "add",
        "ADD",
        "Mathematical",
        "Adds two numeric values together",
        "ADD [number1 -> number2]",
        "Select two numeric columns to add together",
        ps,
        "ADD [Price -> Tax]",
    );
    let _ = engine.register_formula(upper, Executor::Upper);
    let _ = engine.register_formula(lower, Executor::Lower);
    let _ = engine.register_formula(add, Executor::Add);
    assert(engine@.dom() =~= set!["UPPER"@, "LOWER"@, "ADD"@]);
    engine
}

} // verus!
