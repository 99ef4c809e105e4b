//! The declarative description of a formula and its static validation.
use crate::value::{text_eq, Number, Value};
use vstd::prelude::*;

verus! {

/// Bounds and patterns that a parameter's value is meant to meet.
#[derive(Clone, Debug)]
pub struct ParameterValidation {
    pub min: Option<Number>,
    pub max: Option<Number>,
    pub pattern: Option<String>,
    pub custom: Option<String>,
}

/// One parameter of a formula.
#[derive(Clone, Debug)]
pub struct FormulaParameter {
    pub name: String,
    /// One of `text`, `number`, `boolean`, `single-select`, `multi-select`;
    /// compared case-sensitively.
    pub kind: String,
    pub label: String,
    pub description: String,
    pub required: bool,
    pub default_value: Option<Value>,
    pub options: Option<Vec<String>>,
    pub placeholder: Option<String>,
    pub validation: Option<ParameterValidation>,
}

/// The descriptor of a formula. `name` is its key in the registry; the
/// presentation fields are carried as given.
#[derive(Clone, Debug)]
pub struct FormulaConfig {
    pub id: Option<String>,
    pub name: String,
    pub category: String,
    pub description: String,
    pub syntax: String,
    pub tip: Option<String>,
    pub parameters: Vec<FormulaParameter>,
    pub examples: Vec<String>,
    pub is_active: bool,
    pub created_at: Option<String>,
    pub updated_at: Option<String>,
    pub is_enabled: Option<bool>,
    pub show_in_engine: Option<bool>,
}

/// Why a descriptor was refused. Parameter problems carry the parameter's
/// position.
#[derive(Clone, Copy, Debug, PartialEq, Eq, Structural)]
pub enum ConfigProblem {
    EmptyName,
    EmptyCategory,
    EmptyDescription,
    EmptyParameterName(usize),
    EmptyParameterLabel(usize),
    InvalidParameterKind(usize),
    /// The name is bound to an executor of another kind.
    ExecutorMismatch,
}

pub open spec fn valid_kind(k: Seq<char>) -> bool {
    k == "text"@ || k == "number"@ || k == "boolean"@ || k == "single-select"@ || k
        == "multi-select"@
}

/// The first problem of parameter `p` at position `i`, if any.
pub open spec fn parameter_problem(p: FormulaParameter, i: int) -> Option<ConfigProblem> {
    if p.name@.len() == 0 {
        Some(ConfigProblem::EmptyParameterName(i as usize))
    } else if p.label@.len() == 0 {
        Some(ConfigProblem::EmptyParameterLabel(i as usize))
    } else if !valid_kind(p.kind@) {
        Some(ConfigProblem::InvalidParameterKind(i as usize))
    } else {
        None
    }
}

/// The first problem among the parameters from position `from` on.
pub open spec fn parameters_problem(ps: Seq<FormulaParameter>, from: int) -> Option<ConfigProblem>
    decreases ps.len() - from,
{
    if from < 0 || from >= ps.len() {
        None
    } else {
        match parameter_problem(ps[from], from) {
            Some(p) => Some(p),
            None => parameters_problem(ps, from + 1),
        }
    }
}

/// The first static problem of a descriptor, checked in a fixed order:
/// name, category, description, then each parameter in turn.
pub open spec fn config_problem(c: FormulaConfig) -> Option<ConfigProblem> {
    if c.name@.len() == 0 {
        Some(ConfigProblem::EmptyName)
    } else if c.category@.len() == 0 {
        Some(ConfigProblem::EmptyCategory)
    } else if c.description@.len() == 0 {
        Some(ConfigProblem::EmptyDescription)
    } else {
        parameters_problem(c.parameters@, 0)
    }
}

pub fn is_valid_kind(k: &str) -> (r: bool)
    ensures
        r == valid_kind(k@),
{
    text_eq(k, "text") || text_eq(k, "number") || text_eq(k, "boolean") || text_eq(
        k,
        "single-select",
    ) || text_eq(k, "multi-select")
}

/// Checks a descriptor statically.
pub fn validate_formula_config(config: &FormulaConfig) -> (r: Result<(), ConfigProblem>)
    ensures
        match config_problem(*config) {
            None => r is Ok,
            Some(p) => r == Err::<(), ConfigProblem>(p),
        },
{
    if config.name.as_str().is_empty() {
        return Err(ConfigProblem::EmptyName);
    }
    if config.category.as_str().is_empty() {
        return Err(ConfigProblem::EmptyCategory);
    }
    if config.description.as_str().is_empty() {
        return Err(ConfigProblem::EmptyDescription);
    }
    let ps = &config.parameters;
    let mut i: usize = 0;
    while i < ps.len()
        invariant
            0 <= i <= ps@.len(),
            ps == config.parameters,
            config_problem(*config) == parameters_problem(ps@, i as int),
        decreases ps@.len() - i,
    {
        let p = &ps[i];
        assert(parameters_problem(ps@, i as int) == match parameter_problem(ps@[i as int], i as int) {
            Some(q) => Some(q),
            None => parameters_problem(ps@, i + 1),
        });
        if p.name.as_str().is_empty() {
            return Err(ConfigProblem::EmptyParameterName(i));
        }
        if p.label.as_str().is_empty() {
            return Err(ConfigProblem::EmptyParameterLabel(i));
        }
        if !is_valid_kind(p.kind.as_str()) {
            return Err(ConfigProblem::InvalidParameterKind(i));
        }
        i = i + 1;
    }
    Ok(())
}

} // verus!
