use formula_engine::generator::FormulaExecutorGenerator;
use formula_engine::templates::{FILLNA_TEMPLATE, SUMIF_TEMPLATE, TEXT_JOIN_TEMPLATE};

#[test]
fn well_known_formulas_get_their_template() {
    assert_eq!(FormulaExecutorGenerator::generate_specific_executor("SUMIF"), SUMIF_TEMPLATE);
    assert_eq!(FormulaExecutorGenerator::generate_specific_executor("TEXT_JOIN"), TEXT_JOIN_TEMPLATE);
    assert_eq!(FormulaExecutorGenerator::generate_specific_executor("FILLNA"), FILLNA_TEMPLATE);
}

#[test]
fn unknown_formula_gets_generic_template_with_input() {
    let code = FormulaExecutorGenerator::generate_specific_executor("Scale");
    assert!(code.contains("pub struct ScaleExecutor;"));
    assert!(code.contains("impl FormulaExecutor for ScaleExecutor {"));
    assert!(code.contains("vec![\"scale_result\".to_string()]"));
    assert!(code.contains("let input_param = parameters.get(\"input\")"));
    assert!(code.contains("if !parameters.contains_key(\"input\") {"));
    assert_eq!(
        code,
        FormulaExecutorGenerator::generate_executor_template("Scale", &["input".to_string()])
    );
}

#[test]
fn generic_template_reads_and_checks_each_parameter() {
    let params = vec!["left".to_string(), "right".to_string()];
    let code = FormulaExecutorGenerator::generate_executor_template("MERGE", &params);
    assert!(code.starts_with("use anyhow::{Result, anyhow};\nuse serde_json::Value;"));
    assert!(code.contains("pub struct MERGEExecutor;"));
    assert!(code.contains("// Implement MERGE logic here"));
    assert!(code.contains("// Access parameters: left_param"));
    assert!(code.contains(
        "        let left_param = parameters.get(\"left\")\n            .and_then(|v| v.as_str())\n            .ok_or_else(|| anyhow!(\"Missing required parameter: left\"))?;\n\n        let right_param"
    ));
    assert!(code.contains(
        "        if !parameters.contains_key(\"left\") {\n            return Err(anyhow!(\"Missing required parameter: left\"));\n        }\n        if !parameters.contains_key(\"right\")"
    ));
    assert!(code.contains("new_row.insert(\"merge_result\".to_string()"));
    assert!(code.ends_with("vec![\"merge_result\".to_string()]\n    }\n}"));
}

#[test]
fn generic_template_without_parameters_uses_input_placeholder() {
    let code = FormulaExecutorGenerator::generate_executor_template("X", &[]);
    assert!(code.contains("// Access parameters: input_param"));
    assert!(!code.contains("parameters.get("));
}
