use formula_engine::code::{
    candidate_name, compile_outcome, parse_diagnostics, save_response, CodeProblem, CompileRun,
    FormulaCodeManager,
};

#[test]
fn test_validate_rust_code() {
    let manager = FormulaCodeManager::new();

    let valid_code = r#"
        impl FormulaExecutor for TestExecutor {
            fn execute(&self, data: &[HashMap<String, Value>], parameters: &HashMap<String, Value>) -> Result<Vec<HashMap<String, Value>>> {
                Ok(data.to_vec())
            }
            
            fn validate_parameters(&self, parameters: &HashMap<String, Value>) -> Result<()> {
                Ok(())
            }
            
            fn get_output_columns(&self, _parameters: &HashMap<String, Value>) -> Vec<String> {
                vec!["test_result".to_string()]
            }
        }
        "#;

    assert!(manager.validate_rust_code(valid_code).is_ok());

    let invalid_code = "just some random text";
    assert!(manager.validate_rust_code(invalid_code).is_err());
}

#[test]
fn validation_names_the_first_missing_operation() {
    let m = FormulaCodeManager::new();
    assert_eq!(m.validate_rust_code("nothing"), Err(CodeProblem::MissingExecutorImpl));
    assert_eq!(m.validate_rust_code("impl FormulaExecutor for X {}"), Err(CodeProblem::MissingExecute));
    assert_eq!(
        m.validate_rust_code("impl FormulaExecutor for X { fn execute() }"),
        Err(CodeProblem::MissingValidateParameters)
    );
    assert_eq!(
        m.validate_rust_code("impl FormulaExecutor for X { fn execute() fn validate_parameters() }"),
        Err(CodeProblem::MissingGetOutputColumns)
    );
    assert_eq!(
        CodeProblem::MissingExecute.message(),
        "Code must implement execute method"
    );
}

#[test]
fn code_path_uses_lower_cased_name() {
    let m = FormulaCodeManager::new();
    assert_eq!(m.code_directory, "formula_code");
    assert_eq!(m.code_path("SumIF"), "formula_code/sumif.rs");
}

#[test]
fn save_target_refuses_unstructured_source() {
    let m = FormulaCodeManager::new();
    assert_eq!(m.save_target("X", "fn main() {}"), Err(CodeProblem::MissingExecutorImpl));
    let code = "impl FormulaExecutor for X { fn execute fn validate_parameters fn get_output_columns }";
    assert_eq!(m.save_target("MyFormula", code), Ok("formula_code/myformula.rs".to_string()));
}

#[test]
fn candidate_paths_are_distinct_per_call() {
    let m = FormulaCodeManager::new();
    let a = m.candidate_paths("UPPER", 7);
    let b = m.candidate_paths("UPPER", 8);
    let c = m.candidate_paths("LOWER", 7);
    assert_eq!(a.source, "formula_code/scratch/test_7_upper.rs");
    assert_eq!(a.artifact, "formula_code/scratch/libtest_7_upper.rlib");
    assert_ne!(a.source, b.source);
    assert_ne!(a.artifact, b.artifact);
    assert_ne!(a.source, c.source);
    assert_eq!(m.scratch_directory(), "formula_code/scratch/");
}

#[test]
fn diagnostics_drop_blank_lines() {
    let d = parse_diagnostics("error: x\n\n   \t\nwarning: y\r\n");
    assert_eq!(d, vec!["error: x".to_string(), "warning: y".to_string()]);
    assert!(parse_diagnostics("").is_empty());
    assert!(parse_diagnostics("\n \n\r\n").is_empty());
    assert_eq!(parse_diagnostics("  indented"), vec!["  indented".to_string()]);
    assert_eq!(parse_diagnostics("a\r\nb\r"), vec!["a".to_string(), "b\r".to_string()]);
    assert_eq!(parse_diagnostics("a\r\nb\r").join("|"), "a\r\nb\r".lines().collect::<Vec<_>>().join("|"));
}

#[test]
fn clean_build_reports_success_without_diagnostics() {
    let r = compile_outcome(CompileRun::Built, 12);
    assert!(r.success);
    assert!(r.errors.is_empty());
    assert_eq!(r.message, "Code compiled successfully");
    assert_eq!(r.compilation_time_ms, Some(12));
    let again = compile_outcome(CompileRun::Built, 3);
    assert_eq!((again.success, again.message, again.errors), (r.success, r.message, r.errors));
}

#[test]
fn failed_build_reports_each_error_line() {
    let stderr = "error[E0425]: cannot find value `x`\n --> a.rs:1:1\n\nerror: aborting\n".to_string();
    let r = compile_outcome(CompileRun::Failed(stderr), 40);
    assert!(!r.success);
    assert_eq!(r.message, "Compilation failed");
    assert_eq!(r.errors.len(), 3);
    assert!(r.errors.iter().all(|l| !l.is_empty()));
    assert_eq!(r.errors[1], " --> a.rs:1:1");
}

#[test]
fn launch_failure_reports_one_diagnostic() {
    let r = compile_outcome(CompileRun::LaunchFailed("No such file or directory".to_string()), 1);
    assert!(!r.success);
    assert_eq!(r.message, "Failed to run compiler: No such file or directory");
    assert_eq!(r.errors, vec!["No such file or directory".to_string()]);
}

#[test]
fn stored_file_names_give_upper_cased_formula_names() {
    assert_eq!(candidate_name("sumif.rs"), Some("SUMIF".to_string()));
    assert_eq!(candidate_name("x.rs.rs"), Some("X.RS".to_string()));
    assert_eq!(candidate_name("notes.txt"), None);
    assert_eq!(candidate_name("rs"), None);
    assert_eq!(candidate_name("scratch"), None);
}

#[test]
fn save_response_names_the_formula() {
    let r = save_response("ADD", "1700000000".to_string());
    assert!(r.success);
    assert_eq!(r.message, "Code saved successfully for formula: ADD");
    assert_eq!(r.formula_name, "ADD");
    assert_eq!(r.saved_at, "1700000000");
}
