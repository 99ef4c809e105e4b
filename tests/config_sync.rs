use formula_engine::config_sync::{check_synced_formula, stamp_synced_formula, sync_formulas, sync_response};
use formula_engine::descriptor::{FormulaConfig, FormulaParameter};

fn param(name: &str, label: &str, description: &str) -> FormulaParameter {
    FormulaParameter {
        name: name.to_string(),
        kind: "text".to_string(),
        label: label.to_string(),
        description: description.to_string(),
        required: false,
        default_value: None,
        options: None,
        placeholder: None,
        validation: None,
    }
}

fn formula(id: Option<&str>, name: &str, category: &str, params: Vec<FormulaParameter>) -> FormulaConfig {
    FormulaConfig {
        id: id.map(|s| s.to_string()),
        name: name.to_string(),
        category: category.to_string(),
        description: "d".to_string(),
        syntax: String::new(),
        tip: None,
        parameters: params,
        examples: vec![],
        is_active: true,
        created_at: None,
        updated_at: None,
        is_enabled: Some(true),
        show_in_engine: None,
    }
}

#[test]
fn header_problem_skips_the_formula() {
    let (errors, keep) = check_synced_formula(&formula(None, "F", "", vec![]));
    assert!(!keep);
    assert_eq!(errors, vec!["Formula 'F' has empty category".to_string()]);
    let (errors, keep) = check_synced_formula(&formula(None, "", "", vec![]));
    assert!(!keep);
    assert_eq!(errors, vec!["Formula '' has empty name".to_string()]);
}

#[test]
fn parameter_problems_are_reported_but_the_formula_is_kept() {
    let f = formula(None, "F", "c", vec![param("a", "A", "x"), param("", "", "")]);
    let (errors, keep) = check_synced_formula(&f);
    assert!(keep);
    assert_eq!(
        errors,
        vec![
            "Formula 'F' parameter 2 has empty name".to_string(),
            "Formula 'F' parameter 2 has empty label".to_string(),
            "Formula 'F' parameter 2 has empty description".to_string(),
        ]
    );
}

#[test]
fn stamping_fills_id_and_times() {
    let s = stamp_synced_formula(formula(None, "F", "c", vec![]), "1700000000");
    assert_eq!(s.id.as_deref(), Some("formula_1700000000"));
    assert_eq!(s.created_at.as_deref(), Some("1700000000"));
    assert_eq!(s.updated_at.as_deref(), Some("1700000000"));
    let mut f = formula(Some("mine"), "F", "c", vec![]);
    f.created_at = Some("5".to_string());
    let s = stamp_synced_formula(f, "9");
    assert_eq!(s.id.as_deref(), Some("mine"));
    assert_eq!(s.created_at.as_deref(), Some("5"));
    assert_eq!(s.updated_at.as_deref(), Some("9"));
    assert_eq!(s.is_enabled, Some(true));
}

#[test]
fn sync_keeps_valid_formulas_in_order() {
    let batch = vec![
        formula(Some("a"), "A", "c", vec![]),
        formula(Some("b"), "B", "", vec![]),
        formula(Some("c"), "C", "c", vec![param("p", "", "d")]),
    ];
    let (errors, stored) = sync_formulas(batch, "42");
    assert_eq!(
        errors,
        vec!["Formula 'B' has empty category".to_string(), "Formula 'C' parameter 1 has empty label".to_string()]
    );
    let ids: Vec<_> = stored.iter().map(|f| f.id.clone().unwrap()).collect();
    assert_eq!(ids, vec!["a".to_string(), "c".to_string()]);
    let r = sync_response(errors, stored);
    assert!(!r.success);
    assert_eq!(r.message, "Some formula configurations had validation errors");
    assert_eq!(r.errors.map(|e| e.len()), Some(2));
    let ok = sync_response(vec![], vec![]);
    assert!(ok.success);
    assert!(ok.errors.is_none());
    assert_eq!(ok.message, "Formula configurations synced successfully");
}
