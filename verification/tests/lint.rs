use ast_repr::lint::{
    category_of, declare_named, declare_oxc_lint, parse_attr, Attribute, LintError, LintRuleMeta,
    RuleCategory,
};

fn doc(text: &str) -> Attribute {
    Attribute { path: vec!["doc".to_string()], literal: Some(text.to_string()) }
}

fn meta(name: &str, category: &str) -> LintRuleMeta {
    LintRuleMeta {
        name: name.to_string(),
        category: category.to_string(),
        schema: None,
        documentation: String::new(),
        used_in_test: false,
    }
}

#[test]
fn every_category_is_known_by_its_name() {
    assert_eq!(category_of(&"correctness".to_string()), Some(RuleCategory::Correctness));
    assert_eq!(category_of(&"suspicious".to_string()), Some(RuleCategory::Suspicious));
    assert_eq!(category_of(&"pedantic".to_string()), Some(RuleCategory::Pedantic));
    assert_eq!(category_of(&"perf".to_string()), Some(RuleCategory::Perf));
    assert_eq!(category_of(&"style".to_string()), Some(RuleCategory::Style));
    assert_eq!(category_of(&"restriction".to_string()), Some(RuleCategory::Restriction));
    assert_eq!(category_of(&"nursery".to_string()), Some(RuleCategory::Nursery));
}

#[test]
fn other_names_are_no_category() {
    assert_eq!(category_of(&"Correctness".to_string()), None);
    assert_eq!(category_of(&"".to_string()), None);
    assert_eq!(category_of(&"performance".to_string()), None);
}

#[test]
fn an_attribute_with_the_path_gives_its_string() {
    let path = vec!["doc".to_string()];
    let attr = doc(" text");
    assert_eq!(parse_attr(&path, &attr), Some(&" text".to_string()));
}

#[test]
fn an_attribute_with_another_path_gives_nothing() {
    let path = vec!["doc".to_string()];
    let other = Attribute { path: vec!["allow".to_string()], literal: Some("x".to_string()) };
    let longer = Attribute {
        path: vec!["doc".to_string(), "hidden".to_string()],
        literal: Some("x".to_string()),
    };
    let empty = Attribute { path: vec![], literal: Some("x".to_string()) };
    assert_eq!(parse_attr(&path, &other), None);
    assert_eq!(parse_attr(&path, &longer), None);
    assert_eq!(parse_attr(&path, &empty), None);
}

#[test]
fn an_attribute_without_a_string_gives_nothing() {
    let path = vec!["doc".to_string()];
    let bare = Attribute { path: vec!["doc".to_string()], literal: None };
    assert_eq!(parse_attr(&path, &bare), None);
}

#[test]
fn doc_comments_become_the_documentation() {
    let attrs = vec![doc(" ### What it does"), doc(""), doc("  indented"), doc("no blank")];
    let parsed =
        LintRuleMeta::parse(&attrs, "NoDebugger".to_string(), "correctness".to_string(), None)
            .unwrap();
    assert_eq!(parsed.documentation, "### What it does\n\n indented\nno blank\n");
    assert_eq!(parsed.name, "NoDebugger");
    assert_eq!(parsed.category, "correctness");
    assert_eq!(parsed.schema, None);
    assert!(!parsed.used_in_test);
}

#[test]
fn a_rule_without_doc_comments_has_no_documentation() {
    let parsed = LintRuleMeta::parse(
        &vec![],
        "NoConsole".to_string(),
        "restriction".to_string(),
        Some("NoConsoleConfig".to_string()),
    )
    .unwrap();
    assert_eq!(parsed.documentation, "");
    assert_eq!(parsed.schema, Some("NoConsoleConfig".to_string()));
}

#[test]
fn another_attribute_is_refused() {
    let attrs = vec![
        doc(" fine"),
        Attribute { path: vec!["derive".to_string()], literal: None },
        doc(" never read"),
    ];
    let parsed = LintRuleMeta::parse(&attrs, "NoDebugger".to_string(), "style".to_string(), None);
    assert_eq!(parsed, Err(LintError::UnexpectedAttribute));
}

#[test]
fn a_rule_is_listed_in_kebab_case() {
    let declared = declare_oxc_lint(meta("NoDebugger", "correctness")).unwrap();
    assert_eq!(declared.canonical_name, "no-debugger");
    assert_eq!(declared.name, "NoDebugger");
    assert_eq!(declared.category, RuleCategory::Correctness);
    let longer = declare_oxc_lint(meta("NoUnusedPrivateClassMembers", "nursery")).unwrap();
    assert_eq!(longer.canonical_name, "no-unused-private-class-members");
    assert_eq!(longer.category, RuleCategory::Nursery);
}

#[test]
fn a_rule_of_no_category_is_refused() {
    assert_eq!(declare_oxc_lint(meta("NoDebugger", "fancy")), Err(LintError::InvalidCategory));
    assert_eq!(
        declare_named(meta("NoDebugger", "fancy"), "no-debugger".to_string()),
        Err(LintError::InvalidCategory)
    );
}

#[test]
fn a_rule_used_in_a_test_imports_nothing() {
    let mut m = meta("NoDebugger", "perf");
    m.used_in_test = true;
    m.schema = Some("Config".to_string());
    m.documentation = "Docs\n".to_string();
    let declared = declare_oxc_lint(m).unwrap();
    assert!(!declared.imports_rule_items);
    assert_eq!(declared.schema, Some("Config".to_string()));
    assert_eq!(declared.documentation, "Docs\n");
    assert_eq!(declared.category, RuleCategory::Perf);
    assert!(declare_oxc_lint(meta("NoDebugger", "perf")).unwrap().imports_rule_items);
}

#[test]
fn the_listed_name_is_taken_as_given() {
    let declared = declare_named(meta("NoDebugger", "pedantic"), "given".to_string()).unwrap();
    assert_eq!(declared.canonical_name, "given");
    assert_eq!(declared.category, RuleCategory::Pedantic);
    assert!(declared.imports_rule_items);
}
