use documentation_as_code_gxp::document::{
    check_ids, check_trace, get_trace, prefix_message, self_reference_message, validate,
};
use documentation_as_code_gxp::tables::{items_of, links_of, trace_ids, Trace};
use documentation_as_code_gxp::{Document, Error, Spec};
use indexmap::{IndexMap, IndexSet};

fn trace(sections: &[(&str, &[&str])]) -> Trace {
    let mut trace = IndexMap::new();
    for (id, targets) in sections {
        let targets: IndexSet<String> = targets.iter().map(|target| target.to_string()).collect();
        trace.insert(id.to_string(), targets);
    }
    trace
}

fn errors_of<T>(checked: Result<T, Error>) -> Vec<String> {
    match checked {
        Ok(_) => vec![],
        Err(Error(errors)) => errors,
    }
}

fn prefix_errors(ids: &[&str], spec: Spec) -> Vec<String> {
    let ids: Vec<String> = ids.iter().map(|id| id.to_string()).collect();
    check_ids(&ids.iter().collect(), spec)
}

#[test]
fn identifiers_with_the_prefix_of_their_kind() {
    assert_eq!(prefix_errors(&["FS-1", "FS-"], Spec::Requirements), Vec::<String>::new());
    assert_eq!(prefix_errors(&["DS-1"], Spec::Design), Vec::<String>::new());
    assert_eq!(prefix_errors(&["RISK-1"], Spec::Risks), Vec::<String>::new());
    assert_eq!(prefix_errors(&["TEST-1"], Spec::Tests), Vec::<String>::new());
    assert_eq!(prefix_errors(&["USER-1"], Spec::UserManual), Vec::<String>::new());
    assert_eq!(prefix_errors(&["OPERATOR-1"], Spec::OperatorManual), Vec::<String>::new());
    assert_eq!(prefix_errors(&["RETIRE-1"], Spec::RetirementPlan), Vec::<String>::new());
    assert_eq!(prefix_errors(&[], Spec::Design), Vec::<String>::new());
}

#[test]
fn identifiers_without_the_prefix_of_their_kind() {
    assert_eq!(
        prefix_errors(&["X-1"], Spec::Requirements),
        vec!["Headings in requirements must start with \"FS-\". \"X-1\" does not."]
    );
    assert_eq!(
        prefix_errors(&["X-1"], Spec::Design),
        vec!["Headings in design specification must start with \"DS-\". \"X-1\" does not."]
    );
    assert_eq!(
        prefix_errors(&["Risk 1"], Spec::Risks),
        vec!["Headings in risk assessment must start with \"RISK-\". \"Risk 1\" does not."]
    );
    assert_eq!(
        prefix_errors(&["X-1"], Spec::Tests),
        vec!["Headings in verification plan must start with \"TEST-\". \"X-1\" does not."]
    );
    assert_eq!(
        prefix_errors(&["X-1"], Spec::UserManual),
        vec!["Headings in user manual must start with \"USER-\". \"X-1\" does not."]
    );
    assert_eq!(
        prefix_errors(&["X-1"], Spec::OperatorManual),
        vec!["Headings in operator manual must start with \"OPERATOR-\". \"X-1\" does not."]
    );
    assert_eq!(
        prefix_errors(&["X-1"], Spec::RetirementPlan),
        vec!["Headings in retirement plan must start with \"RETIRE-\". \"X-1\" does not."]
    );
}

#[test]
fn every_identifier_without_prefix_is_reported_in_order() {
    assert_eq!(
        prefix_errors(&["ds-1", "DS-1", "", "DS", " DS-2"], Spec::Design),
        vec![
            "Headings in design specification must start with \"DS-\". \"ds-1\" does not.",
            "Headings in design specification must start with \"DS-\". \"\" does not.",
            "Headings in design specification must start with \"DS-\". \"DS\" does not.",
            "Headings in design specification must start with \"DS-\". \" DS-2\" does not.",
        ]
    );
}

#[test]
fn messages_of_a_single_document() {
    assert_eq!(
        prefix_message(Spec::Tests, "T-1"),
        "Headings in verification plan must start with \"TEST-\". \"T-1\" does not."
    );
    assert_eq!(
        self_reference_message("DS-1", "DS-2"),
        "Trace of DS-1 cannot be to other items on the same document (DS-2 is)"
    );
}

#[test]
fn links_into_the_same_document() {
    let trace = trace(&[
        ("DS-1", &["FS-1", "DS-2"]),
        ("DS-2", &["DS-2", "FS-2", "DS-1"]),
        ("DS-3", &[]),
    ]);
    assert_eq!(
        check_trace(&trace),
        vec![
            "Trace of DS-1 cannot be to other items on the same document (DS-2 is)",
            "Trace of DS-2 cannot be to other items on the same document (DS-2 is)",
            "Trace of DS-2 cannot be to other items on the same document (DS-1 is)",
        ]
    );
}

#[test]
fn links_out_of_the_document() {
    assert_eq!(check_trace(&trace(&[("DS-1", &["FS-1", "RISK-2"])])), Vec::<String>::new());
    assert_eq!(check_trace(&trace(&[])), Vec::<String>::new());
}

#[test]
fn identifiers_and_links_of_a_table() {
    let trace = trace(&[("B", &["x", "y"]), ("A", &[]), ("C", &["z"])]);
    assert_eq!(trace_ids(&trace), vec!["B", "A", "C"]);
    let links: Vec<(&str, &str)> = links_of(&trace)
        .into_iter()
        .map(|(id, target)| (id.as_str(), target.as_str()))
        .collect();
    assert_eq!(links, vec![("B", "x"), ("B", "y"), ("C", "z")]);
    assert_eq!(items_of(trace.get("B").unwrap()), vec!["x", "y"]);
}

#[test]
fn errors_in_the_structure_stand_alone() {
    let table = trace(&[("X-1", &["X-1"])]);
    let checked = validate(table, vec!["no title".to_string()], Spec::Design);
    assert_eq!(errors_of(checked), vec!["no title"]);
}

#[test]
fn prefixes_are_checked_before_links() {
    let table = trace(&[("X-1", &["DS-2"]), ("DS-2", &["X-1"])]);
    let checked = validate(table, vec![], Spec::Design);
    assert_eq!(
        errors_of(checked),
        vec![
            "Headings in design specification must start with \"DS-\". \"X-1\" does not.",
            "Trace of X-1 cannot be to other items on the same document (DS-2 is)",
            "Trace of DS-2 cannot be to other items on the same document (X-1 is)",
        ]
    );
}

#[test]
fn table_without_error_is_handed_back() {
    let table = trace(&[("DS-1", &["FS-1"])]);
    match validate(table.clone(), vec![], Spec::Design) {
        Ok(valid) => assert_eq!(valid, table),
        Err(Error(errors)) => panic!("{:?}", errors),
    }
}

#[test]
fn trace_of_a_document() {
    let content = "# Risk assessment\n\n## RISK-1 - a\n\n### Trace\n\n- FS-1\n- DS-1\n";
    match get_trace(content, Spec::Risks) {
        Ok(found) => assert_eq!(found, trace(&[("RISK-1", &["FS-1", "DS-1"])])),
        Err(Error(errors)) => panic!("{:?}", errors),
    }
}

#[test]
fn document_with_a_wrong_prefix_and_a_link_to_itself() {
    let content =
        "# Risk assessment\n\n## Risk 1 - a\n\n### Trace\n\n- RISK-2\n\n## RISK-2 - b\n";
    assert_eq!(
        errors_of(get_trace(content, Spec::Risks)),
        vec![
            "Headings in risk assessment must start with \"RISK-\". \"Risk 1\" does not.",
            "Trace of Risk 1 cannot be to other items on the same document (RISK-2 is)",
        ]
    );
}

#[test]
fn document_with_errors_in_its_structure_is_not_checked_further() {
    let content = "## Risk 1 - a\n\n### Trace\n\n- Risk 1\n";
    assert_eq!(
        errors_of(get_trace(content, Spec::Risks)),
        vec!["\"risk_assessment.md\" must start with \"# Risk assessment\", but the document has no title"]
    );
}

#[test]
fn document_keeps_its_text_and_its_trace() {
    let text = "# Design specification\n\n## DS-1 - a\n\n### Trace\n\n- FS-1\n";
    let document = match Document::try_new(text.to_string(), Spec::Design) {
        Ok(document) => document,
        Err(Error(errors)) => panic!("{:?}", errors),
    };
    assert_eq!(document.text(), text);
    assert_eq!(document.trace(), &trace(&[("DS-1", &["FS-1"])]));
    assert_eq!(document.kind(), Spec::Design);
}

#[test]
fn document_with_an_error_is_not_made() {
    let made = Document::try_new("# Design specification\n\n## DS-1\n".to_string(), Spec::Design);
    assert_eq!(
        errors_of(made),
        vec!["\"design_specification.md\" must contain sections of the form \"## ID - title\", but \"DS-1\" is not in this form"]
    );
}
