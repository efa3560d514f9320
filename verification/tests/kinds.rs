use documentation_as_code_gxp::Spec;

const DOCUMENTS: [Spec; 6] = [
    Spec::Design,
    Spec::Risks,
    Spec::Tests,
    Spec::UserManual,
    Spec::OperatorManual,
    Spec::RetirementPlan,
];

#[test]
fn every_document_has_its_file() {
    let names: Vec<&str> = DOCUMENTS.iter().map(|spec| spec.file_name()).collect();
    assert_eq!(
        names,
        vec![
            "design_specification.md",
            "risk_assessment.md",
            "verification_plan.md",
            "user_manual.md",
            "operator_manual.md",
            "retirement_plan.md",
        ]
    );
}

#[test]
fn every_document_has_its_title() {
    let titles: Vec<&str> = DOCUMENTS.iter().map(|spec| spec.title()).collect();
    assert_eq!(
        titles,
        vec![
            "Design specification",
            "Risk assessment",
            "Verification plan",
            "User manual",
            "Operator manual",
            "Retirement plan",
        ]
    );
}

#[test]
fn every_kind_has_its_prefix() {
    assert_eq!(Spec::Requirements.prefix(), "FS-");
    let prefixes: Vec<&str> = DOCUMENTS.iter().map(|spec| spec.prefix()).collect();
    assert_eq!(prefixes, vec!["DS-", "RISK-", "TEST-", "USER-", "OPERATOR-", "RETIRE-"]);
}

#[test]
fn every_kind_has_its_label() {
    assert_eq!(Spec::Requirements.label(), "requirements");
    let labels: Vec<&str> = DOCUMENTS.iter().map(|spec| spec.label()).collect();
    assert_eq!(
        labels,
        vec![
            "design specification",
            "risk assessment",
            "verification plan",
            "user manual",
            "operator manual",
            "retirement plan",
        ]
    );
}

#[test]
fn every_kind_has_its_heading() {
    assert_eq!(Spec::Requirements.heading(), "User requirements specification");
    assert_eq!(Spec::Design.heading(), "Design specification");
    assert_eq!(Spec::Risks.heading(), "Risk assessment");
    assert_eq!(Spec::Tests.heading(), "Test plan");
    assert_eq!(Spec::UserManual.heading(), "User manual");
    assert_eq!(Spec::OperatorManual.heading(), "Operator manual");
    assert_eq!(Spec::RetirementPlan.heading(), "Retirement plan");
}

#[test]
fn links_may_point_where_the_table_says() {
    let kinds = [
        Spec::Requirements,
        Spec::Design,
        Spec::Risks,
        Spec::Tests,
        Spec::UserManual,
        Spec::OperatorManual,
        Spec::RetirementPlan,
    ];
    let allowed = |source: Spec| -> Vec<Spec> {
        kinds.iter().copied().filter(|target| source.may_point_to(*target)).collect()
    };
    assert_eq!(allowed(Spec::Tests), vec![Spec::Requirements, Spec::Risks]);
    assert_eq!(allowed(Spec::Risks), vec![Spec::Requirements, Spec::Design]);
    assert_eq!(allowed(Spec::Design), vec![Spec::Requirements]);
    assert_eq!(allowed(Spec::UserManual), vec![Spec::Requirements]);
    assert_eq!(allowed(Spec::OperatorManual), vec![Spec::Requirements]);
    assert_eq!(allowed(Spec::RetirementPlan), vec![]);
    assert_eq!(allowed(Spec::Requirements), vec![]);
}

#[test]
fn misdirected_links_are_looked_up_where_the_table_says() {
    let kinds = [
        Spec::Requirements,
        Spec::Design,
        Spec::Risks,
        Spec::Tests,
        Spec::UserManual,
        Spec::OperatorManual,
        Spec::RetirementPlan,
    ];
    let looked = |source: Spec| -> Vec<Spec> {
        kinds.iter().copied().filter(|other| source.looks_in(*other)).collect()
    };
    assert_eq!(looked(Spec::Tests), vec![Spec::Design, Spec::Tests]);
    assert_eq!(looked(Spec::Risks), vec![Spec::Risks, Spec::Tests]);
    assert_eq!(looked(Spec::Design), vec![Spec::Design, Spec::Risks, Spec::Tests]);
    assert_eq!(looked(Spec::UserManual), vec![Spec::Design, Spec::Risks, Spec::Tests]);
    assert_eq!(looked(Spec::OperatorManual), vec![Spec::Design, Spec::Risks, Spec::Tests]);
    assert_eq!(looked(Spec::RetirementPlan), vec![]);
    assert_eq!(looked(Spec::Requirements), vec![]);
}
