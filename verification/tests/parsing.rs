use documentation_as_code_gxp::markdown::{Block, Event};
use documentation_as_code_gxp::parser::{parse, parse_events, Reader, Scan, TraceState};
use documentation_as_code_gxp::tables::Trace;
use documentation_as_code_gxp::Spec;

fn table(trace: &Trace) -> Vec<(&str, Vec<&str>)> {
    trace
        .iter()
        .map(|(id, targets)| (id.as_str(), targets.iter().map(|target| target.as_str()).collect()))
        .collect()
}

fn text(text: &str) -> Event<String> {
    Event::Text(text.to_string())
}

#[test]
fn sections_and_targets_in_their_order() {
    let (trace, errors) = parse(
        "# Design specification\n\n## DS-2 - b\n\ntext\n\n### Trace\n\n- FS-2\n- FS-1\n\n## DS-1 - a\n\n### Trace\n\n- FS-1\n",
        Spec::Design,
    );
    assert_eq!(errors, Vec::<String>::new());
    assert_eq!(table(&trace), vec![("DS-2", vec!["FS-2", "FS-1"]), ("DS-1", vec!["FS-1"])]);
}

#[test]
fn title_alone_is_a_document_without_sections() {
    let (trace, errors) = parse("# Risk assessment", Spec::Risks);
    assert_eq!(errors, Vec::<String>::new());
    assert!(trace.is_empty());
}

#[test]
fn target_listed_twice_stands_once() {
    let (trace, errors) = parse(
        "# Verification plan\n\n## TEST-1 - t\n\n### Trace\n\n- FS-1\n- FS-2\n- FS-1\n",
        Spec::Tests,
    );
    assert_eq!(errors, Vec::<String>::new());
    assert_eq!(table(&trace), vec![("TEST-1", vec!["FS-1", "FS-2"])]);
}

#[test]
fn document_without_title() {
    let (trace, errors) = parse("## DS-1 - a\n", Spec::Design);
    assert_eq!(
        errors,
        vec!["\"design_specification.md\" must start with \"# Design specification\", but the document has no title"]
    );
    assert_eq!(table(&trace), vec![("DS-1", vec![])]);
}

#[test]
fn empty_document_has_no_title() {
    let (trace, errors) = parse("", Spec::RetirementPlan);
    assert_eq!(
        errors,
        vec!["\"retirement_plan.md\" must start with \"# Retirement plan\", but the document has no title"]
    );
    assert!(trace.is_empty());
}

#[test]
fn document_with_another_title() {
    let (_, errors) = parse("# Design statement", Spec::Design);
    assert_eq!(
        errors,
        vec!["\"design_specification.md\" must start with \"# Design specification\" but starts with \"# Design statement\""]
    );
}

#[test]
fn title_is_compared_as_it_stands() {
    let (_, errors) = parse("# user manual", Spec::UserManual);
    assert_eq!(
        errors,
        vec!["\"user_manual.md\" must start with \"# User manual\" but starts with \"# user manual\""]
    );
}

#[test]
fn document_with_two_titles() {
    let (_, errors) = parse("# Operator manual\n\n# Operator manual\n", Spec::OperatorManual);
    assert_eq!(
        errors,
        vec!["\"operator_manual.md\" must contain a single title (#) with \"# Operator manual\" but it contains at least two titles."]
    );
}

#[test]
fn section_heading_without_identifier() {
    let (trace, errors) = parse("# Verification plan\n\n## Login test\n", Spec::Tests);
    assert_eq!(
        errors,
        vec!["\"verification_plan.md\" must contain sections of the form \"## ID - title\", but \"Login test\" is not in this form"]
    );
    assert!(trace.is_empty());
}

#[test]
fn identifier_defined_twice_is_one_error() {
    let (trace, errors) = parse(
        "# Risk assessment\n\n## RISK-1 - a\n\n## RISK-2 - b\n\n## RISK-1 - c\n",
        Spec::Risks,
    );
    assert_eq!(
        errors,
        vec!["\"risk_assessment.md\" must contain unique identifiers, but \"RISK-1\" is not"]
    );
    assert_eq!(table(&trace), vec![("RISK-1", vec![]), ("RISK-2", vec![])]);
}

#[test]
fn errors_come_in_the_order_of_the_document() {
    let (_, errors) = parse("## A\n\n# Wrong\n\n## B - b\n\n## B - c\n\n# Wrong\n", Spec::Design);
    assert_eq!(
        errors,
        vec![
            "\"design_specification.md\" must contain sections of the form \"## ID - title\", but \"A\" is not in this form",
            "\"design_specification.md\" must start with \"# Design specification\" but starts with \"# Wrong\"",
            "\"design_specification.md\" must contain unique identifiers, but \"B\" is not",
            "\"design_specification.md\" must contain a single title (#) with \"# Design specification\" but it contains at least two titles.",
            "\"design_specification.md\" must start with \"# Design specification\" but starts with \"# Wrong\"",
        ]
    );
}

#[test]
fn heading_that_is_not_trace_opens_no_trace_block() {
    let (trace, errors) = parse(
        "# Design specification\n\n## DS-1 - a\n\n### Notes\n\n- FS-1\n\n### trace\n\n- FS-2\n",
        Spec::Design,
    );
    assert_eq!(errors, Vec::<String>::new());
    assert_eq!(table(&trace), vec![("DS-1", vec![])]);
}

#[test]
fn trace_heading_before_any_section_is_passed_over() {
    let (trace, errors) = parse("# Design specification\n\n### Trace\n\n- FS-1\n", Spec::Design);
    assert_eq!(errors, Vec::<String>::new());
    assert!(trace.is_empty());
}

#[test]
fn numbered_list_is_no_trace() {
    let (trace, errors) = parse(
        "# Design specification\n\n## DS-1 - a\n\n### Trace\n\n1. FS-1\n2. FS-2\n",
        Spec::Design,
    );
    assert_eq!(errors, Vec::<String>::new());
    assert_eq!(table(&trace), vec![("DS-1", vec![])]);
}

#[test]
fn text_between_trace_heading_and_list_is_passed_over() {
    let (trace, errors) = parse(
        "# Design specification\n\n## DS-1 - a\n\n### Trace\n\nTraced to:\n\n- FS-1\n",
        Spec::Design,
    );
    assert_eq!(errors, Vec::<String>::new());
    assert_eq!(table(&trace), vec![("DS-1", vec!["FS-1"])]);
}

#[test]
fn trace_block_ends_with_its_list() {
    let (trace, errors) = parse(
        "# Design specification\n\n## DS-1 - a\n\n### Trace\n\n- FS-1\n\nMore:\n\n- FS-2\n",
        Spec::Design,
    );
    assert_eq!(errors, Vec::<String>::new());
    assert_eq!(table(&trace), vec![("DS-1", vec!["FS-1"])]);
}

#[test]
fn section_has_one_trace_heading() {
    let (trace, errors) = parse(
        "# Design specification\n\n## DS-1 - a\n\n### Trace\n\n- FS-1\n\n### Trace\n\n- FS-2\n",
        Spec::Design,
    );
    assert_eq!(errors, Vec::<String>::new());
    assert_eq!(table(&trace), vec![("DS-1", vec!["FS-1"])]);
}

#[test]
fn trace_body_ends_where_a_section_begins() {
    let (trace, errors) = parse(
        "# Design specification\n\n## DS-1 - a\n\n### Trace\n\n## DS-2 - b\n\n- FS-1\n",
        Spec::Design,
    );
    assert_eq!(errors, Vec::<String>::new());
    assert_eq!(table(&trace), vec![("DS-1", vec![]), ("DS-2", vec![])]);
}

#[test]
fn every_section_may_have_its_trace() {
    let (trace, errors) = parse(
        "# Risk assessment\n\n## RISK-1 - a\n\n### Trace\n\n- FS-1\n\n## RISK-2 - b\n\n## RISK-3 - c\n\n### Trace\n\n- DS-1\n- FS-1\n",
        Spec::Risks,
    );
    assert_eq!(errors, Vec::<String>::new());
    assert_eq!(
        table(&trace),
        vec![("RISK-1", vec!["FS-1"]), ("RISK-2", vec![]), ("RISK-3", vec!["DS-1", "FS-1"])]
    );
}

#[test]
fn deeper_headings_change_nothing() {
    let (trace, errors) = parse(
        "# Design specification\n\n## DS-1 - a\n\n#### Trace\n\n- FS-0\n\n### Trace\n\n#### Note\n\n- FS-1\n",
        Spec::Design,
    );
    assert_eq!(errors, Vec::<String>::new());
    assert_eq!(table(&trace), vec![("DS-1", vec!["FS-1"])]);
}

#[test]
fn events_are_read_as_the_text_is() {
    let events = vec![
        Event::Start(Block::Heading(1)),
        text("User manual"),
        Event::End(Block::Heading(1)),
        Event::Start(Block::Heading(2)),
        text("USER-1 - a"),
        Event::End(Block::Heading(2)),
        Event::Other,
        Event::Start(Block::Heading(3)),
        text("Trace"),
        Event::End(Block::Heading(3)),
        Event::Start(Block::List(None)),
        Event::Start(Block::Item),
        text("FS-1"),
        Event::End(Block::Item),
        Event::End(Block::List(None)),
    ];
    let (trace, errors) = parse_events(&events, Spec::UserManual);
    assert_eq!(errors, Vec::<String>::new());
    assert_eq!(table(&trace), vec![("USER-1", vec!["FS-1"])]);
}

#[test]
fn item_outside_a_trace_block_is_no_target() {
    let events = vec![
        Event::Start(Block::Heading(1)),
        text("User manual"),
        Event::End(Block::Heading(1)),
        Event::Start(Block::Heading(2)),
        text("USER-1 - a"),
        Event::End(Block::Heading(2)),
        Event::Start(Block::List(None)),
        Event::Start(Block::Item),
        text("FS-1"),
        Event::End(Block::Item),
        Event::End(Block::List(None)),
    ];
    let (trace, errors) = parse_events(&events, Spec::UserManual);
    assert_eq!(errors, Vec::<String>::new());
    assert_eq!(table(&trace), vec![("USER-1", vec![])]);
}

#[test]
fn reader_reads_event_by_event() {
    let mut reader = Reader::new();
    reader.step(&Event::Start(Block::Heading(2)), Spec::Tests);
    reader.step(&text("TEST-1 - a"), Spec::Tests);
    reader.step(&Event::End(Block::Heading(2)), Spec::Tests);
    let (trace, errors) = reader.finish(Spec::Tests);
    assert_eq!(table(&trace), vec![("TEST-1", vec![])]);
    assert_eq!(
        errors,
        vec!["\"verification_plan.md\" must start with \"# Verification plan\", but the document has no title"]
    );
}

#[test]
fn scan_moves_through_a_trace_block() {
    let scan = Scan::new();
    assert_eq!(
        scan,
        Scan {
            in_title: false,
            has_title: false,
            in_heading: false,
            traced: false,
            trace_state: TraceState::Idle
        }
    );
    let scan = scan.open(Block::Heading(1), false);
    assert!(scan.in_title && scan.has_title);
    let scan = scan.close(Block::Heading(1));
    assert!(!scan.in_title && scan.has_title);
    let scan = scan.open(Block::Heading(2), false);
    assert!(scan.in_heading);
    let scan = scan.close(Block::Heading(2));
    assert!(!scan.in_heading);
    let scan = scan.open(Block::Heading(3), true);
    assert_eq!(scan.trace_state, TraceState::CheckHeading);
    let mut scan = scan;
    scan.traced = true;
    scan.trace_state = TraceState::Heading;
    let scan = scan.close(Block::Heading(3));
    assert_eq!(scan.trace_state, TraceState::Body);
    assert_eq!(scan.open(Block::List(Some(1)), true).trace_state, TraceState::Body);
    assert_eq!(scan.open(Block::Item, true).trace_state, TraceState::Body);
    assert_eq!(scan.open(Block::Heading(1), true).trace_state, TraceState::Idle);
    assert_eq!(scan.open(Block::Heading(2), true).trace_state, TraceState::Idle);
    assert_eq!(scan.open(Block::Heading(3), true).trace_state, TraceState::Idle);
    assert_eq!(scan.open(Block::Heading(4), true).trace_state, TraceState::Body);
    let scan = scan.open(Block::List(None), true);
    assert_eq!(scan.trace_state, TraceState::List);
    let scan = scan.open(Block::Item, true);
    assert_eq!(scan.trace_state, TraceState::Item);
    let scan = scan.close(Block::Item);
    assert_eq!(scan.trace_state, TraceState::List);
    assert_eq!(scan.close(Block::List(Some(1))).trace_state, TraceState::List);
    let scan = scan.close(Block::List(None));
    assert_eq!(scan.trace_state, TraceState::Idle);
    assert!(scan.traced);
    assert!(!scan.open(Block::Heading(2), true).traced);
}

#[test]
fn heading_under_check_that_is_not_trace_is_dropped() {
    let scan = Scan::new().open(Block::Heading(3), true);
    assert_eq!(scan.trace_state, TraceState::CheckHeading);
    assert_eq!(scan.close(Block::Heading(3)).trace_state, TraceState::Idle);
    assert_eq!(Scan::new().open(Block::Heading(3), false).trace_state, TraceState::Idle);
}
