use documentation_as_code_gxp::markdown::{events_of, one_down, Block, Event};

fn text(text: &str) -> Event<String> {
    Event::Text(text.to_string())
}

#[test]
fn events_of_a_traced_section() {
    let events = events_of("# T\n\n## A - b\n\n### Trace\n\n- X\n- Y\n");
    assert_eq!(
        events,
        vec![
            Event::Start(Block::Heading(1)),
            text("T"),
            Event::End(Block::Heading(1)),
            Event::Start(Block::Heading(2)),
            text("A - b"),
            Event::End(Block::Heading(2)),
            Event::Start(Block::Heading(3)),
            text("Trace"),
            Event::End(Block::Heading(3)),
            Event::Start(Block::List(None)),
            Event::Start(Block::Item),
            text("X"),
            Event::End(Block::Item),
            Event::Start(Block::Item),
            text("Y"),
            Event::End(Block::Item),
            Event::End(Block::List(None)),
        ]
    );
}

#[test]
fn events_of_an_empty_text() {
    assert_eq!(events_of(""), vec![]);
}

#[test]
fn numbered_list_holds_its_first_number() {
    let events = events_of("3. a\n4. b\n");
    assert_eq!(
        events,
        vec![
            Event::Start(Block::List(Some(3))),
            Event::Start(Block::Item),
            text("a"),
            Event::End(Block::Item),
            Event::Start(Block::Item),
            text("b"),
            Event::End(Block::Item),
            Event::End(Block::List(Some(3))),
        ]
    );
}

#[test]
fn other_blocks_and_events_are_not_told_apart() {
    let events = events_of("plain `code`\n");
    assert_eq!(events, vec![Event::Other, text("plain "), Event::Other, Event::Other]);
}

#[test]
fn headings_hold_their_level() {
    let events = events_of("#### d\n\n###### f\n");
    assert_eq!(
        events,
        vec![
            Event::Start(Block::Heading(4)),
            text("d"),
            Event::End(Block::Heading(4)),
            Event::Start(Block::Heading(6)),
            text("f"),
            Event::End(Block::Heading(6)),
        ]
    );
}

#[test]
fn one_level_down() {
    assert_eq!(one_down(1), 2);
    assert_eq!(one_down(2), 3);
    assert_eq!(one_down(3), 4);
    assert_eq!(one_down(4), 5);
    assert_eq!(one_down(5), 6);
    assert_eq!(one_down(6), 6);
}
