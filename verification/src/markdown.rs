//! The events of a markdown text, as far as this library reads them.
//!
//! The text is split into events by `pulldown_cmark`. Of an event the library
//! keeps what its rules look at: headings with their level, lists, list
//! items and text.

use pulldown_cmark::Event::{End, Start, Text};
use pulldown_cmark::Parser;
use pulldown_cmark::Tag::{Heading, Item, List};
use vstd::prelude::*;

verus! {

/// A block of markdown that an event opens or closes.
#[derive(Debug, Clone, Copy, PartialEq, Eq, Structural)]
pub enum Block {
    /// A heading and its level, from 1 for `#` to 6 for `######`.
    Heading(u8),
    /// A list. A numbered list holds the number of its first item, a bullet
    /// list holds `None`.
    List(Option<u64>),
    /// An item of a list.
    Item,
}

/// One event of a markdown text. `T` is the type of its text: `String` in
/// executable code, `Seq<char>` in specifications. Only headings, lists and
/// list items are told apart as blocks.
#[derive(Debug, PartialEq, Eq)]
pub enum Event<T> {
    /// A block begins.
    Start(Block),
    /// A block ends.
    End(Block),
    /// A run of text.
    Text(T),
    /// Any other event.
    Other,
}

impl View for Event<String> {
    type V = Event<Seq<char>>;

    open spec fn view(&self) -> Event<Seq<char>> {
        match *self {
            Event::Start(block) => Event::Start(block),
            Event::End(block) => Event::End(block),
            Event::Text(text) => Event::Text(text@),
            Event::Other => Event::Other,
        }
    }
}

/// The events of a list of events, each by its view.
pub open spec fn views(events: Seq<Event<String>>) -> Seq<Event<Seq<char>>> {
    events.map_values(|event: Event<String>| event@)
}

/// `pulldown_cmark::Parser`. What a parser will yield is seen through
/// `pending_events` alone.
#[verifier::external_type_specification]
#[verifier::external_body]
pub struct ExParser<'input, 'callback>(Parser<'input, 'callback>);

/// The events into which `pulldown_cmark` splits a markdown text, with no
/// extension enabled.
pub uninterp spec fn markdown_events(text: Seq<char>) -> Seq<Event<Seq<char>>>;

/// The events that a parser has yet to yield, in the order in which it will
/// yield them.
pub uninterp spec fn pending_events(parser: Parser<'_, '_>) -> Seq<Event<Seq<char>>>;

/// `pulldown_cmark::Parser::new`. The parser is a function of the text alone:
/// what it will yield are the events of that text.
#[verifier::external_body]
fn new_parser<'a>(text: &'a str) -> (parser: Parser<'a, 'a>)
    ensures
        pending_events(parser) == markdown_events(text@),
{
    Parser::new(text)
}

/// `Iterator::next` of `pulldown_cmark::Parser`. It yields the first pending
/// event and keeps the rest, or yields `None` when nothing is pending. The
/// event is handed out as an `Event` of this library: headings with their
/// level, lists with their first number, list items and text as they are,
/// every other event as `Other`.
#[verifier::external_body]
fn next_event(parser: &mut Parser<'_, '_>) -> (event: Option<Event<String>>)
    ensures
        match event {
            Some(event) => {
                &&& pending_events(*old(parser)).len() > 0
                &&& event@ == pending_events(*old(parser)).first()
                &&& pending_events(*final(parser)) == pending_events(*old(parser)).drop_first()
            },
            None => {
                &&& pending_events(*old(parser)).len() == 0
                &&& pending_events(*final(parser)).len() == 0
            },
        },
{
    Some(match parser.next()? {
        Start(Heading(level, ..)) => Event::Start(Block::Heading(level as u8)),
        End(Heading(level, ..)) => Event::End(Block::Heading(level as u8)),
        Start(List(first)) => Event::Start(Block::List(first)),
        End(List(first)) => Event::End(Block::List(first)),
        Start(Item) => Event::Start(Block::Item),
        End(Item) => Event::End(Block::Item),
        Text(text) => Event::Text(text.into_string()),
        _ => Event::Other,
    })
}

/// Splits a markdown text into its events.
pub fn events_of(text: &str) -> (events: Vec<Event<String>>)
    ensures
        views(events@) == markdown_events(text@),
{
    let mut parser = new_parser(text);
    let mut events: Vec<Event<String>> = Vec::new();
    loop
        invariant
            views(events@) + pending_events(parser) == markdown_events(text@),
        ensures
            views(events@) == markdown_events(text@),
        decreases pending_events(parser).len(),
    {
        match next_event(&mut parser) {
            Some(event) => events.push(event),
            None => break,
        }
    }
    events
}

/// The level below a heading level, as when a document is set under a
/// heading of its own: one more, and the lowest level stays.
pub fn one_down(level: u8) -> (lower: u8)
    requires
        1 <= level <= 6,
    ensures
        lower == if level < 6 { level + 1 } else { 6 },
{
    if level < 6 {
        level + 1
    } else {
        6
    }
}

} // verus!
