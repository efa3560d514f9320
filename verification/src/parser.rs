//! Reads the sections and trace links of a markdown document.
//!
//! ```text
//! # <title>
//! ## <identifier> - <section title>
//! ### Trace
//! - <target>
//! - <target>
//! ```
//!
//! A document is read in one pass over its events. The reader is a state
//! machine: it knows whether it stands in the title, in the heading of a
//! section or somewhere in the trace block of a section, and every event
//! moves it on.
//!
//! - A level-1 heading is the title. Its text must be the title of the kind
//!   of document, and there must be one title, no more and no less.
//! - A level-2 heading opens a section. Its text must be of the form
//!   `ID - title`, and no two sections may define the same `ID`.
//! - A level-3 heading that reads `Trace` opens the trace block of the
//!   section defined last. A section has one trace block: once it has had
//!   its `Trace` heading, further level-3 headings open none.
//! - The bullet list below the `Trace` heading holds the targets, one in each
//!   item. The block ends with that list, or where a title or a section
//!   begins before any list.
//! - Everything else is passed over: text and lists elsewhere, numbered
//!   lists, deeper headings, and a `Trace` heading before any section.
//!
//! | place in the trace block | event                                | next place     |
//! |--------------------------|--------------------------------------|----------------|
//! | any                      | level-3 heading begins, in a section without `Trace` heading so far | `CheckHeading` |
//! | any                      | level-3 heading begins, in a section that has had its `Trace` heading | `Idle` |
//! | `CheckHeading`           | text `Trace`                         | `Heading`      |
//! | `CheckHeading`           | level-3 heading ends                 | `Idle`         |
//! | `Heading`                | level-3 heading ends                 | `Body`         |
//! | `Body`                   | bullet list begins                   | `List`         |
//! | `Body`                   | level-1 or level-2 heading begins    | `Idle`         |
//! | `List`                   | item begins                          | `Item`         |
//! | `Item`                   | text                                 | `Item`, and the text is a target |
//! | `Item`                   | item ends                            | `List`         |
//! | `List`                   | bullet list ends                     | `Idle`         |

use crate::kind::Spec;
use crate::markdown::Block;
use crate::markdown::Event;
use crate::markdown::events_of;
use crate::markdown::markdown_events;
use crate::markdown::views;
use crate::messages::report;
use crate::messages::texts;
use crate::tables::has_key;
use crate::tables::keys;
use crate::tables::lemma_with_entry_keys;
use crate::tables::lemma_with_entry_tidy;
use crate::tables::lemma_with_item_distinct;
use crate::tables::new_set;
use crate::tables::new_trace;
use crate::tables::set_insert;
use crate::tables::tidy;
use crate::tables::Trace;
use crate::tables::trace_entries;
use crate::tables::trace_insert;
use crate::tables::trace_last_mut;
use crate::tables::trace_len;
use crate::tables::with_entry;
use crate::tables::with_item;
use crate::text::extract_identifier;
use crate::text::identifier_of;
use crate::text::same_text;
use vstd::prelude::*;
use vstd::string::StringExecFns;

verus! {

/// Where the reader stands in the trace block of a section.
#[derive(Debug, Clone, Copy, PartialEq, Eq, Structural)]
pub enum TraceState {
    /// Outside any trace block.
    Idle,
    /// In a level-3 heading that may turn out to be `Trace`.
    CheckHeading,
    /// In a level-3 heading that reads `Trace`.
    Heading,
    /// Below the `Trace` heading, before its list.
    Body,
    /// In the bullet list of the trace block, between items.
    List,
    /// In an item of that list.
    Item,
}

/// Where the reader stands in a document.
#[derive(Debug, Clone, Copy, PartialEq, Eq, Structural)]
pub struct Scan {
    /// In the title, between the start and the end of a level-1 heading.
    pub in_title: bool,
    /// A title has begun somewhere before.
    pub has_title: bool,
    /// In the heading of a section, a level-2 heading.
    pub in_heading: bool,
    /// The section at hand has had its `Trace` heading.
    pub traced: bool,
    /// The place in the trace block.
    pub trace_state: TraceState,
}

impl Scan {
    /// Where the reader stands before the first event.
    pub open spec fn start() -> Scan {
        Scan {
            in_title: false,
            has_title: false,
            in_heading: false,
            traced: false,
            trace_state: TraceState::Idle,
        }
    }

    /// The place in the trace block once a title or a section begins: the
    /// body of a trace block ends there.
    pub open spec fn out_of_body(self) -> TraceState {
        if self.trace_state == TraceState::Body {
            TraceState::Idle
        } else {
            self.trace_state
        }
    }

    /// A heading of `level` begins; `sections` says whether any section has
    /// been defined so far.
    ///
    /// Level 1 is the title, level 2 opens a section. A level-3 heading below
    /// a section is checked for the word `Trace`, once per section: after the
    /// section has had its `Trace` heading, a further level-3 heading only
    /// ends the trace block. Deeper headings change nothing.
    pub open spec fn heading_opened(self, level: u8, sections: bool) -> Scan {
        if level == 1 {
            Scan { in_title: true, has_title: true, trace_state: self.out_of_body(), ..self }
        } else if level == 2 {
            Scan { in_heading: true, traced: false, trace_state: self.out_of_body(), ..self }
        } else if level == 3 && sections {
            Scan {
                trace_state: if self.traced {
                    TraceState::Idle
                } else {
                    TraceState::CheckHeading
                },
                ..self
            }
        } else {
            self
        }
    }

    /// A heading of `level` ends.
    pub open spec fn heading_closed(self, level: u8) -> Scan {
        if level == 1 {
            Scan { in_title: false, ..self }
        } else if level == 2 {
            Scan { in_heading: false, ..self }
        } else if level == 3 && self.trace_state == TraceState::Heading {
            Scan { trace_state: TraceState::Body, ..self }
        } else if level == 3 && self.trace_state == TraceState::CheckHeading {
            Scan { trace_state: TraceState::Idle, ..self }
        } else {
            self
        }
    }

    /// A list begins. Only a bullet list directly below the `Trace` heading
    /// is the list of the trace block.
    pub open spec fn list_opened(self, first: Option<u64>) -> Scan {
        if first.is_none() && self.trace_state == TraceState::Body {
            Scan { trace_state: TraceState::List, ..self }
        } else {
            self
        }
    }

    /// A list ends. The end of the list of the trace block ends the block.
    pub open spec fn list_closed(self, first: Option<u64>) -> Scan {
        if first.is_none() && self.trace_state == TraceState::List {
            Scan { trace_state: TraceState::Idle, ..self }
        } else {
            self
        }
    }

    /// An item of a list begins.
    pub open spec fn item_opened(self) -> Scan {
        if self.trace_state == TraceState::List {
            Scan { trace_state: TraceState::Item, ..self }
        } else {
            self
        }
    }

    /// An item of a list ends.
    pub open spec fn item_closed(self) -> Scan {
        if self.trace_state == TraceState::Item {
            Scan { trace_state: TraceState::List, ..self }
        } else {
            self
        }
    }

    /// The word `Trace` was read in a level-3 heading under check.
    pub open spec fn trace_named(self) -> Scan {
        Scan { traced: true, trace_state: TraceState::Heading, ..self }
    }

    /// Where the reader stands before the first event.
    pub fn new() -> (scan: Scan)
        ensures
            scan == Scan::start(),
    {
        Scan {
            in_title: false,
            has_title: false,
            in_heading: false,
            traced: false,
            trace_state: TraceState::Idle,
        }
    }

    /// Moves on over the start of a block.
    pub fn open(self, block: Block, sections: bool) -> (next: Scan)
        ensures
            next == match block {
                Block::Heading(level) => self.heading_opened(level, sections),
                Block::List(first) => self.list_opened(first),
                Block::Item => self.item_opened(),
            },
    {
        let mut next = self;
        match block {
            Block::Heading(level) => {
                if level == 1 || level == 2 {
                    if self.trace_state == TraceState::Body {
                        next.trace_state = TraceState::Idle;
                    }
                    if level == 1 {
                        next.in_title = true;
                        next.has_title = true;
                    } else {
                        next.in_heading = true;
                        next.traced = false;
                    }
                } else if level == 3 && sections {
                    if self.traced {
                        next.trace_state = TraceState::Idle;
                    } else {
                        next.trace_state = TraceState::CheckHeading;
                    }
                }
            },
            Block::List(first) => {
                if first.is_none() && self.trace_state == TraceState::Body {
                    next.trace_state = TraceState::List;
                }
            },
            Block::Item => {
                if self.trace_state == TraceState::List {
                    next.trace_state = TraceState::Item;
                }
            },
        }
        next
    }

    /// Moves on over the end of a block.
    pub fn close(self, block: Block) -> (next: Scan)
        ensures
            next == match block {
                Block::Heading(level) => self.heading_closed(level),
                Block::List(first) => self.list_closed(first),
                Block::Item => self.item_closed(),
            },
    {
        let mut next = self;
        match block {
            Block::Heading(level) => {
                if level == 1 {
                    next.in_title = false;
                } else if level == 2 {
                    next.in_heading = false;
                } else if level == 3 && self.trace_state == TraceState::Heading {
                    next.trace_state = TraceState::Body;
                } else if level == 3 && self.trace_state == TraceState::CheckHeading {
                    next.trace_state = TraceState::Idle;
                }
            },
            Block::List(first) => {
                if first.is_none() && self.trace_state == TraceState::List {
                    next.trace_state = TraceState::Idle;
                }
            },
            Block::Item => {
                if self.trace_state == TraceState::Item {
                    next.trace_state = TraceState::List;
                }
            },
        }
        next
    }
}

/// What is said of a document that has a second title.
pub open spec fn second_title_text(spec: Spec) -> Seq<char> {
    "\""@ + spec.file_name_text() + "\" must contain a single title (#) with \"# "@
        + spec.title_text() + "\" but it contains at least two titles."@
}

/// What is said of a document whose title reads `found`.
pub open spec fn wrong_title_text(spec: Spec, found: Seq<char>) -> Seq<char> {
    "\""@ + spec.file_name_text() + "\" must start with \"# "@ + spec.title_text()
        + "\" but starts with \"# "@ + found + "\""@
}

/// What is said of a document without title.
pub open spec fn no_title_text(spec: Spec) -> Seq<char> {
    "\""@ + spec.file_name_text() + "\" must start with \"# "@ + spec.title_text()
        + "\", but the document has no title"@
}

/// What is said of a document that defines `id` a second time.
pub open spec fn duplicate_text(spec: Spec, id: Seq<char>) -> Seq<char> {
    "\""@ + spec.file_name_text() + "\" must contain unique identifiers, but \""@ + id
        + "\" is not"@
}

/// What is said of a document with a section heading `found` that is not of
/// the form `ID - title`.
pub open spec fn malformed_text(spec: Spec, found: Seq<char>) -> Seq<char> {
    "\""@ + spec.file_name_text()
        + "\" must contain sections of the form \"## ID - title\", but \""@ + found
        + "\" is not in this form"@
}

/// The message on a second title.
pub fn second_title(spec: Spec) -> (message: String)
    requires
        spec != Spec::Requirements,
    ensures
        message@ == second_title_text(spec),
{
    let mut message = String::from_str("\"");
    message.append(spec.file_name());
    message.append("\" must contain a single title (#) with \"# ");
    message.append(spec.title());
    message.append("\" but it contains at least two titles.");
    message
}

/// The message on a title that reads `found`.
pub fn wrong_title(spec: Spec, found: &str) -> (message: String)
    requires
        spec != Spec::Requirements,
    ensures
        message@ == wrong_title_text(spec, found@),
{
    let mut message = String::from_str("\"");
    message.append(spec.file_name());
    message.append("\" must start with \"# ");
    message.append(spec.title());
    message.append("\" but starts with \"# ");
    message.append(found);
    message.append("\"");
    message
}

/// The message on a document without title.
pub fn no_title(spec: Spec) -> (message: String)
    requires
        spec != Spec::Requirements,
    ensures
        message@ == no_title_text(spec),
{
    let mut message = String::from_str("\"");
    message.append(spec.file_name());
    message.append("\" must start with \"# ");
    message.append(spec.title());
    message.append("\", but the document has no title");
    message
}

/// The message on an identifier that is defined a second time.
pub fn duplicate(spec: Spec, id: &str) -> (message: String)
    requires
        spec != Spec::Requirements,
    ensures
        message@ == duplicate_text(spec, id@),
{
    let mut message = String::from_str("\"");
    message.append(spec.file_name());
    message.append("\" must contain unique identifiers, but \"");
    message.append(id);
    message.append("\" is not");
    message
}

/// The message on a section heading that is not of the form `ID - title`.
pub fn malformed(spec: Spec, found: &str) -> (message: String)
    requires
        spec != Spec::Requirements,
    ensures
        message@ == malformed_text(spec, found@),
{
    let mut message = String::from_str("\"");
    message.append(spec.file_name());
    message.append("\" must contain sections of the form \"## ID - title\", but \"");
    message.append(found);
    message.append("\" is not in this form");
    message
}

/// What has been read of a document: where the reader stands, the sections
/// defined so far with their targets, and the errors found so far.
pub struct Progress {
    pub scan: Scan,
    pub entries: Seq<(Seq<char>, Seq<Seq<char>>)>,
    pub errors: Seq<Seq<char>>,
}

impl Progress {
    /// Nothing has been read.
    pub open spec fn start() -> Progress {
        Progress { scan: Scan::start(), entries: Seq::empty(), errors: Seq::empty() }
    }
}

/// The entries after `target` was added to the targets of the last entry.
pub open spec fn with_target(entries: Seq<(Seq<char>, Seq<Seq<char>>)>, target: Seq<char>) -> Seq<
    (Seq<char>, Seq<Seq<char>>),
> {
    if entries.len() > 0 {
        entries.drop_last().push((entries.last().0, with_item(entries.last().1, target)))
    } else {
        entries
    }
}

/// What has been read after a run of text.
///
/// In the title the text must be the title of the kind. In the heading of a
/// section it must be of the form `ID - title` and defines `ID`, which must
/// be new. In a level-3 heading under check the word `Trace` opens the trace
/// block. In an item of the list of the trace block the text is a target of
/// the section defined last. Any other text is passed over.
pub open spec fn after_text(p: Progress, text: Seq<char>, spec: Spec) -> Progress {
    if p.scan.in_title {
        if text == spec.title_text() {
            p
        } else {
            Progress { errors: p.errors.push(wrong_title_text(spec, text)), ..p }
        }
    } else if p.scan.in_heading {
        match identifier_of(text) {
            Some(id) => Progress {
                entries: with_entry(p.entries, id, Seq::empty()),
                errors: if has_key(p.entries, id) {
                    p.errors.push(duplicate_text(spec, id))
                } else {
                    p.errors
                },
                ..p
            },
            None => Progress { errors: p.errors.push(malformed_text(spec, text)), ..p },
        }
    } else if p.scan.trace_state == TraceState::CheckHeading && text == "Trace"@ {
        Progress { scan: p.scan.trace_named(), ..p }
    } else if p.scan.trace_state == TraceState::Item {
        Progress { entries: with_target(p.entries, text), ..p }
    } else {
        p
    }
}

/// What has been read after one more event.
pub open spec fn advance(p: Progress, event: Event<Seq<char>>, spec: Spec) -> Progress {
    match event {
        Event::Start(block) => Progress {
            scan: match block {
                Block::Heading(level) => p.scan.heading_opened(level, p.entries.len() > 0),
                Block::List(first) => p.scan.list_opened(first),
                Block::Item => p.scan.item_opened(),
            },
            errors: if block == Block::Heading(1) && p.scan.has_title {
                p.errors.push(second_title_text(spec))
            } else {
                p.errors
            },
            ..p
        },
        Event::End(block) => Progress {
            scan: match block {
                Block::Heading(level) => p.scan.heading_closed(level),
                Block::List(first) => p.scan.list_closed(first),
                Block::Item => p.scan.item_closed(),
            },
            ..p
        },
        Event::Text(text) => after_text(p, text, spec),
        Event::Other => p,
    }
}

/// What has been read after a run of events, from the first on.
pub open spec fn run(events: Seq<Event<Seq<char>>>, spec: Spec) -> Progress
    decreases events.len(),
{
    if events.len() == 0 {
        Progress::start()
    } else {
        advance(run(events.drop_last(), spec), events.last(), spec)
    }
}

/// The sections of a document with their targets, and the errors in its
/// structure: what was read after all its events, and the missing title
/// last.
pub open spec fn parsed(events: Seq<Event<Seq<char>>>, spec: Spec) -> (
    Seq<(Seq<char>, Seq<Seq<char>>)>,
    Seq<Seq<char>>,
) {
    let p = run(events, spec);
    (
        p.entries,
        if p.scan.has_title {
            p.errors
        } else {
            p.errors.push(no_title_text(spec))
        },
    )
}

/// The sections read from a document are tidy after every event if they
/// were before.
pub proof fn lemma_advance_tidy(p: Progress, event: Event<Seq<char>>, spec: Spec)
    requires
        tidy(p.entries),
    ensures
        tidy(advance(p, event, spec).entries),
{
    if let Event::Text(text) = event {
        if let Some(id) = identifier_of(text) {
            lemma_with_entry_tidy(p.entries, id, Seq::empty());
        }
        if p.entries.len() > 0 {
            let after = with_target(p.entries, text);
            lemma_with_item_distinct(p.entries.last().1, text);
            assert(keys(after) =~= keys(p.entries));
            assert forall|i: int| 0 <= i < after.len() implies (#[trigger] after[i]).1.no_duplicates() by {
                if i < after.len() - 1 {
                    assert(after[i] == p.entries[i]);
                }
            }
        }
    }
}

/// No identifier is defined twice in what is read from a document, and no
/// section holds a target twice: whatever the events are.
pub proof fn lemma_identifiers_unique(events: Seq<Event<Seq<char>>>, spec: Spec)
    ensures
        tidy(run(events, spec).entries),
        tidy(parsed(events, spec).0),
    decreases events.len(),
{
    if events.len() == 0 {
        assert(keys(Progress::start().entries) =~= Seq::empty());
    } else {
        lemma_identifiers_unique(events.drop_last(), spec);
        lemma_advance_tidy(run(events.drop_last(), spec), events.last(), spec);
    }
}

/// A section heading that names an identifier which is already defined adds
/// exactly one error, which names that identifier, and defines nothing new.
pub proof fn lemma_duplicate_reported(p: Progress, text: Seq<char>, spec: Spec)
    requires
        !p.scan.in_title,
        p.scan.in_heading,
        identifier_of(text).is_some(),
        has_key(p.entries, identifier_of(text).unwrap()),
    ensures
        advance(p, Event::Text(text), spec).errors == p.errors.push(
            duplicate_text(spec, identifier_of(text).unwrap()),
        ),
        keys(advance(p, Event::Text(text), spec).entries) == keys(p.entries),
{
    lemma_with_entry_keys(p.entries, identifier_of(text).unwrap(), Seq::<Seq<char>>::empty());
}

/// A section heading that names a new identifier adds no error, and defines
/// that identifier after the others.
pub proof fn lemma_new_identifier_defined(p: Progress, text: Seq<char>, spec: Spec)
    requires
        !p.scan.in_title,
        p.scan.in_heading,
        identifier_of(text).is_some(),
        !has_key(p.entries, identifier_of(text).unwrap()),
    ensures
        advance(p, Event::Text(text), spec).errors == p.errors,
        keys(advance(p, Event::Text(text), spec).entries) == keys(p.entries).push(
            identifier_of(text).unwrap(),
        ),
{
    lemma_with_entry_keys(p.entries, identifier_of(text).unwrap(), Seq::<Seq<char>>::empty());
}

/// An error that was found stays: the errors after an event begin with the
/// errors before it.
pub proof fn lemma_advance_keeps_errors(p: Progress, event: Event<Seq<char>>, spec: Spec)
    ensures
        p.errors.is_prefix_of(advance(p, event, spec).errors),
{
}

/// The errors found after the first `n` events of a document are among the
/// errors of the whole document, at the same places.
pub proof fn lemma_errors_stay(events: Seq<Event<Seq<char>>>, n: int, spec: Spec)
    requires
        0 <= n <= events.len(),
    ensures
        run(events.take(n), spec).errors.is_prefix_of(run(events, spec).errors),
        run(events.take(n), spec).errors.is_prefix_of(parsed(events, spec).1),
    decreases events.len(),
{
    if n == events.len() {
        assert(events.take(n) =~= events);
    } else {
        lemma_errors_stay(events.drop_last(), n, spec);
        assert(events.drop_last().take(n) =~= events.take(n));
        lemma_advance_keeps_errors(run(events.drop_last(), spec), events.last(), spec);
    }
}

/// Reads a document event by event.
pub struct Reader {
    scan: Scan,
    trace: Trace,
    errors: Vec<String>,
}

impl Reader {
    /// What the reader has read.
    pub closed spec fn progress(&self) -> Progress {
        Progress {
            scan: self.scan,
            entries: trace_entries(self.trace),
            errors: texts(self.errors@),
        }
    }

    /// A reader that has read nothing.
    pub fn new() -> (reader: Reader)
        ensures
            reader.progress() == Progress::start(),
    {
        let reader = Reader { scan: Scan::new(), trace: new_trace(), errors: Vec::new() };
        assert(texts(reader.errors@) =~= Seq::empty());
        reader
    }

    /// Reads a run of text.
    fn read_text(&mut self, text: &str, spec: Spec)
        requires
            spec != Spec::Requirements,
        ensures
            final(self).progress() == after_text(old(self).progress(), text@, spec),
    {
        if self.scan.in_title {
            if !same_text(text, spec.title()) {
                report(&mut self.errors, wrong_title(spec, text));
            }
        } else if self.scan.in_heading {
            match extract_identifier(text) {
                Some(id) => {
                    let previous = trace_insert(&mut self.trace, id.to_string(), new_set());
                    if previous.is_some() {
                        report(&mut self.errors, duplicate(spec, id));
                    }
                },
                None => {
                    report(&mut self.errors, malformed(spec, text));
                },
            }
        } else if self.scan.trace_state == TraceState::CheckHeading && same_text(text, "Trace") {
            self.scan.traced = true;
            self.scan.trace_state = TraceState::Heading;
        } else if self.scan.trace_state == TraceState::Item {
            match trace_last_mut(&mut self.trace) {
                Some((_, targets)) => {
                    set_insert(targets, text.to_string());
                },
                None => {},
            }
        }
    }

    /// Reads one event.
    pub fn step(&mut self, event: &Event<String>, spec: Spec)
        requires
            spec != Spec::Requirements,
        ensures
            final(self).progress() == advance(old(self).progress(), event@, spec),
    {
        match event {
            Event::Start(block) => {
                if let Block::Heading(1) = block {
                    if self.scan.has_title {
                        report(&mut self.errors, second_title(spec));
                    }
                }
                self.scan = self.scan.open(*block, trace_len(&self.trace) > 0);
            },
            Event::End(block) => {
                self.scan = self.scan.close(*block);
            },
            Event::Text(text) => {
                self.read_text(text.as_str(), spec);
            },
            Event::Other => {},
        }
    }

    /// Ends the reading: hands out the sections with their targets, and the
    /// errors, to which a missing title is added.
    pub fn finish(self, spec: Spec) -> (found: (Trace, Vec<String>))
        requires
            spec != Spec::Requirements,
        ensures
            trace_entries(found.0) == self.progress().entries,
            texts(found.1@) == if self.progress().scan.has_title {
                self.progress().errors
            } else {
                self.progress().errors.push(no_title_text(spec))
            },
    {
        let Reader { scan, trace, errors } = self;
        let mut errors = errors;
        if !scan.has_title {
            report(&mut errors, no_title(spec));
        }
        (trace, errors)
    }
}

/// Reads the sections and trace links of a document from its events.
///
/// Hands out the sections in the order in which they are defined, each with
/// its targets in the order in which they are listed, and the errors in the
/// structure of the document in the order in which they are found.
pub fn parse_events(events: &Vec<Event<String>>, spec: Spec) -> (found: (Trace, Vec<String>))
    requires
        spec != Spec::Requirements,
    ensures
        trace_entries(found.0) == parsed(views(events@), spec).0,
        texts(found.1@) == parsed(views(events@), spec).1,
{
    let mut reader = Reader::new();
    let mut i: usize = 0;
    while i < events.len()
        invariant
            i <= events.len(),
            spec != Spec::Requirements,
            reader.progress() == run(views(events@).take(i as int), spec),
        decreases events.len() - i,
    {
        reader.step(&events[i], spec);
        proof {
            let all = views(events@);
            assert(all.take(i + 1).drop_last() =~= all.take(i as int));
        }
        i += 1;
    }
    assert(views(events@).take(i as int) =~= views(events@));
    reader.finish(spec)
}

/// Reads the sections and trace links of a markdown document of a kind.
///
/// The text is split into events, and the events are read as `parse_events`
/// reads them.
pub fn parse(markdown_input: &str, spec: Spec) -> (found: (Trace, Vec<String>))
    requires
        spec != Spec::Requirements,
    ensures
        trace_entries(found.0) == parsed(markdown_events(markdown_input@), spec).0,
        texts(found.1@) == parsed(markdown_events(markdown_input@), spec).1,
{
    let events = events_of(markdown_input);
    parse_events(&events, spec)
}

} // verus!
