//! One document: its text and its trace table, and the checks that a
//! document must pass by itself.

use crate::kind::Spec;
use crate::markdown::Event;
use crate::markdown::markdown_events;
use crate::messages::lemma_reports_contains;
use crate::messages::lemma_reports_empty;
use crate::messages::lemma_reports_take;
use crate::messages::report;
use crate::messages::reports;
use crate::messages::texts;
use crate::parser::lemma_identifiers_unique;
use crate::parser::parse;
use crate::parser::parsed;
use crate::tables::has_key;
use crate::tables::keys;
use crate::tables::lemma_links_hold;
use crate::tables::link_texts;
use crate::tables::links;
use crate::tables::links_of;
use crate::tables::tidy;
use crate::tables::Trace;
use crate::tables::trace_contains;
use crate::tables::trace_entries;
use crate::tables::trace_ids;
use crate::text::holds;
use crate::text::stands_at;
use crate::text::starts_with;
use vstd::prelude::*;
use vstd::string::StringExecFns;

verus! {

/// The errors found in a specification, in the order in which they were
/// found.
pub struct Error(pub Vec<String>);

/// What is said of an identifier `id` that lacks the prefix of its kind.
pub open spec fn prefix_text(spec: Spec, id: Seq<char>) -> Seq<char> {
    "Headings in "@ + spec.label_text() + " must start with \""@ + spec.prefix_text() + "\". \""@
        + id + "\" does not."@
}

/// What is said of a section `id` that is traced to `target`, a section of
/// the same document.
pub open spec fn self_reference_text(id: Seq<char>, target: Seq<char>) -> Seq<char> {
    "Trace of "@ + id + " cannot be to other items on the same document ("@ + target + " is)"@
}

/// The message on an identifier of a kind, if it lacks the prefix of that
/// kind.
pub open spec fn prefix_report(spec: Spec, id: Seq<char>) -> Option<Seq<char>> {
    if spec.prefix_text().is_prefix_of(id) {
        None
    } else {
        Some(prefix_text(spec, id))
    }
}

/// The messages on the identifiers that lack the prefix of their kind: one
/// for each such identifier, in the order of the identifiers.
pub open spec fn prefix_errors(ids: Seq<Seq<char>>, spec: Spec) -> Seq<Seq<char>> {
    reports(ids, |id: Seq<char>| prefix_report(spec, id))
}

/// The message on a link of a document, if its target is a section of that
/// document.
pub open spec fn self_reference_report(
    entries: Seq<(Seq<char>, Seq<Seq<char>>)>,
    link: (Seq<char>, Seq<char>),
) -> Option<Seq<char>> {
    if has_key(entries, link.1) {
        Some(self_reference_text(link.0, link.1))
    } else {
        None
    }
}

/// The messages on the links of a document that point into the document
/// itself: one for each such link, in the order of the links.
pub open spec fn self_reference_errors(entries: Seq<(Seq<char>, Seq<Seq<char>>)>) -> Seq<Seq<char>> {
    reports(links(entries), |link: (Seq<char>, Seq<char>)| self_reference_report(entries, link))
}

/// The message on an identifier that lacks the prefix of its kind.
pub fn prefix_message(spec: Spec, id: &str) -> (message: String)
    ensures
        message@ == prefix_text(spec, id@),
{
    let mut message = String::from_str("Headings in ");
    message.append(spec.label());
    message.append(" must start with \"");
    message.append(spec.prefix());
    message.append("\". \"");
    message.append(id);
    message.append("\" does not.");
    message
}

/// The message on a link into the document of its own section.
pub fn self_reference_message(id: &str, target: &str) -> (message: String)
    ensures
        message@ == self_reference_text(id@, target@),
{
    let mut message = String::from_str("Trace of ");
    message.append(id);
    message.append(" cannot be to other items on the same document (");
    message.append(target);
    message.append(" is)");
    message
}

/// Checks the identifiers of a kind against the prefix of that kind. Hands
/// out one message for each identifier that does not start with it.
pub fn check_ids(headings: &Vec<&String>, spec: Spec) -> (errors: Vec<String>)
    ensures
        texts(errors@) == prefix_errors(texts(headings@), spec),
{
    let mut errors: Vec<String> = Vec::new();
    let mut i: usize = 0;
    while i < headings.len()
        invariant
            i <= headings.len(),
            texts(errors@) == prefix_errors(texts(headings@).take(i as int), spec),
        decreases headings.len() - i,
    {
        proof {
            lemma_reports_take(
                texts(headings@),
                i as int,
                |id: Seq<char>| prefix_report(spec, id),
            );
        }
        let heading = headings[i];
        if !starts_with(heading.as_str(), spec.prefix()) {
            report(&mut errors, prefix_message(spec, heading.as_str()));
        }
        i += 1;
    }
    assert(texts(headings@).take(i as int) =~= texts(headings@));
    errors
}

/// Checks that no section of a document is traced to a section of the same
/// document. Hands out one message for each link that is.
pub fn check_trace(trace: &Trace) -> (errors: Vec<String>)
    ensures
        texts(errors@) == self_reference_errors(trace_entries(*trace)),
{
    let found = links_of(trace);
    let mut errors: Vec<String> = Vec::new();
    let mut i: usize = 0;
    let ghost entries = trace_entries(*trace);
    while i < found.len()
        invariant
            i <= found.len(),
            entries == trace_entries(*trace),
            link_texts(found@) == links(entries),
            texts(errors@) == reports(
                links(entries).take(i as int),
                |link: (Seq<char>, Seq<char>)| self_reference_report(entries, link),
            ),
        decreases found.len() - i,
    {
        proof {
            lemma_reports_take(
                links(entries),
                i as int,
                |link: (Seq<char>, Seq<char>)| self_reference_report(entries, link),
            );
        }
        let (id, target) = found[i];
        if trace_contains(trace, target.as_str()) {
            report(&mut errors, self_reference_message(id.as_str(), target.as_str()));
        }
        i += 1;
    }
    assert(links(entries).take(i as int) =~= links(entries));
    errors
}

/// There is no message on the prefix exactly when every identifier starts
/// with the prefix of its kind.
pub proof fn lemma_prefix_checked(ids: Seq<Seq<char>>, spec: Spec)
    ensures
        prefix_errors(ids, spec).len() == 0 <==> forall|i: int|
            0 <= i < ids.len() ==> spec.prefix_text().is_prefix_of(#[trigger] ids[i]),
{
    lemma_reports_empty(ids, |id: Seq<char>| prefix_report(spec, id));
}

/// An identifier without the prefix of its kind is reported, by a message
/// that holds the identifier as it stands.
pub proof fn lemma_prefix_reported(ids: Seq<Seq<char>>, spec: Spec, i: int)
    requires
        0 <= i < ids.len(),
        !spec.prefix_text().is_prefix_of(ids[i]),
    ensures
        prefix_errors(ids, spec).contains(prefix_text(spec, ids[i])),
        holds(prefix_text(spec, ids[i]), ids[i]),
{
    lemma_reports_contains(ids, |id: Seq<char>| prefix_report(spec, id), i);
    let head = "Headings in "@ + spec.label_text() + " must start with \""@ + spec.prefix_text()
        + "\". \""@;
    let at = head.len() as int;
    assert(prefix_text(spec, ids[i]).subrange(at, at + ids[i].len()) =~= ids[i]);
    assert(stands_at(prefix_text(spec, ids[i]), ids[i], at));
}

/// There is no message on a link exactly when no section is traced to a
/// section of the same document.
pub proof fn lemma_self_reference_checked(entries: Seq<(Seq<char>, Seq<Seq<char>>)>)
    ensures
        self_reference_errors(entries).len() == 0 <==> forall|i: int, j: int|
            0 <= i < entries.len() && 0 <= j < entries[i].1.len() ==> !has_key(
                entries,
                #[trigger] entries[i].1[j],
            ),
{
    let check = |link: (Seq<char>, Seq<char>)| self_reference_report(entries, link);
    lemma_reports_empty(links(entries), check);
    if self_reference_errors(entries).len() == 0 {
        assert forall|i: int, j: int|
            0 <= i < entries.len() && 0 <= j < entries[i].1.len() implies !has_key(
            entries,
            #[trigger] entries[i].1[j],
        ) by {
            lemma_links_hold(entries, i, j);
            let k = choose|k: int|
                0 <= k < links(entries).len() && links(entries)[k] == (
                    entries[i].0,
                    entries[i].1[j],
                );
            assert(check(links(entries)[k]).is_none());
        }
    }
    if forall|i: int, j: int|
        0 <= i < entries.len() && 0 <= j < entries[i].1.len() ==> !has_key(
            entries,
            #[trigger] entries[i].1[j],
        ) {
        assert forall|k: int| 0 <= k < links(entries).len() implies check(
            #[trigger] links(entries)[k],
        ).is_none() by {
            crate::tables::lemma_links_come_from(entries, k);
        }
    }
}

/// A link into the document of its own section is reported.
pub proof fn lemma_self_reference_reported(entries: Seq<(Seq<char>, Seq<Seq<char>>)>, i: int, j: int)
    requires
        0 <= i < entries.len(),
        0 <= j < entries[i].1.len(),
        has_key(entries, entries[i].1[j]),
    ensures
        self_reference_errors(entries).contains(
            self_reference_text(entries[i].0, entries[i].1[j]),
        ),
{
    lemma_links_hold(entries, i, j);
    let k = choose|k: int|
        0 <= k < links(entries).len() && links(entries)[k] == (entries[i].0, entries[i].1[j]);
    lemma_reports_contains(
        links(entries),
        |link: (Seq<char>, Seq<char>)| self_reference_report(entries, link),
        k,
    );
}

/// The sections of a document of a kind are sound: no identifier is defined
/// twice, every identifier starts with the prefix of the kind, and no
/// section is traced to a section of the same document.
pub open spec fn sound(entries: Seq<(Seq<char>, Seq<Seq<char>>)>, spec: Spec) -> bool {
    &&& tidy(entries)
    &&& forall|i: int|
        0 <= i < entries.len() ==> spec.prefix_text().is_prefix_of((#[trigger] entries[i]).0)
    &&& forall|i: int, j: int|
        0 <= i < entries.len() && 0 <= j < entries[i].1.len() ==> !has_key(
            entries,
            #[trigger] entries[i].1[j],
        )
}

/// A document without error by itself has sound sections.
pub proof fn lemma_checked_is_sound(events: Seq<Event<Seq<char>>>, spec: Spec)
    requires
        document_errors(events, spec).len() == 0,
    ensures
        sound(parsed(events, spec).0, spec),
{
    let entries = parsed(events, spec).0;
    lemma_identifiers_unique(events, spec);
    lemma_prefix_checked(keys(entries), spec);
    lemma_self_reference_checked(entries);
    assert forall|i: int| 0 <= i < entries.len() implies spec.prefix_text().is_prefix_of(
        (#[trigger] entries[i]).0,
    ) by {
        assert(keys(entries)[i] == entries[i].0);
    }
}

/// The errors of a document by itself, given its sections and the errors in
/// its structure. Errors in the structure stand alone: the identifiers and
/// links of such a document are not checked.
pub open spec fn checked(
    entries: Seq<(Seq<char>, Seq<Seq<char>>)>,
    structure: Seq<Seq<char>>,
    spec: Spec,
) -> Seq<Seq<char>> {
    if structure.len() > 0 {
        structure
    } else {
        prefix_errors(keys(entries), spec) + self_reference_errors(entries)
    }
}

/// The errors of a document of a kind by itself, given its events.
pub open spec fn document_errors(events: Seq<Event<Seq<char>>>, spec: Spec) -> Seq<Seq<char>> {
    checked(parsed(events, spec).0, parsed(events, spec).1, spec)
}

/// Checks what was read of a document: hands out the trace table if the
/// document has no error, and the errors otherwise.
///
/// Where the structure has errors, these are the errors. Otherwise the
/// identifiers are checked for the prefix of the kind, and the links for
/// targets in the document itself.
pub fn validate(trace: Trace, structure: Vec<String>, spec: Spec) -> (checked: Result<Trace, Error>)
    ensures
        match checked {
            Ok(valid) => {
                &&& self::checked(trace_entries(trace), texts(structure@), spec).len() == 0
                &&& valid == trace
            },
            Err(error) => {
                &&& texts(error.0@) == self::checked(trace_entries(trace), texts(structure@), spec)
                &&& error.0@.len() > 0
            },
        },
{
    if structure.len() > 0 {
        return Err(Error(structure));
    }
    let mut errors = check_ids(&trace_ids(&trace), spec);
    let mut links = check_trace(&trace);
    errors.append(&mut links);
    if errors.len() == 0 {
        Ok(trace)
    } else {
        Err(Error(errors))
    }
}

/// Reads the trace table of a markdown document of a kind, and checks the
/// document by itself.
pub fn get_trace(content: &str, spec: Spec) -> (checked: Result<Trace, Error>)
    requires
        spec != Spec::Requirements,
    ensures
        match checked {
            Ok(trace) => {
                &&& document_errors(markdown_events(content@), spec).len() == 0
                &&& trace_entries(trace) == parsed(markdown_events(content@), spec).0
                &&& sound(trace_entries(trace), spec)
            },
            Err(error) => {
                &&& texts(error.0@) == document_errors(markdown_events(content@), spec)
                &&& error.0@.len() > 0
            },
        },
{
    let (trace, structure) = parse(content, spec);
    proof {
        if document_errors(markdown_events(content@), spec).len() == 0 {
            lemma_checked_is_sound(markdown_events(content@), spec);
        }
    }
    validate(trace, structure, spec)
}

/// A document of a kind: its markdown text, and the trace table read from
/// it. A document has passed the checks of a document by itself: its
/// sections are sound for its kind.
#[derive(Debug)]
pub struct Document {
    text: String,
    trace: Trace,
    kind: Spec,
}

impl Document {
    #[verifier::type_invariant]
    spec fn checked(self) -> bool {
        sound(trace_entries(self.trace), self.kind)
    }

    /// The markdown text of the document, in specifications.
    pub closed spec fn text_view(&self) -> Seq<char> {
        self.text@
    }

    /// The sections of the document with their targets, in specifications.
    pub closed spec fn entries(&self) -> Seq<(Seq<char>, Seq<Seq<char>>)> {
        trace_entries(self.trace)
    }

    /// The kind of the document, in specifications.
    pub closed spec fn kind_view(&self) -> Spec {
        self.kind
    }

    /// Reads a document of a kind from its markdown text. Hands out the
    /// document if it has no error by itself, and the errors otherwise.
    pub fn try_new(text: String, spec: Spec) -> (made: Result<Document, Error>)
        requires
            spec != Spec::Requirements,
        ensures
            match made {
                Ok(document) => {
                    &&& document_errors(markdown_events(text@), spec).len() == 0
                    &&& document.text_view() == text@
                    &&& document.entries() == parsed(markdown_events(text@), spec).0
                    &&& document.kind_view() == spec
                    &&& sound(document.entries(), spec)
                },
                Err(error) => {
                    &&& texts(error.0@) == document_errors(markdown_events(text@), spec)
                    &&& error.0@.len() > 0
                },
            },
    {
        match get_trace(text.as_str(), spec) {
            Ok(trace) => Ok(Document { text, trace, kind: spec }),
            Err(error) => Err(error),
        }
    }

    /// The markdown text of the document.
    pub fn text(&self) -> (text: &String)
        ensures
            text@ == self.text_view(),
    {
        &self.text
    }

    /// The trace table of the document. Its sections are sound for the kind
    /// of the document.
    pub fn trace(&self) -> (trace: &Trace)
        ensures
            trace_entries(*trace) == self.entries(),
            sound(self.entries(), self.kind_view()),
    {
        proof {
            use_type_invariant(self);
        }
        &self.trace
    }

    /// The kind of the document.
    pub fn kind(&self) -> (kind: Spec)
        ensures
            kind == self.kind_view(),
    {
        self.kind
    }
}

} // verus!
