//! The checks across the documents of a specification: where the links of
//! each kind of document may point, and that every requirement is covered
//! by a test.

use crate::document::sound;
use crate::kind::Spec;
use crate::messages::lemma_joined_contains;
use crate::messages::lemma_reports_contains;
use crate::messages::lemma_reports_empty;
use crate::messages::lemma_reports_take;
use crate::messages::report;
use crate::messages::reports;
use crate::messages::texts;
use crate::tables::debug_listing;
use crate::tables::has_key;
use crate::tables::keys;
use crate::tables::lemma_has_key;
use crate::tables::lemma_links_come_from;
use crate::tables::lemma_links_hold;
use crate::tables::lemma_without_item;
use crate::tables::link_texts;
use crate::tables::links;
use crate::tables::links_of;
use crate::tables::requirement_entries;
use crate::tables::requirement_ids;
use crate::tables::Requirements;
use crate::tables::requirements_contain;
use crate::tables::set_items;
use crate::tables::set_len;
use crate::tables::set_listing;
use crate::tables::set_swap_remove;
use crate::tables::Trace;
use crate::tables::trace_contains;
use crate::tables::trace_entries;
use crate::tables::trace_entry;
use crate::tables::trace_len;
use crate::tables::without_item;
use vstd::prelude::*;
use vstd::string::StringExecFns;

verus! {

/// The kinds that a link from a section of kind `source` may point to. A
/// link that points to no section of one of these kinds is an error.
///
/// | from            | to                    |
/// |-----------------|-----------------------|
/// | tests           | requirements, risks   |
/// | risks           | requirements, designs |
/// | designs         | requirements          |
/// | user manual     | requirements          |
/// | operator manual | requirements          |
/// | retirement plan | nothing               |
pub open spec fn may_point_to(source: Spec, target: Spec) -> bool {
    match (source, target) {
        (Spec::Tests, Spec::Requirements) => true,
        (Spec::Tests, Spec::Risks) => true,
        (Spec::Risks, Spec::Requirements) => true,
        (Spec::Risks, Spec::Design) => true,
        (Spec::Design, Spec::Requirements) => true,
        (Spec::UserManual, Spec::Requirements) => true,
        (Spec::OperatorManual, Spec::Requirements) => true,
        _ => false,
    }
}

/// The kinds in which the target of a misdirected link is looked up, to tell
/// its author what the link points to.
///
/// | from            | looked up in          |
/// |-----------------|-----------------------|
/// | tests           | designs, tests        |
/// | risks           | risks, tests          |
/// | designs         | risks, tests, designs |
/// | user manual     | risks, tests, designs |
/// | operator manual | risks, tests, designs |
pub open spec fn looks_in(source: Spec, other: Spec) -> bool {
    match (source, other) {
        (Spec::Tests, Spec::Design) => true,
        (Spec::Tests, Spec::Tests) => true,
        (Spec::Risks, Spec::Risks) => true,
        (Spec::Risks, Spec::Tests) => true,
        (Spec::Design, Spec::Risks) => true,
        (Spec::Design, Spec::Tests) => true,
        (Spec::Design, Spec::Design) => true,
        (Spec::UserManual, Spec::Risks) => true,
        (Spec::UserManual, Spec::Tests) => true,
        (Spec::UserManual, Spec::Design) => true,
        (Spec::OperatorManual, Spec::Risks) => true,
        (Spec::OperatorManual, Spec::Tests) => true,
        (Spec::OperatorManual, Spec::Design) => true,
        _ => false,
    }
}

/// The kinds whose sections have links that are checked one by one.
pub open spec fn links_checked(source: Spec) -> bool {
    source != Spec::Requirements && source != Spec::RetirementPlan
}

/// How a message calls the sections of a kind.
pub open spec fn subject_text(source: Spec) -> Seq<char> {
    match source {
        Spec::Tests => "Tests"@,
        Spec::Risks => "Risks"@,
        Spec::Design => "Designs"@,
        Spec::UserManual => "Users"@,
        Spec::OperatorManual => "Operators"@,
        Spec::Requirements => "Requirements"@,
        Spec::RetirementPlan => "Retirement plan"@,
    }
}

/// How a message calls what the sections of a kind may be traced to.
pub open spec fn targets_text(source: Spec) -> Seq<char> {
    match source {
        Spec::Tests => "risks or requirements"@,
        Spec::Risks => "requirements or designs"@,
        _ => "requirements"@,
    }
}

/// How a message says that a section is traced.
pub open spec fn verb_text(source: Spec) -> Seq<char> {
    match source {
        Spec::Risks => "traces to"@,
        _ => "is traced to"@,
    }
}

/// How a message calls a target that is defined where `looks_in` looks.
pub open spec fn elsewhere_text(source: Spec) -> Seq<char> {
    match source {
        Spec::Tests => "a design or test"@,
        Spec::Risks => "a risk or test"@,
        _ => "a risk, test or another design"@,
    }
}

/// What is said of a section `id` of kind `source` with a misdirected link.
/// `elsewhere` says whether the target is defined where `looks_in` looks.
pub open spec fn violation_text(source: Spec, id: Seq<char>, elsewhere: bool) -> Seq<char> {
    subject_text(source) + " can only be traced to existing "@ + targets_text(source) + ", but "@
        + id + " "@ + verb_text(source) + " "@ + if elsewhere {
        elsewhere_text(source)
    } else {
        "something else"@
    }
}

/// What is said of requirements that no test covers; `listing` names them.
pub open spec fn uncovered_text(listing: Seq<char>) -> Seq<char> {
    "All requirements must be covered by tests, but "@ + listing + " are not"@
}

/// What is said of a section `id` of the retirement plan that is traced.
pub open spec fn retirement_text(id: Seq<char>) -> Seq<char> {
    "Retirement plan cannot be traced, but "@ + id + " is traced to something else"@
}

/// The tables of a specification, as texts: the identifiers of the
/// requirements, and the sections of each document with their targets.
pub struct TableTexts {
    pub requirements: Seq<Seq<char>>,
    pub designs: Seq<(Seq<char>, Seq<Seq<char>>)>,
    pub risks: Seq<(Seq<char>, Seq<Seq<char>>)>,
    pub tests: Seq<(Seq<char>, Seq<Seq<char>>)>,
    pub users: Seq<(Seq<char>, Seq<Seq<char>>)>,
    pub operators: Seq<(Seq<char>, Seq<Seq<char>>)>,
    pub retirement: Seq<(Seq<char>, Seq<Seq<char>>)>,
}

impl TableTexts {
    /// The sections of the document of a kind. Requirements have no
    /// sections.
    pub open spec fn sections(self, kind: Spec) -> Seq<(Seq<char>, Seq<Seq<char>>)> {
        match kind {
            Spec::Requirements => Seq::empty(),
            Spec::Design => self.designs,
            Spec::Risks => self.risks,
            Spec::Tests => self.tests,
            Spec::UserManual => self.users,
            Spec::OperatorManual => self.operators,
            Spec::RetirementPlan => self.retirement,
        }
    }

    /// `id` is an identifier of the given kind.
    pub open spec fn defines(self, kind: Spec, id: Seq<char>) -> bool {
        if kind == Spec::Requirements {
            self.requirements.contains(id)
        } else {
            has_key(self.sections(kind), id)
        }
    }

    /// A link from a section of kind `source` to `target` is in order: the
    /// target is an identifier of a kind that `source` may point to.
    pub open spec fn allows(self, source: Spec, target: Seq<char>) -> bool {
        exists|kind: Spec| may_point_to(source, kind) && #[trigger] self.defines(kind, target)
    }

    /// The target of a link from a section of kind `source` is defined in
    /// one of the kinds that `looks_in` names.
    pub open spec fn finds_elsewhere(self, source: Spec, target: Seq<char>) -> bool {
        exists|kind: Spec| looks_in(source, kind) && #[trigger] self.defines(kind, target)
    }

    /// The message on a link from a section of kind `source`, if the link is
    /// not in order.
    pub open spec fn link_report(self, source: Spec, link: (Seq<char>, Seq<char>)) -> Option<
        Seq<char>,
    > {
        if self.allows(source, link.1) {
            None
        } else {
            Some(violation_text(source, link.0, self.finds_elsewhere(source, link.1)))
        }
    }

    /// The messages on the links of the document of kind `source`: one for
    /// each link that is not in order, in the order of the links.
    pub open spec fn link_errors(self, source: Spec) -> Seq<Seq<char>> {
        reports(
            links(self.sections(source)),
            |link: (Seq<char>, Seq<char>)| self.link_report(source, link),
        )
    }

    /// The requirements that no link of a test points to. Each target of a
    /// test is taken out of the requirements in turn, the last requirement
    /// filling its place.
    pub open spec fn uncovered(self) -> Seq<Seq<char>> {
        uncovered_by(self.requirements, links(self.tests))
    }

    /// The message on the requirements that no test covers, if there are
    /// any.
    pub open spec fn coverage_errors(self) -> Seq<Seq<char>> {
        if self.uncovered().len() > 0 {
            seq![uncovered_text(debug_listing(self.uncovered()))]
        } else {
            Seq::empty()
        }
    }

    /// The messages on the sections of the retirement plan that are traced:
    /// one for each such section, in the order of the sections.
    pub open spec fn retirement_errors(self) -> Seq<Seq<char>> {
        reports(
            self.retirement,
            |section: (Seq<char>, Seq<Seq<char>>)| retirement_report(section),
        )
    }

    /// Each table is sound by itself: no identifier stands twice in a table,
    /// every identifier starts with the prefix of its kind, and no section
    /// is traced to a section of its own document.
    pub open spec fn sound(self) -> bool {
        &&& self.requirements.no_duplicates()
        &&& forall|i: int|
            0 <= i < self.requirements.len() ==> Spec::Requirements.prefix_text().is_prefix_of(
                #[trigger] self.requirements[i],
            )
        &&& sound(self.designs, Spec::Design)
        &&& sound(self.risks, Spec::Risks)
        &&& sound(self.tests, Spec::Tests)
        &&& sound(self.users, Spec::UserManual)
        &&& sound(self.operators, Spec::OperatorManual)
        &&& sound(self.retirement, Spec::RetirementPlan)
    }

    /// All errors across the documents, in the order in which they are
    /// looked for: the links of the tests, the coverage of the requirements,
    /// the links of the risks, of the designs, of the user manual and of the
    /// operator manual, and the sections of the retirement plan.
    pub open spec fn errors(self) -> Seq<Seq<char>> {
        self.link_errors(Spec::Tests) + self.coverage_errors() + self.link_errors(Spec::Risks)
            + self.link_errors(Spec::Design) + self.link_errors(Spec::UserManual)
            + self.link_errors(Spec::OperatorManual) + self.retirement_errors()
    }
}

/// What is left of `requirements` after the target of each of `links`, in
/// turn, was taken out of it.
pub open spec fn uncovered_by(requirements: Seq<Seq<char>>, links: Seq<(Seq<char>, Seq<char>)>) -> Seq<
    Seq<char>,
>
    decreases links.len(),
{
    if links.len() == 0 {
        requirements
    } else {
        without_item(uncovered_by(requirements, links.drop_last()), links.last().1)
    }
}

/// The message on a section of the retirement plan, if it is traced to
/// anything.
pub open spec fn retirement_report(section: (Seq<char>, Seq<Seq<char>>)) -> Option<Seq<char>> {
    if section.1.len() > 0 {
        Some(retirement_text(section.0))
    } else {
        None
    }
}

/// `id` is the target of one of the links.
pub open spec fn is_target(links: Seq<(Seq<char>, Seq<char>)>, id: Seq<char>) -> bool {
    exists|k: int| 0 <= k < links.len() && (#[trigger] links[k]).1 == id
}

/// Where a link in order may point, kind by kind of its source: a test to
/// a requirement or a risk, a risk to a requirement or a design, a design
/// and a section of either manual to a requirement, and a section of the
/// retirement plan nowhere.
pub proof fn lemma_allow_list(t: TableTexts, target: Seq<char>)
    ensures
        t.allows(Spec::Tests, target) <==> t.requirements.contains(target) || has_key(
            t.risks,
            target,
        ),
        t.allows(Spec::Risks, target) <==> t.requirements.contains(target) || has_key(
            t.designs,
            target,
        ),
        t.allows(Spec::Design, target) <==> t.requirements.contains(target),
        t.allows(Spec::UserManual, target) <==> t.requirements.contains(target),
        t.allows(Spec::OperatorManual, target) <==> t.requirements.contains(target),
        !t.allows(Spec::RetirementPlan, target),
        !t.allows(Spec::Requirements, target),
{
    if t.requirements.contains(target) {
        assert(t.defines(Spec::Requirements, target));
    }
    if has_key(t.risks, target) {
        assert(t.defines(Spec::Risks, target));
    }
    if has_key(t.designs, target) {
        assert(t.defines(Spec::Design, target));
    }
}

/// The links of a kind of document give no error exactly when each of them
/// is in order: nothing but what the table of `may_point_to` holds is let
/// through.
pub proof fn lemma_links_closed(t: TableTexts, source: Spec)
    ensures
        t.link_errors(source).len() == 0 <==> forall|i: int, j: int|
            0 <= i < t.sections(source).len() && 0 <= j < t.sections(source)[i].1.len()
                ==> t.allows(source, #[trigger] t.sections(source)[i].1[j]),
{
    let entries = t.sections(source);
    let check = |link: (Seq<char>, Seq<char>)| t.link_report(source, link);
    lemma_reports_empty(links(entries), check);
    if t.link_errors(source).len() == 0 {
        assert forall|i: int, j: int|
            0 <= i < entries.len() && 0 <= j < entries[i].1.len() implies t.allows(
            source,
            #[trigger] entries[i].1[j],
        ) by {
            lemma_links_hold(entries, i, j);
            let k = choose|k: int|
                0 <= k < links(entries).len() && links(entries)[k] == (
                    entries[i].0,
                    entries[i].1[j],
                );
            assert(check(links(entries)[k]).is_none());
        }
    }
    if forall|i: int, j: int|
        0 <= i < entries.len() && 0 <= j < entries[i].1.len() ==> t.allows(
            source,
            #[trigger] entries[i].1[j],
        ) {
        assert forall|k: int| 0 <= k < links(entries).len() implies check(
            #[trigger] links(entries)[k],
        ).is_none() by {
            lemma_links_come_from(entries, k);
        }
    }
}

/// A link that is not in order is reported, among the errors of its kind of
/// document and among all errors. The message says that the target is
/// defined elsewhere exactly when it is.
pub proof fn lemma_link_reported(t: TableTexts, source: Spec, i: int, j: int)
    requires
        links_checked(source),
        0 <= i < t.sections(source).len(),
        0 <= j < t.sections(source)[i].1.len(),
        !t.allows(source, t.sections(source)[i].1[j]),
    ensures
        t.link_errors(source).contains(
            violation_text(
                source,
                t.sections(source)[i].0,
                t.finds_elsewhere(source, t.sections(source)[i].1[j]),
            ),
        ),
        t.errors().contains(
            violation_text(
                source,
                t.sections(source)[i].0,
                t.finds_elsewhere(source, t.sections(source)[i].1[j]),
            ),
        ),
{
    let entries = t.sections(source);
    let message = violation_text(source, entries[i].0, t.finds_elsewhere(source, entries[i].1[j]));
    lemma_links_hold(entries, i, j);
    let k = choose|k: int|
        0 <= k < links(entries).len() && links(entries)[k] == (entries[i].0, entries[i].1[j]);
    lemma_reports_contains(
        links(entries),
        |link: (Seq<char>, Seq<char>)| t.link_report(source, link),
        k,
    );
    lemma_errors_hold(t, message);
}

/// What is among the errors of one check is among all errors.
pub proof fn lemma_errors_hold(t: TableTexts, message: Seq<char>)
    ensures
        t.errors().contains(message) <==> {
            ||| t.link_errors(Spec::Tests).contains(message)
            ||| t.coverage_errors().contains(message)
            ||| t.link_errors(Spec::Risks).contains(message)
            ||| t.link_errors(Spec::Design).contains(message)
            ||| t.link_errors(Spec::UserManual).contains(message)
            ||| t.link_errors(Spec::OperatorManual).contains(message)
            ||| t.retirement_errors().contains(message)
        },
{
    let a = t.link_errors(Spec::Tests);
    let b = t.coverage_errors();
    let c = t.link_errors(Spec::Risks);
    let d = t.link_errors(Spec::Design);
    let e = t.link_errors(Spec::UserManual);
    let f = t.link_errors(Spec::OperatorManual);
    let g = t.retirement_errors();
    lemma_joined_contains(a, b, message);
    lemma_joined_contains(a + b, c, message);
    lemma_joined_contains(a + b + c, d, message);
    lemma_joined_contains(a + b + c + d, e, message);
    lemma_joined_contains(a + b + c + d + e, f, message);
    lemma_joined_contains(a + b + c + d + e + f, g, message);
}

/// The message on a target that is defined elsewhere differs from the
/// message on a target that is defined nowhere.
pub proof fn lemma_violation_tells(source: Spec, id: Seq<char>)
    ensures
        violation_text(source, id, true) != violation_text(source, id, false),
{
    reveal_strlit("a design or test");
    reveal_strlit("a risk or test");
    reveal_strlit("a risk, test or another design");
    reveal_strlit("something else");
    let head = subject_text(source) + " can only be traced to existing "@ + targets_text(source)
        + ", but "@ + id + " "@ + verb_text(source) + " "@;
    let elsewhere = violation_text(source, id, true);
    let nowhere = violation_text(source, id, false);
    assert(elsewhere[head.len() as int] == elsewhere_text(source)[0]);
    assert(nowhere[head.len() as int] == "something else"@[0]);
}

/// What is left after the targets of links were taken out of requirements
/// of which none stands twice: the requirements that are the target of none
/// of the links, each once.
pub proof fn lemma_uncovered_by(requirements: Seq<Seq<char>>, links: Seq<(Seq<char>, Seq<char>)>)
    requires
        requirements.no_duplicates(),
    ensures
        uncovered_by(requirements, links).no_duplicates(),
        forall|id: Seq<char>|
            #[trigger] uncovered_by(requirements, links).contains(id) <==> requirements.contains(
                id,
            ) && !is_target(links, id),
    decreases links.len(),
{
    if links.len() > 0 {
        let before = uncovered_by(requirements, links.drop_last());
        lemma_uncovered_by(requirements, links.drop_last());
        lemma_without_item(before, links.last().1);
        assert forall|id: Seq<char>| #[trigger]
            uncovered_by(requirements, links).contains(id) <==> requirements.contains(id)
                && !is_target(links, id) by {
            assert(without_item(before, links.last().1).contains(id) <==> before.contains(id) && id
                != links.last().1);
            assert(before.contains(id) <==> requirements.contains(id) && !is_target(
                links.drop_last(),
                id,
            ));
            if is_target(links.drop_last(), id) {
                let k = choose|k: int|
                    0 <= k < links.drop_last().len() && (#[trigger] links.drop_last()[k]).1 == id;
                assert(links[k].1 == id);
            }
            if is_target(links, id) && id != links.last().1 {
                let k = choose|k: int| 0 <= k < links.len() && (#[trigger] links[k]).1 == id;
                assert(links.drop_last()[k].1 == id);
            }
            if id == links.last().1 {
                assert(links[links.len() - 1].1 == id);
            }
        }
    }
}

/// The requirements reported as uncovered are the requirements to which no
/// test is traced: every one of them, each once, and no other. They are
/// reported exactly when there are any.
pub proof fn lemma_coverage(t: TableTexts)
    requires
        t.requirements.no_duplicates(),
    ensures
        t.uncovered().no_duplicates(),
        forall|id: Seq<char>| #[trigger]
            t.uncovered().contains(id) <==> t.requirements.contains(id) && !is_target(
                links(t.tests),
                id,
            ),
        t.coverage_errors() == if exists|id: Seq<char>| #[trigger]
            t.requirements.contains(id) && !is_target(links(t.tests), id) {
            seq![uncovered_text(debug_listing(t.uncovered()))]
        } else {
            Seq::empty()
        },
        t.uncovered().len() > 0 ==> t.errors().contains(
            uncovered_text(debug_listing(t.uncovered())),
        ),
{
    lemma_uncovered_by(t.requirements, links(t.tests));
    if t.uncovered().len() > 0 {
        assert(t.coverage_errors()[0] == uncovered_text(debug_listing(t.uncovered())));
        lemma_errors_hold(t, uncovered_text(debug_listing(t.uncovered())));
    }
    if t.uncovered().len() > 0 {
        assert(t.uncovered().contains(t.uncovered()[0]));
    }
    if exists|id: Seq<char>| #[trigger]
        t.requirements.contains(id) && !is_target(links(t.tests), id) {
        let id = choose|id: Seq<char>| #[trigger]
            t.requirements.contains(id) && !is_target(links(t.tests), id);
        assert(t.uncovered().contains(id));
    }
}

/// A section of the retirement plan that is traced to anything is an error,
/// whatever it is traced to.
pub proof fn lemma_retirement_traced(t: TableTexts, i: int)
    requires
        0 <= i < t.retirement.len(),
        t.retirement[i].1.len() > 0,
    ensures
        t.retirement_errors().contains(retirement_text(t.retirement[i].0)),
        t.errors().contains(retirement_text(t.retirement[i].0)),
        t.errors().len() > 0,
{
    lemma_reports_contains(
        t.retirement,
        |section: (Seq<char>, Seq<Seq<char>>)| retirement_report(section),
        i,
    );
    lemma_errors_hold(t, retirement_text(t.retirement[i].0));
}

impl Spec {
    /// Whether a link from a section of this kind may point to a section of
    /// kind `target`.
    pub fn may_point_to(&self, target: Spec) -> (allowed: bool)
        ensures
            allowed == may_point_to(*self, target),
    {
        match (*self, target) {
            (Spec::Tests, Spec::Requirements) => true,
            (Spec::Tests, Spec::Risks) => true,
            (Spec::Risks, Spec::Requirements) => true,
            (Spec::Risks, Spec::Design) => true,
            (Spec::Design, Spec::Requirements) => true,
            (Spec::UserManual, Spec::Requirements) => true,
            (Spec::OperatorManual, Spec::Requirements) => true,
            _ => false,
        }
    }

    /// Whether the target of a misdirected link from a section of this kind
    /// is looked up among the sections of kind `other`.
    pub fn looks_in(&self, other: Spec) -> (looked: bool)
        ensures
            looked == looks_in(*self, other),
    {
        match (*self, other) {
            (Spec::Tests, Spec::Design) => true,
            (Spec::Tests, Spec::Tests) => true,
            (Spec::Risks, Spec::Risks) => true,
            (Spec::Risks, Spec::Tests) => true,
            (Spec::Design, Spec::Risks) => true,
            (Spec::Design, Spec::Tests) => true,
            (Spec::Design, Spec::Design) => true,
            (Spec::UserManual, Spec::Risks) => true,
            (Spec::UserManual, Spec::Tests) => true,
            (Spec::UserManual, Spec::Design) => true,
            (Spec::OperatorManual, Spec::Risks) => true,
            (Spec::OperatorManual, Spec::Tests) => true,
            (Spec::OperatorManual, Spec::Design) => true,
            _ => false,
        }
    }
}

/// How a message calls the sections of a kind.
pub fn subject(source: Spec) -> (subject: &'static str)
    ensures
        subject@ == subject_text(source),
{
    match source {
        Spec::Tests => "Tests",
        Spec::Risks => "Risks",
        Spec::Design => "Designs",
        Spec::UserManual => "Users",
        Spec::OperatorManual => "Operators",
        Spec::Requirements => "Requirements",
        Spec::RetirementPlan => "Retirement plan",
    }
}

/// How a message calls what the sections of a kind may be traced to.
pub fn targets(source: Spec) -> (targets: &'static str)
    ensures
        targets@ == targets_text(source),
{
    match source {
        Spec::Tests => "risks or requirements",
        Spec::Risks => "requirements or designs",
        _ => "requirements",
    }
}

/// How a message says that a section is traced.
pub fn verb(source: Spec) -> (verb: &'static str)
    ensures
        verb@ == verb_text(source),
{
    match source {
        Spec::Risks => "traces to",
        _ => "is traced to",
    }
}

/// How a message calls a target that is defined where `looks_in` looks.
pub fn elsewhere(source: Spec) -> (elsewhere: &'static str)
    ensures
        elsewhere@ == elsewhere_text(source),
{
    match source {
        Spec::Tests => "a design or test",
        Spec::Risks => "a risk or test",
        _ => "a risk, test or another design",
    }
}

/// The message on a section of kind `source` with a misdirected link.
pub fn violation_message(source: Spec, id: &str, elsewhere: bool) -> (message: String)
    ensures
        message@ == violation_text(source, id@, elsewhere),
{
    let mut message = String::from_str(subject(source));
    message.append(" can only be traced to existing ");
    message.append(targets(source));
    message.append(", but ");
    message.append(id);
    message.append(" ");
    message.append(verb(source));
    message.append(" ");
    if elsewhere {
        message.append(self::elsewhere(source));
    } else {
        message.append("something else");
    }
    message
}

/// The message on requirements that no test covers.
pub fn uncovered_message(listing: &str) -> (message: String)
    ensures
        message@ == uncovered_text(listing@),
{
    let mut message = String::from_str("All requirements must be covered by tests, but ");
    message.append(listing);
    message.append(" are not");
    message
}

/// The message on a section of the retirement plan that is traced.
pub fn retirement_message(id: &str) -> (message: String)
    ensures
        message@ == retirement_text(id@),
{
    let mut message = String::from_str("Retirement plan cannot be traced, but ");
    message.append(id);
    message.append(" is traced to something else");
    message
}

/// The tables of a specification: the requirements, and the trace table of
/// each document.
pub struct Tables<'a> {
    pub requirements: &'a Requirements,
    pub designs: &'a Trace,
    pub risks: &'a Trace,
    pub tests: &'a Trace,
    pub users: &'a Trace,
    pub operators: &'a Trace,
    pub retirement: &'a Trace,
}

impl<'a> View for Tables<'a> {
    type V = TableTexts;

    open spec fn view(&self) -> TableTexts {
        TableTexts {
            requirements: keys(requirement_entries(*self.requirements)),
            designs: trace_entries(*self.designs),
            risks: trace_entries(*self.risks),
            tests: trace_entries(*self.tests),
            users: trace_entries(*self.users),
            operators: trace_entries(*self.operators),
            retirement: trace_entries(*self.retirement),
        }
    }
}

impl<'a> Tables<'a> {
    /// Whether `id` is an identifier of the given kind.
    pub fn defines(&self, kind: Spec, id: &str) -> (found: bool)
        ensures
            found == self@.defines(kind, id@),
    {
        proof {
            lemma_has_key(requirement_entries(*self.requirements), id@);
        }
        match kind {
            Spec::Requirements => requirements_contain(self.requirements, id),
            Spec::Design => trace_contains(self.designs, id),
            Spec::Risks => trace_contains(self.risks, id),
            Spec::Tests => trace_contains(self.tests, id),
            Spec::UserManual => trace_contains(self.users, id),
            Spec::OperatorManual => trace_contains(self.operators, id),
            Spec::RetirementPlan => trace_contains(self.retirement, id),
        }
    }

    /// Whether a link from a section of kind `source` to `target` is in
    /// order.
    pub fn allows(&self, source: Spec, target: &str) -> (allowed: bool)
        ensures
            allowed == self@.allows(source, target@),
    {
        (source.may_point_to(Spec::Requirements) && self.defines(Spec::Requirements, target))
            || (source.may_point_to(Spec::Design) && self.defines(Spec::Design, target))
            || (source.may_point_to(Spec::Risks) && self.defines(Spec::Risks, target))
            || (source.may_point_to(Spec::Tests) && self.defines(Spec::Tests, target))
            || (source.may_point_to(Spec::UserManual) && self.defines(Spec::UserManual, target))
            || (source.may_point_to(Spec::OperatorManual) && self.defines(Spec::OperatorManual, target))
            || (source.may_point_to(Spec::RetirementPlan) && self.defines(Spec::RetirementPlan, target))
    }

    /// Whether the target of a link from a section of kind `source` is
    /// defined in one of the kinds in which it is looked up.
    pub fn finds_elsewhere(&self, source: Spec, target: &str) -> (found: bool)
        ensures
            found == self@.finds_elsewhere(source, target@),
    {
        (source.looks_in(Spec::Requirements) && self.defines(Spec::Requirements, target))
            || (source.looks_in(Spec::Design) && self.defines(Spec::Design, target))
            || (source.looks_in(Spec::Risks) && self.defines(Spec::Risks, target))
            || (source.looks_in(Spec::Tests) && self.defines(Spec::Tests, target))
            || (source.looks_in(Spec::UserManual) && self.defines(Spec::UserManual, target))
            || (source.looks_in(Spec::OperatorManual) && self.defines(Spec::OperatorManual, target))
            || (source.looks_in(Spec::RetirementPlan) && self.defines(Spec::RetirementPlan, target))
    }

    /// The trace table of the document of a kind.
    pub fn table(&self, kind: Spec) -> (trace: &'a Trace)
        requires
            kind != Spec::Requirements,
        ensures
            trace_entries(*trace) == self@.sections(kind),
    {
        match kind {
            Spec::Requirements => vstd::pervasive::unreached(),
            Spec::Design => self.designs,
            Spec::Risks => self.risks,
            Spec::Tests => self.tests,
            Spec::UserManual => self.users,
            Spec::OperatorManual => self.operators,
            Spec::RetirementPlan => self.retirement,
        }
    }

    /// Checks the links of the document of kind `source`, and adds a message
    /// for each link that is not in order.
    pub fn check_links(&self, source: Spec, errors: &mut Vec<String>)
        requires
            links_checked(source),
        ensures
            texts(final(errors)@) == texts(old(errors)@) + self@.link_errors(source),
    {
        let found = links_of(self.table(source));
        let ghost all = links(self@.sections(source));
        let ghost before = texts(errors@);
        let ghost check = |link: (Seq<char>, Seq<char>)| self@.link_report(source, link);
        let mut i: usize = 0;
        while i < found.len()
            invariant
                i <= found.len(),
                link_texts(found@) == all,
                all == links(self@.sections(source)),
                check == |link: (Seq<char>, Seq<char>)| self@.link_report(source, link),
                texts(errors@) == before + reports(all.take(i as int), check),
            decreases found.len() - i,
        {
            proof {
                lemma_reports_take(all, i as int, check);
            }
            let (id, target) = found[i];
            if !self.allows(source, target.as_str()) {
                let elsewhere = self.finds_elsewhere(source, target.as_str());
                report(errors, violation_message(source, id.as_str(), elsewhere));
            }
            i += 1;
        }
        assert(all.take(i as int) =~= all);
    }

    /// Checks that every requirement is the target of a link of a test, and
    /// adds a message that names the requirements that are not.
    pub fn check_coverage(&self, errors: &mut Vec<String>)
        ensures
            texts(final(errors)@) == texts(old(errors)@) + self@.coverage_errors(),
    {
        let found = links_of(self.tests);
        let ghost all = links(self@.tests);
        let mut uncovered = requirement_ids(self.requirements);
        let mut i: usize = 0;
        while i < found.len()
            invariant
                i <= found.len(),
                link_texts(found@) == all,
                set_items(uncovered) == uncovered_by(self@.requirements, all.take(i as int)),
            decreases found.len() - i,
        {
            assert(all.take(i + 1).drop_last() =~= all.take(i as int));
            let (_, target) = found[i];
            set_swap_remove(&mut uncovered, target.as_str());
            i += 1;
        }
        assert(all.take(i as int) =~= all);
        if set_len(&uncovered) > 0 {
            let listing = set_listing(&uncovered);
            report(errors, uncovered_message(listing.as_str()));
        }
    }

    /// Checks that no section of the retirement plan is traced, and adds a
    /// message for each section that is.
    pub fn check_retirement(&self, errors: &mut Vec<String>)
        ensures
            texts(final(errors)@) == texts(old(errors)@) + self@.retirement_errors(),
    {
        let ghost all = self@.retirement;
        let ghost before = texts(errors@);
        let ghost check = |section: (Seq<char>, Seq<Seq<char>>)| retirement_report(section);
        let n = trace_len(self.retirement);
        let mut i: usize = 0;
        while i < n
            invariant
                i <= n,
                n == all.len(),
                all == trace_entries(*self.retirement),
                check == |section: (Seq<char>, Seq<Seq<char>>)| retirement_report(section),
                texts(errors@) == before + reports(all.take(i as int), check),
            decreases n - i,
        {
            proof {
                lemma_reports_take(all, i as int, check);
            }
            if let Some((id, targets)) = trace_entry(self.retirement, i) {
                if set_len(targets) > 0 {
                    report(errors, retirement_message(id.as_str()));
                }
            }
            i += 1;
        }
        assert(all.take(i as int) =~= all);
    }

    /// Checks the tables against each other. Hands out all errors, in the
    /// order in which they are looked for.
    pub fn check(&self) -> (errors: Vec<String>)
        ensures
            texts(errors@) == self@.errors(),
    {
        let mut errors: Vec<String> = Vec::new();
        self.check_links(Spec::Tests, &mut errors);
        self.check_coverage(&mut errors);
        self.check_links(Spec::Risks, &mut errors);
        self.check_links(Spec::Design, &mut errors);
        self.check_links(Spec::UserManual, &mut errors);
        self.check_links(Spec::OperatorManual, &mut errors);
        self.check_retirement(&mut errors);
        errors
    }
}

} // verus!
