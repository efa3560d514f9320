//! The kinds of document that make up a specification, and what is fixed for
//! each of them: the file it lives in, its title and the prefix of its
//! identifiers.

use vstd::prelude::*;

verus! {

/// A kind of specification document.
///
/// Requirements are gathered from feature files; every other kind is one
/// markdown file.
#[derive(Debug, Clone, Copy, PartialEq, Eq, Structural)]
pub enum Spec {
    Requirements,
    Design,
    Risks,
    Tests,
    UserManual,
    OperatorManual,
    RetirementPlan,
}

impl Spec {
    /// The name of the markdown file of a kind, in specifications.
    pub open spec fn file_name_text(self) -> Seq<char> {
        match self {
            Spec::Requirements => "features"@,
            Spec::Design => "design_specification.md"@,
            Spec::Risks => "risk_assessment.md"@,
            Spec::Tests => "verification_plan.md"@,
            Spec::UserManual => "user_manual.md"@,
            Spec::OperatorManual => "operator_manual.md"@,
            Spec::RetirementPlan => "retirement_plan.md"@,
        }
    }

    /// The title that the markdown file of a kind must carry, in
    /// specifications.
    pub open spec fn title_text(self) -> Seq<char> {
        match self {
            Spec::Requirements => "User requirements specification"@,
            Spec::Design => "Design specification"@,
            Spec::Risks => "Risk assessment"@,
            Spec::Tests => "Verification plan"@,
            Spec::UserManual => "User manual"@,
            Spec::OperatorManual => "Operator manual"@,
            Spec::RetirementPlan => "Retirement plan"@,
        }
    }

    /// The prefix that every identifier of a kind starts with, in
    /// specifications.
    pub open spec fn prefix_text(self) -> Seq<char> {
        match self {
            Spec::Requirements => "FS-"@,
            Spec::Design => "DS-"@,
            Spec::Risks => "RISK-"@,
            Spec::Tests => "TEST-"@,
            Spec::UserManual => "USER-"@,
            Spec::OperatorManual => "OPERATOR-"@,
            Spec::RetirementPlan => "RETIRE-"@,
        }
    }

    /// How messages call a kind, in specifications.
    pub open spec fn label_text(self) -> Seq<char> {
        match self {
            Spec::Requirements => "requirements"@,
            Spec::Design => "design specification"@,
            Spec::Risks => "risk assessment"@,
            Spec::Tests => "verification plan"@,
            Spec::UserManual => "user manual"@,
            Spec::OperatorManual => "operator manual"@,
            Spec::RetirementPlan => "retirement plan"@,
        }
    }

    /// The heading under which a kind stands where the whole specification
    /// is laid out as one text, in specifications.
    pub open spec fn heading_text(self) -> Seq<char> {
        match self {
            Spec::Requirements => "User requirements specification"@,
            Spec::Design => "Design specification"@,
            Spec::Risks => "Risk assessment"@,
            Spec::Tests => "Test plan"@,
            Spec::UserManual => "User manual"@,
            Spec::OperatorManual => "Operator manual"@,
            Spec::RetirementPlan => "Retirement plan"@,
        }
    }

    /// The markdown file that holds the document of this kind. Requirements
    /// have no such file: they live in a directory of feature files.
    pub fn file_name(&self) -> (name: &'static str)
        requires
            *self != Spec::Requirements,
        ensures
            name@ == self.file_name_text(),
    {
        match self {
            Spec::Requirements => vstd::pervasive::unreached(),
            Spec::Design => "design_specification.md",
            Spec::Risks => "risk_assessment.md",
            Spec::Tests => "verification_plan.md",
            Spec::UserManual => "user_manual.md",
            Spec::OperatorManual => "operator_manual.md",
            Spec::RetirementPlan => "retirement_plan.md",
        }
    }

    /// The title that the document of this kind must carry. Requirements
    /// have no single document, hence no title to check.
    pub fn title(&self) -> (title: &'static str)
        requires
            *self != Spec::Requirements,
        ensures
            title@ == self.title_text(),
    {
        match self {
            Spec::Requirements => vstd::pervasive::unreached(),
            Spec::Design => "Design specification",
            Spec::Risks => "Risk assessment",
            Spec::Tests => "Verification plan",
            Spec::UserManual => "User manual",
            Spec::OperatorManual => "Operator manual",
            Spec::RetirementPlan => "Retirement plan",
        }
    }

    /// The heading under which this kind stands where the whole
    /// specification is laid out as one text.
    pub fn heading(&self) -> (heading: &'static str)
        ensures
            heading@ == self.heading_text(),
    {
        match self {
            Spec::Requirements => "User requirements specification",
            Spec::Design => "Design specification",
            Spec::Risks => "Risk assessment",
            Spec::Tests => "Test plan",
            Spec::UserManual => "User manual",
            Spec::OperatorManual => "Operator manual",
            Spec::RetirementPlan => "Retirement plan",
        }
    }

    /// The prefix that every identifier of this kind starts with.
    pub fn prefix(&self) -> (prefix: &'static str)
        ensures
            prefix@ == self.prefix_text(),
    {
        match self {
            Spec::Requirements => "FS-",
            Spec::Design => "DS-",
            Spec::Risks => "RISK-",
            Spec::Tests => "TEST-",
            Spec::UserManual => "USER-",
            Spec::OperatorManual => "OPERATOR-",
            Spec::RetirementPlan => "RETIRE-",
        }
    }

    /// How messages call this kind.
    pub fn label(&self) -> (label: &'static str)
        ensures
            label@ == self.label_text(),
    {
        match self {
            Spec::Requirements => "requirements",
            Spec::Design => "design specification",
            Spec::Risks => "risk assessment",
            Spec::Tests => "verification plan",
            Spec::UserManual => "user manual",
            Spec::OperatorManual => "operator manual",
            Spec::RetirementPlan => "retirement plan",
        }
    }
}

} // verus!
