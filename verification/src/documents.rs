//! The whole specification: the requirements and the six documents, checked
//! one by one and against each other.

use crate::document::Document;
use crate::document::document_errors;
use crate::document::sound;
use crate::document::Error;
use crate::features::Feature;
use crate::features::FeatureFile;
use crate::features::found_in;
use crate::features::get_specification;
use crate::features::lemma_requirements_sound;
use crate::features::may_come_of;
use crate::graph::Tables;
use crate::graph::TableTexts;
use crate::kind::Spec;
use crate::markdown::markdown_events;
use crate::messages::report;
use crate::messages::texts;
use crate::parser::parsed;
use crate::tables::keys;
use crate::tables::requirement_entries;
use crate::tables::Requirements;
use vstd::prelude::*;

verus! {

/// The tables of a specification, given its requirements and its documents.
pub open spec fn tables_of(
    requirements: Requirements,
    design_specification: Document,
    risk_assessment: Document,
    verification_plan: Document,
    user_manual: Document,
    operator_manual: Document,
    retirement_plan: Document,
) -> TableTexts {
    TableTexts {
        requirements: keys(requirement_entries(requirements)),
        designs: design_specification.entries(),
        risks: risk_assessment.entries(),
        tests: verification_plan.entries(),
        users: user_manual.entries(),
        operators: operator_manual.entries(),
        retirement: retirement_plan.entries(),
    }
}

/// Checks the documents of a specification against each other: that every
/// link points where a link of its kind of document may point, that every
/// requirement is the target of a link of a test, and that the retirement
/// plan is not traced. Succeeds when there is no error, and hands out all
/// errors otherwise.
pub fn check_documentation(
    requirements: &Requirements,
    verification_plan: &Document,
    risk_assessment: &Document,
    design_specification: &Document,
    user_manual: &Document,
    operator_manual: &Document,
    retirement_plan: &Document,
) -> (checked: Result<(), Error>)
    ensures
        match checked {
            Ok(_) => tables_of(
                *requirements,
                *design_specification,
                *risk_assessment,
                *verification_plan,
                *user_manual,
                *operator_manual,
                *retirement_plan,
            ).errors().len() == 0,
            Err(error) => {
                &&& texts(error.0@) == tables_of(
                    *requirements,
                    *design_specification,
                    *risk_assessment,
                    *verification_plan,
                    *user_manual,
                    *operator_manual,
                    *retirement_plan,
                ).errors()
                &&& error.0@.len() > 0
            },
        },
{
    let tables = Tables {
        requirements,
        designs: design_specification.trace(),
        risks: risk_assessment.trace(),
        tests: verification_plan.trace(),
        users: user_manual.trace(),
        operators: operator_manual.trace(),
        retirement: retirement_plan.trace(),
    };
    let errors = tables.check();
    if errors.len() == 0 {
        Ok(())
    } else {
        Err(Error(errors))
    }
}

/// A specification that has passed every check: its requirements and its
/// six documents.
#[derive(Debug)]
pub struct Documents {
    requirements: Requirements,
    design_specification: Document,
    risk_assessment: Document,
    verification_plan: Document,
    user_manual: Document,
    operator_manual: Document,
    retirement_plan: Document,
}

impl Documents {
    #[verifier::type_invariant]
    spec fn checked(self) -> bool {
        self.tables().errors().len() == 0
    }

    /// The tables of the specification.
    pub closed spec fn tables(&self) -> TableTexts {
        tables_of(
            self.requirements,
            self.design_specification,
            self.risk_assessment,
            self.verification_plan,
            self.user_manual,
            self.operator_manual,
            self.retirement_plan,
        )
    }

    /// The parts of the specification: its requirements, and its documents
    /// from the design specification to the retirement plan.
    pub closed spec fn parts(&self) -> (
        Requirements,
        Document,
        Document,
        Document,
        Document,
        Document,
        Document,
    ) {
        (
            self.requirements,
            self.design_specification,
            self.risk_assessment,
            self.verification_plan,
            self.user_manual,
            self.operator_manual,
            self.retirement_plan,
        )
    }

    /// Puts a specification together from its requirements and its
    /// documents, if they pass the checks across the documents. Hands out
    /// all errors otherwise.
    pub fn try_new(
        requirements: Requirements,
        design_specification: Document,
        risk_assessment: Document,
        verification_plan: Document,
        user_manual: Document,
        operator_manual: Document,
        retirement_plan: Document,
    ) -> (made: Result<Documents, Error>)
        ensures
            match made {
                Ok(documents) => {
                    &&& documents.tables().errors().len() == 0
                    &&& documents.parts() == (
                        requirements,
                        design_specification,
                        risk_assessment,
                        verification_plan,
                        user_manual,
                        operator_manual,
                        retirement_plan,
                    )
                },
                Err(error) => {
                    &&& texts(error.0@) == tables_of(
                        requirements,
                        design_specification,
                        risk_assessment,
                        verification_plan,
                        user_manual,
                        operator_manual,
                        retirement_plan,
                    ).errors()
                    &&& error.0@.len() > 0
                },
            },
    {
        match check_documentation(
            &requirements,
            &verification_plan,
            &risk_assessment,
            &design_specification,
            &user_manual,
            &operator_manual,
            &retirement_plan,
        ) {
            Ok(_) => Ok(
                Documents {
                    requirements,
                    design_specification,
                    risk_assessment,
                    verification_plan,
                    user_manual,
                    operator_manual,
                    retirement_plan,
                },
            ),
            Err(error) => Err(error),
        }
    }

    /// The tables of the specification. They hold no error across the
    /// documents.
    pub fn trace_tables(&self) -> (tables: Tables<'_>)
        ensures
            tables@ == self.tables(),
            self.tables().errors().len() == 0,
    {
        proof {
            use_type_invariant(self);
        }
        Tables {
            requirements: &self.requirements,
            designs: self.design_specification.trace(),
            risks: self.risk_assessment.trace(),
            tests: self.verification_plan.trace(),
            users: self.user_manual.trace(),
            operators: self.operator_manual.trace(),
            retirement: self.retirement_plan.trace(),
        }
    }

    /// The requirements.
    pub fn requirements(&self) -> (requirements: &Requirements)
        ensures
            *requirements == self.parts().0,
    {
        &self.requirements
    }

    /// The design specification.
    pub fn design_specification(&self) -> (document: &Document)
        ensures
            *document == self.parts().1,
    {
        &self.design_specification
    }

    /// The risk assessment.
    pub fn risk_assessment(&self) -> (document: &Document)
        ensures
            *document == self.parts().2,
    {
        &self.risk_assessment
    }

    /// The verification plan.
    pub fn verification_plan(&self) -> (document: &Document)
        ensures
            *document == self.parts().3,
    {
        &self.verification_plan
    }

    /// The user manual.
    pub fn user_manual(&self) -> (document: &Document)
        ensures
            *document == self.parts().4,
    {
        &self.user_manual
    }

    /// The operator manual.
    pub fn operator_manual(&self) -> (document: &Document)
        ensures
            *document == self.parts().5,
    {
        &self.operator_manual
    }

    /// The retirement plan.
    pub fn retirement_plan(&self) -> (document: &Document)
        ensures
            *document == self.parts().6,
    {
        &self.retirement_plan
    }
}

/// The errors of the document of a kind by itself, given its text or the
/// message on why it could not be read.
pub open spec fn content_errors(content: Result<String, String>, spec: Spec) -> Seq<Seq<char>> {
    match content {
        Err(message) => seq![message@],
        Ok(text) => document_errors(markdown_events(text@), spec),
    }
}

/// The sections of the document of a kind, as they are read from its text.
pub open spec fn sections_in(content: Result<String, String>, spec: Spec) -> Seq<
    (Seq<char>, Seq<Seq<char>>),
> {
    parsed(markdown_events(content.unwrap()@), spec).0
}

/// Reads the document of a kind from its text, and adds its errors to
/// `errors`. `content` holds the text, or the message on why it could not
/// be read. Hands out the document if it has no error by itself.
pub fn get_document(content: Result<String, String>, type_: Spec, errors: &mut Vec<String>) -> (found:
    Option<Document>)
    requires
        type_ != Spec::Requirements,
    ensures
        texts(final(errors)@) == texts(old(errors)@) + content_errors(content, type_),
        found.is_some() == (content_errors(content, type_).len() == 0),
        found.is_some() ==> {
            &&& found.unwrap().text_view() == content.unwrap()@
            &&& found.unwrap().entries() == sections_in(content, type_)
            &&& sound(found.unwrap().entries(), type_)
        },
{
    match content {
        Err(message) => {
            report(errors, message);
            None
        },
        Ok(text) => match Document::try_new(text, type_) {
            Ok(document) => {
                Some(document)
            },
            Err(Error(mut found)) => {
                errors.append(&mut found);
                None
            },
        },
    }
}

/// What a specification is checked from: its feature files, and the text of
/// each of its documents. Where something could not be read, the message on
/// that stands in its place.
#[derive(Debug)]
pub struct Sources {
    pub features: Result<Vec<FeatureFile>, String>,
    pub design_specification: Result<String, String>,
    pub risk_assessment: Result<String, String>,
    pub verification_plan: Result<String, String>,
    pub user_manual: Result<String, String>,
    pub operator_manual: Result<String, String>,
    pub retirement_plan: Result<String, String>,
}

impl Sources {
    /// The errors of the requirements and of each document by itself, in
    /// the order in which they are looked for: the requirements, the design
    /// specification, the risk assessment, the verification plan, the user
    /// manual, the operator manual and the retirement plan.
    pub open spec fn own_errors(self, readings: Seq<Result<Feature<Seq<char>>, Seq<char>>>) -> Seq<
        Seq<char>,
    > {
        found_in(self.features, readings).errors + content_errors(
            self.design_specification,
            Spec::Design,
        ) + content_errors(self.risk_assessment, Spec::Risks) + content_errors(
            self.verification_plan,
            Spec::Tests,
        ) + content_errors(self.user_manual, Spec::UserManual) + content_errors(
            self.operator_manual,
            Spec::OperatorManual,
        ) + content_errors(self.retirement_plan, Spec::RetirementPlan)
    }

    /// The tables of the specification, as they are read from the sources.
    pub open spec fn tables(self, readings: Seq<Result<Feature<Seq<char>>, Seq<char>>>) -> TableTexts {
        TableTexts {
            requirements: keys(found_in(self.features, readings).entries),
            designs: sections_in(self.design_specification, Spec::Design),
            risks: sections_in(self.risk_assessment, Spec::Risks),
            tests: sections_in(self.verification_plan, Spec::Tests),
            users: sections_in(self.user_manual, Spec::UserManual),
            operators: sections_in(self.operator_manual, Spec::OperatorManual),
            retirement: sections_in(self.retirement_plan, Spec::RetirementPlan),
        }
    }

    /// All errors of the specification. Where the requirements or a document
    /// have errors by themselves, these are the errors. Otherwise the errors
    /// are those across the documents.
    pub open spec fn errors(self, readings: Seq<Result<Feature<Seq<char>>, Seq<char>>>) -> Seq<
        Seq<char>,
    > {
        if self.own_errors(readings).len() > 0 {
            self.own_errors(readings)
        } else {
            self.tables(readings).errors()
        }
    }
}

/// Checks a specification: gathers its requirements, reads its documents,
/// checks each by itself and all against each other. Hands out the
/// specification if there is no error, and all errors otherwise.
///
/// What the feature files give is read once. Of a feature file that is not
/// well-formed Gherkin no more is known than that it gives an error.
pub fn get_documents(sources: Sources) -> (checked: Result<Documents, Error>)
    ensures
        exists|readings: Seq<Result<Feature<Seq<char>>, Seq<char>>>|
            {
                &&& #[trigger] may_come_of(sources.features, readings)
                &&& match checked {
                    Ok(documents) => {
                        &&& sources.errors(readings).len() == 0
                        &&& documents.tables() == sources.tables(readings)
                        &&& documents.tables().sound()
                    },
                    Err(error) => {
                        &&& texts(error.0@) == sources.errors(readings)
                        &&& error.0@.len() > 0
                    },
                }
            },
{
    let Sources {
        features,
        design_specification,
        risk_assessment,
        verification_plan,
        user_manual,
        operator_manual,
        retirement_plan,
    } = sources;
    let mut errors: Vec<String> = Vec::new();
    let requirements = get_specification(features, &mut errors);
    let ghost readings = choose|readings: Seq<Result<Feature<Seq<char>>, Seq<char>>>|
        {
            &&& #[trigger] may_come_of(features, readings)
            &&& requirement_entries(requirements) == found_in(features, readings).entries
            &&& texts(errors@) == Seq::<Seq<char>>::empty() + found_in(features, readings).errors
        };
    let design = get_document(design_specification, Spec::Design, &mut errors);
    let risks = get_document(risk_assessment, Spec::Risks, &mut errors);
    let tests = get_document(verification_plan, Spec::Tests, &mut errors);
    let users = get_document(user_manual, Spec::UserManual, &mut errors);
    let operators = get_document(operator_manual, Spec::OperatorManual, &mut errors);
    let retirement = get_document(retirement_plan, Spec::RetirementPlan, &mut errors);
    assert(texts(errors@) =~= sources.own_errors(readings));
    if errors.len() == 0 {
        proof {
            lemma_requirements_sound(readings);
        }
        Documents::try_new(
            requirements,
            design.unwrap(),
            risks.unwrap(),
            tests.unwrap(),
            users.unwrap(),
            operators.unwrap(),
            retirement.unwrap(),
        )
    } else {
        Err(Error(errors))
    }
}

} // verus!
