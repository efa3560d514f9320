//! Checks the documents of a specification: that every section is named as
//! its kind of document demands, and that the trace links between the
//! documents point where they may and cover every requirement.
//!
//! A specification is made of requirements, gathered from feature files, and
//! of six markdown documents: the design specification, the risk
//! assessment, the verification plan, the user manual, the operator manual
//! and the retirement plan. A document defines sections, each under a
//! heading `## <identifier> - <title>`, and traces a section to sections of
//! other documents with a list of their identifiers under `### Trace`.
//!
//! - [`kind`]: the kinds of document, with their files, titles and prefixes.
//! - [`text`], [`messages`]: identifiers in headings, and lists of errors.
//! - [`markdown`], [`tables`]: the events of a markdown text, and the ordered
//!   tables that hold sections and requirements.
//! - [`parser`]: reads the sections and trace links of a document.
//! - [`document`]: one document, and the checks it must pass by itself.
//! - [`features`]: the requirements, gathered from feature files.
//! - [`graph`]: the checks across the documents.
//! - [`documents`]: the whole specification, put together from its sources.

pub mod document;
pub mod documents;
pub mod features;
pub mod graph;
pub mod kind;
pub mod markdown;
pub mod messages;
pub mod parser;
pub mod tables;
pub mod text;

pub use document::Document;
pub use document::Error;
pub use documents::get_documents;
pub use documents::Documents;
pub use features::get_specification;
pub use kind::Spec;
pub use tables::Requirements;
pub use tables::Trace;
pub use text::extract_identifier;
