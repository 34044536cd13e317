//! Conversion of static-analysis result documents (SARIF 2.1.0) into Markdown
//! reports, in CommonMark or GitHub-flavored form, with or without emoji.
//!
//! The pipeline: [`parse_document`] reads SARIF text into a [`Document`];
//! [`build_views`] derives the view of each run (rule metadata joined to each
//! finding, severity counts); [`render_document`] writes the Markdown. A
//! [`ReportProcessor`], configured through a [`ReportProcessorBuilder`], runs
//! the whole pipeline on JSON text.

pub mod error;
pub mod guarantees;
pub mod model;
pub mod processor;
pub mod render;
pub mod sarif;
pub mod severity;
pub mod text;
pub mod timestamp;
pub mod views;

pub use error::{BuilderError, GeneratorError, ReportError};
pub use model::{AnalysisRun, Document, Finding, Level, Rule, SourceLocation};
pub use processor::{
    parse_document, MarkdownGenerator, ReportProcessor, ReportProcessorBuilder,
    SarifMarkdownGenerator,
};
pub use render::{render_document, MarkdownFormat};
pub use severity::Severity;
pub use timestamp::Timestamp;
pub use views::{build_views, RuleMetadata, RunView, SeverityCount};
