//! The report processor: parses SARIF text and hands it to a Markdown generator.
use vstd::prelude::*;
use crate::error::{BuilderError, GeneratorError, ReportError};
use crate::model::{AnalysisRunModel, Document};
use crate::render::{render_document, report_text, MarkdownFormat};
use crate::sarif::{parse_sarif, sarif_accepts, sarif_document};
use crate::timestamp::{utc_now, Timestamp};

verus! {

/// Turns a parsed document into Markdown.
pub trait MarkdownGenerator {
    /// Whether `out` is Markdown this generator may write for the document `doc`.
    spec fn produces(&self, doc: Seq<AnalysisRunModel>, out: Seq<char>) -> bool;

    /// Whether this generator never fails.
    spec fn infallible(&self) -> bool;

    /// The Markdown for `report`.
    fn generate_markdown_template(&self, report: &Document) -> (r: Result<String, GeneratorError>)
        ensures
            self.infallible() ==> r is Ok,
            r is Ok ==> self.produces(report@, r->Ok_0@),
    ;
}

/// The generator of SARIF reports, in one Markdown format, with or without emoji.
#[derive(Clone, Copy, Debug)]
pub struct SarifMarkdownGenerator {
    pub format: MarkdownFormat,
    pub with_emoji: bool,
}

impl SarifMarkdownGenerator {
    pub fn new(format: MarkdownFormat, with_emoji: bool) -> (r: SarifMarkdownGenerator)
        ensures
            r.format == format,
            r.with_emoji == with_emoji,
    {
        SarifMarkdownGenerator { format, with_emoji }
    }

    /// The report on `doc`, stamped with `t`.
    pub fn render(&self, doc: &Document, t: &Timestamp) -> (r: String)
        ensures
            r@ == report_text(doc@, self.format, self.with_emoji, *t),
    {
        render_document(doc, self.format, self.with_emoji, t)
    }

    /// The report on `doc`, stamped with the time now.
    pub fn generate(&self, doc: &Document) -> (r: String)
        ensures
            exists|t: Timestamp|
                t.wf() && r@ == #[trigger] report_text(doc@, self.format, self.with_emoji, t),
    {
        let t = utc_now();
        let r = self.render(doc, &t);
        assert(t.wf() && r@ == report_text(doc@, self.format, self.with_emoji, t));
        r
    }
}

impl MarkdownGenerator for SarifMarkdownGenerator {
    /// The report on `doc` in this generator's format and emoji setting, stamped
    /// with some valid time.
    open spec fn produces(&self, doc: Seq<AnalysisRunModel>, out: Seq<char>) -> bool {
        exists|t: Timestamp| t.wf() && out == #[trigger] report_text(doc, self.format, self.with_emoji, t)
    }

    /// The SARIF generator never fails.
    open spec fn infallible(&self) -> bool {
        true
    }

    fn generate_markdown_template(&self, report: &Document) -> (r: Result<String, GeneratorError>)
        ensures
            r is Ok,
            exists|t: Timestamp|
                t.wf() && r->Ok_0@ == #[trigger] report_text(
                    report@,
                    self.format,
                    self.with_emoji,
                    t,
                ),
    {
        Ok(self.generate(report))
    }
}

/// Parses the text of a SARIF log into a document.
pub fn parse_document(content: &str) -> (r: Result<Document, ReportError>)
    ensures
        r is Ok <==> sarif_accepts(content@),
        r is Ok ==> r->Ok_0@ == sarif_document(content@),
        r is Err ==> r->Err_0 is JsonError,
{
    match parse_sarif(content) {
        Ok(d) => Ok(d),
        Err(e) => Err(ReportError::JsonError(e)),
    }
}

/// Processes SARIF text into Markdown with a generator.
pub struct ReportProcessor<G: MarkdownGenerator> {
    pub generator: G,
    pub content: String,
}

impl<G: MarkdownGenerator> ReportProcessor<G> {
    /// A processor with `generator` and the JSON text `content`.
    pub fn new(generator: G, content: String) -> (r: Self)
        ensures
            r.generator == generator,
            r.content == content,
    {
        ReportProcessor { generator, content }
    }

    /// Parses the content and generates the Markdown. Fails with `JsonError`
    /// exactly where the content is not a SARIF log; otherwise the generator
    /// gets the parsed document and decides, and its error comes back as
    /// `GeneratorError`.
    pub fn generate(self) -> (r: Result<String, ReportError>)
        ensures
            (r is Err && r->Err_0 is JsonError) <==> !sarif_accepts(self.content@),
            sarif_accepts(self.content@) && self.generator.infallible() ==> r is Ok,
            r is Ok ==> self.generator.produces(sarif_document(self.content@), r->Ok_0@),
    {
        match parse_sarif(self.content.as_str()) {
            Ok(d) => match self.generator.generate_markdown_template(&d) {
                Ok(md) => Ok(md),
                Err(e) => Err(ReportError::GeneratorError(e)),
            },
            Err(e) => Err(ReportError::JsonError(e)),
        }
    }
}

/// Builds a [`ReportProcessor`]: first the generator, then the content.
pub struct ReportProcessorBuilder<G = ()> {
    pub generator: G,
    pub content: Option<String>,
}

impl ReportProcessorBuilder<()> {
    /// A builder with neither generator nor content.
    pub fn new() -> (r: Self)
        ensures
            r.content is None,
    {
        ReportProcessorBuilder { generator: (), content: None }
    }

    /// Sets the Markdown generator.
    pub fn generator<G: MarkdownGenerator>(self, generator: G) -> (r: ReportProcessorBuilder<G>)
        ensures
            r.generator == generator,
            r.content == self.content,
    {
        ReportProcessorBuilder { generator, content: self.content }
    }
}

impl Default for ReportProcessorBuilder<()> {
    fn default() -> (r: Self)
        ensures
            r.content is None,
    {
        Self::new()
    }
}

impl<G: MarkdownGenerator> ReportProcessorBuilder<G> {
    /// Sets the JSON text to process.
    pub fn content(self, content: String) -> (r: Self)
        ensures
            r.generator == self.generator,
            r.content == Some(content),
    {
        ReportProcessorBuilder { generator: self.generator, content: Some(content) }
    }

    /// The processor, or `MissingContent` where no content was set.
    pub fn build(self) -> (r: Result<ReportProcessor<G>, BuilderError>)
        ensures
            match self.content {
                Some(c) => r is Ok && r->Ok_0.generator == self.generator && r->Ok_0.content == c,
                None => r == Err::<ReportProcessor<G>, BuilderError>(BuilderError::MissingContent),
            },
    {
        match self.content {
            Some(content) => Ok(ReportProcessor::new(self.generator, content)),
            None => Err(BuilderError::MissingContent),
        }
    }
}

} // verus!
