//! Reading SARIF text into a [`Document`]. serde_json parses the text into
//! serde-sarif's types; the library reads what it needs out of those.
use vstd::prelude::*;
use serde_sarif::sarif::ResultLevel;
use crate::model::{AnalysisRunModel, Document, Finding, Level, SourceLocation, Rule, AnalysisRun};

verus! {

#[verifier::external_type_specification]
#[verifier::external_body]
pub struct ExSarif(serde_sarif::sarif::Sarif);

#[verifier::external_type_specification]
#[verifier::external_body]
pub struct ExRun(serde_sarif::sarif::Run);

#[verifier::external_type_specification]
#[verifier::external_body]
pub struct ExReportingDescriptor(serde_sarif::sarif::ReportingDescriptor);

#[verifier::external_type_specification]
#[verifier::external_body]
pub struct ExSarifResult(serde_sarif::sarif::Result);

#[verifier::external_type_specification]
#[verifier::external_body]
pub struct ExSarifLocation(serde_sarif::sarif::Location);

#[verifier::external_type_specification]
#[verifier::external_body]
pub struct ExValue(serde_json::Value);

#[verifier::external_type_specification]
#[verifier::external_body]
pub struct ExJsonError(serde_json::Error);

/// Whether serde_json accepts `text` as a SARIF log of serde-sarif's schema.
pub uninterp spec fn sarif_accepts(text: Seq<char>) -> bool;

/// The document that serde_json reads from `text` as a SARIF log of serde-sarif's
/// schema, where it accepts the text.
pub uninterp spec fn sarif_document(text: Seq<char>) -> Seq<AnalysisRunModel>;

/// Relies on `serde_json::from_str` into `serde_sarif::sarif::Sarif`: whether it
/// succeeds, and the log it reads, depend on the text alone. The log is copied
/// into a [`Document`] by `read_document`.
#[verifier::external_body]
pub(crate) fn parse_sarif(text: &str) -> (r: Result<Document, serde_json::Error>)
    ensures
        r is Ok <==> sarif_accepts(text@),
        r is Ok ==> r->Ok_0@ == sarif_document(text@),
{
    serde_json::from_str::<serde_sarif::sarif::Sarif>(text).map(|s| read_document(&s))
}

/// Relies on the `runs` field of a SARIF log.
#[verifier::external_body]
fn runs_of(s: &serde_sarif::sarif::Sarif) -> &Vec<serde_sarif::sarif::Run> {
    &s.runs
}

/// Relies on the driver's `name` and `version` fields of a run's tool.
#[verifier::external_body]
fn tool_of(run: &serde_sarif::sarif::Run) -> (String, Option<String>) {
    (run.tool.driver.name.clone(), run.tool.driver.version.clone())
}

/// Relies on the driver's `rules` field of a run's tool.
#[verifier::external_body]
fn rules_of(run: &serde_sarif::sarif::Run) -> Option<&Vec<serde_sarif::sarif::ReportingDescriptor>> {
    run.tool.driver.rules.as_ref()
}

/// Relies on the `results` field of a run.
#[verifier::external_body]
fn results_of(run: &serde_sarif::sarif::Run) -> Option<&Vec<serde_sarif::sarif::Result>> {
    run.results.as_ref()
}

/// Relies on a rule's `id`, `name`, `shortDescription.text`,
/// `fullDescription.text` and `helpUri` fields.
#[verifier::external_body]
fn rule_texts(rule: &serde_sarif::sarif::ReportingDescriptor) -> (
    String,
    Option<String>,
    Option<String>,
    Option<String>,
    Option<String>,
) {
    (
        rule.id.clone(),
        rule.name.clone(),
        rule.short_description.as_ref().map(|d| d.text.clone()),
        rule.full_description.as_ref().map(|d| d.text.clone()),
        rule.help_uri.clone(),
    )
}

/// Relies on the `tags` of a rule's property bag.
#[verifier::external_body]
fn rule_tags(rule: &serde_sarif::sarif::ReportingDescriptor) -> Option<Vec<String>> {
    rule.properties.as_ref().and_then(|p| p.tags.clone())
}

/// Relies on the additional properties of a rule's property bag: the value
/// under `key`.
#[verifier::external_body]
fn rule_property<'a>(rule: &'a serde_sarif::sarif::ReportingDescriptor, key: &str) -> Option<
    &'a serde_json::Value,
> {
    rule.properties.as_ref().and_then(|p| p.additional_properties.get(key))
}

pub assume_specification[ serde_json::Value::as_array ](v: &serde_json::Value) -> Option<
    &Vec<serde_json::Value>,
>;

pub assume_specification[ serde_json::Value::as_str ](v: &serde_json::Value) -> Option<&str>;

/// Relies on a result's `ruleId`, `level`, `message.text` and `message.markdown`
/// fields; each SARIF level maps to the level of the same name.
#[verifier::external_body]
fn finding_fields(r: &serde_sarif::sarif::Result) -> (
    Option<String>,
    Option<Level>,
    Option<String>,
    Option<String>,
) {
    let level = r.level.map(|l| match l {
        ResultLevel::Error => Level::Error,
        ResultLevel::Warning => Level::Warning,
        ResultLevel::Note => Level::Note,
        ResultLevel::None => Level::Unrated,
    });
    (r.rule_id.clone(), level, r.message.text.clone(), r.message.markdown.clone())
}

/// Relies on the `locations` field of a result.
#[verifier::external_body]
fn locations_of(r: &serde_sarif::sarif::Result) -> Option<&Vec<serde_sarif::sarif::Location>> {
    r.locations.as_ref()
}

/// Relies on a location's `physicalLocation`: its `artifactLocation.uri`,
/// `region.startLine` and `region.startColumn`; `None` where the location has
/// no physical location.
#[verifier::external_body]
fn physical_location(loc: &serde_sarif::sarif::Location) -> Option<SourceLocation> {
    loc.physical_location.as_ref().map(|pl| SourceLocation {
        file: pl.artifact_location.as_ref().and_then(|a| a.uri.clone()),
        line: pl.region.as_ref().and_then(|g| g.start_line),
        column: pl.region.as_ref().and_then(|g| g.start_column),
    })
}

/// The entries of a JSON array, each as a string where it is one.
fn string_or_none(values: &Vec<serde_json::Value>) -> (r: Vec<Option<String>>)
    ensures
        r@.len() == values@.len(),
{
    let mut r: Vec<Option<String>> = Vec::new();
    let mut i: usize = 0;
    while i < values.len()
        invariant
            i <= values@.len(),
            r@.len() == i,
        decreases values@.len() - i,
    {
        let entry = match values[i].as_str() {
            Some(s) => Some(s.to_string()),
            None => None,
        };
        r.push(entry);
        i = i + 1;
    }
    r
}

fn read_rule(rule: &serde_sarif::sarif::ReportingDescriptor) -> Rule {
    let (id, name, short_description, full_description, help_uri) = rule_texts(rule);
    let tags = rule_tags(rule);
    let cwe = match rule_property(rule, "cwe") {
        Some(v) => match v.as_array() {
            Some(a) => Some(string_or_none(a)),
            None => None,
        },
        None => None,
    };
    Rule { id, name, short_description, full_description, help_uri, tags, cwe }
}

fn read_finding(r: &serde_sarif::sarif::Result) -> Finding {
    let (rule_id, level, text, markdown) = finding_fields(r);
    let locations = match locations_of(r) {
        Some(locs) => {
            let mut out: Vec<Option<SourceLocation>> = Vec::new();
            let mut i: usize = 0;
            while i < locs.len()
                decreases locs@.len() - i,
            {
                out.push(physical_location(&locs[i]));
                i = i + 1;
            }
            Some(out)
        },
        None => None,
    };
    Finding { rule_id, level, text, markdown, locations }
}

fn read_run(run: &serde_sarif::sarif::Run) -> AnalysisRun {
    let (tool_name, tool_version) = tool_of(run);
    let rules = match rules_of(run) {
        Some(rs) => {
            let mut out: Vec<Rule> = Vec::new();
            let mut i: usize = 0;
            while i < rs.len()
                decreases rs@.len() - i,
            {
                out.push(read_rule(&rs[i]));
                i = i + 1;
            }
            Some(out)
        },
        None => None,
    };
    let results = match results_of(run) {
        Some(rs) => {
            let mut out: Vec<Finding> = Vec::new();
            let mut i: usize = 0;
            while i < rs.len()
                decreases rs@.len() - i,
            {
                out.push(read_finding(&rs[i]));
                i = i + 1;
            }
            Some(out)
        },
        None => None,
    };
    AnalysisRun { tool_name, tool_version, rules, results }
}

/// The document that a parsed SARIF log holds, copied field by field: its runs
/// in order, each with its tool, its declared rules and its results; a list the
/// log leaves out stays `None`.
fn read_document(s: &serde_sarif::sarif::Sarif) -> Document {
    let runs = runs_of(s);
    let mut out: Vec<AnalysisRun> = Vec::new();
    let mut i: usize = 0;
    while i < runs.len()
        decreases runs@.len() - i,
    {
        out.push(read_run(&runs[i]));
        i = i + 1;
    }
    Document { runs: out }
}

} // verus!
