//! The parsed input document, held as plain values.
use vstd::prelude::*;

verus! {

/// Severity of a finding.
#[derive(Clone, Copy, Debug, PartialEq, Eq, Structural)]
pub enum Level {
    Error,
    Warning,
    Note,
    /// The level that SARIF writes `none`.
    Unrated,
}

/// The view of an optional string.
pub open spec fn opt_view(o: Option<String>) -> Option<Seq<char>> {
    match o {
        Some(s) => Some(s@),
        None => None,
    }
}

/// The items of a list that may be absent; an absent list has none.
pub open spec fn or_empty<T>(o: Option<Seq<T>>) -> Seq<T> {
    match o {
        Some(s) => s,
        None => Seq::empty(),
    }
}

/// The view of a list of strings.
pub open spec fn strs_view(v: Seq<String>) -> Seq<Seq<char>> {
    v.map_values(|s: String| s@)
}

/// One place in a source file that a finding points at.
#[derive(Clone, Debug)]
pub struct SourceLocation {
    pub file: Option<String>,
    pub line: Option<i64>,
    pub column: Option<i64>,
}

pub struct SourceLocationModel {
    pub file: Option<Seq<char>>,
    pub line: Option<i64>,
    pub column: Option<i64>,
}

impl View for SourceLocation {
    type V = SourceLocationModel;

    open spec fn view(&self) -> SourceLocationModel {
        SourceLocationModel { file: opt_view(self.file), line: self.line, column: self.column }
    }
}

/// The view of an optional location entry.
pub open spec fn opt_location_view(o: Option<SourceLocation>) -> Option<SourceLocationModel> {
    match o {
        Some(l) => Some(l@),
        None => None,
    }
}

/// One reported finding, as the input states it.
#[derive(Clone, Debug)]
pub struct Finding {
    /// The identifier of the rule the finding reports.
    pub rule_id: Option<String>,
    pub level: Option<Level>,
    /// The message's plain-text form.
    pub text: Option<String>,
    /// The message's Markdown form.
    pub markdown: Option<String>,
    /// Each location entry, `None` for an entry that carries no physical
    /// location; `None` where the finding has no location list.
    pub locations: Option<Vec<Option<SourceLocation>>>,
}

pub struct FindingModel {
    pub rule_id: Option<Seq<char>>,
    pub level: Option<Level>,
    pub text: Option<Seq<char>>,
    pub markdown: Option<Seq<char>>,
    pub locations: Option<Seq<Option<SourceLocationModel>>>,
}

impl View for Finding {
    type V = FindingModel;

    open spec fn view(&self) -> FindingModel {
        FindingModel {
            rule_id: opt_view(self.rule_id),
            level: self.level,
            text: opt_view(self.text),
            markdown: opt_view(self.markdown),
            locations: match self.locations {
                Some(v) => Some(v@.map_values(|o: Option<SourceLocation>| opt_location_view(o))),
                None => None,
            },
        }
    }
}

/// A rule that a tool declares.
#[derive(Clone, Debug)]
pub struct Rule {
    pub id: String,
    pub name: Option<String>,
    pub short_description: Option<String>,
    pub full_description: Option<String>,
    pub help_uri: Option<String>,
    /// The tags of the rule's property bag, where it has them.
    pub tags: Option<Vec<String>>,
    /// The entries of the array under the `cwe` property; `None` for an entry that
    /// is not a string; `None` where the rule has no such array.
    pub cwe: Option<Vec<Option<String>>>,
}

pub struct RuleModel {
    pub id: Seq<char>,
    pub name: Option<Seq<char>>,
    pub short_description: Option<Seq<char>>,
    pub full_description: Option<Seq<char>>,
    pub help_uri: Option<Seq<char>>,
    pub tags: Option<Seq<Seq<char>>>,
    pub cwe: Option<Seq<Option<Seq<char>>>>,
}

impl View for Rule {
    type V = RuleModel;

    open spec fn view(&self) -> RuleModel {
        RuleModel {
            id: self.id@,
            name: opt_view(self.name),
            short_description: opt_view(self.short_description),
            full_description: opt_view(self.full_description),
            help_uri: opt_view(self.help_uri),
            tags: match self.tags {
                Some(v) => Some(strs_view(v@)),
                None => None,
            },
            cwe: match self.cwe {
                Some(v) => Some(v@.map_values(|o: Option<String>| opt_view(o))),
                None => None,
            },
        }
    }
}

/// One execution of one analysis tool: its rule catalog and its findings.
#[derive(Clone, Debug)]
pub struct AnalysisRun {
    pub tool_name: String,
    pub tool_version: Option<String>,
    /// The tool's declared rules; `None` where the log declares none.
    pub rules: Option<Vec<Rule>>,
    /// The findings; `None` where the log has no result list.
    pub results: Option<Vec<Finding>>,
}

pub struct AnalysisRunModel {
    pub tool_name: Seq<char>,
    pub tool_version: Option<Seq<char>>,
    pub rules: Option<Seq<RuleModel>>,
    pub results: Option<Seq<FindingModel>>,
}

impl View for AnalysisRun {
    type V = AnalysisRunModel;

    open spec fn view(&self) -> AnalysisRunModel {
        AnalysisRunModel {
            tool_name: self.tool_name@,
            tool_version: opt_view(self.tool_version),
            rules: match self.rules {
                Some(v) => Some(v@.map_values(|r: Rule| r@)),
                None => None,
            },
            results: match self.results {
                Some(v) => Some(v@.map_values(|f: Finding| f@)),
                None => None,
            },
        }
    }
}

/// A parsed document: its runs, in input order.
#[derive(Clone, Debug)]
pub struct Document {
    pub runs: Vec<AnalysisRun>,
}

impl View for Document {
    type V = Seq<AnalysisRunModel>;

    open spec fn view(&self) -> Seq<AnalysisRunModel> {
        self.runs@.map_values(|r: AnalysisRun| r@)
    }
}

} // verus!
