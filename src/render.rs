//! The Markdown report: what its text is, stated over the view model, and the
//! functions that write it.
use vstd::prelude::*;
use crate::model::{opt_view, strs_view, Document, Level, SourceLocation, SourceLocationModel, AnalysisRunModel};
use crate::text::{decimal, push_decimal, push_signed_decimal, signed_decimal};
use crate::timestamp::{timestamp_text, Timestamp};
use crate::views::{
    build_views, document_views_of, opt_metadata_view, ResultView, ResultViewModel, RuleMetadata,
    RuleMetadataModel, RunView, RunViewModel, SeverityCount, SeverityCountModel,
};

verus! {

/// The two Markdown dialects a report can be written in.
#[derive(Clone, Copy, Debug, PartialEq, Eq, Structural)]
pub enum MarkdownFormat {
    /// Plain CommonMark, without embedded HTML.
    CommonMark,
    /// GitHub-flavored Markdown, which folds each finding's details into a
    /// collapsible `<details>` block.
    GitHubFlavored,
}

/// `s` where emoji are on, nothing where they are off.
pub open spec fn icon(emoji: bool, s: Seq<char>) -> Seq<char> {
    if emoji {
        s
    } else {
        Seq::empty()
    }
}

/// The report's heading and generation time.
pub open spec fn header_text(emoji: bool, stamp: Seq<char>) -> Seq<char> {
    "# "@ + icon(emoji, "\u{1F6E1}\u{FE0F} "@) + "Security Report\n\nGenerated: "@ + stamp + "\n"@
}

pub open spec fn level_name(l: Level) -> Seq<char> {
    match l {
        Level::Error => "Error"@,
        Level::Warning => "Warning"@,
        Level::Note => "Note"@,
        Level::Unrated => "None"@,
    }
}

pub open spec fn level_icon(l: Level) -> Seq<char> {
    match l {
        Level::Error => "\u{1F534} "@,
        Level::Warning => "\u{1F7E1} "@,
        Level::Note => "\u{1F535} "@,
        Level::Unrated => "\u{26AA} "@,
    }
}

/// A level as a report names it, with its icon where emoji are on.
pub open spec fn level_label(l: Level, emoji: bool) -> Seq<char> {
    icon(emoji, level_icon(l)) + level_name(l)
}

pub open spec fn count_line(c: SeverityCountModel, emoji: bool) -> Seq<char> {
    "- "@ + level_label(c.level, emoji) + ": "@ + decimal(c.count) + "\n"@
}

pub open spec fn counts_text(cs: Seq<SeverityCountModel>, emoji: bool) -> Seq<char>
    decreases cs.len(),
{
    if cs.len() == 0 {
        Seq::empty()
    } else {
        counts_text(cs.drop_last(), emoji) + count_line(cs.last(), emoji)
    }
}

/// A labelled line for a value that is present; nothing for one that is not.
pub open spec fn opt_line(label: Seq<char>, v: Option<Seq<char>>) -> Seq<char> {
    match v {
        Some(x) => label + x + "\n"@,
        None => Seq::empty(),
    }
}

/// The items of `xs`, separated by `, `.
pub open spec fn joined(xs: Seq<Seq<char>>) -> Seq<char>
    decreases xs.len(),
{
    if xs.len() == 0 {
        Seq::empty()
    } else if xs.len() == 1 {
        xs[0]
    } else {
        joined(xs.drop_last()) + ", "@ + xs.last()
    }
}

/// A labelled line listing `xs`; nothing where `xs` is empty.
pub open spec fn list_line(label: Seq<char>, xs: Seq<Seq<char>>) -> Seq<char> {
    if xs.len() == 0 {
        Seq::empty()
    } else {
        label + joined(xs) + "\n"@
    }
}

pub open spec fn metadata_text(m: Option<RuleMetadataModel>) -> Seq<char> {
    match m {
        None => Seq::empty(),
        Some(m) => "\n"@ + opt_line("- Rule: "@, m.name) + opt_line("- Description: "@, m.description)
            + opt_line("- Help: "@, m.help_uri) + list_line("- CWE: "@, m.cwe_ids) + list_line(
            "- Tags: "@,
            m.tags,
        ),
    }
}

/// `:` and the number, where the number is present.
pub open spec fn position_text(n: Option<i64>) -> Seq<char> {
    match n {
        Some(k) => ":"@ + signed_decimal(k as int),
        None => Seq::empty(),
    }
}

/// The file of a location, `unknown` where it has none.
pub open spec fn file_text(l: SourceLocationModel) -> Seq<char> {
    match l.file {
        Some(f) => f,
        None => "unknown"@,
    }
}

pub open spec fn location_line(l: SourceLocationModel) -> Seq<char> {
    "- Location: `"@ + file_text(l) + position_text(l.line) + position_text(l.column) + "`\n"@
}

pub open spec fn location_lines(ls: Seq<SourceLocationModel>) -> Seq<char>
    decreases ls.len(),
{
    if ls.len() == 0 {
        Seq::empty()
    } else {
        location_lines(ls.drop_last()) + location_line(ls.last())
    }
}

pub open spec fn locations_text(ls: Seq<SourceLocationModel>) -> Seq<char> {
    if ls.len() == 0 {
        Seq::empty()
    } else {
        "\n"@ + location_lines(ls)
    }
}

/// The message, rule metadata and locations of a finding.
pub open spec fn details_text(r: ResultViewModel) -> Seq<char> {
    "\n"@ + r.message + "\n"@ + metadata_text(r.rule_metadata) + locations_text(
        r.locations,
    )
}

/// `d` as it stands in format `f`: folded into a `<details>` block in
/// GitHub-flavored output, unchanged in CommonMark.
pub open spec fn collapsed(f: MarkdownFormat, d: Seq<char>) -> Seq<char> {
    match f {
        MarkdownFormat::CommonMark => d,
        MarkdownFormat::GitHubFlavored => "\n<details>\n<summary>Details</summary>\n"@ + d
            + "\n</details>\n"@,
    }
}

pub open spec fn result_text(r: ResultViewModel, f: MarkdownFormat, emoji: bool) -> Seq<char> {
    "\n#### "@ + level_label(r.level, emoji) + ": "@ + r.rule_id + "\n"@ + collapsed(
        f,
        details_text(r),
    )
}

pub open spec fn results_text(rs: Seq<ResultViewModel>, f: MarkdownFormat, emoji: bool) -> Seq<
    char,
>
    decreases rs.len(),
{
    if rs.len() == 0 {
        Seq::empty()
    } else {
        results_text(rs.drop_last(), f, emoji) + result_text(rs.last(), f, emoji)
    }
}

/// The findings section of a run; nothing where the run has no findings.
pub open spec fn findings_text(rs: Seq<ResultViewModel>, f: MarkdownFormat, emoji: bool) -> Seq<
    char,
> {
    if rs.len() == 0 {
        Seq::empty()
    } else {
        "\n### "@ + icon(emoji, "\u{1F50D} "@) + "Findings\n"@ + results_text(rs, f, emoji)
    }
}

pub open spec fn version_text(v: Option<Seq<char>>) -> Seq<char> {
    match v {
        Some(x) => " "@ + x,
        None => Seq::empty(),
    }
}

/// The section of one run: tool, summary of counts, findings.
pub open spec fn run_text(v: RunViewModel, f: MarkdownFormat, emoji: bool) -> Seq<char> {
    "\n## "@ + icon(emoji, "\u{1F527} "@) + v.tool_name + version_text(v.tool_version)
        + "\n\nTotal results: "@ + decimal(v.total_results) + "\n"@ + counts_text(
        v.severity_counts,
        emoji,
    ) + findings_text(v.results, f, emoji)
}

pub open spec fn runs_text(vs: Seq<RunViewModel>, f: MarkdownFormat, emoji: bool) -> Seq<char>
    decreases vs.len(),
{
    if vs.len() == 0 {
        Seq::empty()
    } else {
        runs_text(vs.drop_last(), f, emoji) + run_text(vs.last(), f, emoji)
    }
}

/// The report on the run views `vs`.
pub open spec fn views_report(
    vs: Seq<RunViewModel>,
    f: MarkdownFormat,
    emoji: bool,
    t: Timestamp,
) -> Seq<char> {
    header_text(emoji, timestamp_text(t)) + runs_text(vs, f, emoji)
}

/// The report on document `doc`.
pub open spec fn report_text(doc: Seq<AnalysisRunModel>, f: MarkdownFormat, emoji: bool, t: Timestamp) -> Seq<
    char,
> {
    views_report(document_views_of(doc), f, emoji, t)
}

fn push_level_label(out: &mut String, l: Level, emoji: bool)
    ensures
        final(out)@ == old(out)@ + level_label(l, emoji),
{
    let ghost start = out@;
    if emoji {
        match l {
            Level::Error => out.append("\u{1F534} "),
            Level::Warning => out.append("\u{1F7E1} "),
            Level::Note => out.append("\u{1F535} "),
            Level::Unrated => out.append("\u{26AA} "),
        }
    }
    match l {
        Level::Error => out.append("Error"),
        Level::Warning => out.append("Warning"),
        Level::Note => out.append("Note"),
        Level::Unrated => out.append("None"),
    }
    assert(out@ =~= start + level_label(l, emoji));
}

fn push_counts(out: &mut String, cs: &Vec<SeverityCount>, emoji: bool)
    ensures
        final(out)@ == old(out)@ + counts_text(cs@.map_values(|c: SeverityCount| c@), emoji),
{
    let ghost start = out@;
    let ghost m = cs@.map_values(|c: SeverityCount| c@);
    let mut i: usize = 0;
    while i < cs.len()
        invariant
            i <= cs@.len(),
            m == cs@.map_values(|c: SeverityCount| c@),
            out@ == start + counts_text(m.take(i as int), emoji),
        decreases cs@.len() - i,
    {
        let ghost before = out@;
        assert(m.take(i + 1).drop_last() == m.take(i as int));
        let c = cs[i];
        out.append("- ");
        push_level_label(out, c.level, emoji);
        out.append(": ");
        push_decimal(out, c.count as u64);
        out.append("\n");
        assert(out@ =~= before + count_line(m[i as int], emoji));
        i = i + 1;
    }
    assert(m.take(cs@.len() as int) == m);
}

fn push_opt_line(out: &mut String, label: &str, v: &Option<String>)
    ensures
        final(out)@ == old(out)@ + opt_line(label@, opt_view(*v)),
{
    let ghost start = out@;
    match v {
        Some(x) => {
            out.append(label);
            out.append(x.as_str());
            out.append("\n");
        },
        None => {},
    }
    assert(out@ =~= start + opt_line(label@, opt_view(*v)));
}

fn push_joined(out: &mut String, xs: &Vec<String>)
    ensures
        final(out)@ == old(out)@ + joined(strs_view(xs@)),
{
    let ghost start = out@;
    let ghost m = strs_view(xs@);
    let mut i: usize = 0;
    while i < xs.len()
        invariant
            i <= xs@.len(),
            m == strs_view(xs@),
            out@ == start + joined(m.take(i as int)),
        decreases xs@.len() - i,
    {
        let ghost before = out@;
        assert(m.take(i + 1).drop_last() == m.take(i as int));
        if i > 0 {
            out.append(", ");
        }
        out.append(xs[i].as_str());
        if i == 0 {
            assert(m.take(1)[0] == m[0]);
        }
        assert(out@ =~= start + joined(m.take(i + 1)));
        i = i + 1;
    }
    assert(m.take(xs@.len() as int) == m);
}

fn push_list_line(out: &mut String, label: &str, xs: &Vec<String>)
    ensures
        final(out)@ == old(out)@ + list_line(label@, strs_view(xs@)),
{
    let ghost start = out@;
    if xs.len() > 0 {
        out.append(label);
        push_joined(out, xs);
        out.append("\n");
    }
    assert(out@ =~= start + list_line(label@, strs_view(xs@)));
}

fn push_metadata(out: &mut String, m: &Option<RuleMetadata>)
    ensures
        final(out)@ == old(out)@ + metadata_text(opt_metadata_view(*m)),
{
    let ghost start = out@;
    match m {
        Some(m) => {
            out.append("\n");
            push_opt_line(out, "- Rule: ", &m.name);
            push_opt_line(out, "- Description: ", &m.description);
            push_opt_line(out, "- Help: ", &m.help_uri);
            push_list_line(out, "- CWE: ", &m.cwe_ids);
            push_list_line(out, "- Tags: ", &m.tags);
        },
        None => {},
    }
    assert(out@ =~= start + metadata_text(opt_metadata_view(*m)));
}

fn push_position(out: &mut String, n: Option<i64>)
    ensures
        final(out)@ == old(out)@ + position_text(n),
{
    let ghost start = out@;
    match n {
        Some(k) => {
            out.append(":");
            push_signed_decimal(out, k);
        },
        None => {},
    }
    assert(out@ =~= start + position_text(n));
}

fn push_locations(out: &mut String, ls: &Vec<SourceLocation>)
    ensures
        final(out)@ == old(out)@ + locations_text(ls@.map_values(|l: SourceLocation| l@)),
{
    let ghost start = out@;
    let ghost m = ls@.map_values(|l: SourceLocation| l@);
    if ls.len() == 0 {
        return;
    }
    out.append("\n");
    let ghost first = out@;
    let mut i: usize = 0;
    while i < ls.len()
        invariant
            i <= ls@.len(),
            m == ls@.map_values(|l: SourceLocation| l@),
            out@ == first + location_lines(m.take(i as int)),
        decreases ls@.len() - i,
    {
        let ghost before = out@;
        assert(m.take(i + 1).drop_last() == m.take(i as int));
        let l = &ls[i];
        out.append("- Location: `");
        match &l.file {
            Some(f) => out.append(f.as_str()),
            None => out.append("unknown"),
        }
        push_position(out, l.line);
        push_position(out, l.column);
        out.append("`\n");
        assert(out@ =~= before + location_line(m[i as int]));
        i = i + 1;
    }
    assert(m.take(ls@.len() as int) == m);
    assert(out@ =~= start + locations_text(m));
}

fn push_details(out: &mut String, r: &ResultView)
    ensures
        final(out)@ == old(out)@ + details_text(r@),
{
    let ghost start = out@;
    out.append("\n");
    out.append(r.message.as_str());
    out.append("\n");
    let ghost a = out@;
    assert(a == start + ("\n"@ + r@.message + "\n"@));
    push_metadata(out, &r.rule_metadata);
    push_locations(out, &r.locations);
    assert(out@ == a + metadata_text(r@.rule_metadata) + locations_text(r@.locations));
    assert(out@ =~= start + details_text(r@));
}

fn push_result(out: &mut String, r: &ResultView, f: MarkdownFormat, emoji: bool)
    ensures
        final(out)@ == old(out)@ + result_text(r@, f, emoji),
{
    let ghost start = out@;
    out.append("\n#### ");
    push_level_label(out, r.level, emoji);
    out.append(": ");
    out.append(r.rule_id.as_str());
    out.append("\n");
    let ghost mid = out@;
    assert(mid =~= start + ("\n#### "@ + level_label(r@.level, emoji) + ": "@ + r@.rule_id
        + "\n"@));
    let ghost d = details_text(r@);
    if f == MarkdownFormat::GitHubFlavored {
        out.append("\n<details>\n<summary>Details</summary>\n");
        push_details(out, r);
        out.append("\n</details>\n");
        assert(out@ =~= mid + ("\n<details>\n<summary>Details</summary>\n"@ + d + "\n</details>\n"@));
    } else {
        push_details(out, r);
    }
    assert(out@ == mid + collapsed(f, d));
    assert(out@ =~= start + result_text(r@, f, emoji));
}

fn push_findings(out: &mut String, rs: &Vec<ResultView>, f: MarkdownFormat, emoji: bool)
    ensures
        final(out)@ == old(out)@ + findings_text(rs@.map_values(|v: ResultView| v@), f, emoji),
{
    let ghost start = out@;
    let ghost m = rs@.map_values(|v: ResultView| v@);
    if rs.len() == 0 {
        return;
    }
    out.append("\n### ");
    if emoji {
        out.append("\u{1F50D} ");
    }
    out.append("Findings\n");
    let ghost first = out@;
    let mut i: usize = 0;
    while i < rs.len()
        invariant
            i <= rs@.len(),
            m == rs@.map_values(|v: ResultView| v@),
            out@ == first + results_text(m.take(i as int), f, emoji),
        decreases rs@.len() - i,
    {
        assert(m.take(i + 1).drop_last() == m.take(i as int));
        push_result(out, &rs[i], f, emoji);
        i = i + 1;
    }
    assert(m.take(rs@.len() as int) == m);
    assert(out@ =~= start + findings_text(m, f, emoji));
}

fn push_run_heading(out: &mut String, v: &RunView, emoji: bool)
    ensures
        final(out)@ == old(out)@ + ("\n## "@ + icon(emoji, "\u{1F527} "@) + v@.tool_name
            + version_text(v@.tool_version)),
{
    let ghost start = out@;
    out.append("\n## ");
    if emoji {
        out.append("\u{1F527} ");
    }
    out.append(v.tool_name.as_str());
    match &v.tool_version {
        Some(x) => {
            out.append(" ");
            out.append(x.as_str());
        },
        None => {},
    }
    assert(out@ =~= start + ("\n## "@ + icon(emoji, "\u{1F527} "@) + v@.tool_name
        + version_text(v@.tool_version)));
}

fn push_summary(out: &mut String, v: &RunView, emoji: bool)
    ensures
        final(out)@ == old(out)@ + ("\n\nTotal results: "@ + decimal(v@.total_results) + "\n"@
            + counts_text(v@.severity_counts, emoji)),
{
    let ghost start = out@;
    out.append("\n\nTotal results: ");
    push_decimal(out, v.total_results as u64);
    out.append("\n");
    push_counts(out, &v.severity_counts, emoji);
    assert(out@ =~= start + ("\n\nTotal results: "@ + decimal(v@.total_results) + "\n"@
        + counts_text(v@.severity_counts, emoji)));
}

fn push_run(out: &mut String, v: &RunView, f: MarkdownFormat, emoji: bool)
    ensures
        final(out)@ == old(out)@ + run_text(v@, f, emoji),
{
    let ghost start = out@;
    let ghost h = "\n## "@ + icon(emoji, "\u{1F527} "@) + v@.tool_name + version_text(
        v@.tool_version,
    );
    let ghost m = "\n\nTotal results: "@ + decimal(v@.total_results) + "\n"@ + counts_text(
        v@.severity_counts,
        emoji,
    );
    let ghost k = findings_text(v@.results, f, emoji);
    push_run_heading(out, v, emoji);
    push_summary(out, v, emoji);
    push_findings(out, &v.results, f, emoji);
    assert(out@ == start + h + m + k);
    assert(run_text(v@, f, emoji) =~= h + m + k);
    assert(out@ =~= start + run_text(v@, f, emoji));
}

fn push_runs(out: &mut String, views: &Vec<RunView>, f: MarkdownFormat, emoji: bool)
    ensures
        final(out)@ == old(out)@ + runs_text(views@.map_values(|v: RunView| v@), f, emoji),
{
    let ghost m = views@.map_values(|v: RunView| v@);
    let ghost first = out@;
    let mut i: usize = 0;
    while i < views.len()
        invariant
            i <= views@.len(),
            m == views@.map_values(|v: RunView| v@),
            out@ == first + runs_text(m.take(i as int), f, emoji),
        decreases views@.len() - i,
    {
        assert(m.take(i + 1).drop_last() == m.take(i as int));
        push_run(out, &views[i], f, emoji);
        i = i + 1;
    }
    assert(m.take(views@.len() as int) == m);
}

fn push_header(out: &mut String, emoji: bool, t: &Timestamp)
    ensures
        final(out)@ == old(out)@ + header_text(emoji, timestamp_text(*t)),
{
    let ghost start = out@;
    out.append("# ");
    if emoji {
        out.append("\u{1F6E1}\u{FE0F} ");
    }
    out.append("Security Report\n\nGenerated: ");
    let stamp = t.format();
    out.append(stamp.as_str());
    out.append("\n");
    assert(out@ =~= start + header_text(emoji, timestamp_text(*t)));
}

/// Writes the report on the run views `views`.
pub fn render_views(views: &Vec<RunView>, f: MarkdownFormat, emoji: bool, t: &Timestamp) -> (r:
    String)
    ensures
        r@ == views_report(views@.map_values(|v: RunView| v@), f, emoji, *t),
{
    let mut out = String::new();
    push_header(&mut out, emoji, t);
    push_runs(&mut out, views, f, emoji);
    assert(out@ =~= views_report(views@.map_values(|v: RunView| v@), f, emoji, *t));
    out
}

/// Writes the report on `doc` in format `f`, with emoji where `emoji` is set,
/// stamped with `t`.
pub fn render_document(doc: &Document, f: MarkdownFormat, emoji: bool, t: &Timestamp) -> (r:
    String)
    ensures
        r@ == report_text(doc@, f, emoji, *t),
{
    let views = build_views(doc);
    render_views(&views, f, emoji, t)
}

} // verus!
