//! What holds of every report: it differs between two runs only in its
//! timestamp, it holds non-ASCII characters exactly as emoji ask for them (on
//! ASCII input), CommonMark output adds no HTML, and GitHub-flavored output
//! folds findings.
use vstd::prelude::*;
use crate::processor::{MarkdownGenerator, SarifMarkdownGenerator};
use crate::model::{or_empty, AnalysisRunModel, FindingModel, RuleModel, SourceLocationModel};
use crate::render::{
    collapsed, counts_text, details_text, file_text, header_text, icon, joined, level_icon,
    level_label, list_line, location_line, location_lines, metadata_text, opt_line, position_text,
    report_text, result_text, results_text, run_text, runs_text, views_report, MarkdownFormat,
};
use crate::text::{
    contains, decimal, fine, lemma_contains_left, lemma_contains_right, lemma_decimal_fine,
    lemma_fine_concat, lemma_fine_weaken, lemma_signed_decimal_fine,
};
use crate::timestamp::{lemma_timestamp_fine, timestamp_text, Timestamp};
use crate::views::{
    document_views_of, lookup, metadata_of, present_locations, result_view_of, result_views_of,
    run_view_of, strings_only, ResultViewModel, RuleMetadataModel, RunViewModel,
    SeverityCountModel,
};

verus! {

broadcast use {lemma_fine_concat, lemma_fine_weaken};

/// Every character of `s` is ASCII.
pub open spec fn ascii(s: Seq<char>) -> bool {
    fine(s, true, false)
}

/// An optional string is `fine` under the flags where it is present.
pub open spec fn opt_fine(o: Option<Seq<char>>, a: bool, nl: bool) -> bool {
    match o {
        Some(s) => fine(s, a, nl),
        None => true,
    }
}

pub open spec fn all_fine(xs: Seq<Seq<char>>, a: bool, nl: bool) -> bool {
    forall|i: int| 0 <= i < xs.len() ==> fine(#[trigger] xs[i], a, nl)
}

proof fn lemma_literals()
    ensures
        fine("# "@, true, true),
        fine("Security Report\n\nGenerated: "@, true, true),
        fine("\n"@, true, true),
        fine("Error"@, true, true),
        fine("Warning"@, true, true),
        fine("Note"@, true, true),
        fine("None"@, true, true),
        fine("- "@, true, true),
        fine(": "@, true, true),
        fine(", "@, true, true),
        fine("- Rule: "@, true, true),
        fine("- Description: "@, true, true),
        fine("- Help: "@, true, true),
        fine("- CWE: "@, true, true),
        fine("- Tags: "@, true, true),
        fine(":"@, true, true),
        fine("- Location: `"@, true, true),
        fine("unknown"@, true, true),
        fine("`\n"@, true, true),
        fine("\n#### "@, true, true),
        fine("\n### "@, true, true),
        fine("Findings\n"@, true, true),
        fine(" "@, true, true),
        fine("\n## "@, true, true),
        fine("\n\nTotal results: "@, true, true),
        fine("\u{1F6E1}\u{FE0F} "@, false, true),
        fine("\u{1F534} "@, false, true),
        fine("\u{1F7E1} "@, false, true),
        fine("\u{1F535} "@, false, true),
        fine("\u{26AA} "@, false, true),
        fine("\u{1F50D} "@, false, true),
        fine("\u{1F527} "@, false, true),
        fine("\n<details>\n<summary>Details</summary>\n"@, true, false),
        fine("\n</details>\n"@, true, false),
{
    reveal_strlit("# ");
    reveal_strlit("Security Report\n\nGenerated: ");
    reveal_strlit("\n");
    reveal_strlit("Error");
    reveal_strlit("Warning");
    reveal_strlit("Note");
    reveal_strlit("None");
    reveal_strlit("- ");
    reveal_strlit(": ");
    reveal_strlit(", ");
    reveal_strlit("- Rule: ");
    reveal_strlit("- Description: ");
    reveal_strlit("- Help: ");
    reveal_strlit("- CWE: ");
    reveal_strlit("- Tags: ");
    reveal_strlit(":");
    reveal_strlit("- Location: `");
    reveal_strlit("unknown");
    reveal_strlit("`\n");
    reveal_strlit("\n#### ");
    reveal_strlit("\n### ");
    reveal_strlit("Findings\n");
    reveal_strlit(" ");
    reveal_strlit("\n## ");
    reveal_strlit("\n\nTotal results: ");
    reveal_strlit("\u{1F6E1}\u{FE0F} ");
    reveal_strlit("\u{1F534} ");
    reveal_strlit("\u{1F7E1} ");
    reveal_strlit("\u{1F535} ");
    reveal_strlit("\u{26AA} ");
    reveal_strlit("\u{1F50D} ");
    reveal_strlit("\u{1F527} ");
    reveal_strlit("\n<details>\n<summary>Details</summary>\n");
    reveal_strlit("\n</details>\n");
}


proof fn lemma_icon(e: bool, s: Seq<char>, a: bool, nl: bool)
    requires
        a ==> !e,
        fine(s, false, true),
    ensures
        fine(icon(e, s), a, nl),
{
}

proof fn lemma_label(l: crate::model::Level, e: bool, a: bool, nl: bool)
    requires
        a ==> !e,
    ensures
        fine(level_label(l, e), a, nl),
{
    lemma_literals();
    lemma_icon(e, level_icon(l), a, nl);
}

proof fn lemma_counts(cs: Seq<SeverityCountModel>, e: bool, a: bool, nl: bool)
    requires
        a ==> !e,
    ensures
        fine(counts_text(cs, e), a, nl),
    decreases cs.len(),
{
    if cs.len() > 0 {
        lemma_literals();
        lemma_counts(cs.drop_last(), e, a, nl);
        lemma_label(cs.last().level, e, a, nl);
        lemma_decimal_fine(cs.last().count);
    }
}

proof fn lemma_opt_line(label: Seq<char>, v: Option<Seq<char>>, a: bool, nl: bool)
    requires
        fine(label, true, true),
        opt_fine(v, a, nl),
    ensures
        fine(opt_line(label, v), a, nl),
{
    lemma_literals();
}

proof fn lemma_joined(xs: Seq<Seq<char>>, a: bool, nl: bool)
    requires
        all_fine(xs, a, nl),
    ensures
        fine(joined(xs), a, nl),
    decreases xs.len(),
{
    if xs.len() == 1 {
        assert(fine(xs[0], a, nl));
    } else if xs.len() > 1 {
        lemma_literals();
        let d = xs.drop_last();
        assert forall|i: int| 0 <= i < d.len() implies fine(#[trigger] d[i], a, nl) by {
            assert(d[i] == xs[i]);
        }
        lemma_joined(d, a, nl);
        assert(xs.last() == xs[xs.len() - 1]);
        assert(fine(xs.last(), a, nl));
    }
}

proof fn lemma_list_line(label: Seq<char>, xs: Seq<Seq<char>>, a: bool, nl: bool)
    requires
        fine(label, true, true),
        all_fine(xs, a, nl),
    ensures
        fine(list_line(label, xs), a, nl),
{
    lemma_literals();
    if xs.len() > 0 {
        lemma_joined(xs, a, nl);
    }
}

pub open spec fn metadata_fine(m: RuleMetadataModel, a: bool, nl: bool) -> bool {
    opt_fine(m.name, a, nl) && opt_fine(m.description, a, nl) && opt_fine(m.help_uri, a, nl)
        && all_fine(m.cwe_ids, a, nl) && all_fine(m.tags, a, nl)
}

proof fn lemma_metadata(m: Option<RuleMetadataModel>, a: bool, nl: bool)
    requires
        m is Some ==> metadata_fine(m->0, a, nl),
    ensures
        fine(metadata_text(m), a, nl),
{
    lemma_literals();
    if m is Some {
        let k = m->0;
        lemma_opt_line("- Rule: "@, k.name, a, nl);
        lemma_opt_line("- Description: "@, k.description, a, nl);
        lemma_opt_line("- Help: "@, k.help_uri, a, nl);
        lemma_list_line("- CWE: "@, k.cwe_ids, a, nl);
        lemma_list_line("- Tags: "@, k.tags, a, nl);
    }
}

proof fn lemma_position(n: Option<i64>, a: bool, nl: bool)
    ensures
        fine(position_text(n), a, nl),
{
    lemma_literals();
    if n is Some {
        lemma_signed_decimal_fine(n->0 as int);
    }
}

proof fn lemma_location_lines(ls: Seq<SourceLocationModel>, a: bool, nl: bool)
    requires
        forall|i: int| 0 <= i < ls.len() ==> opt_fine(#[trigger] ls[i].file, a, nl),
    ensures
        fine(location_lines(ls), a, nl),
    decreases ls.len(),
{
    if ls.len() > 0 {
        lemma_literals();
        let d = ls.drop_last();
        assert forall|i: int| 0 <= i < d.len() implies opt_fine(#[trigger] d[i].file, a, nl) by {
            assert(d[i] == ls[i]);
        }
        lemma_location_lines(d, a, nl);
        let l = ls.last();
        assert(l == ls[ls.len() - 1]);
        assert(fine(file_text(l), a, nl));
        lemma_position(l.line, a, nl);
        lemma_position(l.column, a, nl);
        assert(fine(location_line(l), a, nl));
    }
}

pub open spec fn result_view_fine(r: ResultViewModel, a: bool, nl: bool) -> bool {
    fine(r.rule_id, a, nl) && fine(r.message, a, nl) && (r.rule_metadata is Some
        ==> metadata_fine(r.rule_metadata->0, a, nl)) && forall|i: int|
        0 <= i < r.locations.len() ==> opt_fine(#[trigger] r.locations[i].file, a, nl)
}

proof fn lemma_result(r: ResultViewModel, f: MarkdownFormat, e: bool, a: bool, nl: bool)
    requires
        a ==> !e,
        nl ==> f == MarkdownFormat::CommonMark,
        result_view_fine(r, a, nl),
    ensures
        fine(result_text(r, f, e), a, nl),
{
    lemma_literals();
    lemma_label(r.level, e, a, nl);
    lemma_metadata(r.rule_metadata, a, nl);
    if r.locations.len() > 0 {
        lemma_location_lines(r.locations, a, nl);
    }
    assert(fine(details_text(r), a, nl));
}

proof fn lemma_results(rs: Seq<ResultViewModel>, f: MarkdownFormat, e: bool, a: bool, nl: bool)
    requires
        a ==> !e,
        nl ==> f == MarkdownFormat::CommonMark,
        forall|i: int| 0 <= i < rs.len() ==> result_view_fine(#[trigger] rs[i], a, nl),
    ensures
        fine(results_text(rs, f, e), a, nl),
    decreases rs.len(),
{
    if rs.len() > 0 {
        let d = rs.drop_last();
        assert forall|i: int| 0 <= i < d.len() implies result_view_fine(#[trigger] d[i], a, nl) by {
            assert(d[i] == rs[i]);
        }
        lemma_results(d, f, e, a, nl);
        assert(rs.last() == rs[rs.len() - 1]);
        lemma_result(rs.last(), f, e, a, nl);
    }
}

pub open spec fn run_view_fine(v: RunViewModel, a: bool, nl: bool) -> bool {
    fine(v.tool_name, a, nl) && opt_fine(v.tool_version, a, nl) && forall|i: int|
        0 <= i < v.results.len() ==> result_view_fine(#[trigger] v.results[i], a, nl)
}

proof fn lemma_run(v: RunViewModel, f: MarkdownFormat, e: bool, a: bool, nl: bool)
    requires
        a ==> !e,
        nl ==> f == MarkdownFormat::CommonMark,
        run_view_fine(v, a, nl),
    ensures
        fine(run_text(v, f, e), a, nl),
{
    lemma_literals();
    lemma_icon(e, "\u{1F527} "@, a, nl);
    lemma_decimal_fine(v.total_results);
    lemma_counts(v.severity_counts, e, a, nl);
    if v.results.len() > 0 {
        lemma_icon(e, "\u{1F50D} "@, a, nl);
        lemma_results(v.results, f, e, a, nl);
    }
}

proof fn lemma_runs(vs: Seq<RunViewModel>, f: MarkdownFormat, e: bool, a: bool, nl: bool)
    requires
        a ==> !e,
        nl ==> f == MarkdownFormat::CommonMark,
        forall|i: int| 0 <= i < vs.len() ==> run_view_fine(#[trigger] vs[i], a, nl),
    ensures
        fine(runs_text(vs, f, e), a, nl),
    decreases vs.len(),
{
    if vs.len() > 0 {
        let d = vs.drop_last();
        assert forall|i: int| 0 <= i < d.len() implies run_view_fine(#[trigger] d[i], a, nl) by {
            assert(d[i] == vs[i]);
        }
        lemma_runs(d, f, e, a, nl);
        assert(vs.last() == vs[vs.len() - 1]);
        lemma_run(vs.last(), f, e, a, nl);
    }
}

proof fn lemma_views_report(
    vs: Seq<RunViewModel>,
    f: MarkdownFormat,
    e: bool,
    t: Timestamp,
    a: bool,
    nl: bool,
)
    requires
        a ==> !e,
        nl ==> f == MarkdownFormat::CommonMark,
        forall|i: int| 0 <= i < vs.len() ==> run_view_fine(#[trigger] vs[i], a, nl),
    ensures
        fine(views_report(vs, f, e, t), a, nl),
{
    lemma_literals();
    lemma_icon(e, "\u{1F6E1}\u{FE0F} "@, a, nl);
    lemma_timestamp_fine(t);
    lemma_runs(vs, f, e, a, nl);
}

/// Every string of a rule is `fine` under the flags.
pub open spec fn rule_fine(r: RuleModel, a: bool, nl: bool) -> bool {
    fine(r.id, a, nl) && opt_fine(r.name, a, nl) && opt_fine(r.short_description, a, nl)
        && opt_fine(r.full_description, a, nl) && opt_fine(r.help_uri, a, nl) && all_fine(
        or_empty(r.tags),
        a,
        nl,
    ) && forall|i: int|
        0 <= i < or_empty(r.cwe).len() ==> opt_fine(#[trigger] or_empty(r.cwe)[i], a, nl)
}

/// Every string of a finding is `fine` under the flags.
pub open spec fn finding_fine(f: FindingModel, a: bool, nl: bool) -> bool {
    opt_fine(f.rule_id, a, nl) && opt_fine(f.text, a, nl) && opt_fine(f.markdown, a, nl)
        && forall|i: int|
        0 <= i < or_empty(f.locations).len() ==> (#[trigger] or_empty(f.locations)[i] is Some
            ==> opt_fine(
            or_empty(f.locations)[i]->0.file,
            a,
            nl,
        ))
}

/// Every string of a run is `fine` under the flags.
pub open spec fn run_fine(r: AnalysisRunModel, a: bool, nl: bool) -> bool {
    fine(r.tool_name, a, nl) && opt_fine(r.tool_version, a, nl) && (forall|i: int|
        0 <= i < or_empty(r.rules).len() ==> rule_fine(#[trigger] or_empty(r.rules)[i], a, nl))
        && forall|i: int|
        0 <= i < or_empty(r.results).len() ==> finding_fine(
            #[trigger] or_empty(r.results)[i],
            a,
            nl,
        )
}

/// Every string of a document is `fine` under the flags: ASCII where `a` is
/// set, free of `<` where `nl` is set.
pub open spec fn document_fine(doc: Seq<AnalysisRunModel>, a: bool, nl: bool) -> bool {
    forall|i: int| 0 <= i < doc.len() ==> run_fine(#[trigger] doc[i], a, nl)
}

/// Every string of a document is ASCII.
pub open spec fn document_ascii(doc: Seq<AnalysisRunModel>) -> bool {
    document_fine(doc, true, false)
}

proof fn lemma_strings_only_fine(s: Seq<Option<Seq<char>>>, a: bool, nl: bool)
    requires
        forall|i: int| 0 <= i < s.len() ==> opt_fine(#[trigger] s[i], a, nl),
    ensures
        all_fine(strings_only(s), a, nl),
    decreases s.len(),
{
    if s.len() > 0 {
        let d = s.drop_last();
        assert forall|i: int| 0 <= i < d.len() implies opt_fine(#[trigger] d[i], a, nl) by {
            assert(d[i] == s[i]);
        }
        lemma_strings_only_fine(d, a, nl);
        assert(s.last() == s[s.len() - 1]);
        let r = strings_only(s);
        assert forall|i: int| 0 <= i < r.len() implies fine(#[trigger] r[i], a, nl) by {
            if i < strings_only(d).len() {
                assert(r[i] == strings_only(d)[i]);
            }
        }
    }
}

proof fn lemma_lookup_fine(rules: Seq<RuleModel>, id: Seq<char>, a: bool, nl: bool)
    requires
        forall|i: int| 0 <= i < rules.len() ==> rule_fine(#[trigger] rules[i], a, nl),
    ensures
        lookup(rules, id) is Some ==> metadata_fine(lookup(rules, id)->0, a, nl),
    decreases rules.len(),
{
    if rules.len() > 0 {
        let d = rules.drop_last();
        assert forall|i: int| 0 <= i < d.len() implies rule_fine(#[trigger] d[i], a, nl) by {
            assert(d[i] == rules[i]);
        }
        lemma_lookup_fine(d, id, a, nl);
        let r = rules.last();
        assert(r == rules[rules.len() - 1]);
        lemma_strings_only_fine(or_empty(r.cwe), a, nl);
        let m = metadata_of(r);
        assert(opt_fine(m.description, a, nl));
    }
}

proof fn lemma_present_locations_fine(ls: Seq<Option<SourceLocationModel>>, a: bool, nl: bool)
    requires
        forall|i: int|
            0 <= i < ls.len() ==> (#[trigger] ls[i] is Some ==> opt_fine(ls[i]->0.file, a, nl)),
    ensures
        forall|i: int|
            0 <= i < present_locations(ls).len() ==> opt_fine(
                #[trigger] present_locations(ls)[i].file,
                a,
                nl,
            ),
    decreases ls.len(),
{
    if ls.len() > 0 {
        let d = ls.drop_last();
        assert forall|i: int| 0 <= i < d.len() && #[trigger] d[i] is Some implies opt_fine(
            d[i]->0.file,
            a,
            nl,
        ) by {
            assert(d[i] == ls[i]);
        }
        lemma_present_locations_fine(d, a, nl);
        assert(ls.last() == ls[ls.len() - 1]);
        let r = present_locations(ls);
        assert forall|i: int| 0 <= i < r.len() implies opt_fine(#[trigger] r[i].file, a, nl) by {
            if i < present_locations(d).len() {
                assert(r[i] == present_locations(d)[i]);
            }
        }
    }
}

proof fn lemma_run_view_fine(run: AnalysisRunModel, a: bool, nl: bool)
    requires
        run_fine(run, a, nl),
    ensures
        run_view_fine(run_view_of(run), a, nl),
{
    reveal_strlit("No message");
    reveal_strlit("unknown");
    assert(fine("No message"@, true, true));
    assert(fine("unknown"@, true, true));
    let rs = result_views_of(run);
    assert forall|i: int| 0 <= i < rs.len() implies result_view_fine(#[trigger] rs[i], a, nl) by {
        let f = or_empty(run.results)[i];
        assert(finding_fine(f, a, nl));
        lemma_lookup_fine(or_empty(run.rules), crate::views::rule_id_of(f), a, nl);
        lemma_present_locations_fine(or_empty(f.locations), a, nl);
        assert(rs[i] == result_view_of(f, or_empty(run.rules)));
    }
}

proof fn lemma_document_report(
    doc: Seq<AnalysisRunModel>,
    f: MarkdownFormat,
    e: bool,
    t: Timestamp,
    a: bool,
    nl: bool,
)
    requires
        a ==> !e,
        nl ==> f == MarkdownFormat::CommonMark,
        document_fine(doc, a, nl),
    ensures
        fine(report_text(doc, f, e, t), a, nl),
{
    let vs = document_views_of(doc);
    assert forall|i: int| 0 <= i < vs.len() implies run_view_fine(#[trigger] vs[i], a, nl) by {
        lemma_run_view_fine(doc[i], a, nl);
    }
    lemma_views_report(vs, f, e, t, a, nl);
}

/// A report with emoji off on a document whose strings are all ASCII holds
/// ASCII characters only, in either format.
pub proof fn lemma_plain_report_is_ascii(
    doc: Seq<AnalysisRunModel>,
    f: MarkdownFormat,
    t: Timestamp,
)
    requires
        document_ascii(doc),
    ensures
        ascii(report_text(doc, f, false, t)),
{
    lemma_document_report(doc, f, false, t, true, false);
}

/// A report with emoji on holds a character beyond ASCII, whatever the document.
pub proof fn lemma_emoji_report_is_not_ascii(
    doc: Seq<AnalysisRunModel>,
    f: MarkdownFormat,
    t: Timestamp,
)
    ensures
        exists|i: int|
            0 <= i < report_text(doc, f, true, t).len() && (#[trigger] report_text(
                doc,
                f,
                true,
                t,
            )[i] as u32) >= 128,
{
    reveal_strlit("# ");
    reveal_strlit("\u{1F6E1}\u{FE0F} ");
    let r = report_text(doc, f, true, t);
    let shield = "\u{1F6E1}\u{FE0F} "@;
    let rest = "Security Report\n\nGenerated: "@ + timestamp_text(t) + "\n"@ + runs_text(
        document_views_of(doc),
        f,
        true,
    );
    assert(r =~= "# "@ + shield + rest);
    assert(r[2] == shield[0]);
    assert((r[2] as u32) >= 128);
}

/// A CommonMark report on a document whose strings hold no `<` holds no `<`
/// either, and so no HTML markup, whether emoji are on or off.
pub proof fn lemma_common_mark_has_no_markup(doc: Seq<AnalysisRunModel>, e: bool, t: Timestamp)
    requires
        document_fine(doc, false, true),
    ensures
        fine(report_text(doc, MarkdownFormat::CommonMark, e, t), false, true),
{
    lemma_document_report(doc, MarkdownFormat::CommonMark, e, t, false, true);
}

pub open spec fn has_findings(doc: Seq<AnalysisRunModel>) -> bool {
    exists|k: int| 0 <= k < doc.len() && or_empty((#[trigger] doc[k]).results).len() > 0
}

proof fn lemma_open_tag()
    ensures
        contains("\n<details>\n<summary>Details</summary>\n"@, "<details>"@),
{
    reveal_strlit("\n<details>\n<summary>Details</summary>\n");
    reveal_strlit("<details>");
    let s = "\n<details>\n<summary>Details</summary>\n"@;
    assert(s.subrange(1, 10) =~= "<details>"@);
    assert(s.subrange(1, 1 + "<details>"@.len() as int) == "<details>"@);
}

proof fn lemma_run_folds(v: RunViewModel, e: bool)
    requires
        v.results.len() > 0,
    ensures
        contains(run_text(v, MarkdownFormat::GitHubFlavored, e), "<details>"@),
{
    let g = MarkdownFormat::GitHubFlavored;
    let t = "<details>"@;
    let open = "\n<details>\n<summary>Details</summary>\n"@;
    let rs = v.results;
    let r = rs.last();
    lemma_open_tag();
    lemma_contains_right(open, details_text(r), t);
    lemma_contains_right(open + details_text(r), "\n</details>\n"@, t);
    lemma_contains_left(
        "\n#### "@ + level_label(r.level, e) + ": "@ + r.rule_id + "\n"@,
        collapsed(g, details_text(r)),
        t,
    );
    lemma_contains_left(results_text(rs.drop_last(), g, e), result_text(r, g, e), t);
    lemma_contains_left(
        "\n### "@ + icon(e, "\u{1F50D} "@) + "Findings\n"@,
        results_text(rs, g, e),
        t,
    );
    lemma_contains_left(
        "\n## "@ + icon(e, "\u{1F527} "@) + v.tool_name + crate::render::version_text(
            v.tool_version,
        ) + "\n\nTotal results: "@ + decimal(v.total_results) + "\n"@ + counts_text(
            v.severity_counts,
            e,
        ),
        crate::render::findings_text(rs, g, e),
        t,
    );
}

proof fn lemma_runs_fold(vs: Seq<RunViewModel>, e: bool)
    requires
        exists|k: int| 0 <= k < vs.len() && (#[trigger] vs[k]).results.len() > 0,
    ensures
        contains(runs_text(vs, MarkdownFormat::GitHubFlavored, e), "<details>"@),
    decreases vs.len(),
{
    let g = MarkdownFormat::GitHubFlavored;
    let k = choose|k: int| 0 <= k < vs.len() && (#[trigger] vs[k]).results.len() > 0;
    let d = vs.drop_last();
    if k == vs.len() - 1 {
        lemma_run_folds(vs.last(), e);
        lemma_contains_left(runs_text(d, g, e), run_text(vs.last(), g, e), "<details>"@);
    } else {
        assert(d[k] == vs[k]);
        lemma_runs_fold(d, e);
        lemma_contains_right(runs_text(d, g, e), run_text(vs.last(), g, e), "<details>"@);
    }
}

/// A GitHub-flavored report on a document with at least one finding holds a
/// collapsible `<details>` block.
pub proof fn lemma_github_report_folds(doc: Seq<AnalysisRunModel>, e: bool, t: Timestamp)
    requires
        has_findings(doc),
    ensures
        contains(report_text(doc, MarkdownFormat::GitHubFlavored, e, t), "<details>"@),
{
    let vs = document_views_of(doc);
    let k = choose|k: int| 0 <= k < doc.len() && or_empty((#[trigger] doc[k]).results).len() > 0;
    assert(vs[k].results.len() == or_empty(doc[k].results).len());
    lemma_runs_fold(vs, e);
    lemma_contains_left(
        header_text(e, timestamp_text(t)),
        runs_text(vs, MarkdownFormat::GitHubFlavored, e),
        "<details>"@,
    );
}

/// The report on a document without runs is its heading and timestamp alone,
/// with no findings section.
pub proof fn lemma_empty_document_is_header_only(f: MarkdownFormat, e: bool, t: Timestamp)
    ensures
        report_text(Seq::empty(), f, e, t) == header_text(e, timestamp_text(t)),
{
    assert(document_views_of(Seq::<AnalysisRunModel>::empty()) =~= Seq::<RunViewModel>::empty());
    assert(header_text(e, timestamp_text(t)) + Seq::<char>::empty() =~= header_text(
        e,
        timestamp_text(t),
    ));
}

/// The text before the timestamp.
pub open spec fn report_prefix(e: bool) -> Seq<char> {
    "# "@ + icon(e, "\u{1F6E1}\u{FE0F} "@) + "Security Report\n\nGenerated: "@
}

/// The text after the timestamp.
pub open spec fn report_suffix(doc: Seq<AnalysisRunModel>, f: MarkdownFormat, e: bool) -> Seq<
    char,
> {
    "\n"@ + runs_text(document_views_of(doc), f, e)
}

/// Two reports on one document in one configuration are equal but for the
/// timestamp: each is the same prefix, its timestamp, and the same suffix.
pub proof fn lemma_reports_differ_only_in_timestamp(
    doc: Seq<AnalysisRunModel>,
    f: MarkdownFormat,
    e: bool,
    t1: Timestamp,
    t2: Timestamp,
)
    ensures
        report_text(doc, f, e, t1) == report_prefix(e) + timestamp_text(t1) + report_suffix(
            doc,
            f,
            e,
        ),
        report_text(doc, f, e, t2) == report_prefix(e) + timestamp_text(t2) + report_suffix(
            doc,
            f,
            e,
        ),
{
    assert(report_text(doc, f, e, t1) =~= report_prefix(e) + timestamp_text(t1) + report_suffix(
        doc,
        f,
        e,
    ));
    assert(report_text(doc, f, e, t2) =~= report_prefix(e) + timestamp_text(t2) + report_suffix(
        doc,
        f,
        e,
    ));
}

/// Every report that a SARIF generator produces for a document is that
/// document's report at some valid time, so the laws above hold of it: it is a
/// fixed prefix, the timestamp and a fixed suffix; it holds a non-ASCII
/// character with emoji on, and only ASCII with emoji off on ASCII input;
/// CommonMark holds no `<` where the document's strings hold none; GitHub-flavored output on a document with findings
/// holds a `<details>` block; and a document without runs gives the heading alone.
pub proof fn lemma_produced_report(
    g: SarifMarkdownGenerator,
    doc: Seq<AnalysisRunModel>,
    out: Seq<char>,
)
    requires
        g.produces(doc, out),
    ensures
        exists|t: Timestamp|
            t.wf() && out == report_prefix(g.with_emoji) + #[trigger] timestamp_text(t)
                + report_suffix(doc, g.format, g.with_emoji),
        g.with_emoji ==> exists|i: int| 0 <= i < out.len() && (#[trigger] out[i] as u32) >= 128,
        !g.with_emoji && document_ascii(doc) ==> ascii(out),
        g.format == MarkdownFormat::CommonMark && document_fine(doc, false, true) ==> fine(
            out,
            false,
            true,
        ),
        g.format == MarkdownFormat::GitHubFlavored && has_findings(doc) ==> contains(
            out,
            "<details>"@,
        ),
        doc.len() == 0 ==> exists|t: Timestamp|
            t.wf() && out == header_text(g.with_emoji, #[trigger] timestamp_text(t)),
{
    let t = choose|t: Timestamp|
        t.wf() && out == #[trigger] report_text(doc, g.format, g.with_emoji, t);
    lemma_reports_differ_only_in_timestamp(doc, g.format, g.with_emoji, t, t);
    assert(t.wf() && out == report_prefix(g.with_emoji) + timestamp_text(t) + report_suffix(
        doc,
        g.format,
        g.with_emoji,
    ));
    if g.with_emoji {
        lemma_emoji_report_is_not_ascii(doc, g.format, t);
    }
    if !g.with_emoji && document_ascii(doc) {
        lemma_plain_report_is_ascii(doc, g.format, t);
    }
    if g.format == MarkdownFormat::CommonMark && document_fine(doc, false, true) {
        lemma_common_mark_has_no_markup(doc, g.with_emoji, t);
    }
    if g.format == MarkdownFormat::GitHubFlavored && has_findings(doc) {
        lemma_github_report_folds(doc, g.with_emoji, t);
    }
    if doc.len() == 0 {
        assert(doc == Seq::<AnalysisRunModel>::empty());
        lemma_empty_document_is_header_only(g.format, g.with_emoji, t);
        assert(t.wf() && out == header_text(g.with_emoji, timestamp_text(t)));
    }
}

} // verus!
