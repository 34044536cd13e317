use sarif_to_md_core::{
    build_views, AnalysisRun, Document, Finding, Level, Rule, SourceLocation,
};

fn s(x: &str) -> String {
    x.to_string()
}

fn finding(rule_id: Option<&str>, level: Option<Level>) -> Finding {
    Finding {
        rule_id: rule_id.map(s),
        level,
        text: Some(s("message")),
        markdown: None,
        locations: None,
    }
}

fn rule(id: &str, name: &str) -> Rule {
    Rule {
        id: s(id),
        name: Some(s(name)),
        short_description: None,
        full_description: None,
        help_uri: None,
        tags: None,
        cwe: None,
    }
}

fn run_of(rules: Vec<Rule>, results: Vec<Finding>) -> Document {
    Document {
        runs: vec![AnalysisRun {
            tool_name: s("Scanner"),
            tool_version: None,
            rules: Some(rules),
            results: Some(results),
        }],
    }
}

#[test]
fn total_equals_sum_of_counts() {
    let doc = run_of(
        vec![],
        vec![
            finding(None, Some(Level::Note)),
            finding(None, Some(Level::Error)),
            finding(None, None),
            finding(None, Some(Level::Error)),
            finding(None, Some(Level::Unrated)),
        ],
    );
    let views = build_views(&doc);
    assert_eq!(views.len(), 1);
    let v = &views[0];
    assert_eq!(v.total_results, 5);
    assert_eq!(v.results.len(), 5);
    let sum: usize = v.severity_counts.iter().map(|c| c.count).sum();
    assert_eq!(sum, 5);
}

#[test]
fn counts_follow_level_order_and_skip_zero() {
    let doc = run_of(
        vec![],
        vec![
            finding(None, Some(Level::Unrated)),
            finding(None, Some(Level::Note)),
            finding(None, Some(Level::Error)),
            finding(None, Some(Level::Note)),
        ],
    );
    let v = &build_views(&doc)[0];
    let got: Vec<(Level, usize)> = v.severity_counts.iter().map(|c| (c.level, c.count)).collect();
    assert_eq!(
        got,
        vec![(Level::Error, 1), (Level::Note, 2), (Level::Unrated, 1)]
    );
}

#[test]
fn empty_run_has_no_counts() {
    let doc = run_of(vec![], vec![]);
    let v = &build_views(&doc)[0];
    assert_eq!(v.total_results, 0);
    assert!(v.severity_counts.is_empty());
}

#[test]
fn missing_level_is_warning() {
    let doc = run_of(vec![], vec![finding(Some("R1"), None)]);
    let v = &build_views(&doc)[0];
    assert_eq!(v.results[0].level, Level::Warning);
    assert_eq!(v.severity_counts.len(), 1);
    assert_eq!(v.severity_counts[0].level, Level::Warning);
}

#[test]
fn undeclared_rule_has_no_metadata() {
    let doc = run_of(
        vec![rule("R1", "One")],
        vec![finding(Some("R2"), None), finding(None, None), finding(Some("r1"), None)],
    );
    let v = &build_views(&doc)[0];
    assert!(v.results[0].rule_metadata.is_none());
    assert!(v.results[1].rule_metadata.is_none());
    assert_eq!(v.results[1].rule_id, "unknown");
    assert!(v.results[2].rule_metadata.is_none());
}

#[test]
fn declared_rule_metadata_is_attached() {
    let mut r = rule("R1", "One");
    r.short_description = None;
    r.full_description = Some(s("Full text"));
    r.help_uri = Some(s("https://example.org/r1"));
    r.tags = Some(vec![s("security"), s("xss")]);
    r.cwe = Some(vec![Some(s("CWE-79")), None, Some(s("CWE-80"))]);
    let doc = run_of(vec![r], vec![finding(Some("R1"), Some(Level::Error))]);
    let v = &build_views(&doc)[0];
    let m = v.results[0].rule_metadata.as_ref().unwrap();
    assert_eq!(m.name.as_deref(), Some("One"));
    assert_eq!(m.description.as_deref(), Some("Full text"));
    assert_eq!(m.help_uri.as_deref(), Some("https://example.org/r1"));
    assert_eq!(m.cwe_ids, vec![s("CWE-79"), s("CWE-80")]);
    assert_eq!(m.tags, vec![s("security"), s("xss")]);
}

#[test]
fn short_description_wins_over_full() {
    let mut r = rule("R1", "One");
    r.short_description = Some(s("Short"));
    r.full_description = Some(s("Full"));
    let doc = run_of(vec![r], vec![finding(Some("R1"), None)]);
    let v = &build_views(&doc)[0];
    let m = v.results[0].rule_metadata.as_ref().unwrap();
    assert_eq!(m.description.as_deref(), Some("Short"));
}

#[test]
fn last_rule_with_an_id_wins() {
    let doc = run_of(
        vec![rule("R1", "First"), rule("R2", "Other"), rule("R1", "Second")],
        vec![finding(Some("R1"), None)],
    );
    let v = &build_views(&doc)[0];
    let m = v.results[0].rule_metadata.as_ref().unwrap();
    assert_eq!(m.name.as_deref(), Some("Second"));
}

#[test]
fn message_prefers_nonempty_text_then_markdown() {
    let mut a = finding(None, None);
    a.text = Some(s("plain"));
    a.markdown = Some(s("**md**"));
    let mut b = finding(None, None);
    b.text = None;
    b.markdown = Some(s("**md**"));
    let mut c = finding(None, None);
    c.text = Some(s(""));
    c.markdown = Some(s("**md**"));
    let mut d = finding(None, None);
    d.text = None;
    d.markdown = None;
    let doc = run_of(vec![], vec![a, b, c, d]);
    let v = &build_views(&doc)[0];
    assert_eq!(v.results[0].message, "plain");
    assert_eq!(v.results[1].message, "**md**");
    assert_eq!(v.results[2].message, "**md**");
    assert_eq!(v.results[3].message, "No message");
}

#[test]
fn locations_without_physical_location_are_dropped() {
    let mut f = finding(None, None);
    f.locations = Some(vec![
        None,
        Some(SourceLocation { file: Some(s("a.rs")), line: Some(3), column: None }),
        None,
        Some(SourceLocation { file: None, line: None, column: Some(9) }),
    ]);
    let doc = run_of(vec![], vec![f]);
    let v = &build_views(&doc)[0];
    let locs = &v.results[0].locations;
    assert_eq!(locs.len(), 2);
    assert_eq!(locs[0].file.as_deref(), Some("a.rs"));
    assert_eq!(locs[0].line, Some(3));
    assert_eq!(locs[1].file, None);
    assert_eq!(locs[1].column, Some(9));
}

#[test]
fn runs_keep_input_order() {
    let doc = Document {
        runs: vec![
            AnalysisRun { tool_name: s("first"), tool_version: Some(s("1")), rules: Some(vec![]), results: Some(vec![]) },
            AnalysisRun { tool_name: s("second"), tool_version: None, rules: None, results: None },
        ],
    };
    let views = build_views(&doc);
    assert_eq!(views.len(), 2);
    assert_eq!(views[0].tool_name, "first");
    assert_eq!(views[0].tool_version.as_deref(), Some("1"));
    assert_eq!(views[1].tool_name, "second");
}

#[test]
fn absent_lists_count_as_empty() {
    let doc = Document {
        runs: vec![AnalysisRun { tool_name: s("T"), tool_version: None, rules: None, results: None }],
    };
    let v = &build_views(&doc)[0];
    assert_eq!(v.total_results, 0);
    assert!(v.results.is_empty() && v.severity_counts.is_empty());
    let mut f = finding(Some("R1"), None);
    f.locations = None;
    let mut r = rule("R1", "One");
    r.tags = None;
    r.cwe = None;
    let doc = run_of(vec![r], vec![f]);
    let v = &build_views(&doc)[0];
    assert!(v.results[0].locations.is_empty());
    let m = v.results[0].rule_metadata.as_ref().unwrap();
    assert!(m.tags.is_empty() && m.cwe_ids.is_empty());
}
