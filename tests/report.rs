use sarif_to_md_core::{
    render_document, AnalysisRun, Document, Finding, Level, MarkdownFormat, Rule,
    SourceLocation, Timestamp,
};

fn s(x: &str) -> String {
    x.to_string()
}

fn at(year: i32, month: u32, day: u32, hour: u32, minute: u32, second: u32) -> Timestamp {
    Timestamp { year, month, day, hour, minute, second }
}

fn sample() -> Document {
    Document {
        runs: vec![AnalysisRun {
            tool_name: s("Scanner"),
            tool_version: Some(s("1.2")),
            rules: Some(vec![Rule {
                id: s("R1"),
                name: Some(s("Rule One")),
                short_description: Some(s("Short")),
                full_description: Some(s("Full")),
                help_uri: Some(s("https://x/r1")),
                tags: Some(vec![s("security")]),
                cwe: Some(vec![Some(s("CWE-79")), None, Some(s("CWE-80"))]),
            }]),
            results: Some(vec![
                Finding {
                    rule_id: Some(s("R1")),
                    level: Some(Level::Error),
                    text: Some(s("Bad <thing>")),
                    markdown: None,
                    locations: Some(vec![
                        Some(SourceLocation { file: Some(s("src/a.rs")), line: Some(3), column: Some(7) }),
                        None,
                    ]),
                },
                Finding {
                    rule_id: None,
                    level: None,
                    text: None,
                    markdown: Some(s("md")),
                    locations: None,
                },
            ]),
        }],
    }
}

const HEADER: &str = "# Security Report\n\nGenerated: 2024-01-02 03:04:05 UTC\n";

const RUN_HEAD: &str = "\n## Scanner 1.2\n\nTotal results: 2\n- Error: 1\n- Warning: 1\n\n### Findings\n";

const FIRST_DETAILS: &str = "\nBad <thing>\n\n- Rule: Rule One\n- Description: Short\n- Help: https://x/r1\n- CWE: CWE-79, CWE-80\n- Tags: security\n\n- Location: `src/a.rs:3:7`\n";

#[test]
fn common_mark_report_exact_text() {
    let t = at(2024, 1, 2, 3, 4, 5);
    let got = render_document(&sample(), MarkdownFormat::CommonMark, false, &t);
    let want = format!(
        "{HEADER}{RUN_HEAD}\n#### Error: R1\n{FIRST_DETAILS}\n#### Warning: unknown\n\nmd\n"
    );
    assert_eq!(got, want);
}

#[test]
fn github_report_exact_text() {
    let t = at(2024, 1, 2, 3, 4, 5);
    let got = render_document(&sample(), MarkdownFormat::GitHubFlavored, false, &t);
    let open = "\n<details>\n<summary>Details</summary>\n";
    let close = "\n</details>\n";
    let want = format!(
        "{HEADER}{RUN_HEAD}\n#### Error: R1\n{open}{FIRST_DETAILS}{close}\n#### Warning: unknown\n{open}\nmd\n{close}"
    );
    assert_eq!(got, want);
}

#[test]
fn emoji_report_exact_heading_and_labels() {
    let t = at(2024, 1, 2, 3, 4, 5);
    let got = render_document(&sample(), MarkdownFormat::CommonMark, true, &t);
    assert!(got.starts_with(
        "# \u{1F6E1}\u{FE0F} Security Report\n\nGenerated: 2024-01-02 03:04:05 UTC\n\n## \u{1F527} Scanner 1.2\n"
    ));
    assert!(got.contains("- \u{1F534} Error: 1\n- \u{1F7E1} Warning: 1\n"));
    assert!(got.contains("\n### \u{1F50D} Findings\n"));
    assert!(got.contains("\n#### \u{1F534} Error: R1\n"));
}

#[test]
fn empty_document_is_header_only() {
    let t = at(2024, 1, 2, 3, 4, 5);
    let doc = Document { runs: vec![] };
    for f in [MarkdownFormat::CommonMark, MarkdownFormat::GitHubFlavored] {
        let got = render_document(&doc, f, false, &t);
        assert_eq!(got, HEADER);
        assert!(!got.contains("Findings"));
    }
}

#[test]
fn run_without_findings_has_no_findings_section() {
    let t = at(2024, 1, 2, 3, 4, 5);
    let doc = Document {
        runs: vec![AnalysisRun { tool_name: s("T"), tool_version: None, rules: None, results: Some(vec![]) }],
    };
    let got = render_document(&doc, MarkdownFormat::GitHubFlavored, false, &t);
    assert_eq!(got, format!("{HEADER}\n## T\n\nTotal results: 0\n"));
}

#[test]
fn reports_differ_only_in_timestamp() {
    let t1 = at(2024, 1, 2, 3, 4, 5);
    let t2 = at(2031, 12, 30, 23, 59, 58);
    for f in [MarkdownFormat::CommonMark, MarkdownFormat::GitHubFlavored] {
        for e in [false, true] {
            let a = render_document(&sample(), f, e, &t1);
            let b = render_document(&sample(), f, e, &t1);
            assert_eq!(a, b);
            let c = render_document(&sample(), f, e, &t2);
            assert_ne!(a, c);
            let c_as_a = c.replace("2031-12-30 23:59:58 UTC", "2024-01-02 03:04:05 UTC");
            assert_eq!(a, c_as_a);
        }
    }
}

#[test]
fn emoji_toggle_decides_non_ascii() {
    let t = at(2024, 1, 2, 3, 4, 5);
    for doc in [sample(), Document { runs: vec![] }] {
        for f in [MarkdownFormat::CommonMark, MarkdownFormat::GitHubFlavored] {
            let on = render_document(&doc, f, true, &t);
            assert!(on.chars().any(|c| c as u32 > 127));
            let off = render_document(&doc, f, false, &t);
            assert!(off.chars().all(|c| (c as u32) < 128));
        }
    }
}

#[test]
fn github_folds_and_common_mark_does_not() {
    let t = at(2024, 1, 2, 3, 4, 5);
    for e in [false, true] {
        let gfm = render_document(&sample(), MarkdownFormat::GitHubFlavored, e, &t);
        assert!(gfm.contains("<details>"));
        let cm = render_document(&sample(), MarkdownFormat::CommonMark, e, &t);
        assert!(!cm.contains("<details>"));
        assert!(!cm.contains("<summary>"));
    }
}

#[test]
fn input_strings_are_written_as_given() {
    let t = at(2024, 1, 2, 3, 4, 5);
    let mut doc = sample();
    doc.runs[0].tool_name = s("<tool>");
    doc.runs[0].results.as_mut().unwrap()[1].markdown = Some(s("a <b> c"));
    doc.runs[0].results.as_mut().unwrap()[0].locations.as_mut().unwrap()[0] =
        Some(SourceLocation { file: Some(s("a<b")), line: None, column: None });
    let cm = render_document(&doc, MarkdownFormat::CommonMark, false, &t);
    assert!(cm.contains("\n## <tool> 1.2\n"));
    assert!(cm.contains("\na <b> c\n"));
    assert!(cm.contains("- Location: `a<b`\n"));
}

#[test]
fn common_mark_without_markup_in_input_has_none() {
    let t = at(2024, 1, 2, 3, 4, 5);
    let mut doc = sample();
    doc.runs[0].results.as_mut().unwrap()[0].text = Some(s("Bad thing"));
    for e in [false, true] {
        let cm = render_document(&doc, MarkdownFormat::CommonMark, e, &t);
        assert!(!cm.contains('<'));
    }
}

#[test]
fn location_positions_and_unknown_file() {
    let t = at(2024, 1, 2, 3, 4, 5);
    let doc = Document {
        runs: vec![AnalysisRun {
            tool_name: s("T"),
            tool_version: None,
            rules: Some(vec![]),
            results: Some(vec![Finding {
                rule_id: Some(s("X")),
                level: Some(Level::Unrated),
                text: Some(s("m")),
                markdown: None,
                locations: Some(vec![
                    Some(SourceLocation { file: None, line: Some(-12), column: None }),
                    Some(SourceLocation { file: Some(s("b.c")), line: None, column: Some(40) }),
                    Some(SourceLocation { file: Some(s("z")), line: Some(1234567), column: Some(0) }),
                ]),
            }]),
        }],
    };
    let got = render_document(&doc, MarkdownFormat::CommonMark, false, &t);
    let want = format!(
        "{HEADER}\n## T\n\nTotal results: 1\n- None: 1\n\n### Findings\n\n#### None: X\n\nm\n\n- Location: `unknown:-12`\n- Location: `b.c:40`\n- Location: `z:1234567:0`\n"
    );
    assert_eq!(got, want);
}

#[test]
fn timestamp_padding() {
    assert_eq!(at(2024, 1, 2, 3, 4, 5).format(), "2024-01-02 03:04:05 UTC");
    assert_eq!(at(987, 10, 11, 12, 13, 14).format(), "0987-10-11 12:13:14 UTC");
    assert_eq!(at(5, 12, 31, 23, 59, 59).format(), "0005-12-31 23:59:59 UTC");
    assert_eq!(at(12345, 6, 7, 0, 0, 0).format(), "+12345-06-07 00:00:00 UTC");
    assert_eq!(at(-44, 3, 15, 0, 0, 0).format(), "-0044-03-15 00:00:00 UTC");
}
