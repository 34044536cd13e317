use sarif_to_md_core::{
    parse_document, BuilderError, Level, MarkdownFormat, MarkdownGenerator, ReportError,
    ReportProcessor, ReportProcessorBuilder, SarifMarkdownGenerator, Severity,
};

const FULL: &str = r#"{"version":"2.1.0","runs":[{"tool":{"driver":{"name":"Scanner","version":"1.2","rules":[{"id":"R1","name":"Rule One","shortDescription":{"text":"Short"},"fullDescription":{"text":"Full"},"helpUri":"https://x/r1","properties":{"tags":["security"],"cwe":["CWE-79",5,"CWE-80"]}},{"id":"R2","fullDescription":{"text":"Only full"}}]}},"results":[{"ruleId":"R1","level":"error","message":{"text":"Bad <thing>"},"locations":[{"physicalLocation":{"artifactLocation":{"uri":"src/a.rs"},"region":{"startLine":3,"startColumn":7}}},{"logicalLocations":[{"name":"x"}]}]},{"message":{"markdown":"md"}},{"ruleId":"R2","level":"none","message":{"text":"n"}},{"ruleId":"R9","level":"note","message":{"text":"t","markdown":"m"}}]}]}"#;

const MINIMAL: &str = r#"{"version":"2.1.0","runs":[]}"#;

fn processor(format: MarkdownFormat, emoji: bool, content: &str) -> ReportProcessor<SarifMarkdownGenerator> {
    ReportProcessorBuilder::new()
        .generator(SarifMarkdownGenerator::new(format, emoji))
        .content(content.to_string())
        .build()
        .expect("content was given")
}

#[test]
fn parse_reads_runs_rules_and_results() {
    let doc = parse_document(FULL).expect("valid SARIF");
    assert_eq!(doc.runs.len(), 1);
    let run = &doc.runs[0];
    assert_eq!(run.tool_name, "Scanner");
    assert_eq!(run.tool_version.as_deref(), Some("1.2"));
    let rules = run.rules.as_ref().unwrap();
    assert_eq!(rules.len(), 2);
    let r1 = &rules[0];
    assert_eq!(r1.id, "R1");
    assert_eq!(r1.name.as_deref(), Some("Rule One"));
    assert_eq!(r1.short_description.as_deref(), Some("Short"));
    assert_eq!(r1.full_description.as_deref(), Some("Full"));
    assert_eq!(r1.help_uri.as_deref(), Some("https://x/r1"));
    assert_eq!(r1.tags, Some(vec!["security".to_string()]));
    assert_eq!(
        r1.cwe,
        Some(vec![Some("CWE-79".to_string()), None, Some("CWE-80".to_string())])
    );
    let r2 = &rules[1];
    assert!(r2.tags.is_none() && r2.cwe.is_none() && r2.short_description.is_none());
    let results = run.results.as_ref().unwrap();
    assert_eq!(results.len(), 4);
    let f = &results[0];
    assert_eq!(f.rule_id.as_deref(), Some("R1"));
    assert_eq!(f.level, Some(Level::Error));
    assert_eq!(f.text.as_deref(), Some("Bad <thing>"));
    let locs = f.locations.as_ref().unwrap();
    assert_eq!(locs.len(), 2);
    let l = locs[0].as_ref().unwrap();
    assert_eq!(l.file.as_deref(), Some("src/a.rs"));
    assert_eq!((l.line, l.column), (Some(3), Some(7)));
    assert!(locs[1].is_none());
    let g = &results[1];
    assert!(g.locations.is_none());
    assert_eq!((g.rule_id.clone(), g.level, g.text.clone()), (None, None, None));
    assert_eq!(g.markdown.as_deref(), Some("md"));
    assert_eq!(results[2].level, Some(Level::Unrated));
    assert_eq!(results[3].level, Some(Level::Note));
}

#[test]
fn minimal_document_parses_to_no_runs() {
    let doc = parse_document(MINIMAL).expect("valid SARIF");
    assert!(doc.runs.is_empty());
}

#[test]
fn malformed_input_is_a_parse_error() {
    for case in ["", "{", "}", "[]", "{}", "null", r#"{"runs": null}"#, r#"{"runs": []}"#, r#"{"version": "invalid"}"#, "invalid json"] {
        assert!(
            matches!(parse_document(case), Err(ReportError::JsonError(_))),
            "case {case:?}"
        );
        let p = processor(MarkdownFormat::CommonMark, false, case);
        assert!(matches!(p.generate(), Err(ReportError::JsonError(_))), "case {case:?}");
    }
    let large = "a".repeat(1_000_000);
    assert!(matches!(parse_document(&large), Err(ReportError::JsonError(_))));
}

#[test]
fn minimal_document_common_mark() {
    let md = processor(MarkdownFormat::CommonMark, false, MINIMAL).generate().unwrap();
    assert!(md.starts_with("# Security Report\n\nGenerated: "));
    assert!(md.ends_with(" UTC\n"));
    assert_eq!(md.lines().count(), 3);
    assert!(!md.contains("Findings"));
    assert!(!md.contains("####"));
}

#[test]
fn minimal_document_github_with_emoji() {
    let md = processor(MarkdownFormat::GitHubFlavored, true, MINIMAL).generate().unwrap();
    let heading = md.lines().next().unwrap();
    assert!(heading.starts_with("# "));
    assert!(heading.contains('\u{1F6E1}'));
    assert!(!md.contains("<details>"));
}

#[test]
fn full_document_through_processor() {
    let cm = processor(MarkdownFormat::CommonMark, false, FULL).generate().unwrap();
    assert!(cm.contains("\n## Scanner 1.2\n\nTotal results: 4\n- Error: 1\n- Warning: 1\n- Note: 1\n- None: 1\n"));
    assert!(cm.contains("- CWE: CWE-79, CWE-80\n"));
    assert!(cm.contains("\n#### None: R2\n\nn\n\n- Description: Only full\n"));
    assert!(cm.contains("\n#### Note: R9\n\nt\n"));
    assert!(cm.contains("- Location: `src/a.rs:3:7`\n"));
    assert!(cm.contains("\nBad <thing>\n"));
    assert!(!cm.contains("<details>"));
    let gfm = processor(MarkdownFormat::GitHubFlavored, false, FULL).generate().unwrap();
    assert!(gfm.contains("<details>"));
    assert!(gfm.chars().all(|c| (c as u32) < 128));
}

#[test]
fn generator_trait_on_parsed_log() {
    let doc = parse_document(FULL).unwrap();
    let g = SarifMarkdownGenerator::new(MarkdownFormat::GitHubFlavored, false);
    let md = g.generate_markdown_template(&doc).unwrap();
    assert!(md.starts_with("# Security Report\n\nGenerated: "));
    assert!(md.contains("\n## Scanner 1.2\n\nTotal results: 4\n"));
    assert!(md.contains("<details>"));
    let again = g.generate(&doc);
    let cut = |s: &str| s.lines().filter(|l| !l.starts_with("Generated: ")).collect::<Vec<_>>().join("\n");
    assert_eq!(cut(&md), cut(&again));
}

#[test]
fn documented_example_succeeds() {
    let md = processor(MarkdownFormat::GitHubFlavored, true, r#"{"version": "2.1.0", "runs": []}"#)
        .generate();
    assert!(md.is_ok());
}

#[test]
fn processor_direct_construction() {
    let p = ReportProcessor::new(
        SarifMarkdownGenerator::new(MarkdownFormat::CommonMark, false),
        MINIMAL.to_string(),
    );
    assert!(p.generate().unwrap().contains("# Security Report"));
}

#[test]
fn builder_without_content_fails() {
    let r = ReportProcessorBuilder::new()
        .generator(SarifMarkdownGenerator::new(MarkdownFormat::CommonMark, false))
        .build();
    assert!(matches!(r, Err(BuilderError::MissingContent)));
    assert_eq!(BuilderError::MissingContent.message(), "Content was not provided");
}

#[test]
fn builder_default_accepts_content() {
    let b: ReportProcessorBuilder<()> = ReportProcessorBuilder::default();
    let p = b
        .generator(SarifMarkdownGenerator::new(MarkdownFormat::CommonMark, false))
        .content("{}".to_string())
        .build();
    assert!(p.is_ok());
    assert_eq!(p.unwrap().content, "{}");
}

#[test]
fn severity_names_in_any_case() {
    assert_eq!(Severity::from_str("CRITICAL"), Severity::Critical);
    assert_eq!(Severity::from_str("High"), Severity::High);
    assert_eq!(Severity::from_str("medium"), Severity::Medium);
    assert_eq!(Severity::from_str("low"), Severity::Low);
    assert_eq!(Severity::from_str("unheard-of"), Severity::Low);
    assert_eq!(Severity::from_lowercase("critical"), Severity::Critical);
    assert_eq!(Severity::from_lowercase("Critical"), Severity::Low);
}
