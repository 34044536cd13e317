//! The view model that a report is rendered from, and how it is derived from a
//! parsed document.
use vstd::prelude::*;
use crate::model::{
    or_empty,
    opt_location_view, opt_view, strs_view, Document, Finding, FindingModel, Level, SourceLocation,
    SourceLocationModel, Rule, RuleModel, AnalysisRun, AnalysisRunModel,
};

verus! {

/// Copies an optional string.
pub fn copy_opt(o: &Option<String>) -> (r: Option<String>)
    ensures
        opt_view(r) == opt_view(*o),
{
    match o {
        Some(s) => Some(s.clone()),
        None => None,
    }
}

/// Copies a list of strings.
pub fn copy_strs(v: &Vec<String>) -> (r: Vec<String>)
    ensures
        strs_view(r@) == strs_view(v@),
{
    let mut r: Vec<String> = Vec::new();
    let mut i: usize = 0;
    while i < v.len()
        invariant
            i <= v@.len(),
            r@.len() == i,
            strs_view(r@) == strs_view(v@.take(i as int)),
        decreases v@.len() - i,
    {
        let ghost old_r = r@;
        let s = v[i].clone();
        r.push(s);
        assert forall|k: int| 0 <= k < i + 1 implies #[trigger] strs_view(r@)[k] == strs_view(
            v@.take(i + 1),
        )[k] by {
            if k < i {
                assert(strs_view(old_r)[k] == strs_view(v@.take(i as int))[k]);
            }
        }
        assert(strs_view(r@) =~= strs_view(v@.take(i + 1)));
        i = i + 1;
    }
    assert(v@.take(v@.len() as int) == v@);
    r
}

/// What a report shows of a rule.
#[derive(Clone, Debug)]
pub struct RuleMetadata {
    pub name: Option<String>,
    /// The short description, or else the full one.
    pub description: Option<String>,
    pub help_uri: Option<String>,
    pub cwe_ids: Vec<String>,
    pub tags: Vec<String>,
}

pub struct RuleMetadataModel {
    pub name: Option<Seq<char>>,
    pub description: Option<Seq<char>>,
    pub help_uri: Option<Seq<char>>,
    pub cwe_ids: Seq<Seq<char>>,
    pub tags: Seq<Seq<char>>,
}

impl View for RuleMetadata {
    type V = RuleMetadataModel;

    open spec fn view(&self) -> RuleMetadataModel {
        RuleMetadataModel {
            name: opt_view(self.name),
            description: opt_view(self.description),
            help_uri: opt_view(self.help_uri),
            cwe_ids: strs_view(self.cwe_ids@),
            tags: strs_view(self.tags@),
        }
    }
}

impl RuleMetadata {
    /// A copy of the metadata.
    pub fn duplicate(&self) -> (r: RuleMetadata)
        ensures
            r@ == self@,
    {
        RuleMetadata {
            name: copy_opt(&self.name),
            description: copy_opt(&self.description),
            help_uri: copy_opt(&self.help_uri),
            cwe_ids: copy_strs(&self.cwe_ids),
            tags: copy_strs(&self.tags),
        }
    }
}

/// The string entries of a list, in order; the others are left out.
pub open spec fn strings_only(s: Seq<Option<Seq<char>>>) -> Seq<Seq<char>>
    decreases s.len(),
{
    if s.len() == 0 {
        Seq::empty()
    } else {
        let rest = strings_only(s.drop_last());
        match s.last() {
            Some(x) => rest.push(x),
            None => rest,
        }
    }
}

/// The description of a rule: the short one where present, else the full one.
pub open spec fn description_of(r: RuleModel) -> Option<Seq<char>> {
    match r.short_description {
        Some(d) => Some(d),
        None => r.full_description,
    }
}

/// The metadata that a declared rule contributes.
pub open spec fn metadata_of(r: RuleModel) -> RuleMetadataModel {
    RuleMetadataModel {
        name: r.name,
        description: description_of(r),
        help_uri: r.help_uri,
        cwe_ids: strings_only(or_empty(r.cwe)),
        tags: or_empty(r.tags),
    }
}

/// The metadata of the last rule in `rules` whose id is `id`, if any.
pub open spec fn lookup(rules: Seq<RuleModel>, id: Seq<char>) -> Option<RuleMetadataModel>
    decreases rules.len(),
{
    if rules.len() == 0 {
        None
    } else if rules.last().id == id {
        Some(metadata_of(rules.last()))
    } else {
        lookup(rules.drop_last(), id)
    }
}

/// The rules of a run as a map from id to metadata, built by inserting the rules
/// in order, a later rule overwriting an earlier one with the same id.
pub open spec fn index_map(rules: Seq<RuleModel>) -> Map<Seq<char>, RuleMetadataModel>
    decreases rules.len(),
{
    if rules.len() == 0 {
        Map::empty()
    } else {
        index_map(rules.drop_last()).insert(rules.last().id, metadata_of(rules.last()))
    }
}

/// Looking an id up among the rules finds exactly what the map of the rules
/// holds under it: the metadata of the last rule declared with that id.
pub proof fn lemma_lookup_is_index_map(rules: Seq<RuleModel>, id: Seq<char>)
    ensures
        lookup(rules, id) == if index_map(rules).contains_key(id) {
            Some(index_map(rules)[id])
        } else {
            None::<RuleMetadataModel>
        },
    decreases rules.len(),
{
    if rules.len() > 0 {
        lemma_lookup_is_index_map(rules.drop_last(), id);
    }
}

/// Keeps the entries of `cwe` that are strings.
fn string_entries(cwe: &Vec<Option<String>>) -> (r: Vec<String>)
    ensures
        strs_view(r@) == strings_only(cwe@.map_values(|o: Option<String>| opt_view(o))),
{
    let ghost m = cwe@.map_values(|o: Option<String>| opt_view(o));
    let mut r: Vec<String> = Vec::new();
    let mut i: usize = 0;
    while i < cwe.len()
        invariant
            i <= cwe@.len(),
            m == cwe@.map_values(|o: Option<String>| opt_view(o)),
            strs_view(r@) == strings_only(m.take(i as int)),
        decreases cwe@.len() - i,
    {
        assert(m.take(i + 1).drop_last() == m.take(i as int));
        match &cwe[i] {
            Some(s) => {
                r.push(s.clone());
                assert(strs_view(r@) == strs_view(r@.drop_last()).push(s@));
            },
            None => {},
        }
        i = i + 1;
    }
    assert(m.take(cwe@.len() as int) == m);
    r
}

/// The metadata of one declared rule.
pub fn rule_metadata(rule: &Rule) -> (r: RuleMetadata)
    ensures
        r@ == metadata_of(rule@),
{
    let description = match &rule.short_description {
        Some(d) => Some(d.clone()),
        None => copy_opt(&rule.full_description),
    };
    let cwe_ids = match &rule.cwe {
        Some(c) => string_entries(c),
        None => {
            let v: Vec<String> = Vec::new();
            assert(strs_view(v@) =~= strings_only(or_empty(rule@.cwe)));
            v
        },
    };
    let tags = match &rule.tags {
        Some(t) => copy_strs(t),
        None => {
            let v: Vec<String> = Vec::new();
            assert(strs_view(v@) =~= or_empty(rule@.tags));
            v
        },
    };
    RuleMetadata {
        name: copy_opt(&rule.name),
        description,
        help_uri: copy_opt(&rule.help_uri),
        cwe_ids,
        tags,
    }
}

/// The rules of a run, keyed by id, for lookup while findings are mapped.
pub struct RuleIndex {
    pub ids: Vec<String>,
    pub entries: Vec<RuleMetadata>,
}

impl RuleIndex {
    /// Each declared rule's id with its metadata, in declaration order.
    pub open spec fn pairs(&self) -> Seq<(Seq<char>, RuleMetadataModel)> {
        Seq::new(self.ids@.len(), |i: int| (self.ids@[i]@, self.entries@[i]@))
    }

    pub open spec fn wf(&self) -> bool {
        self.ids@.len() == self.entries@.len()
    }

    /// Builds the index of `rules`.
    pub fn build(rules: &Vec<Rule>) -> (r: RuleIndex)
        ensures
            r.wf(),
            r.ids@.len() == rules@.len(),
            forall|i: int|
                0 <= i < rules@.len() ==> #[trigger] r.ids@[i]@ == rules@[i]@.id
                    && r.entries@[i]@ == metadata_of(rules@[i]@),
    {
        let mut ids: Vec<String> = Vec::new();
        let mut entries: Vec<RuleMetadata> = Vec::new();
        let mut i: usize = 0;
        while i < rules.len()
            invariant
                i <= rules@.len(),
                ids@.len() == i,
                entries@.len() == i,
                forall|k: int| 0 <= k < i ==> #[trigger] ids@[k]@ == rules@[k]@.id,
                forall|k: int| 0 <= k < i ==> #[trigger] entries@[k]@ == metadata_of(rules@[k]@),
            decreases rules@.len() - i,
        {
            let id = rules[i].id.clone();
            let m = rule_metadata(&rules[i]);
            assert(id@ == rules@[i as int]@.id);
            ids.push(id);
            entries.push(m);
            assert(ids@[i as int]@ == rules@[i as int]@.id);
            i = i + 1;
        }
        RuleIndex { ids, entries }
    }

    /// The metadata of the last rule whose id is `id`.
    pub fn get(&self, id: &String, rules: Ghost<Seq<RuleModel>>) -> (r: Option<RuleMetadata>)
        requires
            self.wf(),
            self.ids@.len() == rules@.len(),
            forall|i: int|
                0 <= i < rules@.len() ==> #[trigger] self.ids@[i]@ == rules@[i].id
                    && self.entries@[i]@ == metadata_of(rules@[i]),
        ensures
            match r {
                Some(m) => lookup(rules@, id@) == Some(m@),
                None => lookup(rules@, id@) is None,
            },
    {
        let mut j: usize = self.ids.len();
        assert(rules@.take(j as int) =~= rules@);
        while j > 0
            invariant
                j <= self.ids@.len(),
                self.wf(),
                self.ids@.len() == rules@.len(),
                forall|i: int|
                    0 <= i < rules@.len() ==> #[trigger] self.ids@[i]@ == rules@[i].id
                        && self.entries@[i]@ == metadata_of(rules@[i]),
                lookup(rules@.take(j as int), id@) == lookup(rules@, id@),
            decreases j,
        {
            j = j - 1;
            assert(rules@.take(j + 1).drop_last() == rules@.take(j as int));
            if self.ids[j] == *id {
                return Some(self.entries[j].duplicate());
            }
        }
        None
    }
}

/// The level a finding is reported at: its own, or `Warning` where it has none.
pub open spec fn level_of(f: FindingModel) -> Level {
    match f.level {
        Some(l) => l,
        None => Level::Warning,
    }
}

/// The message of a finding: the plain-text form where it is present and not
/// empty, else the Markdown form where it is, else `No message`.
pub open spec fn message_of(f: FindingModel) -> Seq<char> {
    if f.text is Some && f.text->0.len() > 0 {
        f.text->0
    } else if f.markdown is Some && f.markdown->0.len() > 0 {
        f.markdown->0
    } else {
        "No message"@
    }
}

/// The rule id of a finding, `unknown` where it has none.
pub open spec fn rule_id_of(f: FindingModel) -> Seq<char> {
    match f.rule_id {
        Some(id) => id,
        None => "unknown"@,
    }
}

/// The location entries that carry a physical location, in order.
pub open spec fn present_locations(s: Seq<Option<SourceLocationModel>>) -> Seq<SourceLocationModel>
    decreases s.len(),
{
    if s.len() == 0 {
        Seq::empty()
    } else {
        let rest = present_locations(s.drop_last());
        match s.last() {
            Some(l) => rest.push(l),
            None => rest,
        }
    }
}

/// One finding as a report shows it.
#[derive(Debug)]
pub struct ResultView {
    pub rule_id: String,
    pub level: Level,
    pub message: String,
    pub locations: Vec<SourceLocation>,
    pub rule_metadata: Option<RuleMetadata>,
}

pub struct ResultViewModel {
    pub rule_id: Seq<char>,
    pub level: Level,
    pub message: Seq<char>,
    pub locations: Seq<SourceLocationModel>,
    pub rule_metadata: Option<RuleMetadataModel>,
}

/// The view of optional rule metadata.
pub open spec fn opt_metadata_view(o: Option<RuleMetadata>) -> Option<RuleMetadataModel> {
    match o {
        Some(m) => Some(m@),
        None => None,
    }
}

impl View for ResultView {
    type V = ResultViewModel;

    open spec fn view(&self) -> ResultViewModel {
        ResultViewModel {
            rule_id: self.rule_id@,
            level: self.level,
            message: self.message@,
            locations: self.locations@.map_values(|l: SourceLocation| l@),
            rule_metadata: opt_metadata_view(self.rule_metadata),
        }
    }
}

/// How a finding of a run with rules `rules` is shown.
pub open spec fn result_view_of(f: FindingModel, rules: Seq<RuleModel>) -> ResultViewModel {
    ResultViewModel {
        rule_id: rule_id_of(f),
        level: level_of(f),
        message: message_of(f),
        locations: present_locations(or_empty(f.locations)),
        rule_metadata: lookup(rules, rule_id_of(f)),
    }
}

/// Copies a location.
fn copy_location(l: &SourceLocation) -> (r: SourceLocation)
    ensures
        r@ == l@,
{
    SourceLocation { file: copy_opt(&l.file), line: l.line, column: l.column }
}

/// The locations of `locs` that are present.
fn flatten_locations(locs: &Vec<Option<SourceLocation>>) -> (r: Vec<SourceLocation>)
    ensures
        r@.map_values(|l: SourceLocation| l@) == present_locations(
            locs@.map_values(|o: Option<SourceLocation>| opt_location_view(o)),
        ),
{
    let ghost m = locs@.map_values(|o: Option<SourceLocation>| opt_location_view(o));
    let mut r: Vec<SourceLocation> = Vec::new();
    let mut i: usize = 0;
    while i < locs.len()
        invariant
            i <= locs@.len(),
            m == locs@.map_values(|o: Option<SourceLocation>| opt_location_view(o)),
            r@.map_values(|l: SourceLocation| l@) == present_locations(m.take(i as int)),
        decreases locs@.len() - i,
    {
        assert(m.take(i + 1).drop_last() == m.take(i as int));
        match &locs[i] {
            Some(l) => {
                let ghost old_r = r@;
                r.push(copy_location(l));
                assert(r@.map_values(|l: SourceLocation| l@) =~= old_r.map_values(|l: SourceLocation| l@).push(
                    l@,
                ));
            },
            None => {},
        }
        i = i + 1;
    }
    assert(m.take(locs@.len() as int) == m);
    r
}

/// Maps one finding to its view, looking its rule up in `index`.
pub fn map_finding(f: &Finding, index: &RuleIndex, rules: Ghost<Seq<RuleModel>>) -> (r: ResultView)
    requires
        index.wf(),
        index.ids@.len() == rules@.len(),
        forall|i: int|
            0 <= i < rules@.len() ==> #[trigger] index.ids@[i]@ == rules@[i].id
                && index.entries@[i]@ == metadata_of(rules@[i]),
    ensures
        r@ == result_view_of(f@, rules@),
{
    let level = match f.level {
        Some(l) => l,
        None => Level::Warning,
    };
    let message = match (&f.text, &f.markdown) {
        (Some(t), _) if !t.as_str().is_empty() => t.clone(),
        (_, Some(m)) if !m.as_str().is_empty() => m.clone(),
        _ => String::from_str("No message"),
    };
    let rule_id = match &f.rule_id {
        Some(id) => id.clone(),
        None => String::from_str("unknown"),
    };
    let locations = match &f.locations {
        Some(l) => flatten_locations(l),
        None => {
            let v: Vec<SourceLocation> = Vec::new();
            assert(v@.map_values(|l: SourceLocation| l@) =~= present_locations(
                or_empty(f@.locations),
            ));
            v
        },
    };
    let rule_metadata = index.get(&rule_id, rules);
    let r = ResultView { rule_id, level, message, locations, rule_metadata };
    assert(r@.rule_metadata == lookup(rules@, rule_id_of(f@)));
    r
}

/// The number of findings at one level in a run.
#[derive(Clone, Copy, Debug)]
pub struct SeverityCount {
    pub level: Level,
    pub count: usize,
}

pub struct SeverityCountModel {
    pub level: Level,
    pub count: nat,
}

impl View for SeverityCount {
    type V = SeverityCountModel;

    open spec fn view(&self) -> SeverityCountModel {
        SeverityCountModel { level: self.level, count: self.count as nat }
    }
}

/// How many of `rs` are at level `l`.
pub open spec fn count_level(rs: Seq<ResultViewModel>, l: Level) -> nat
    decreases rs.len(),
{
    if rs.len() == 0 {
        0
    } else {
        count_level(rs.drop_last(), l) + if rs.last().level == l {
            1nat
        } else {
            0nat
        }
    }
}

/// The bucket of level `l` holding `n` findings, left out where `n` is zero.
pub open spec fn bucket(l: Level, n: nat) -> Seq<SeverityCountModel> {
    if n > 0 {
        seq![SeverityCountModel { level: l, count: n }]
    } else {
        Seq::empty()
    }
}

/// The nonzero counts of `rs` per level, in the order Error, Warning, Note, None.
pub open spec fn severity_counts_of(rs: Seq<ResultViewModel>) -> Seq<SeverityCountModel> {
    bucket(Level::Error, count_level(rs, Level::Error)) + bucket(
        Level::Warning,
        count_level(rs, Level::Warning),
    ) + bucket(Level::Note, count_level(rs, Level::Note)) + bucket(
        Level::Unrated,
        count_level(rs, Level::Unrated),
    )
}

/// The position of a level in the order a summary lists them.
pub open spec fn rank(l: Level) -> int {
    match l {
        Level::Error => 0,
        Level::Warning => 1,
        Level::Note => 2,
        Level::Unrated => 3,
    }
}

proof fn lemma_count_bound(rs: Seq<ResultViewModel>)
    ensures
        count_level(rs, Level::Error) + count_level(rs, Level::Warning) + count_level(
            rs,
            Level::Note,
        ) + count_level(rs, Level::Unrated) == rs.len(),
    decreases rs.len(),
{
    if rs.len() > 0 {
        lemma_count_bound(rs.drop_last());
    }
}

fn push_bucket(v: &mut Vec<SeverityCount>, l: Level, n: usize)
    ensures
        final(v)@.map_values(|c: SeverityCount| c@) == old(v)@.map_values(|c: SeverityCount| c@)
            + bucket(l, n as nat),
{
    let ghost before = v@.map_values(|c: SeverityCount| c@);
    if n > 0 {
        v.push(SeverityCount { level: l, count: n });
    }
    assert(v@.map_values(|c: SeverityCount| c@) =~= before + bucket(l, n as nat));
}

/// Counts the findings of `rs` per level; empty buckets are dropped.
pub fn severity_counts(rs: &Vec<ResultView>) -> (r: Vec<SeverityCount>)
    ensures
        r@.map_values(|c: SeverityCount| c@) == severity_counts_of(
            rs@.map_values(|v: ResultView| v@),
        ),
{
    let ghost m = rs@.map_values(|v: ResultView| v@);
    let mut e: usize = 0;
    let mut w: usize = 0;
    let mut n: usize = 0;
    let mut u: usize = 0;
    let mut i: usize = 0;
    while i < rs.len()
        invariant
            i <= rs@.len(),
            m == rs@.map_values(|v: ResultView| v@),
            e == count_level(m.take(i as int), Level::Error),
            w == count_level(m.take(i as int), Level::Warning),
            n == count_level(m.take(i as int), Level::Note),
            u == count_level(m.take(i as int), Level::Unrated),
            e + w + n + u == i,
        decreases rs@.len() - i,
    {
        assert(m.take(i + 1).drop_last() == m.take(i as int));
        proof {
            lemma_count_bound(m.take(i as int));
        }
        match rs[i].level {
            Level::Error => e = e + 1,
            Level::Warning => w = w + 1,
            Level::Note => n = n + 1,
            Level::Unrated => u = u + 1,
        }
        i = i + 1;
    }
    assert(m.take(rs@.len() as int) == m);
    let mut r: Vec<SeverityCount> = Vec::new();
    assert(r@.map_values(|c: SeverityCount| c@) =~= Seq::<SeverityCountModel>::empty());
    push_bucket(&mut r, Level::Error, e);
    push_bucket(&mut r, Level::Warning, w);
    push_bucket(&mut r, Level::Note, n);
    push_bucket(&mut r, Level::Unrated, u);
    assert(Seq::<SeverityCountModel>::empty() + bucket(Level::Error, e as nat) =~= bucket(
        Level::Error,
        e as nat,
    ));
    r
}

/// One run as a report shows it.
#[derive(Debug)]
pub struct RunView {
    pub tool_name: String,
    pub tool_version: Option<String>,
    pub total_results: usize,
    pub severity_counts: Vec<SeverityCount>,
    pub results: Vec<ResultView>,
}

pub struct RunViewModel {
    pub tool_name: Seq<char>,
    pub tool_version: Option<Seq<char>>,
    pub total_results: nat,
    pub severity_counts: Seq<SeverityCountModel>,
    pub results: Seq<ResultViewModel>,
}

impl View for RunView {
    type V = RunViewModel;

    open spec fn view(&self) -> RunViewModel {
        RunViewModel {
            tool_name: self.tool_name@,
            tool_version: opt_view(self.tool_version),
            total_results: self.total_results as nat,
            severity_counts: self.severity_counts@.map_values(|c: SeverityCount| c@),
            results: self.results@.map_values(|v: ResultView| v@),
        }
    }
}

/// The findings of a run as a report shows them.
pub open spec fn result_views_of(run: AnalysisRunModel) -> Seq<ResultViewModel> {
    or_empty(run.results).map_values(|f: FindingModel| result_view_of(f, or_empty(run.rules)))
}

/// How a run is shown.
pub open spec fn run_view_of(run: AnalysisRunModel) -> RunViewModel {
    let results = result_views_of(run);
    RunViewModel {
        tool_name: run.tool_name,
        tool_version: run.tool_version,
        total_results: results.len(),
        severity_counts: severity_counts_of(results),
        results,
    }
}

/// How each run of a document is shown, in input order.
pub open spec fn document_views_of(doc: Seq<AnalysisRunModel>) -> Seq<RunViewModel> {
    doc.map_values(|r: AnalysisRunModel| run_view_of(r))
}

/// Assembles the view of one run.
pub fn build_run_view(run: &AnalysisRun) -> (r: RunView)
    ensures
        r@ == run_view_of(run@),
{
    let no_rules: Vec<Rule> = Vec::new();
    let declared: &Vec<Rule> = match &run.rules {
        Some(r) => r,
        None => &no_rules,
    };
    let no_findings: Vec<Finding> = Vec::new();
    let findings: &Vec<Finding> = match &run.results {
        Some(f) => f,
        None => &no_findings,
    };
    let ghost rules = or_empty(run@.rules);
    assert(declared@.map_values(|r: Rule| r@) =~= rules);
    assert(findings@.map_values(|f: Finding| f@) =~= or_empty(run@.results));
    let index = RuleIndex::build(declared);
    let mut results: Vec<ResultView> = Vec::new();
    let mut i: usize = 0;
    while i < findings.len()
        invariant
            i <= findings@.len(),
            rules == or_empty(run@.rules),
            rules == declared@.map_values(|r: Rule| r@),
            findings@.map_values(|f: Finding| f@) == or_empty(run@.results),
            index.wf(),
            index.ids@.len() == rules.len(),
            forall|k: int|
                0 <= k < rules.len() ==> #[trigger] index.ids@[k]@ == rules[k].id
                    && index.entries@[k]@ == metadata_of(rules[k]),
            results@.len() == i,
            forall|k: int|
                0 <= k < i ==> #[trigger] results@[k]@ == result_view_of(findings@[k]@, rules),
        decreases findings@.len() - i,
    {
        let v = map_finding(&findings[i], &index, Ghost(rules));
        results.push(v);
        i = i + 1;
    }
    assert(results@.map_values(|v: ResultView| v@) =~= result_views_of(run@));
    let severity_counts = severity_counts(&results);
    let total_results = results.len();
    RunView {
        tool_name: run.tool_name.clone(),
        tool_version: copy_opt(&run.tool_version),
        total_results,
        severity_counts,
        results,
    }
}

/// Builds the view of every run of `doc`, in input order.
pub fn build_views(doc: &Document) -> (r: Vec<RunView>)
    ensures
        r@.map_values(|v: RunView| v@) == document_views_of(doc@),
{
    let mut r: Vec<RunView> = Vec::new();
    let mut i: usize = 0;
    while i < doc.runs.len()
        invariant
            i <= doc.runs@.len(),
            r@.len() == i,
            forall|k: int| 0 <= k < i ==> #[trigger] r@[k]@ == run_view_of(doc.runs@[k]@),
        decreases doc.runs@.len() - i,
    {
        r.push(build_run_view(&doc.runs[i]));
        i = i + 1;
    }
    assert(r@.map_values(|v: RunView| v@) =~= document_views_of(doc@));
    r
}

/// The sum of the counts of `s`.
pub open spec fn sum_counts(s: Seq<SeverityCountModel>) -> nat
    decreases s.len(),
{
    if s.len() == 0 {
        0
    } else {
        sum_counts(s.drop_last()) + s.last().count
    }
}

proof fn lemma_sum_concat(a: Seq<SeverityCountModel>, b: Seq<SeverityCountModel>)
    ensures
        sum_counts(a + b) == sum_counts(a) + sum_counts(b),
    decreases b.len(),
{
    if b.len() > 0 {
        assert((a + b).drop_last() =~= a + b.drop_last());
        lemma_sum_concat(a, b.drop_last());
    } else {
        assert(a + b =~= a);
    }
}

proof fn lemma_sum_bucket(l: Level, n: nat)
    ensures
        sum_counts(bucket(l, n)) == n,
{
    let b = bucket(l, n);
    assert(sum_counts(Seq::<SeverityCountModel>::empty()) == 0);
    if n > 0 {
        assert(b.drop_last() =~= Seq::<SeverityCountModel>::empty());
        assert(b.last().count == n);
    } else {
        assert(b =~= Seq::<SeverityCountModel>::empty());
    }
}

/// In the view of every run, the total equals the number of findings and the sum
/// of the severity counts.
pub proof fn lemma_total_is_sum_of_counts(run: AnalysisRunModel)
    ensures
        run_view_of(run).total_results == run_view_of(run).results.len(),
        run_view_of(run).total_results == sum_counts(run_view_of(run).severity_counts),
{
    let rs = result_views_of(run);
    let e = bucket(Level::Error, count_level(rs, Level::Error));
    let w = bucket(Level::Warning, count_level(rs, Level::Warning));
    let n = bucket(Level::Note, count_level(rs, Level::Note));
    let u = bucket(Level::Unrated, count_level(rs, Level::Unrated));
    lemma_sum_concat(e, w);
    lemma_sum_concat(e + w, n);
    lemma_sum_concat(e + w + n, u);
    lemma_sum_bucket(Level::Error, count_level(rs, Level::Error));
    lemma_sum_bucket(Level::Warning, count_level(rs, Level::Warning));
    lemma_sum_bucket(Level::Note, count_level(rs, Level::Note));
    lemma_sum_bucket(Level::Unrated, count_level(rs, Level::Unrated));
    lemma_count_bound(rs);
}

/// In the view of every run, the severity counts are listed in the order Error,
/// Warning, Note, None, each level at most once, and none of them is zero.
pub proof fn lemma_counts_ordered_and_nonzero(run: AnalysisRunModel)
    ensures
        forall|i: int, j: int|
            0 <= i < j < run_view_of(run).severity_counts.len() ==> rank(
                #[trigger] run_view_of(run).severity_counts[i].level,
            ) < rank(#[trigger] run_view_of(run).severity_counts[j].level),
        forall|i: int|
            0 <= i < run_view_of(run).severity_counts.len() ==> #[trigger] run_view_of(
                run,
            ).severity_counts[i].count > 0,
{
    let rs = result_views_of(run);
    let e = bucket(Level::Error, count_level(rs, Level::Error));
    let w = bucket(Level::Warning, count_level(rs, Level::Warning));
    let n = bucket(Level::Note, count_level(rs, Level::Note));
    let u = bucket(Level::Unrated, count_level(rs, Level::Unrated));
    let s = run_view_of(run).severity_counts;
    assert(s == e + w + n + u);
    // every entry of a bucket is nonzero and carries the bucket's level
    assert forall|i: int| 0 <= i < s.len() implies (#[trigger] s[i]).count > 0 && (i < e.len()
        ==> rank(s[i].level) == 0) && (e.len() <= i < e.len() + w.len() ==> rank(s[i].level)
        == 1) && (e.len() + w.len() <= i < e.len() + w.len() + n.len() ==> rank(s[i].level)
        == 2) && (e.len() + w.len() + n.len() <= i ==> rank(s[i].level) == 3) by {
        if i < e.len() {
            assert(s[i] == e[i]);
        } else if i < e.len() + w.len() {
            assert(s[i] == w[i - e.len()]);
        } else if i < e.len() + w.len() + n.len() {
            assert(s[i] == n[i - e.len() - w.len()]);
        } else {
            assert(s[i] == u[i - e.len() - w.len() - n.len()]);
        }
    }
}

/// A finding without a level is shown at level `Warning`.
pub proof fn lemma_missing_level_is_warning(f: FindingModel, rules: Seq<RuleModel>)
    requires
        f.level is None,
    ensures
        result_view_of(f, rules).level == Level::Warning,
{
}

/// A finding whose rule id no declared rule has carries no rule metadata.
pub proof fn lemma_undeclared_rule_has_no_metadata(f: FindingModel, rules: Seq<RuleModel>)
    requires
        forall|i: int| 0 <= i < rules.len() ==> (#[trigger] rules[i]).id != rule_id_of(f),
    ensures
        result_view_of(f, rules).rule_metadata is None,
{
    lemma_lookup_absent(rules, rule_id_of(f));
}

proof fn lemma_lookup_absent(rules: Seq<RuleModel>, id: Seq<char>)
    requires
        forall|i: int| 0 <= i < rules.len() ==> (#[trigger] rules[i]).id != id,
    ensures
        lookup(rules, id) is None,
    decreases rules.len(),
{
    if rules.len() > 0 {
        let d = rules.drop_last();
        assert forall|i: int| 0 <= i < d.len() implies (#[trigger] d[i]).id != id by {
            assert(d[i] == rules[i]);
        }
        assert(rules.last() == rules[rules.len() - 1]);
        lemma_lookup_absent(d, id);
    }
}

} // verus!
