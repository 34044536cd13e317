//! Severity levels of vendor vulnerability reports, read from their names.
use vstd::prelude::*;

verus! {

/// Severity of a vulnerability, from most to least severe.
#[derive(Clone, Copy, Debug, PartialEq, Eq, PartialOrd, Ord)]
pub enum Severity {
    Critical,
    High,
    Medium,
    Low,
}

/// What `str::to_lowercase` returns for `s`.
pub uninterp spec fn lower_of(s: Seq<char>) -> Seq<char>;

/// Relies on `str::to_lowercase`: the result depends on the characters alone.
#[verifier::external_body]
fn lowercase(s: &str) -> (r: String)
    ensures
        r@ == lower_of(s@),
{
    s.to_lowercase()
}

/// The severity a lowercase name stands for; an unknown name stands for `Low`.
pub open spec fn severity_named(s: Seq<char>) -> Severity {
    if s == "critical"@ {
        Severity::Critical
    } else if s == "high"@ {
        Severity::High
    } else if s == "medium"@ {
        Severity::Medium
    } else {
        Severity::Low
    }
}

fn same_text(a: &str, b: &str) -> (r: bool)
    ensures
        r == (a@ == b@),
{
    String::from_str(a) == String::from_str(b)
}

impl Severity {
    /// The severity that the lowercase name `s` stands for.
    pub fn from_lowercase(s: &str) -> (r: Severity)
        ensures
            r == severity_named(s@),
    {
        if same_text(s, "critical") {
            Severity::Critical
        } else if same_text(s, "high") {
            Severity::High
        } else if same_text(s, "medium") {
            Severity::Medium
        } else {
            Severity::Low
        }
    }

    /// The severity named by `s`, in any case; an unknown name gives `Low`.
    pub fn from_str(s: &str) -> (r: Severity)
        ensures
            r == severity_named(lower_of(s@)),
    {
        let lower = lowercase(s);
        Severity::from_lowercase(lower.as_str())
    }
}

} // verus!
