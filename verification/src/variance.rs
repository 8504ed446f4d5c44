//! What an engine reports when an event breaks a rule.

use vstd::prelude::*;
use vstd::string::*;

verus! {

#[derive(Debug, Clone, Copy, PartialEq, Eq, Structural)]
pub enum Severity {
    Warning,
    Critical,
}

impl Severity {
    /// The severity in lower case letters.
    pub open spec fn label(self) -> Seq<char> {
        match self {
            Severity::Warning => "warning"@,
            Severity::Critical => "critical"@,
        }
    }

    pub fn as_str(&self) -> (r: &'static str)
        ensures
            r@ == self.label(),
    {
        match self {
            Self::Warning => "warning",
            Self::Critical => "critical",
        }
    }
}

/// One broken rule, with the circumstances in words.
#[derive(Debug, Clone)]
pub struct Variance {
    pub severity: Severity,
    pub rule: &'static str,
    pub detail: String,
}

/// A variance with its texts as character sequences.
pub struct VarianceView {
    pub severity: Severity,
    pub rule: Seq<char>,
    pub detail: Seq<char>,
}

impl View for Variance {
    type V = VarianceView;

    open spec fn view(&self) -> VarianceView {
        VarianceView { severity: self.severity, rule: self.rule@, detail: self.detail@ }
    }
}

/// The views of a list of variances.
pub open spec fn variance_views(s: Seq<Variance>) -> Seq<VarianceView> {
    s.map_values(|v: Variance| v@)
}

/// Whether one of the variances is critical.
pub open spec fn has_critical(s: Seq<VarianceView>) -> bool {
    exists|i: int| 0 <= i < s.len() && (#[trigger] s[i]).severity == Severity::Critical
}

/// A detail text: the entity in single quotes, a colon and the message.
pub open spec fn about(entity: Seq<char>, message: Seq<char>) -> Seq<char> {
    "'"@ + entity + "': "@ + message
}

/// The entity in single quotes and a colon, ready for a message to follow.
pub fn quoted(entity: &str) -> (r: String)
    ensures
        r@ == "'"@ + entity@ + "': "@,
{
    "'".to_owned().concat(entity).concat("': ")
}

/// A list that holds no variance.
pub fn no_variances() -> (r: Vec<Variance>)
    ensures
        variance_views(r@) == Seq::<VarianceView>::empty(),
{
    let r: Vec<Variance> = Vec::new();
    assert(variance_views(r@) =~= Seq::<VarianceView>::empty());
    r
}

/// Appends a variance to a list.
pub fn report(out: &mut Vec<Variance>, severity: Severity, rule: &'static str, detail: String)
    ensures
        variance_views(final(out)@) == variance_views(old(out)@).push(
            (VarianceView { severity, rule: rule@, detail: detail@ }),
        ),
{
    let v = Variance { severity, rule, detail };
    out.push(v);
    assert(variance_views(out@) =~= variance_views(old(out)@).push(v@));
}

} // verus!
