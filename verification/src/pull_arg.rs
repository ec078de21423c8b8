use vstd::prelude::*;
use vstd::string::StringExecFns;

use crate::tokens::{chart_version_token, push_string, push_token};

verus! {

/// Argument for pulling a chart artifact, the plain-field variant.
#[derive(Debug, Clone, PartialEq, Eq, Default)]
pub struct PullArg {
    /// The chart reference
    pub chart: String,
    /// The chart version
    pub version: String,
}

impl PullArg {
    /// The full argument vector of the chart-pull invocation.
    pub open spec fn to_tokens(&self) -> Seq<Seq<char>> {
        seq!["chart"@, "pull"@, chart_version_token(self.chart@, self.version@)]
    }

    /// Render the argument vector of the chart-pull invocation.
    pub fn to_args(&self) -> (r: Vec<String>)
        ensures
            r.deep_view() == self.to_tokens(),
    {
        let mut out: Vec<String> = Vec::new();
        push_token(&mut out, "chart");
        push_token(&mut out, "pull");
        let mut chart_with_version = self.chart.clone();
        chart_with_version.append(":");
        chart_with_version.append(self.version.as_str());
        proof {
            reveal_strlit(":");
            assert(chart_with_version@ =~= chart_version_token(self.chart@, self.version@));
        }
        push_string(&mut out, chart_with_version);
        proof {
            assert(out.deep_view() =~= self.to_tokens());
        }
        out
    }
}

} // verus!
