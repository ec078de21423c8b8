use vstd::prelude::*;

use crate::tokens::{
    opt_num_tokens, opt_switch_token, opt_tokens, push_opt, push_opt_num, push_opt_switch,
    push_token,
};

verus! {

/// Filter and format parameters for listing installed releases.  Every field
/// is optional; a boolean renders its flag only when it holds `true`.
#[derive(Debug, Clone, PartialEq, Eq, Default)]
pub struct GetInstalledArg {
    /// Show every release, whatever its state
    pub all: Option<bool>,
    /// Search across all namespaces
    pub all_namespaces: Option<bool>,
    /// Sort by release date
    pub date: Option<bool>,
    /// Show pending releases
    pub pending: Option<bool>,
    /// Reverse the sort order
    pub reverse: Option<bool>,
    /// Output release names only
    pub short: Option<bool>,
    /// Show superseded releases
    pub superseded: Option<bool>,
    /// Show uninstalled releases
    pub uninstalled: Option<bool>,
    /// Show releases that are being uninstalled
    pub uninstalling: Option<bool>,
    /// A regular expression filtering release names
    pub filter: Option<String>,
    /// A label selector filtering releases
    pub selector: Option<String>,
    /// A format for the last-updated timestamp
    pub time_format: Option<String>,
    /// The namespace to list in
    pub namespace: Option<String>,
    /// The largest number of releases to return
    pub max: Option<u32>,
    /// How many releases to skip from the start
    pub offset: Option<u32>,
}

impl GetInstalledArg {
    /// The full argument vector of the list invocation: the verb and the
    /// structured-output flag, then the flags in declared order.
    pub open spec fn to_tokens(&self) -> Seq<Seq<char>> {
        seq!["list"@, "--output"@, "json"@] + opt_switch_token("--all"@, self.all)
            + opt_switch_token("--all-namespaces"@, self.all_namespaces) + opt_switch_token(
            "--date"@,
            self.date,
        ) + opt_switch_token("--pending"@, self.pending) + opt_switch_token(
            "--reverse"@,
            self.reverse,
        ) + opt_switch_token("--short"@, self.short) + opt_switch_token(
            "--superseded"@,
            self.superseded,
        ) + opt_switch_token("--uninstalled"@, self.uninstalled) + opt_switch_token(
            "--uninstalling"@,
            self.uninstalling,
        ) + opt_tokens("--filter"@, self.filter.deep_view()) + opt_tokens(
            "--selector"@,
            self.selector.deep_view(),
        ) + opt_tokens("--time-format"@, self.time_format.deep_view()) + opt_tokens(
            "--namespace"@,
            self.namespace.deep_view(),
        ) + opt_num_tokens("--max"@, self.max) + opt_num_tokens("--offset"@, self.offset)
    }

    /// Render the argument vector of the list invocation.
    pub fn to_args(&self) -> (r: Vec<String>)
        ensures
            r.deep_view() == self.to_tokens(),
    {
        let mut out: Vec<String> = Vec::new();
        push_token(&mut out, "list");
        push_token(&mut out, "--output");
        push_token(&mut out, "json");
        proof {
            assert(out.deep_view() =~= seq!["list"@, "--output"@, "json"@]);
        }
        push_opt_switch(&mut out, "--all", self.all);
        push_opt_switch(&mut out, "--all-namespaces", self.all_namespaces);
        push_opt_switch(&mut out, "--date", self.date);
        push_opt_switch(&mut out, "--pending", self.pending);
        push_opt_switch(&mut out, "--reverse", self.reverse);
        push_opt_switch(&mut out, "--short", self.short);
        push_opt_switch(&mut out, "--superseded", self.superseded);
        push_opt_switch(&mut out, "--uninstalled", self.uninstalled);
        push_opt_switch(&mut out, "--uninstalling", self.uninstalling);
        push_opt(&mut out, "--filter", &self.filter);
        push_opt(&mut out, "--selector", &self.selector);
        push_opt(&mut out, "--time-format", &self.time_format);
        push_opt(&mut out, "--namespace", &self.namespace);
        push_opt_num(&mut out, "--max", self.max);
        push_opt_num(&mut out, "--offset", self.offset);
        proof {
            assert(out.deep_view() == self.to_tokens());
        }
        out
    }
}

} // verus!
