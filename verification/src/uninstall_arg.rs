use vstd::prelude::*;

use crate::tokens::{opt_tokens, push_string, push_token, switch_token};

verus! {

/// Uninstaller argument.
///
/// `ignore_not_found` never renders a token: it only guards the client's
/// read-before-write short-circuit.  The optional timeout is forwarded as a
/// `--timeout` flag pair.
#[derive(Debug, Clone, PartialEq, Eq)]
pub struct UninstallArg {
    /// The release to uninstall
    pub release: String,
    /// The namespace the release lives in
    pub namespace: Option<String>,
    /// Whether a missing release is reported as success instead of an error
    pub ignore_not_found: bool,
    /// Whether to simulate the uninstall only
    pub dry_run: bool,
    /// An optional time limit, forwarded to the binary untouched
    pub timeout: Option<String>,
}

impl UninstallArg {
    /// The full argument vector of the uninstall invocation.
    pub open spec fn to_tokens(&self) -> Seq<Seq<char>> {
        seq!["uninstall"@, self.release@] + opt_tokens(
            "--namespace"@,
            self.namespace.deep_view(),
        ) + switch_token("--dry-run"@, self.dry_run) + opt_tokens(
            "--timeout"@,
            self.timeout.deep_view(),
        )
    }

    /// A request for the given release, with every optional field absent.
    pub fn new(release: String) -> (arg: Self)
        ensures
            arg == (UninstallArg {
                release,
                namespace: None,
                ignore_not_found: false,
                dry_run: false,
                timeout: None,
            }),
    {
        Self { release, namespace: None, ignore_not_found: false, dry_run: false, timeout: None }
    }

    /// Set the namespace.
    pub fn namespace(self, ns: String) -> (r: Self)
        ensures
            r == (UninstallArg { namespace: Some(ns), ..self }),
    {
        Self { namespace: Some(ns), ..self }
    }

    /// Report a missing release as success.
    pub fn ignore_not_found(self) -> (r: Self)
        ensures
            r == (UninstallArg { ignore_not_found: true, ..self }),
    {
        Self { ignore_not_found: true, ..self }
    }

    /// Simulate the uninstall only.
    pub fn dry_run(self) -> (r: Self)
        ensures
            r == (UninstallArg { dry_run: true, ..self }),
    {
        Self { dry_run: true, ..self }
    }

    /// Set the time limit.
    pub fn timeout(self, timeout: String) -> (r: Self)
        ensures
            r == (UninstallArg { timeout: Some(timeout), ..self }),
    {
        Self { timeout: Some(timeout), ..self }
    }

    /// Render the argument vector of the uninstall invocation.
    pub fn to_args(&self) -> (r: Vec<String>)
        ensures
            r.deep_view() == self.to_tokens(),
    {
        let mut out: Vec<String> = Vec::new();
        push_token(&mut out, "uninstall");
        push_string(&mut out, self.release.clone());
        if let Some(ns) = &self.namespace {
            push_token(&mut out, "--namespace");
            push_string(&mut out, ns.clone());
        }
        if self.dry_run {
            push_token(&mut out, "--dry-run");
        }
        if let Some(timeout) = &self.timeout {
            push_token(&mut out, "--timeout");
            push_string(&mut out, timeout.clone());
        }
        proof {
            assert(out.deep_view() =~= self.to_tokens());
        }
        out
    }
}

} // verus!
