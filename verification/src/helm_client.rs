use vstd::prelude::*;
use vstd::string::{StrSliceExecFns, StringExecFns};
use vstd::utf8::{decode_utf8, valid_utf8};

use crate::chart::Chart;
use crate::chart_export_arg::ChartExportArg;
use crate::chart_pull_arg::ChartPullArg;
use crate::error::HelmError;
use crate::get_installed_arg::GetInstalledArg;
use crate::install_arg::InstallArg;
use crate::installed_chart::InstalledChart;
use crate::registry_login_arg::RegistryLoginArg;
use crate::repo_add_optionals::RepoAddArg;
use crate::text::{contains_seq, contains_sub, is_space_char, str_eq, strip_prefix_char, trim,
    trim_end, trim_start};
use crate::tokens::{push_string, push_token};
use crate::uninstall_arg::UninstallArg;

verus! {

/// Relies on `String::from_utf8`: it returns `Ok` exactly on valid UTF-8
/// input, and the returned string decodes those bytes.
#[verifier::external_body]
fn bytes_to_utf8(bytes: Vec<u8>) -> (r: Option<String>)
    ensures
        r is Some <==> valid_utf8(bytes@),
        r matches Some(s) ==> s@ == decode_utf8(bytes@),
{
    String::from_utf8(bytes).ok()
}

/// Check for errors in helm's stderr output.
///
/// Empty stderr, and stderr that only carries warnings, is fine; the
/// cluster-unreachable marker is a connectivity failure whatever stdout or
/// the exit status said; stderr that is not text at all is its own error.
pub fn check_helm_stderr(stderr: Vec<u8>) -> (r: Result<(), HelmError>)
    ensures
        stderr@.len() == 0 ==> r is Ok,
        stderr@.len() > 0 && !valid_utf8(stderr@) ==> (r matches Err(e) && e == HelmError::Utf8Error),
        stderr@.len() > 0 && valid_utf8(stderr@) && contains_seq(
            decode_utf8(stderr@),
            "Kubernetes cluster unreachable"@,
        ) ==> (r matches Err(e) && e == HelmError::FailedToConnect),
        stderr@.len() > 0 && valid_utf8(stderr@) && !contains_seq(
            decode_utf8(stderr@),
            "Kubernetes cluster unreachable"@,
        ) ==> r is Ok,
{
    if stderr.len() == 0 {
        return Ok(());
    }
    match bytes_to_utf8(stderr) {
        None => Err(HelmError::Utf8Error),
        Some(text) => {
            if contains_sub(text.as_str(), "Kubernetes cluster unreachable") {
                Err(HelmError::FailedToConnect)
            } else {
                Ok(())
            }
        },
    }
}

/// What sanitizing a reported version leaves: the text without its leading
/// `v` markers, then without surrounding white space.
pub open spec fn sanitized(s: Seq<char>) -> Seq<char> {
    trim(strip_prefix_char(s, 'v'))
}

/// Sanitize the version string returned by helm.
///
/// Strips an optional leading `v` marker and surrounding white space, so the
/// result is directly consumable by a semantic-version parser.
pub fn sanitize_helm_version_string(version_text: &str) -> (r: String)
    ensures
        r@ == sanitized(version_text@),
{
    let ghost s = version_text@;
    let len = version_text.unicode_len();
    proof {
        assert(s.skip(0) =~= s);
    }
    let mut k: usize = 0;
    while k < len && version_text.get_char(k) == 'v'
        invariant
            len == s.len(),
            s == version_text@,
            k <= len,
            strip_prefix_char(s, 'v') == strip_prefix_char(s.skip(k as int), 'v'),
        decreases len - k,
    {
        proof {
            assert(s.skip(k as int).drop_first() =~= s.skip(k as int + 1));
        }
        k += 1;
    }
    proof {
        assert(strip_prefix_char(s, 'v') == s.skip(k as int));
    }
    let mut i: usize = k;
    while i < len && is_space_char(version_text.get_char(i))
        invariant
            len == s.len(),
            s == version_text@,
            k <= i <= len,
            trim_start(s.skip(k as int)) == trim_start(s.skip(i as int)),
        decreases len - i,
    {
        proof {
            assert(s.skip(i as int).drop_first() =~= s.skip(i as int + 1));
        }
        i += 1;
    }
    proof {
        assert(trim_start(s.skip(k as int)) == s.skip(i as int));
        assert(s.skip(i as int) =~= s.subrange(i as int, len as int));
    }
    let mut j: usize = len;
    while j > i && is_space_char(version_text.get_char(j - 1))
        invariant
            len == s.len(),
            s == version_text@,
            i <= j <= len,
            trim_end(s.subrange(i as int, len as int)) == trim_end(s.subrange(i as int, j as int)),
        decreases j,
    {
        proof {
            assert(s.subrange(i as int, j as int).drop_last() =~= s.subrange(
                i as int,
                j as int - 1,
            ));
        }
        j -= 1;
    }
    proof {
        assert(trim_end(s.subrange(i as int, len as int)) == s.subrange(i as int, j as int));
    }
    let r = version_text.substring_char(i, j);
    r.to_owned()
}

/// One step of the uninstall protocol: what the embedding shell must do
/// next.
#[derive(Debug, Clone, PartialEq, Eq)]
pub enum UninstallStep {
    /// Run the release lookup with these arguments, then hand its decoded
    /// records to `uninstall_after_lookup`.
    Lookup(Vec<String>),
    /// Run the uninstall subprocess with these arguments.
    Run(Vec<String>),
    /// Do nothing: the release is absent and the request ignores that.
    Skip,
}

/// The anchored exact-match pattern `^name$` for the listing filter, so that
/// substring-matching release names are excluded.
pub open spec fn anchored_token(name: Seq<char>) -> Seq<char> {
    seq!['^'] + name + seq!['$']
}

/// The argument vector of the lookup that lists releases of exactly the
/// given name; without a namespace, all namespaces are searched.
pub open spec fn get_installed_tokens(name: Seq<char>, namespace: Option<Seq<char>>) -> Seq<
    Seq<char>,
> {
    seq!["list"@, "--filter"@, anchored_token(name), "--output"@, "json"@] + (match namespace {
        Some(ns) => seq!["--namespace"@, ns],
        None => seq!["-A"@],
    })
}

/// Client to manage helm operations.
///
/// The client owns no state: construction checks the version probe's output
/// once, and each method either renders the argument vector of one
/// invocation or interprets one invocation's captured output.  The embedding
/// shell runs the subprocesses and decodes JSON stdout into records.
#[derive(Debug)]
#[non_exhaustive]
pub struct HelmClient {}

impl HelmClient {
    /// The argument vector of the version probe that construction checks.
    pub fn version_args() -> (r: Vec<String>)
        ensures
            r.deep_view() == seq!["version"@],
    {
        let mut out: Vec<String> = Vec::new();
        push_token(&mut out, "version");
        proof {
            assert(out.deep_view() =~= seq!["version"@]);
        }
        out
    }

    /// A client for the probed binary.
    ///
    /// `version_output` is the captured stdout of the version probe; the
    /// client exists only when that output is text carrying the `version`
    /// marker.  A binary that could not be spawned at all never reaches this
    /// point and is the distinct `HelmNotInstalled`.
    pub fn new(version_output: Vec<u8>) -> (r: Result<HelmClient, HelmError>)
        ensures
            !valid_utf8(version_output@) ==> (r matches Err(e) && e == HelmError::Utf8Error),
            valid_utf8(version_output@) && contains_seq(decode_utf8(version_output@), "version"@)
                ==> r is Ok,
            valid_utf8(version_output@) && !contains_seq(decode_utf8(version_output@), "version"@)
                ==> (r matches Err(e) && e matches HelmError::HelmVersionNotFound(out) && out@
                == decode_utf8(version_output@)),
    {
        match bytes_to_utf8(version_output) {
            None => Err(HelmError::Utf8Error),
            Some(out_str) => {
                if !contains_sub(out_str.as_str(), "version") {
                    return Err(HelmError::HelmVersionNotFound(out_str));
                }
                Ok(HelmClient {})
            },
        }
    }

    /// The argument vector that installs the given chart under the given
    /// name.
    pub fn install(&self, args: &InstallArg) -> (r: Vec<String>)
        ensures
            r.deep_view() == args.install_tokens(),
    {
        args.install()
    }

    /// The argument vector that upgrades the given chart.
    pub fn upgrade(&self, args: &InstallArg) -> (r: Vec<String>)
        ensures
            r.deep_view() == args.upgrade_tokens(),
    {
        args.upgrade()
    }

    /// The first step of an uninstall: with ignore-not-found set, the
    /// release lookup must run first; otherwise the uninstall runs at once.
    pub fn uninstall(&self, uninstall: &UninstallArg) -> (step: UninstallStep)
        ensures
            uninstall.ignore_not_found ==> (step matches UninstallStep::Lookup(a) && a.deep_view()
                == get_installed_tokens(uninstall.release@, uninstall.namespace.deep_view())),
            !uninstall.ignore_not_found ==> (step matches UninstallStep::Run(a) && a.deep_view()
                == uninstall.to_tokens()),
    {
        if uninstall.ignore_not_found {
            let ns: Option<&str> = match &uninstall.namespace {
                Some(n) => Some(n.as_str()),
                None => None,
            };
            UninstallStep::Lookup(self.get_installed_chart_by_name(uninstall.release.as_str(), ns))
        } else {
            UninstallStep::Run(uninstall.to_args())
        }
    }

    /// The second step of an uninstall with ignore-not-found set, given the
    /// records the lookup decoded: with no matching release the uninstall is
    /// skipped and reported as success, else it runs.
    pub fn uninstall_after_lookup(&self, uninstall: &UninstallArg, installed: &Vec<InstalledChart>)
        -> (step: UninstallStep)
        requires
            uninstall.ignore_not_found,
        ensures
            installed@.len() == 0 ==> step == UninstallStep::Skip,
            installed@.len() > 0 ==> (step matches UninstallStep::Run(a) && a.deep_view()
                == uninstall.to_tokens()),
    {
        if installed.len() == 0 {
            UninstallStep::Skip
        } else {
            UninstallStep::Run(uninstall.to_args())
        }
    }

    /// The argument vector that adds a helm repo with the given name and
    /// location.
    pub fn repo_add(&self, chart: &str, location: &str) -> (r: Vec<String>)
        ensures
            r.deep_view() == seq!["repo"@, "add"@, chart@, location@, "--output"@, "json"@],
    {
        let mut out: Vec<String> = Vec::new();
        push_token(&mut out, "repo");
        push_token(&mut out, "add");
        push_token(&mut out, chart);
        push_token(&mut out, location);
        push_token(&mut out, "--output");
        push_token(&mut out, "json");
        proof {
            assert(out.deep_view() =~= seq![
                "repo"@,
                "add"@,
                chart@,
                location@,
                "--output"@,
                "json"@,
            ]);
        }
        out
    }

    /// The argument vector of a repo-add with its optional settings.
    pub fn repo_add_with_optionals(&self, optionals: RepoAddArg) -> (r: Vec<String>)
        ensures
            r.deep_view() == optionals.to_tokens(),
    {
        optionals.to_args()
    }

    /// The argument vector that updates the local repository index.
    pub fn repo_update(&self) -> (r: Vec<String>)
        ensures
            r.deep_view() == seq!["repo"@, "update"@, "--output"@, "json"@],
    {
        let mut out: Vec<String> = Vec::new();
        push_token(&mut out, "repo");
        push_token(&mut out, "update");
        push_token(&mut out, "--output");
        push_token(&mut out, "json");
        proof {
            assert(out.deep_view() =~= seq!["repo"@, "update"@, "--output"@, "json"@]);
        }
        out
    }

    /// The argument vector that logs in to a chart registry.
    pub fn registry(&self, args: RegistryLoginArg) -> (r: Vec<String>)
        ensures
            r.deep_view() == args.to_tokens(),
    {
        args.to_args()
    }

    /// The argument vector that downloads a chart from a remote registry.
    pub fn chart_pull(&self, args: ChartPullArg) -> (r: Vec<String>)
        ensures
            r.deep_view() == args.to_tokens(),
    {
        args.to_args()
    }

    /// The argument vector that exports a chart from the local registry
    /// cache.
    pub fn export(&self, args: ChartExportArg) -> (r: Vec<String>)
        ensures
            r.deep_view() == args.to_tokens(),
    {
        args.to_args()
    }

    /// The argument vector that searches the repo for the named chart at the
    /// given version, requesting structured output.
    pub fn search_repo(&self, chart: &str, version: &str) -> (r: Vec<String>)
        ensures
            r.deep_view() == seq![
                "search"@,
                "repo"@,
                chart@,
                "--version"@,
                version@,
                "--output"@,
                "json"@,
            ],
    {
        let mut out: Vec<String> = Vec::new();
        push_token(&mut out, "search");
        push_token(&mut out, "repo");
        push_token(&mut out, chart);
        push_token(&mut out, "--version");
        push_token(&mut out, version);
        push_token(&mut out, "--output");
        push_token(&mut out, "json");
        proof {
            assert(out.deep_view() =~= seq![
                "search"@,
                "repo"@,
                chart@,
                "--version"@,
                version@,
                "--output"@,
                "json"@,
            ]);
        }
        out
    }

    /// The argument vector that lists all available versions of the named
    /// chart, development releases included.
    pub fn versions(&self, chart: &str) -> (r: Vec<String>)
        ensures
            r.deep_view() == seq![
                "search"@,
                "repo"@,
                "--versions"@,
                chart@,
                "--output"@,
                "json"@,
                "--devel"@,
            ],
    {
        let mut out: Vec<String> = Vec::new();
        push_token(&mut out, "search");
        push_token(&mut out, "repo");
        push_token(&mut out, "--versions");
        push_token(&mut out, chart);
        push_token(&mut out, "--output");
        push_token(&mut out, "json");
        push_token(&mut out, "--devel");
        proof {
            assert(out.deep_view() =~= seq![
                "search"@,
                "repo"@,
                "--versions"@,
                chart@,
                "--output"@,
                "json"@,
                "--devel"@,
            ]);
        }
        out
    }

    /// Whether a given version of a given chart exists in the repo: true
    /// exactly when the decoded search result holds at least one record
    /// whose name and version both equal the query.
    pub fn chart_version_exists(&self, name: &str, version: &str, search_results: &Vec<Chart>)
        -> (r: bool)
        ensures
            r == exists|n: int|
                0 <= n < search_results@.len() && (#[trigger] search_results@[n].name@) == name@
                    && search_results@[n].version@ == version@,
    {
        let count = search_results.len();
        let mut n: usize = 0;
        while n < count
            invariant
                count == search_results@.len(),
                n <= count,
                forall|m: int|
                    0 <= m < n ==> !((#[trigger] search_results@[m].name@) == name@
                        && search_results@[m].version@ == version@),
            decreases count - n,
        {
            let chart = &search_results[n];
            if str_eq(chart.name(), name) && str_eq(chart.version(), version) {
                return true;
            }
            n += 1;
        }
        false
    }

    /// The argument vector of the lookup that lists installed releases of
    /// exactly the given name.
    pub fn get_installed_chart_by_name(&self, name: &str, namespace: Option<&str>) -> (r: Vec<
        String,
    >)
        ensures
            r.deep_view() == get_installed_tokens(name@, namespace.deep_view()),
    {
        let mut exact_match = String::from_str("^");
        exact_match.append(name);
        exact_match.append("$");
        proof {
            reveal_strlit("^");
            reveal_strlit("$");
            assert(exact_match@ =~= anchored_token(name@));
        }
        let mut out: Vec<String> = Vec::new();
        push_token(&mut out, "list");
        push_token(&mut out, "--filter");
        push_string(&mut out, exact_match);
        push_token(&mut out, "--output");
        push_token(&mut out, "json");
        match namespace {
            Some(ns) => {
                push_token(&mut out, "--namespace");
                push_token(&mut out, ns);
            },
            None => {
                push_token(&mut out, "-A");
            },
        }
        proof {
            assert(out.deep_view() =~= get_installed_tokens(name@, namespace.deep_view()));
        }
        out
    }

    /// The argument vector of a list invocation with the given filter and
    /// format parameters.
    pub fn list_installed(&self, args: GetInstalledArg) -> (r: Vec<String>)
        ensures
            r.deep_view() == args.to_tokens(),
    {
        args.to_args()
    }

    /// The argument vector whose output `get_helm_version` interprets.
    pub fn get_helm_version_args(&self) -> (r: Vec<String>)
        ensures
            r.deep_view() == seq!["version"@, "--short"@],
    {
        let mut out: Vec<String> = Vec::new();
        push_token(&mut out, "version");
        push_token(&mut out, "--short");
        proof {
            assert(out.deep_view() =~= seq!["version"@, "--short"@]);
        }
        out
    }

    /// The helm package version, sanitized, from the captured stdout of the
    /// short version invocation.
    pub fn get_helm_version(&self, version_output: Vec<u8>) -> (r: Result<String, HelmError>)
        ensures
            !valid_utf8(version_output@) ==> (r matches Err(e) && e == HelmError::Utf8Error),
            valid_utf8(version_output@) ==> (r matches Ok(v) && v@ == sanitized(
                decode_utf8(version_output@),
            )),
    {
        match bytes_to_utf8(version_output) {
            None => Err(HelmError::Utf8Error),
            Some(version_text) => Ok(sanitize_helm_version_string(version_text.as_str())),
        }
    }
}

} // verus!
