use vstd::prelude::*;

use crate::tokens::{opt_switch_token, opt_tokens, push_opt, push_opt_switch, push_string, push_token};

verus! {

/// Argument for adding a chart repository, with its optional TLS and
/// authentication settings.
#[derive(Debug, Clone, PartialEq, Eq, Default)]
pub struct RepoAddArg {
    /// The repository name
    pub chart: String,
    /// The repository location URL
    pub location: String,
    /// Whether to replace the repository if it is already registered
    pub force_update: Option<bool>,
    /// Whether to skip verifying the server certificate
    pub insecure_skip_tls_verify: Option<bool>,
    /// Whether to skip the index update after adding
    pub no_update: Option<bool>,
    /// A certificate-authority bundle path
    pub ca_file: Option<String>,
    /// A client certificate path
    pub cert_file: Option<String>,
    /// A client key path
    pub key_file: Option<String>,
    /// A repository password
    pub password: Option<String>,
    /// A repository user name
    pub username: Option<String>,
}

impl RepoAddArg {
    /// The full argument vector of the repo-add invocation: verb tokens and
    /// positional arguments, then the flags in declared order.
    pub open spec fn to_tokens(&self) -> Seq<Seq<char>> {
        seq!["repo"@, "add"@, self.chart@, self.location@, "--output"@, "json"@]
            + opt_switch_token("--force-update"@, self.force_update) + opt_switch_token(
            "--insecure-skip-tls-verify"@,
            self.insecure_skip_tls_verify,
        ) + opt_switch_token("--no-update"@, self.no_update) + opt_tokens(
            "--ca-file"@,
            self.ca_file.deep_view(),
        ) + opt_tokens("--cert-file"@, self.cert_file.deep_view()) + opt_tokens(
            "--key-file"@,
            self.key_file.deep_view(),
        ) + opt_tokens("--password"@, self.password.deep_view()) + opt_tokens(
            "--username"@,
            self.username.deep_view(),
        )
    }

    /// A request for the given repository name and location, with every
    /// optional setting absent.
    pub fn new(chart: &str, location: &str) -> (arg: RepoAddArg)
        ensures
            arg.chart@ == chart@,
            arg.location@ == location@,
            arg.force_update is None,
            arg.insecure_skip_tls_verify is None,
            arg.no_update is None,
            arg.ca_file is None,
            arg.cert_file is None,
            arg.key_file is None,
            arg.password is None,
            arg.username is None,
    {
        RepoAddArg {
            chart: chart.to_owned(),
            location: location.to_owned(),
            force_update: None,
            insecure_skip_tls_verify: None,
            no_update: None,
            ca_file: None,
            cert_file: None,
            key_file: None,
            password: None,
            username: None,
        }
    }

    /// Set whether to replace an already registered repository.
    pub fn set_force_update(self, value: bool) -> (r: Self)
        ensures
            r == (RepoAddArg { force_update: Some(value), ..self }),
    {
        Self { force_update: Some(value), ..self }
    }

    /// Set whether to skip verifying the server certificate.
    pub fn set_insecure_skip_tls_verify(self, value: bool) -> (r: Self)
        ensures
            r == (RepoAddArg { insecure_skip_tls_verify: Some(value), ..self }),
    {
        Self { insecure_skip_tls_verify: Some(value), ..self }
    }

    /// Set whether to skip the index update after adding.
    pub fn set_no_update(self, value: bool) -> (r: Self)
        ensures
            r == (RepoAddArg { no_update: Some(value), ..self }),
    {
        Self { no_update: Some(value), ..self }
    }

    /// Set the certificate-authority bundle path.
    pub fn set_ca_file(self, value: String) -> (r: Self)
        ensures
            r == (RepoAddArg { ca_file: Some(value), ..self }),
    {
        Self { ca_file: Some(value), ..self }
    }

    /// Set the client certificate path.
    pub fn set_cert_file(self, value: String) -> (r: Self)
        ensures
            r == (RepoAddArg { cert_file: Some(value), ..self }),
    {
        Self { cert_file: Some(value), ..self }
    }

    /// Set the client key path.
    pub fn set_key_file(self, value: String) -> (r: Self)
        ensures
            r == (RepoAddArg { key_file: Some(value), ..self }),
    {
        Self { key_file: Some(value), ..self }
    }

    /// Set the repository password.
    pub fn set_password(self, value: String) -> (r: Self)
        ensures
            r == (RepoAddArg { password: Some(value), ..self }),
    {
        Self { password: Some(value), ..self }
    }

    /// Set the repository user name.
    pub fn set_username(self, value: String) -> (r: Self)
        ensures
            r == (RepoAddArg { username: Some(value), ..self }),
    {
        Self { username: Some(value), ..self }
    }

    /// Render the argument vector of the repo-add invocation.
    pub fn to_args(&self) -> (r: Vec<String>)
        ensures
            r.deep_view() == self.to_tokens(),
    {
        let mut out: Vec<String> = Vec::new();
        push_token(&mut out, "repo");
        push_token(&mut out, "add");
        push_string(&mut out, self.chart.clone());
        push_string(&mut out, self.location.clone());
        push_token(&mut out, "--output");
        push_token(&mut out, "json");
        proof {
            assert(out.deep_view() =~= seq![
                "repo"@,
                "add"@,
                self.chart@,
                self.location@,
                "--output"@,
                "json"@,
            ]);
        }
        push_opt_switch(&mut out, "--force-update", self.force_update);
        push_opt_switch(&mut out, "--insecure-skip-tls-verify", self.insecure_skip_tls_verify);
        push_opt_switch(&mut out, "--no-update", self.no_update);
        push_opt(&mut out, "--ca-file", &self.ca_file);
        push_opt(&mut out, "--cert-file", &self.cert_file);
        push_opt(&mut out, "--key-file", &self.key_file);
        push_opt(&mut out, "--password", &self.password);
        push_opt(&mut out, "--username", &self.username);
        proof {
            assert(out.deep_view() == self.to_tokens());
        }
        out
    }
}

} // verus!
