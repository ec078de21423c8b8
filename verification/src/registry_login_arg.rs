use vstd::prelude::*;

use crate::tokens::{push_string, push_token};

verus! {

/// Registry authentication argument.  The password renders as an argument
/// token like every other field; it is the embedding shell's part never to
/// log the vector of this invocation.
#[derive(Debug, Clone, PartialEq, Eq)]
pub struct RegistryLoginArg {
    /// The registry host
    pub host: String,
    /// The user to log in as
    pub username: String,
    /// The password to log in with
    pub password: String,
}

impl RegistryLoginArg {
    /// The full argument vector of the registry-login invocation.
    pub open spec fn to_tokens(&self) -> Seq<Seq<char>> {
        seq![
            "registry"@,
            "login"@,
            self.host@,
            "--username"@,
            self.username@,
            "--password"@,
            self.password@,
        ]
    }

    /// Render the argument vector of the registry-login invocation.
    pub fn to_args(&self) -> (r: Vec<String>)
        ensures
            r.deep_view() == self.to_tokens(),
    {
        let mut out: Vec<String> = Vec::new();
        push_token(&mut out, "registry");
        push_token(&mut out, "login");
        push_string(&mut out, self.host.clone());
        push_token(&mut out, "--username");
        push_string(&mut out, self.username.clone());
        push_token(&mut out, "--password");
        push_string(&mut out, self.password.clone());
        proof {
            assert(out.deep_view() =~= self.to_tokens());
        }
        out
    }
}

} // verus!
