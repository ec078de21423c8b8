use vstd::prelude::*;
use vstd::string::StringExecFns;

use crate::tokens::{
    kv_token, lemma_repeated_tokens_len, lemma_set_tokens_len, lemma_set_tokens_pairs, opt_tokens,
    push_string, push_token, repeated_tokens, set_pair_rendered, set_tokens, switch_token,
};

verus! {

/// Installer argument: everything one install or upgrade invocation needs.
///
/// Optional fields render only when present; the overrides in `opts` render
/// one `--set key=value` occurrence per pair, in insertion order, and the
/// paths in `values` one `--values path` pair per element, in list order.
#[derive(Debug, Clone, PartialEq, Eq)]
pub struct InstallArg {
    /// The release name
    pub name: String,
    /// The chart reference
    pub chart: String,
    /// An exact chart version to install
    pub version: Option<String>,
    /// The namespace to install into
    pub namespace: Option<String>,
    /// Ordered `(key, value)` value-overrides
    pub opts: Vec<(String, String)>,
    /// Ordered value-file paths
    pub values: Vec<String>,
    /// Whether development (pre-release) chart versions may be used
    pub develop: bool,
}

impl InstallArg {
    /// The flag tokens shared by install and upgrade, in declared order:
    /// namespace, develop, version, value files, overrides.
    pub open spec fn flag_tokens(&self) -> Seq<Seq<char>> {
        opt_tokens("--namespace"@, self.namespace.deep_view()) + switch_token(
            "--devel"@,
            self.develop,
        ) + opt_tokens("--version"@, self.version.deep_view()) + repeated_tokens(
            "--values"@,
            self.values.deep_view(),
        ) + set_tokens(self.opts.deep_view())
    }

    /// The full argument vector of an install invocation.
    pub open spec fn install_tokens(&self) -> Seq<Seq<char>> {
        seq!["install"@, self.name@, self.chart@] + self.flag_tokens()
    }

    /// The full argument vector of an upgrade invocation.
    pub open spec fn upgrade_tokens(&self) -> Seq<Seq<char>> {
        seq!["upgrade"@, "--install"@, self.name@, self.chart@] + self.flag_tokens()
    }

    /// A request for the given release name and chart reference, with every
    /// optional field absent.
    pub fn new(name: String, chart: String) -> (arg: Self)
        ensures
            arg.name == name,
            arg.chart == chart,
            arg.version is None,
            arg.namespace is None,
            arg.opts@ == Seq::<(String, String)>::empty(),
            arg.values@ == Seq::<String>::empty(),
            !arg.develop,
    {
        Self {
            name,
            chart,
            version: None,
            namespace: None,
            opts: Vec::new(),
            values: Vec::new(),
            develop: false,
        }
    }

    /// Set the chart version.
    pub fn version(self, version: String) -> (r: Self)
        ensures
            r == (InstallArg { version: Some(version), ..self }),
    {
        Self { version: Some(version), ..self }
    }

    /// Set the namespace.
    pub fn namespace(self, ns: String) -> (r: Self)
        ensures
            r == (InstallArg { namespace: Some(ns), ..self }),
    {
        Self { namespace: Some(ns), ..self }
    }

    /// Replace the whole list of overrides.
    pub fn opts(self, options: Vec<(String, String)>) -> (r: Self)
        ensures
            r == (InstallArg { opts: options, ..self }),
    {
        Self { opts: options, ..self }
    }

    /// Append a single override.
    pub fn opt(self, key: String, value: String) -> (r: Self)
        ensures
            r.name == self.name,
            r.chart == self.chart,
            r.version == self.version,
            r.namespace == self.namespace,
            r.values == self.values,
            r.develop == self.develop,
            r.opts@ == self.opts@.push((key, value)),
    {
        let mut opts = self.opts;
        opts.push((key, value));
        Self { opts, ..self }
    }

    /// Allow development (pre-release) chart versions.
    pub fn develop(self) -> (r: Self)
        ensures
            r == (InstallArg { develop: true, ..self }),
    {
        Self { develop: true, ..self }
    }

    /// Replace the whole list of value-file paths.
    pub fn values(self, values: Vec<String>) -> (r: Self)
        ensures
            r == (InstallArg { values, ..self }),
    {
        Self { values, ..self }
    }

    /// Append a single value-file path.
    pub fn value(&mut self, value: String)
        ensures
            final(self).name == old(self).name,
            final(self).chart == old(self).chart,
            final(self).version == old(self).version,
            final(self).namespace == old(self).namespace,
            final(self).opts == old(self).opts,
            final(self).develop == old(self).develop,
            final(self).values@ == old(self).values@.push(value),
    {
        self.values.push(value);
    }

    /// The argument vector of the install invocation for this request.
    pub fn install(&self) -> (r: Vec<String>)
        ensures
            r.deep_view() == self.install_tokens(),
    {
        let mut out: Vec<String> = Vec::new();
        push_token(&mut out, "install");
        push_string(&mut out, self.name.clone());
        push_string(&mut out, self.chart.clone());
        proof {
            assert(out.deep_view() =~= seq!["install"@, self.name@, self.chart@]);
        }
        self.apply_args(&mut out);
        proof {
            assert(out.deep_view() =~= self.install_tokens());
        }
        out
    }

    /// The argument vector of the upgrade invocation for this request.
    pub fn upgrade(&self) -> (r: Vec<String>)
        ensures
            r.deep_view() == self.upgrade_tokens(),
    {
        let mut out: Vec<String> = Vec::new();
        push_token(&mut out, "upgrade");
        push_token(&mut out, "--install");
        push_string(&mut out, self.name.clone());
        push_string(&mut out, self.chart.clone());
        proof {
            assert(out.deep_view() =~= seq!["upgrade"@, "--install"@, self.name@, self.chart@]);
        }
        self.apply_args(&mut out);
        proof {
            assert(out.deep_view() =~= self.upgrade_tokens());
        }
        out
    }

    /// How many tokens the flags contribute: two per present optional value,
    /// one per set switch, two per value file and two per override pair —
    /// and none at all for an absent field.
    pub open spec fn flag_token_count(&self) -> int {
        (if self.namespace is Some {
            2int
        } else {
            0int
        }) + (if self.develop {
            1int
        } else {
            0int
        }) + (if self.version is Some {
            2int
        } else {
            0int
        }) + 2 * self.values@.len() + 2 * self.opts@.len()
    }

    /// Append the flag tokens to a vector that already holds the verb and the
    /// positional arguments.
    fn apply_args(&self, out: &mut Vec<String>)
        ensures
            final(out).deep_view() == old(out).deep_view() + self.flag_tokens(),
    {
        let ghost base0 = out.deep_view();
        if let Some(ns) = &self.namespace {
            push_token(out, "--namespace");
            push_string(out, ns.clone());
        }
        proof {
            assert(out.deep_view() =~= base0 + opt_tokens(
                "--namespace"@,
                self.namespace.deep_view(),
            ));
        }
        let ghost base1 = out.deep_view();
        if self.develop {
            push_token(out, "--devel");
        }
        proof {
            assert(out.deep_view() =~= base1 + switch_token("--devel"@, self.develop));
        }
        let ghost base2 = out.deep_view();
        if let Some(version) = &self.version {
            push_token(out, "--version");
            push_string(out, version.clone());
        }
        proof {
            assert(out.deep_view() =~= base2 + opt_tokens("--version"@, self.version.deep_view()));
        }
        let ghost base3 = out.deep_view();
        let mut i: usize = 0;
        while i < self.values.len()
            invariant
                i <= self.values@.len(),
                out.deep_view() == base3 + repeated_tokens(
                    "--values"@,
                    self.values.deep_view().take(i as int),
                ),
            decreases self.values@.len() - i,
        {
            push_token(out, "--values");
            push_string(out, self.values[i].clone());
            proof {
                let vs = self.values.deep_view();
                assert(vs.take(i + 1).drop_last() =~= vs.take(i as int));
                assert(out.deep_view() =~= base3 + repeated_tokens("--values"@, vs.take(i + 1)));
            }
            i += 1;
        }
        proof {
            assert(self.values.deep_view().take(self.values@.len() as int)
                =~= self.values.deep_view());
        }
        let ghost base4 = out.deep_view();
        let mut j: usize = 0;
        while j < self.opts.len()
            invariant
                j <= self.opts@.len(),
                out.deep_view() == base4 + set_tokens(self.opts.deep_view().take(j as int)),
            decreases self.opts@.len() - j,
        {
            let mut kv = self.opts[j].0.clone();
            kv.append("=");
            kv.append(self.opts[j].1.as_str());
            proof {
                reveal_strlit("=");
                assert(kv@ =~= kv_token(self.opts@[j as int].0@, self.opts@[j as int].1@));
            }
            push_token(out, "--set");
            push_string(out, kv);
            proof {
                let ps = self.opts.deep_view();
                assert(ps.take(j + 1).drop_last() =~= ps.take(j as int));
                assert(out.deep_view() =~= base4 + set_tokens(ps.take(j + 1)));
            }
            j += 1;
        }
        proof {
            assert(self.opts.deep_view().take(self.opts@.len() as int) =~= self.opts.deep_view());
            assert(out.deep_view() =~= old(out).deep_view() + self.flag_tokens());
        }
    }
}

/// Law: the rendered install vector begins with the install verb, then the
/// release name and the chart reference in that order, then the flags in
/// declared order; optional fields that are absent contribute zero tokens.
pub proof fn lemma_install_vector_shape(arg: InstallArg)
    ensures
        arg.install_tokens().len() == 3 + arg.flag_tokens().len(),
        arg.install_tokens()[0] == "install"@,
        arg.install_tokens()[1] == arg.name@,
        arg.install_tokens()[2] == arg.chart@,
        arg.install_tokens().skip(3) == arg.flag_tokens(),
        arg.flag_tokens().len() == arg.flag_token_count(),
{
    lemma_repeated_tokens_len("--values"@, arg.values.deep_view());
    lemma_set_tokens_len(arg.opts.deep_view());
    assert(arg.install_tokens().skip(3) =~= arg.flag_tokens());
}

/// Law: the rendered upgrade vector begins with the upgrade verb tokens,
/// then the release name and the chart reference in that order, then the
/// flags in declared order; optional fields that are absent contribute zero
/// tokens.
pub proof fn lemma_upgrade_vector_shape(arg: InstallArg)
    ensures
        arg.upgrade_tokens().len() == 4 + arg.flag_tokens().len(),
        arg.upgrade_tokens()[0] == "upgrade"@,
        arg.upgrade_tokens()[1] == "--install"@,
        arg.upgrade_tokens()[2] == arg.name@,
        arg.upgrade_tokens()[3] == arg.chart@,
        arg.upgrade_tokens().skip(4) == arg.flag_tokens(),
        arg.flag_tokens().len() == arg.flag_token_count(),
{
    lemma_repeated_tokens_len("--values"@, arg.values.deep_view());
    lemma_set_tokens_len(arg.opts.deep_view());
    assert(arg.upgrade_tokens().skip(4) =~= arg.flag_tokens());
}

/// Law: the override pairs of a request render as exactly one
/// `--set key=value` occurrence per pair, in insertion order, inside the
/// flag tokens right after the value files.
pub proof fn lemma_overrides_in_order(arg: InstallArg)
    ensures
        set_tokens(arg.opts.deep_view()).len() == 2 * arg.opts@.len(),
        forall|j: int|
            0 <= j < arg.opts@.len() ==> #[trigger] set_pair_rendered(arg.opts.deep_view(), j),
        forall|j: int|
            0 <= j < arg.opts@.len() ==> set_tokens(arg.opts.deep_view())[2 * j + 1] == kv_token(
                arg.opts@[j].0@,
                arg.opts@[j].1@,
            ),
{
    lemma_set_tokens_pairs(arg.opts.deep_view());
    assert forall|j: int| 0 <= j < arg.opts@.len() implies set_tokens(arg.opts.deep_view())[2 * j
        + 1] == kv_token(arg.opts@[j].0@, arg.opts@[j].1@) by {
        assert(set_pair_rendered(arg.opts.deep_view(), j));
        assert(set_tokens(arg.opts.deep_view()).subrange(2 * j, 2 * j + 2)[1] == set_tokens(
            arg.opts.deep_view(),
        )[2 * j + 1]);
    }
}

} // verus!
