use fluvio_helm::{
    check_helm_stderr, sanitize_helm_version_string, Chart, ChartExportArg, ChartPullArg,
    ExportArg, GetInstalledArg, HelmClient, HelmError, InstallArg, InstalledChart, PullArg,
    RegistryLoginArg, RepoAddArg, UninstallArg, UninstallStep,
};

fn client() -> HelmClient {
    HelmClient::new(b"version.BuildInfo{Version:\"v3.15.4\"}".to_vec())
        .expect("the probe output carries the version marker")
}

fn installed(name: &str) -> InstalledChart {
    InstalledChart {
        name: name.to_string(),
        app_version: "1.0.0".to_string(),
        revision: "1".to_string(),
        updated: "2021-03-17 08:42:54".to_string(),
        status: "deployed".to_string(),
        chart: format!("{}-1.0.0", name),
    }
}

#[test]
fn test_sanitize_version_string() {
    // As reported by most (?) helm versions
    assert_eq!(&sanitize_helm_version_string("v3.15.4+gfa9efb0"), "3.15.4+gfa9efb0");
    // As reported by helm on Fedora 40
    assert_eq!(&sanitize_helm_version_string("3.15.4+gfa9efb0"), "3.15.4+gfa9efb0");
}

#[test]
fn test_sanitize_trims_whitespace() {
    assert_eq!(&sanitize_helm_version_string("v3.15.4+gfa9efb0\n"), "3.15.4+gfa9efb0");
    assert_eq!(&sanitize_helm_version_string("  v3.0.0  "), "v3.0.0");
    assert_eq!(&sanitize_helm_version_string(""), "");
}

#[test]
fn test_new_accepts_version_output() {
    assert!(HelmClient::new(b"version.BuildInfo{...}".to_vec()).is_ok());
}

#[test]
fn test_new_rejects_unrecognized_output() {
    match HelmClient::new(b"no marker here".to_vec()) {
        Err(HelmError::HelmVersionNotFound(out)) => assert_eq!(out, "no marker here"),
        other => panic!("expected HelmVersionNotFound, got {:?}", other.err()),
    }
}

#[test]
fn test_new_rejects_non_text_output() {
    let r = HelmClient::new(vec![0xff, 0xfe, 0x00]);
    assert_eq!(r.err(), Some(HelmError::Utf8Error));
}

#[test]
fn test_version_probe_args() {
    assert_eq!(HelmClient::version_args(), vec!["version"]);
    assert_eq!(client().get_helm_version_args(), vec!["version", "--short"]);
}

#[test]
fn test_get_helm_version_sanitizes() {
    let r = client().get_helm_version(b"v3.15.4+gfa9efb0\n".to_vec());
    assert_eq!(r.unwrap(), "3.15.4+gfa9efb0");
}

#[test]
fn test_get_helm_version_rejects_non_text() {
    let r = client().get_helm_version(vec![0xc0]);
    assert_eq!(r, Err(HelmError::Utf8Error));
}

#[test]
fn test_stderr_empty_is_fine() {
    assert_eq!(check_helm_stderr(Vec::new()), Ok(()));
}

#[test]
fn test_stderr_warning_is_fine() {
    assert_eq!(check_helm_stderr(b"WARNING: deprecated chart".to_vec()), Ok(()));
}

#[test]
fn test_stderr_cluster_unreachable_is_connectivity_failure() {
    let stderr = b"Error: Kubernetes cluster unreachable: connection refused".to_vec();
    assert_eq!(check_helm_stderr(stderr), Err(HelmError::FailedToConnect));
}

#[test]
fn test_stderr_non_text_is_utf8_error() {
    assert_eq!(check_helm_stderr(vec![0xff, 0x00]), Err(HelmError::Utf8Error));
}

#[test]
fn test_client_install_and_upgrade_vectors() {
    let c = client();
    let arg = InstallArg::new("app".to_string(), "repo/app".to_string());
    assert_eq!(c.install(&arg), vec!["install", "app", "repo/app"]);
    assert_eq!(c.upgrade(&arg), vec!["upgrade", "--install", "app", "repo/app"]);
}

#[test]
fn test_uninstall_direct_run() {
    let c = client();
    let arg = UninstallArg::new("app".to_string())
        .namespace("default".to_string())
        .dry_run()
        .timeout("5m".to_string());
    match c.uninstall(&arg) {
        UninstallStep::Run(args) => assert_eq!(
            args,
            vec!["uninstall", "app", "--namespace", "default", "--dry-run", "--timeout", "5m"]
        ),
        other => panic!("expected a direct run, got {:?}", other),
    }
}

#[test]
fn test_uninstall_ignore_not_found_looks_up_first() {
    let c = client();
    let arg = UninstallArg::new("app".to_string()).ignore_not_found();
    match c.uninstall(&arg) {
        UninstallStep::Lookup(args) => assert_eq!(
            args,
            vec!["list", "--filter", "^app$", "--output", "json", "-A"]
        ),
        other => panic!("expected a lookup, got {:?}", other),
    }
}

#[test]
fn test_uninstall_skips_when_lookup_is_empty() {
    let c = client();
    let arg = UninstallArg::new("app".to_string()).ignore_not_found();
    let step = c.uninstall_after_lookup(&arg, &Vec::new());
    assert_eq!(step, UninstallStep::Skip);
}

#[test]
fn test_uninstall_runs_when_lookup_finds_the_release() {
    let c = client();
    let arg = UninstallArg::new("app".to_string()).ignore_not_found();
    let step = c.uninstall_after_lookup(&arg, &vec![installed("app")]);
    assert_eq!(step, UninstallStep::Run(vec!["uninstall".to_string(), "app".to_string()]));
}

#[test]
fn test_repo_vectors() {
    let c = client();
    assert_eq!(
        c.repo_add("fluvio", "https://charts.fluvio.io"),
        vec!["repo", "add", "fluvio", "https://charts.fluvio.io", "--output", "json"]
    );
    assert_eq!(c.repo_update(), vec!["repo", "update", "--output", "json"]);
}

#[test]
fn test_repo_add_with_optionals_vector() {
    let c = client();
    let arg = RepoAddArg::new("fluvio", "https://charts.fluvio.io")
        .set_force_update(true)
        .set_no_update(false)
        .set_ca_file("ca.pem".to_string())
        .set_username("user".to_string());
    assert_eq!(
        c.repo_add_with_optionals(arg),
        vec![
            "repo",
            "add",
            "fluvio",
            "https://charts.fluvio.io",
            "--output",
            "json",
            "--force-update",
            "--ca-file",
            "ca.pem",
            "--username",
            "user",
        ]
    );
}

#[test]
fn test_registry_login_vector() {
    let c = client();
    let arg = RegistryLoginArg {
        host: "registry.example".to_string(),
        username: "user".to_string(),
        password: "secret".to_string(),
    };
    assert_eq!(
        c.registry(arg),
        vec![
            "registry",
            "login",
            "registry.example",
            "--username",
            "user",
            "--password",
            "secret",
        ]
    );
}

#[test]
fn test_chart_pull_and_export_vectors() {
    let c = client();
    let pull = ChartPullArg { chart: "repo/app".to_string(), version: "1.2.3".to_string() };
    assert_eq!(c.chart_pull(pull), vec!["chart", "pull", "repo/app:1.2.3"]);
    let export = ChartExportArg {
        chart: "repo/app".to_string(),
        version: "1.2.3".to_string(),
        destination: "/tmp/charts".to_string(),
    };
    assert_eq!(
        c.export(export),
        vec!["chart", "export", "repo/app:1.2.3", "--destination", "/tmp/charts"]
    );
}

#[test]
fn test_plain_pull_and_export_variants() {
    let pull = PullArg { chart: "repo/app".to_string(), version: "2.0.0".to_string() };
    assert_eq!(pull.to_args(), vec!["chart", "pull", "repo/app:2.0.0"]);
    let export = ExportArg {
        chart: "repo/app".to_string(),
        version: "2.0.0".to_string(),
        destination: "out".to_string(),
    };
    assert_eq!(
        export.to_args(),
        vec!["chart", "export", "repo/app:2.0.0", "--destination", "out"]
    );
}

#[test]
fn test_search_and_versions_vectors() {
    let c = client();
    assert_eq!(
        c.search_repo("fluvio", "1.2.3"),
        vec!["search", "repo", "fluvio", "--version", "1.2.3", "--output", "json"]
    );
    assert_eq!(
        c.versions("fluvio"),
        vec!["search", "repo", "--versions", "fluvio", "--output", "json", "--devel"]
    );
}

#[test]
fn test_get_installed_by_name_anchors_the_filter() {
    let c = client();
    assert_eq!(
        c.get_installed_chart_by_name("app", Some("default")),
        vec!["list", "--filter", "^app$", "--output", "json", "--namespace", "default"]
    );
    assert_eq!(
        c.get_installed_chart_by_name("app", None),
        vec!["list", "--filter", "^app$", "--output", "json", "-A"]
    );
}

#[test]
fn test_list_installed_vector() {
    let c = client();
    let arg = GetInstalledArg {
        all: Some(true),
        all_namespaces: Some(false),
        uninstalled: Some(true),
        filter: Some("^app$".to_string()),
        namespace: Some("default".to_string()),
        max: Some(10),
        offset: Some(1234),
        ..GetInstalledArg::default()
    };
    assert_eq!(
        c.list_installed(arg),
        vec![
            "list",
            "--output",
            "json",
            "--all",
            "--uninstalled",
            "--filter",
            "^app$",
            "--namespace",
            "default",
            "--max",
            "10",
            "--offset",
            "1234",
        ]
    );
}

#[test]
fn test_list_installed_default_vector() {
    let c = client();
    assert_eq!(c.list_installed(GetInstalledArg::default()), vec!["list", "--output", "json"]);
}

#[test]
fn test_chart_version_exists_true() {
    let c = client();
    let charts = vec![
        Chart { name: "fluvio/fluvio".to_string(), version: "0.9.0".to_string() },
        Chart { name: "fluvio/fluvio".to_string(), version: "0.9.1".to_string() },
    ];
    assert!(c.chart_version_exists("fluvio/fluvio", "0.9.1", &charts));
}

#[test]
fn test_chart_version_exists_needs_both_fields() {
    let c = client();
    let charts = vec![
        Chart { name: "fluvio/fluvio".to_string(), version: "0.9.0".to_string() },
        Chart { name: "fluvio/other".to_string(), version: "0.9.1".to_string() },
    ];
    assert!(!c.chart_version_exists("fluvio/fluvio", "0.9.1", &charts));
}

#[test]
fn test_chart_version_exists_empty_list() {
    let c = client();
    assert!(!c.chart_version_exists("fluvio/fluvio", "0.9.1", &Vec::new()));
}

#[test]
fn test_chart_getters() {
    let chart = Chart { name: "repo/app".to_string(), version: "1.0.0".to_string() };
    assert_eq!(chart.name(), "repo/app");
    assert_eq!(chart.version(), "1.0.0");
}
