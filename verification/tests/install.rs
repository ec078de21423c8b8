use fluvio_helm::InstallArg;

#[test]
fn test_install_vector_minimal() {
    let arg = InstallArg::new("test".to_string(), "repo/chart".to_string());
    let args = arg.install();
    assert_eq!(args, vec!["install", "test", "repo/chart"]);
}

#[test]
fn test_install_vector_full() {
    let mut arg = InstallArg::new("test".to_string(), "repo/chart".to_string())
        .namespace("default".to_string())
        .develop()
        .version("1.2.3".to_string())
        .opt("image.tag".to_string(), "latest".to_string());
    arg.value("base.yaml".to_string());
    arg.value("override.yaml".to_string());
    let args = arg.install();
    assert_eq!(
        args,
        vec![
            "install",
            "test",
            "repo/chart",
            "--namespace",
            "default",
            "--devel",
            "--version",
            "1.2.3",
            "--values",
            "base.yaml",
            "--values",
            "override.yaml",
            "--set",
            "image.tag=latest",
        ]
    );
}

#[test]
fn test_upgrade_vector() {
    let arg = InstallArg::new("test".to_string(), "repo/chart".to_string())
        .version("1.2.3".to_string());
    let args = arg.upgrade();
    assert_eq!(
        args,
        vec!["upgrade", "--install", "test", "repo/chart", "--version", "1.2.3"]
    );
}

#[test]
fn test_absent_fields_render_no_tokens() {
    let arg = InstallArg::new("bare".to_string(), "c".to_string());
    assert_eq!(arg.install().len(), 3);
    assert_eq!(arg.upgrade().len(), 4);
}

#[test]
fn test_overrides_render_in_insertion_order() {
    let arg = InstallArg::new("test".to_string(), "repo/chart".to_string())
        .opt("a".to_string(), "1".to_string())
        .opt("b".to_string(), "2".to_string())
        .opt("a".to_string(), "3".to_string());
    let args = arg.install();
    assert_eq!(
        args,
        vec![
            "install",
            "test",
            "repo/chart",
            "--set",
            "a=1",
            "--set",
            "b=2",
            "--set",
            "a=3",
        ]
    );
}

#[test]
fn test_rendering_is_repeatable() {
    let arg = InstallArg::new("test".to_string(), "repo/chart".to_string())
        .namespace("ns".to_string())
        .opt("k".to_string(), "v".to_string());
    assert_eq!(arg.install(), arg.install());
    assert_eq!(arg.upgrade(), arg.upgrade());
}

#[test]
fn test_opts_replaces_the_list() {
    let arg = InstallArg::new("test".to_string(), "repo/chart".to_string())
        .opt("dropped".to_string(), "yes".to_string())
        .opts(vec![("kept".to_string(), "1".to_string())]);
    let args = arg.install();
    assert_eq!(args, vec!["install", "test", "repo/chart", "--set", "kept=1"]);
}

#[test]
fn test_values_replaces_the_list() {
    let arg = InstallArg::new("test".to_string(), "repo/chart".to_string())
        .values(vec!["a.yaml".to_string(), "b.yaml".to_string()]);
    let args = arg.install();
    assert_eq!(
        args,
        vec!["install", "test", "repo/chart", "--values", "a.yaml", "--values", "b.yaml"]
    );
}
