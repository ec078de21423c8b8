use fluvio_helm::InstalledChart;

fn field(value: &serde_json::Value, name: &str) -> String {
    value
        .get(name)
        .and_then(|v| v.as_str())
        .unwrap_or_else(|| panic!("record field {} is missing", name))
        .to_string()
}

#[test]
fn test_parse_get_installed_charts() {
    const JSON_RESPONSE: &str = r#"[{"name":"test_chart","namespace":"default","revision":"50","updated":"2021-03-17 08:42:54.546347741 +0000 UTC","status":"deployed","chart":"test_chart-1.2.32-rc2","app_version":"1.2.32-rc2"}]"#;
    let decoded: serde_json::Value =
        serde_json::from_slice(JSON_RESPONSE.as_bytes()).expect("can not parse json");
    let records = decoded.as_array().expect("can not parse json");
    let installed_charts: Vec<InstalledChart> = records
        .iter()
        .map(|r| InstalledChart {
            name: field(r, "name"),
            app_version: field(r, "app_version"),
            revision: field(r, "revision"),
            updated: field(r, "updated"),
            status: field(r, "status"),
            chart: field(r, "chart"),
        })
        .collect();
    assert_eq!(installed_charts.len(), 1);
    let test_chart = installed_charts
        .get(0)
        .expect("can not grab the first result");
    assert_eq!(test_chart.name, "test_chart");
    assert_eq!(test_chart.chart, "test_chart-1.2.32-rc2");
}
