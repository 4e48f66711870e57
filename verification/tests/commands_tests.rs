use pact_cli::commands::{
    drift_installed_version, extension_invocation, get_pactflow_extensions,
    installed_version_source, is_pactflow_extension, list_row, list_selection,
    pactflow_ai_installed_version, pactflow_ai_probe_path, pactflow_extension_binary, plan_install,
    plan_uninstall_all, plan_update, type_label, update_target, InstallTarget, LatestVersions,
    VersionSource,
};
use pact_cli::config::{ExtensionConfig, ExtensionRegistry, ExtensionType};
use pact_cli::table::extension_table;

fn record(name: &str, t: ExtensionType, installed: bool) -> ExtensionConfig {
    ExtensionConfig {
        name: name.to_string(),
        version: "v1".to_string(),
        binary_path: format!("/bin/{}", name),
        extension_type: t,
        installed,
    }
}

fn registry(entries: &[(&str, ExtensionType, bool)]) -> ExtensionRegistry {
    let mut r = ExtensionRegistry::new();
    for (name, t, installed) in entries {
        r.insert(name.to_string(), record(name, *t, *installed));
    }
    r
}

fn strings(v: &[&str]) -> Vec<String> {
    v.iter().map(|s| s.to_string()).collect()
}

#[test]
fn install_plans() {
    assert_eq!(
        plan_install(None, true),
        Ok(vec![InstallTarget::PactflowAi, InstallTarget::RubyLegacy, InstallTarget::Drift])
    );
    assert_eq!(plan_install(Some("pactflow-ai"), false), Ok(vec![InstallTarget::PactflowAi]));
    assert_eq!(plan_install(Some("pact-legacy"), false), Ok(vec![InstallTarget::RubyLegacy]));
    assert_eq!(plan_install(Some("drift"), false), Ok(vec![InstallTarget::Drift]));
    assert_eq!(plan_install(Some("other"), false), Err("Unknown extension: other".to_string()));
    assert_eq!(
        plan_install(None, false),
        Err("Please specify an extension name or use --all flag".to_string())
    );
}

#[test]
fn update_plans() {
    let r = registry(&[
        ("drift", ExtensionType::Drift, true),
        ("pactflow-ai", ExtensionType::PactflowAi, false),
        ("mock-legacy", ExtensionType::PactRubyStandalone, true),
        ("my-tool", ExtensionType::External, true),
    ]);
    let steps = match plan_update(&r, None, true) {
        Ok(s) => s,
        Err(_) => panic!("installed extensions exist"),
    };
    let got: Vec<(String, Option<InstallTarget>)> =
        steps.into_iter().map(|s| (s.name, s.target)).collect();
    assert_eq!(
        got,
        vec![
            ("drift".to_string(), Some(InstallTarget::Drift)),
            ("mock-legacy".to_string(), Some(InstallTarget::RubyLegacy)),
            ("my-tool".to_string(), None),
        ]
    );
    let none = registry(&[("drift", ExtensionType::Drift, false)]);
    match plan_update(&none, None, true) {
        Err(e) => {
            assert_eq!(e.message, "No extensions installed");
            assert!(e.notice.is_some());
        }
        Ok(_) => panic!("nothing installed"),
    }
    match plan_update(&r, Some("pactflow-ai"), false) {
        Err(e) => assert_eq!(e.message, "Extension 'pactflow-ai' is not installed"),
        Ok(_) => panic!("not installed"),
    }
    match plan_update(&r, Some("nope"), false) {
        Err(e) => assert_eq!(e.message, "Extension 'nope' not found"),
        Ok(_) => panic!("not found"),
    }
    match plan_update(&r, Some("drift"), false) {
        Ok(s) => {
            assert_eq!(s.len(), 1);
            assert_eq!(s[0].name, "drift");
            assert_eq!(s[0].target, Some(InstallTarget::Drift));
        }
        Err(_) => panic!("drift is installed"),
    }
    match plan_update(&r, None, false) {
        Err(e) => assert_eq!(e.message, "Please specify an extension name or use --all flag"),
        Ok(_) => panic!("no selection"),
    }
    assert_eq!(update_target(ExtensionType::External), None);
}

#[test]
fn uninstall_all_keeps_only_master_legacy_entry() {
    let r = registry(&[
        ("mock-legacy", ExtensionType::PactRubyStandalone, true),
        ("pact-legacy", ExtensionType::PactRubyStandalone, true),
        ("drift", ExtensionType::Drift, true),
        ("pactflow-ai", ExtensionType::PactflowAi, false),
    ]);
    assert_eq!(plan_uninstall_all(&r), strings(&["pact-legacy", "drift"]));
    assert!(plan_uninstall_all(&ExtensionRegistry::new()).is_empty());
}

#[test]
fn listing_rows() {
    let r = registry(&[
        ("drift", ExtensionType::Drift, true),
        ("stub-legacy", ExtensionType::PactRubyStandalone, false),
        ("my-tool", ExtensionType::External, true),
    ]);
    let all = list_selection(&r, false);
    assert_eq!(all.len(), 3);
    let installed = list_selection(&r, true);
    let names: Vec<&str> = installed.iter().map(|(n, _)| n.as_str()).collect();
    assert_eq!(names, vec!["drift", "my-tool"]);

    let latest = LatestVersions::new(Some("v2.5.5".to_string()), None, Some("2603.0.1".to_string()));
    assert_eq!(latest.pactflow_ai, "unknown");
    let (name, cfg) = &all[1];
    assert!(matches!(installed_version_source(cfg), VersionSource::NotInstalled));
    assert_eq!(
        list_row(name, cfg, "-".to_string(), &latest),
        strings(&["stub-legacy", "Ruby Legacy", "-", "v2.5.5", "\u{274c} Not Installed"])
    );
    let (name, cfg) = &all[2];
    match installed_version_source(cfg) {
        VersionSource::Recorded(v) => assert_eq!(v, "v1"),
        _ => panic!("external extensions show their recorded version"),
    }
    assert_eq!(
        list_row(name, cfg, "v1".to_string(), &latest),
        strings(&["my-tool", "External", "v1", "-", "\u{2705} Installed"])
    );
    assert!(matches!(installed_version_source(&all[0].1), VersionSource::DriftProbe));
    assert!(matches!(
        installed_version_source(&record("pactflow-ai", ExtensionType::PactflowAi, true)),
        VersionSource::PactflowAiProbe
    ));
    assert_eq!(type_label(ExtensionType::PactflowAi), "PactFlow AI");

    let table = extension_table(vec![strings(&["a", "b", "c", "d", "e"]), strings(&["f", "g", "h", "i", "j"])]);
    assert_eq!(table.row_count(), 2);
    let header: Vec<String> = table.header().unwrap().cell_iter().map(|c| c.content()).collect();
    assert_eq!(header, strings(&["Name", "Type", "Installed", "Latest", "Status"]));
    let first: Vec<String> = table.row(0).unwrap().cell_iter().map(|c| c.content()).collect();
    assert_eq!(first, strings(&["a", "b", "c", "d", "e"]));
}

#[test]
fn installed_version_texts() {
    assert_eq!(
        pactflow_ai_installed_version(Some("pactflow-ai 2.0.10 (ae6a94e1 2026-03-03)\n")),
        "2.0.10+ae6a94e1"
    );
    assert_eq!(pactflow_ai_installed_version(Some("pactflow-ai 1.11.4")), "1.11.4");
    assert_eq!(pactflow_ai_installed_version(Some("pactflow-ai")), "unknown");
    assert_eq!(pactflow_ai_installed_version(None), "unknown");
    assert_eq!(drift_installed_version(Some("Drift testing tools 2603.0.1-beta\n")), "2603.0.1-beta");
    assert_eq!(drift_installed_version(Some("Drift testing tools")), "unknown");
    assert_eq!(drift_installed_version(None), "unknown");

    let r = registry(&[("pactflow-ai", ExtensionType::PactflowAi, true)]);
    assert_eq!(pactflow_ai_probe_path(&r), Some("/bin/pactflow-ai".to_string()));
    let r = registry(&[("pactflow-ai", ExtensionType::PactflowAi, false)]);
    assert_eq!(pactflow_ai_probe_path(&r), None);
}

#[test]
fn pactflow_extensions() {
    let r = registry(&[
        ("pactflow-ai", ExtensionType::PactflowAi, true),
        ("pactflow-legacy", ExtensionType::PactRubyStandalone, false),
        ("pactflow-x", ExtensionType::External, true),
        ("drift", ExtensionType::Drift, true),
    ]);
    assert_eq!(get_pactflow_extensions(&r), strings(&["ai", "x"]));
    assert!(is_pactflow_extension("ai", &r));
    assert!(!is_pactflow_extension("legacy", &r));
    assert!(!is_pactflow_extension("drift", &r));
    assert_eq!(pactflow_extension_binary("ai"), "pactflow-ai");
}

#[test]
fn extension_command_lines() {
    let args = strings(&["pact", "extension", "pact-broker-legacy", "can-i-deploy", "--version", "1"]);
    let (name, rest) = extension_invocation(&args).unwrap();
    assert_eq!(name, "pact-broker-legacy");
    assert_eq!(rest, strings(&["can-i-deploy", "--version", "1"]));
    assert_eq!(extension_invocation(&strings(&["pact", "extension"])), None);
    let (name, rest) = extension_invocation(&strings(&["drift", "--help"])).unwrap();
    assert_eq!(name, "drift");
    assert_eq!(rest, strings(&["--help"]));
    let (name, rest) = extension_invocation(&strings(&["pact", "extension", "x", "extension"])).unwrap();
    assert_eq!(name, "x");
    assert_eq!(rest, strings(&["extension"]));
    assert_eq!(extension_invocation(&vec![]), None);
}
