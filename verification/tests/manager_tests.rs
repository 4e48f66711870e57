use pact_cli::config::{ExtensionConfig, ExtensionRegistry, ExtensionType};
use pact_cli::manager::{ExtensionLaunch, ExtensionManager};
use pact_cli::platform::PlatformInfo;

fn manager(os: &str, arch: &str) -> ExtensionManager {
    ExtensionManager::new(
        None,
        "/home/u/.pact/extensions".to_string(),
        "/home/u/.drift".to_string(),
        PlatformInfo { os: os.to_string(), arch: arch.to_string() },
    )
}

fn record(name: &str, t: ExtensionType, installed: bool, path: &str, version: &str) -> ExtensionConfig {
    ExtensionConfig {
        name: name.to_string(),
        version: version.to_string(),
        binary_path: path.to_string(),
        extension_type: t,
        installed,
    }
}

fn names(r: &ExtensionRegistry) -> Vec<String> {
    (0..r.len()).map(|i| r.key_at(i).clone()).collect()
}

#[test]
fn extensions_home_override() {
    let m = ExtensionManager::new(
        Some("/opt/pact-extensions".to_string()),
        "/home/u/.pact/extensions".to_string(),
        "/home/u/.drift".to_string(),
        PlatformInfo { os: "linux".to_string(), arch: "x86_64".to_string() },
    );
    assert_eq!(m.extensions_home, "/opt/pact-extensions");
    assert_eq!(m.get_extension_config_path(), "/opt/pact-extensions/config.json");
    let m = manager("linux", "x86_64");
    assert_eq!(m.extensions_home, "/home/u/.pact/extensions");
    assert_eq!(m.get_extension_config_path(), "/home/u/.pact/extensions/config.json");
    assert_eq!(m.bin_dir(), "/home/u/.pact/extensions/bin");
}

#[test]
fn list_extensions_adds_builtins() {
    let m = manager("linux", "x86_64");
    let existing = vec!["/home/u/.pact/extensions/bin/mock-legacy".to_string()];
    let listed = m.list_extensions(ExtensionRegistry::new(), &existing);
    assert_eq!(
        names(&listed),
        vec![
            "drift", "pactflow-ai", "pact-broker-legacy", "pactflow-legacy", "message-legacy",
            "mock-legacy", "verifier-legacy", "stub-legacy",
        ]
    );
    let drift = listed.get("drift").unwrap();
    assert_eq!(drift.version, "latest");
    assert_eq!(drift.binary_path, "/home/u/.pact/extensions/bin/drift");
    assert_eq!(drift.extension_type, ExtensionType::Drift);
    assert!(!drift.installed);
    assert!(listed.get("mock-legacy").unwrap().installed);
    assert_eq!(listed.get("stub-legacy").unwrap().extension_type, ExtensionType::PactRubyStandalone);
}

#[test]
fn list_extensions_keeps_loaded_entries() {
    let m = manager("windows", "x86_64");
    let mut config = ExtensionRegistry::new();
    config.insert("drift".to_string(), record("drift", ExtensionType::Drift, true, "/d/drift", "2603.0.1"));
    config.insert("my-tool".to_string(), record("my-tool", ExtensionType::External, true, "/x", "1"));
    let listed = m.list_extensions(config, &vec![]);
    assert_eq!(listed.len(), 9);
    assert_eq!(listed.get("drift").unwrap().version, "2603.0.1");
    assert_eq!(listed.get("my-tool").unwrap().binary_path, "/x");
    assert_eq!(
        listed.get("pactflow-ai").unwrap().binary_path,
        "/home/u/.pact/extensions/bin/pactflow-ai.exe"
    );
    let again = m.list_extensions(listed, &vec![]);
    assert_eq!(again.len(), 9);
}

#[test]
fn registry_insert_get_remove() {
    let mut r = ExtensionRegistry::new();
    assert!(r.get("drift").is_none());
    r.insert("drift".to_string(), record("drift", ExtensionType::Drift, false, "/a", "1"));
    r.insert("drift".to_string(), record("drift", ExtensionType::Drift, true, "/b", "2"));
    assert_eq!(r.len(), 1);
    assert_eq!(r.get("drift").unwrap().binary_path, "/b");
    assert!(r.contains_key("drift"));
    r.remove("drift");
    assert!(!r.contains_key("drift"));
    assert_eq!(r.len(), 0);
    r.remove("drift");
    assert_eq!(r.len(), 0);
}

#[test]
fn pactflow_ai_install() {
    let m = manager("darwin", "aarch64");
    assert_eq!(
        m.pactflow_ai_install_url("2.0.10+ae6a94e1"),
        "https://download.pactflow.io/ai/dist/aarch64-apple-darwin/2.0.10%2bae6a94e1/pactflow-ai"
    );
    let mut config = ExtensionRegistry::new();
    m.register_pactflow_ai(&mut config, "2.0.10+ae6a94e1");
    let c = config.get("pactflow-ai").unwrap();
    assert_eq!(c.name, "pactflow-ai");
    assert_eq!(c.version, "2.0.10+ae6a94e1");
    assert_eq!(c.binary_path, "/home/u/.pact/extensions/bin/pactflow-ai");
    assert_eq!(c.extension_type, ExtensionType::PactflowAi);
    assert!(c.installed);
    let unsupported = manager("freebsd", "x86_64");
    assert_eq!(unsupported.unsupported_platform_message(), "Unsupported platform: freebsd-x86_64");
}

#[test]
fn drift_install() {
    let m = manager("windows", "aarch64");
    assert_eq!(m.drift_install_url("2603.0.1"), "https://download.pactflow.io/drift/2603.0.1/windows-x86_64.tgz");
    assert_eq!(m.drift_archive_path(), "/home/u/.drift/drift.tar.gz");
    let call = ExtensionManager::drift_extract_command("/home/u/.drift/drift.tar.gz", "/home/u/.drift");
    assert_eq!(call.program, "tar");
    assert_eq!(call.args, vec!["-xzf", "/home/u/.drift/drift.tar.gz", "-C", "/home/u/.drift"]);
    assert_eq!(call.failure_message, "Failed to extract tar archive");
    let mut config = ExtensionRegistry::new();
    m.register_drift(&mut config, "2603.0.1");
    let c = config.get("drift").unwrap();
    assert_eq!(c.binary_path, "/home/u/.drift/drift");
    assert_eq!(c.version, "2603.0.1");
    assert_eq!(m.drift_executable_path(), "/home/u/.drift/drift.exe");
}

#[test]
fn ruby_legacy_install() {
    let m = manager("linux", "aarch64");
    assert_eq!(
        m.ruby_legacy_url("v2.5.5"),
        "https://github.com/pact-foundation/pact-standalone/releases/download/v2.5.5/pact-2.5.5-linux-arm64.tar.gz"
    );
    let w = manager("windows", "x86_64");
    assert_eq!(
        w.ruby_legacy_url("v2.5.5"),
        "https://github.com/pact-foundation/pact-standalone/releases/download/v2.5.5/pact-2.5.5-windows-x86_64.zip"
    );
    assert_eq!(m.ruby_archive_path(), "/home/u/.pact/extensions/pact-legacy.tar.gz");
    let tar = m.ruby_extract_command("/a.tar.gz");
    assert_eq!(tar.program, "tar");
    assert_eq!(
        tar.args,
        vec!["-xzf", "/a.tar.gz", "-C", "/home/u/.pact/extensions/pact-legacy", "--strip-components=1"]
    );
    assert_eq!(tar.failure_message, "Failed to extract tar archive");
    let ps = w.ruby_extract_command("/a.zip");
    assert_eq!(ps.program, "powershell");
    assert_eq!(ps.failure_message, "Failed to extract Windows archive");
    assert_eq!(
        ps.args,
        vec![
            "-Command",
            "Expand-Archive -Path '/a.zip' -DestinationPath '/home/u/.pact/extensions/pact-legacy' -Force"
        ]
    );
    let links = w.legacy_links();
    assert_eq!(links.len(), 6);
    assert_eq!(links[0].source_name, "pact-broker");
    assert_eq!(links[0].target_name, "pact-broker-legacy");
    assert_eq!(links[0].source_path, "/home/u/.pact/extensions/pact-legacy/bin/pact-broker.exe");
    assert_eq!(links[0].target_path, "/home/u/.pact/extensions/bin/pact-broker-legacy.exe");
    assert_eq!(links[5].target_name, "stub-legacy");
}

#[test]
fn ruby_legacy_registration() {
    let m = manager("linux", "x86_64");
    let existing = vec![
        "/home/u/.pact/extensions/pact-legacy".to_string(),
        "/home/u/.pact/extensions/bin/pactflow-legacy".to_string(),
    ];
    let mut config = ExtensionRegistry::new();
    m.register_ruby_legacy(&mut config, "v2.5.5", &existing);
    assert_eq!(config.len(), 7);
    let master = config.get("pact-legacy").unwrap();
    assert!(master.installed);
    assert_eq!(master.binary_path, "/home/u/.pact/extensions/pact-legacy");
    assert_eq!(master.version, "v2.5.5");
    assert!(config.get("pactflow-legacy").unwrap().installed);
    assert!(!config.get("stub-legacy").unwrap().installed);
    assert_eq!(config.get("stub-legacy").unwrap().binary_path, "/home/u/.pact/extensions/bin/stub-legacy");
}

#[test]
fn resolve_extension_cases() {
    let m = manager("linux", "x86_64");
    let mut config = ExtensionRegistry::new();
    config.insert("drift".to_string(), record("drift", ExtensionType::Drift, true, "/elsewhere", "1"));
    config.insert("pactflow-ai".to_string(), record("pactflow-ai", ExtensionType::PactflowAi, true, "/bin/ai", "1"));
    config.insert("mock-legacy".to_string(), record("mock-legacy", ExtensionType::PactRubyStandalone, false, "/bin/m", "1"));
    match m.resolve_extension(&config, "drift") {
        Ok(ExtensionLaunch::Registered(p)) => assert_eq!(p, "/home/u/.drift/drift"),
        _ => panic!("drift should run from the drift home"),
    }
    match m.resolve_extension(&config, "pactflow-ai") {
        Ok(ExtensionLaunch::Registered(p)) => assert_eq!(p, "/bin/ai"),
        _ => panic!("pactflow-ai should run its recorded executable"),
    }
    match m.resolve_extension(&config, "mock-legacy") {
        Err(e) => assert_eq!(e, "Extension 'mock-legacy' is not installed. Run 'pact extension install mock-legacy' first."),
        _ => panic!("not installed"),
    }
    match m.resolve_extension(&config, "foo") {
        Ok(ExtensionLaunch::External(b)) => assert_eq!(b, "pact-foo"),
        _ => panic!("external"),
    }
    assert_eq!(
        ExtensionManager::extension_not_found_message("foo"),
        "Extension 'foo' not found. Available extensions can be listed with 'pact extension list'."
    );
}

#[test]
fn uninstall_plans() {
    let m = manager("linux", "x86_64");
    let mut config = ExtensionRegistry::new();
    config.insert("drift".to_string(), record("drift", ExtensionType::Drift, true, "/home/u/.drift/drift", "1"));
    config.insert("pact-legacy".to_string(), record("pact-legacy", ExtensionType::PactRubyStandalone, true, "/r", "v2"));
    config.insert("mock-legacy".to_string(), record("mock-legacy", ExtensionType::PactRubyStandalone, true, "/b/mock-legacy", "v2"));
    config.insert("stub-legacy".to_string(), record("stub-legacy", ExtensionType::PactRubyStandalone, false, "/b/stub-legacy", "v2"));
    config.insert("pactflow-ai".to_string(), record("pactflow-ai", ExtensionType::PactflowAi, true, "/b/ai", "1"));

    let legacy = match m.plan_uninstall(copy(&config), "pact-legacy") {
        Ok(p) => p,
        Err(e) => panic!("{}", e),
    };
    assert_eq!(
        legacy.remove_files,
        vec![
            ("mock-legacy".to_string(), "/b/mock-legacy".to_string()),
            ("stub-legacy".to_string(), "/b/stub-legacy".to_string())
        ]
    );
    assert_eq!(legacy.remove_dir_if_present, Some("/home/u/.pact/extensions/pact-legacy".to_string()));
    assert_eq!(legacy.remove_dir, None);
    assert_eq!(legacy.remove_binary, None);
    assert_eq!(names(&legacy.config), vec!["drift", "pactflow-ai"]);

    let drift = m.plan_uninstall(copy(&config), "drift").ok().unwrap();
    assert_eq!(drift.remove_dir, Some("/home/u/.drift".to_string()));
    assert_eq!(drift.remove_binary, None);
    assert_eq!(names(&drift.config), vec!["pact-legacy", "mock-legacy", "stub-legacy", "pactflow-ai"]);

    let ai = m.plan_uninstall(copy(&config), "pactflow-ai").ok().unwrap();
    assert_eq!(ai.remove_dir, None);
    assert!(ai.remove_files.is_empty());
    assert!(!ai.config.contains_key("pactflow-ai"));
    assert_eq!(ai.remove_binary, Some("/b/ai".to_string()));

    let tool = m.plan_uninstall(copy(&config), "mock-legacy").ok().unwrap();
    assert_eq!(tool.remove_binary, Some("/b/mock-legacy".to_string()));
    assert_eq!(names(&tool.config), vec!["drift", "pact-legacy", "stub-legacy", "pactflow-ai"]);

    match m.plan_uninstall(copy(&config), "nope") {
        Err(e) => assert_eq!(e, "Extension 'nope' is not installed."),
        Ok(_) => panic!("unknown extension"),
    }
    let empty = m.plan_uninstall(ExtensionRegistry::new(), "pact-legacy").ok().unwrap();
    assert_eq!(empty.config.len(), 0);
}

#[test]
fn uninstall_after_install_restores_registry() {
    let m = manager("linux", "x86_64");
    let mut config = ExtensionRegistry::new();
    config.insert("my-tool".to_string(), record("my-tool", ExtensionType::External, true, "/x", "1"));
    m.register_pactflow_ai(&mut config, "1.11.4");
    let plan = m.plan_uninstall(config, "pactflow-ai").ok().unwrap();
    assert_eq!(names(&plan.config), vec!["my-tool"]);
}

fn copy(r: &ExtensionRegistry) -> ExtensionRegistry {
    let mut c = ExtensionRegistry::new();
    for i in 0..r.len() {
        c.insert(r.key_at(i).clone(), r.config_at(i).duplicate());
    }
    c
}

#[test]
fn install_refusals() {
    assert_eq!(manager("darwin", "aarch64").install_precheck(), Ok(()));
    assert_eq!(
        manager("freebsd", "x86_64").install_precheck(),
        Err("Unsupported platform: freebsd-x86_64".to_string())
    );
    assert_eq!(ExtensionManager::download_outcome("drift", 200, "200 OK"), Ok(()));
    assert_eq!(ExtensionManager::download_outcome("drift", 299, "299 <unknown status code>"), Ok(()));
    assert_eq!(
        ExtensionManager::download_outcome("pactflow-ai", 404, "404 Not Found"),
        Err("Failed to download pactflow-ai: HTTP 404 Not Found".to_string())
    );
    assert_eq!(
        ExtensionManager::download_outcome("pact-legacy", 302, "302 Found"),
        Err("Failed to download pact-legacy: HTTP 302 Found".to_string())
    );
}

#[test]
fn ruby_legacy_on_windows_arm_uses_x86_64() {
    let m = manager("windows", "aarch64");
    assert_eq!(
        m.ruby_legacy_url("v2.5.5"),
        "https://github.com/pact-foundation/pact-standalone/releases/download/v2.5.5/pact-2.5.5-windows-x86_64.zip"
    );
}
