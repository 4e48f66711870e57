use pact_cli::platform::PlatformInfo;

fn platform(os: &str, arch: &str) -> PlatformInfo {
    PlatformInfo { os: os.to_string(), arch: arch.to_string() }
}

#[test]
fn detect_maps_macos_to_darwin() {
    let p = PlatformInfo::detect("macos", "aarch64");
    assert_eq!(p.os, "darwin");
    assert_eq!(p.arch, "aarch64");
    let p = PlatformInfo::detect("linux", "riscv64");
    assert_eq!(p.os, "linux");
    assert_eq!(p.arch, "riscv64");
}

#[test]
fn supported_platforms() {
    for os in ["darwin", "windows", "linux"] {
        for arch in ["aarch64", "x86_64"] {
            assert!(platform(os, arch).is_supported());
        }
    }
    assert!(!platform("freebsd", "x86_64").is_supported());
    assert!(!platform("linux", "riscv64").is_supported());
    assert!(!platform("macos", "x86_64").is_supported());
}

#[test]
fn pactflow_ai_urls() {
    let cases = [
        ("darwin", "aarch64", "aarch64-apple-darwin"),
        ("darwin", "x86_64", "x86_64-apple-darwin"),
        ("windows", "aarch64", "aarch64-pc-windows-msvc"),
        ("windows", "x86_64", "x86_64-pc-windows-msvc"),
        ("linux", "aarch64", "aarch64-unknown-linux-gnu"),
        ("linux", "x86_64", "x86_64-unknown-linux-gnu"),
    ];
    for (os, arch, target) in cases {
        let p = platform(os, arch);
        assert_eq!(
            p.get_pactflow_ai_url(),
            format!("https://download.pactflow.io/ai/dist/{}/latest", target)
        );
        assert_eq!(
            p.get_pactflow_ai_download_url("1.11.4"),
            format!("https://download.pactflow.io/ai/dist/{}/1.11.4/pactflow-ai", target)
        );
    }
}

#[test]
fn drift_urls() {
    let cases = [
        ("darwin", "aarch64", "macos-aarch64"),
        ("darwin", "x86_64", "macos-x86_64"),
        ("windows", "aarch64", "windows-x86_64"),
        ("windows", "x86_64", "windows-x86_64"),
        ("linux", "aarch64", "linux-aarch64"),
        ("linux", "x86_64", "linux-x86_64"),
    ];
    for (os, arch, target) in cases {
        let p = platform(os, arch);
        assert_eq!(p.get_drift_url(), "https://download.pactflow.io/drift/version.txt");
        assert_eq!(
            p.get_drift_download_url("2603.0.1"),
            format!("https://download.pactflow.io/drift/2603.0.1/{}.tgz", target)
        );
    }
}

#[test]
fn ruby_targets_and_extensions() {
    let cases = [
        ("darwin", "aarch64", "osx-arm64"),
        ("darwin", "x86_64", "osx-x86_64"),
        ("windows", "aarch64", "windows-x86_64"),
        ("windows", "x86_64", "windows-x86_64"),
        ("linux", "aarch64", "linux-arm64"),
        ("linux", "x86_64", "linux-x86_64"),
    ];
    for (os, arch, target) in cases {
        assert_eq!(platform(os, arch).get_ruby_standalone_target(), target);
    }
    assert_eq!(platform("windows", "x86_64").get_executable_extension(), ".exe");
    assert_eq!(platform("linux", "x86_64").get_executable_extension(), "");
    assert_eq!(platform("windows", "x86_64").get_archive_extension(), "zip");
    assert_eq!(platform("darwin", "aarch64").get_archive_extension(), "tar.gz");
}

#[test]
fn unsupported_platform_is_reported() {
    assert_eq!(platform("linux", "x86_64").check_supported(), Ok(()));
    assert_eq!(platform("windows", "aarch64").check_supported(), Ok(()));
    assert_eq!(
        platform("freebsd", "x86_64").check_supported(),
        Err("Unsupported OS and architecture combination: os=freebsd, arch=x86_64".to_string())
    );
    assert_eq!(
        platform("linux", "riscv64").check_supported(),
        Err("Unsupported OS and architecture combination: os=linux, arch=riscv64".to_string())
    );
}
