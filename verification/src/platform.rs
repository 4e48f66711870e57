//! The platform the tool runs on, and the download targets that follow from it.
use vstd::prelude::*;

use crate::text::str_eq;

verus! {

/// Operating system and processor architecture, in the spelling the download
/// locations use (`darwin`, `windows`, `linux`; `aarch64`, `x86_64`).
pub struct PlatformInfo {
    pub os: String,
    pub arch: String,
}

/// The operating systems the extensions are published for: 0 `darwin`,
/// 1 `windows`, 2 `linux`, 3 anything else.
pub open spec fn os_code(os: Seq<char>) -> int {
    if os == "darwin"@ {
        0
    } else if os == "windows"@ {
        1
    } else if os == "linux"@ {
        2
    } else {
        3
    }
}

/// The architectures the extensions are published for: 0 `aarch64`,
/// 1 `x86_64`, 2 anything else.
pub open spec fn arch_code(arch: Seq<char>) -> int {
    if arch == "aarch64"@ {
        0
    } else if arch == "x86_64"@ {
        1
    } else {
        2
    }
}

/// One of the six supported combinations of `darwin`/`windows`/`linux` and
/// `aarch64`/`x86_64`.
pub open spec fn supported_spec(os: Seq<char>, arch: Seq<char>) -> bool {
    os_code(os) < 3 && arch_code(arch) < 2
}

/// The PactFlow AI build target for a supported platform.
pub open spec fn pactflow_ai_target(os: Seq<char>, arch: Seq<char>) -> Seq<char> {
    if os_code(os) == 0 {
        if arch_code(arch) == 0 {
            "aarch64-apple-darwin"@
        } else {
            "x86_64-apple-darwin"@
        }
    } else if os_code(os) == 1 {
        if arch_code(arch) == 0 {
            "aarch64-pc-windows-msvc"@
        } else {
            "x86_64-pc-windows-msvc"@
        }
    } else {
        if arch_code(arch) == 0 {
            "aarch64-unknown-linux-gnu"@
        } else {
            "x86_64-unknown-linux-gnu"@
        }
    }
}

/// The drift build target for a supported platform; Windows on ARM uses the
/// x86_64 build.
pub open spec fn drift_target(os: Seq<char>, arch: Seq<char>) -> Seq<char> {
    if os_code(os) == 0 {
        if arch_code(arch) == 0 {
            "macos-aarch64"@
        } else {
            "macos-x86_64"@
        }
    } else if os_code(os) == 1 {
        "windows-x86_64"@
    } else {
        if arch_code(arch) == 0 {
            "linux-aarch64"@
        } else {
            "linux-x86_64"@
        }
    }
}

/// The pact-standalone (Ruby) build target for a supported platform; the
/// tools are published for x86_64 only on Windows, so every Windows
/// architecture uses that build.
pub open spec fn ruby_target(os: Seq<char>, arch: Seq<char>) -> Seq<char> {
    if os_code(os) == 0 {
        if arch_code(arch) == 0 {
            "osx-arm64"@
        } else {
            "osx-x86_64"@
        }
    } else if os_code(os) == 1 {
        "windows-x86_64"@
    } else {
        if arch_code(arch) == 0 {
            "linux-arm64"@
        } else {
            "linux-x86_64"@
        }
    }
}

pub open spec fn pactflow_ai_latest_url_spec(os: Seq<char>, arch: Seq<char>) -> Seq<char> {
    "https://download.pactflow.io/ai/dist/"@ + pactflow_ai_target(os, arch) + "/latest"@
}

pub open spec fn pactflow_ai_download_url_spec(
    os: Seq<char>,
    arch: Seq<char>,
    version: Seq<char>,
) -> Seq<char> {
    "https://download.pactflow.io/ai/dist/"@ + pactflow_ai_target(os, arch) + "/"@ + version
        + "/pactflow-ai"@
}

pub open spec fn drift_download_url_spec(
    os: Seq<char>,
    arch: Seq<char>,
    version: Seq<char>,
) -> Seq<char> {
    "https://download.pactflow.io/drift/"@ + version + "/"@ + drift_target(os, arch) + ".tgz"@
}

/// The file name suffix of executables: `.exe` on Windows, nothing elsewhere.
pub open spec fn exe_suffix(os: Seq<char>) -> Seq<char> {
    if os == "windows"@ {
        ".exe"@
    } else {
        ""@
    }
}

/// The archive format of the pact-standalone release: `zip` on Windows,
/// `tar.gz` elsewhere.
pub open spec fn archive_suffix(os: Seq<char>) -> Seq<char> {
    if os == "windows"@ {
        "zip"@
    } else {
        "tar.gz"@
    }
}

/// The operating system name as the download locations spell it: Rust's
/// `macos` becomes `darwin`, every other name stays.
pub open spec fn normalized_os(os: Seq<char>) -> Seq<char> {
    if os == "macos"@ {
        "darwin"@
    } else {
        os
    }
}

/// What the tool reports on standard error before it exits with code 1 when
/// a download location is asked for on an unsupported platform.
pub open spec fn unsupported_combination_spec(os: Seq<char>, arch: Seq<char>) -> Seq<char> {
    "Unsupported OS and architecture combination: os="@ + os + ", arch="@ + arch
}

impl PlatformInfo {
    pub open spec fn supported(&self) -> bool {
        supported_spec(self.os@, self.arch@)
    }

    /// Builds the platform from the compile-time operating system and
    /// architecture names (`std::env::consts::OS` and `ARCH`).
    pub fn detect(os: &str, arch: &str) -> (r: PlatformInfo)
        ensures
            r.os@ == normalized_os(os@),
            r.arch@ == arch@,
    {
        let os_name = if str_eq(os, "macos") {
            String::from_str("darwin")
        } else {
            String::from_str(os)
        };
        PlatformInfo { os: os_name, arch: String::from_str(arch) }
    }

    fn os_index(&self) -> (r: u8)
        ensures
            r as int == os_code(self.os@),
    {
        let os = self.os.as_str();
        if str_eq(os, "darwin") {
            0
        } else if str_eq(os, "windows") {
            1
        } else if str_eq(os, "linux") {
            2
        } else {
            3
        }
    }

    fn arch_index(&self) -> (r: u8)
        ensures
            r as int == arch_code(self.arch@),
    {
        let arch = self.arch.as_str();
        if str_eq(arch, "aarch64") {
            0
        } else if str_eq(arch, "x86_64") {
            1
        } else {
            2
        }
    }

    /// Whether extensions are published for this platform.
    pub fn is_supported(&self) -> (r: bool)
        ensures
            r == self.supported(),
    {
        self.os_index() < 3 && self.arch_index() < 2
    }

    /// The check made before any download location is computed: `Ok` on a
    /// supported platform, where `get_pactflow_ai_url`,
    /// `get_pactflow_ai_download_url`, `get_drift_download_url` and
    /// `get_ruby_standalone_target` return; otherwise the line the tool
    /// prints to standard error before it exits with code 1.
    pub fn check_supported(&self) -> (r: Result<(), String>)
        ensures
            r is Ok <==> self.supported(),
            r matches Err(m) ==> m@ == unsupported_combination_spec(self.os@, self.arch@),
    {
        if self.is_supported() {
            Ok(())
        } else {
            let mut m = String::from_str("Unsupported OS and architecture combination: os=");
            m.append(self.os.as_str());
            m.append(", arch=");
            m.append(self.arch.as_str());
            Err(m)
        }
    }

    fn pactflow_ai_target(&self) -> (r: &'static str)
        requires
            self.supported(),
        ensures
            r@ == pactflow_ai_target(self.os@, self.arch@),
    {
        let os = self.os_index();
        let arch = self.arch_index();
        if os == 0 {
            if arch == 0 {
                "aarch64-apple-darwin"
            } else {
                "x86_64-apple-darwin"
            }
        } else if os == 1 {
            if arch == 0 {
                "aarch64-pc-windows-msvc"
            } else {
                "x86_64-pc-windows-msvc"
            }
        } else {
            if arch == 0 {
                "aarch64-unknown-linux-gnu"
            } else {
                "x86_64-unknown-linux-gnu"
            }
        }
    }

    /// Where the latest PactFlow AI version number is published. The platform
    /// must be supported: for any other the tool reports it and exits before
    /// calling this.
    pub fn get_pactflow_ai_url(&self) -> (r: String)
        requires
            self.supported(),
        ensures
            r@ == pactflow_ai_latest_url_spec(self.os@, self.arch@),
    {
        let mut url = String::from_str("https://download.pactflow.io/ai/dist/");
        url.append(self.pactflow_ai_target());
        url.append("/latest");
        url
    }

    /// Where a given PactFlow AI version is downloaded from (supported
    /// platforms only, as above).
    pub fn get_pactflow_ai_download_url(&self, version: &str) -> (r: String)
        requires
            self.supported(),
        ensures
            r@ == pactflow_ai_download_url_spec(self.os@, self.arch@, version@),
    {
        let mut url = String::from_str("https://download.pactflow.io/ai/dist/");
        url.append(self.pactflow_ai_target());
        url.append("/");
        url.append(version);
        url.append("/pactflow-ai");
        url
    }

    /// Where the latest drift version number is published.
    pub fn get_drift_url(&self) -> (r: String)
        ensures
            r@ == "https://download.pactflow.io/drift/version.txt"@,
    {
        String::from_str("https://download.pactflow.io/drift/version.txt")
    }

    /// Where a given drift version is downloaded from (supported platforms only).
    pub fn get_drift_download_url(&self, version: &str) -> (r: String)
        requires
            self.supported(),
        ensures
            r@ == drift_download_url_spec(self.os@, self.arch@, version@),
    {
        let os = self.os_index();
        let arch = self.arch_index();
        let target = if os == 0 {
            if arch == 0 {
                "macos-aarch64"
            } else {
                "macos-x86_64"
            }
        } else if os == 1 {
            "windows-x86_64"
        } else {
            if arch == 0 {
                "linux-aarch64"
            } else {
                "linux-x86_64"
            }
        };
        let mut url = String::from_str("https://download.pactflow.io/drift/");
        url.append(version);
        url.append("/");
        url.append(target);
        url.append(".tgz");
        url
    }

    /// The pact-standalone release target (supported platforms only).
    pub fn get_ruby_standalone_target(&self) -> (r: String)
        requires
            self.supported(),
        ensures
            r@ == ruby_target(self.os@, self.arch@),
    {
        let os = self.os_index();
        let arch = self.arch_index();
        let target = if os == 0 {
            if arch == 0 {
                "osx-arm64"
            } else {
                "osx-x86_64"
            }
        } else if os == 1 {
            "windows-x86_64"
        } else {
            if arch == 0 {
                "linux-arm64"
            } else {
                "linux-x86_64"
            }
        };
        String::from_str(target)
    }

    /// `.exe` on Windows, the empty string elsewhere.
    pub fn get_executable_extension(&self) -> (r: &str)
        ensures
            r@ == exe_suffix(self.os@),
    {
        if str_eq(self.os.as_str(), "windows") {
            ".exe"
        } else {
            ""
        }
    }

    /// `zip` on Windows, `tar.gz` elsewhere.
    pub fn get_archive_extension(&self) -> (r: &str)
        ensures
            r@ == archive_suffix(self.os@),
    {
        if str_eq(self.os.as_str(), "windows") {
            "zip"
        } else {
            "tar.gz"
        }
    }
}

/// The download targets of each supported platform: PactFlow AI has a build
/// for each of the six; drift and pact-standalone have no Windows ARM build,
/// so Windows on aarch64 takes the x86_64 one; and only Windows executables
/// end in `.exe` and pact-standalone archives for Windows are zip files.
pub proof fn law_platform_targets(os: Seq<char>, arch: Seq<char>)
    requires
        supported_spec(os, arch),
    ensures
        os == "darwin"@ && arch == "aarch64"@ ==> pactflow_ai_target(os, arch)
            == "aarch64-apple-darwin"@ && drift_target(os, arch) == "macos-aarch64"@ && ruby_target(
            os,
            arch,
        ) == "osx-arm64"@,
        os == "darwin"@ && arch == "x86_64"@ ==> pactflow_ai_target(os, arch)
            == "x86_64-apple-darwin"@ && drift_target(os, arch) == "macos-x86_64"@ && ruby_target(
            os,
            arch,
        ) == "osx-x86_64"@,
        os == "windows"@ && arch == "aarch64"@ ==> pactflow_ai_target(os, arch)
            == "aarch64-pc-windows-msvc"@ && drift_target(os, arch) == "windows-x86_64"@
            && ruby_target(os, arch) == "windows-x86_64"@,
        os == "windows"@ && arch == "x86_64"@ ==> pactflow_ai_target(os, arch)
            == "x86_64-pc-windows-msvc"@ && drift_target(os, arch) == "windows-x86_64"@
            && ruby_target(os, arch) == "windows-x86_64"@,
        os == "linux"@ && arch == "aarch64"@ ==> pactflow_ai_target(os, arch)
            == "aarch64-unknown-linux-gnu"@ && drift_target(os, arch) == "linux-aarch64"@
            && ruby_target(os, arch) == "linux-arm64"@,
        os == "linux"@ && arch == "x86_64"@ ==> pactflow_ai_target(os, arch)
            == "x86_64-unknown-linux-gnu"@ && drift_target(os, arch) == "linux-x86_64"@
            && ruby_target(os, arch) == "linux-x86_64"@,
        (os == "windows"@) == (exe_suffix(os) == ".exe"@),
        (os == "windows"@) == (archive_suffix(os) == "zip"@),
{
    reveal_strlit("darwin");
    reveal_strlit("windows");
    reveal_strlit("linux");
    reveal_strlit("aarch64");
    reveal_strlit("x86_64");
    reveal_strlit(".exe");
    reveal_strlit("");
    reveal_strlit("zip");
    reveal_strlit("tar.gz");
    assert(""@ != ".exe"@) by {
        assert(""@.len() != ".exe"@.len());
    }
    assert("tar.gz"@ != "zip"@) by {
        assert("tar.gz"@.len() != "zip"@.len());
    }
    assert("x86_64"@ != "aarch64"@) by {
        assert("x86_64"@.len() != "aarch64"@.len());
    }
    assert("windows"@ != "darwin"@) by {
        assert("windows"@.len() != "darwin"@.len());
    }
    assert("linux"@ != "darwin"@ && "linux"@ != "windows"@) by {
        assert("linux"@.len() != "darwin"@.len());
        assert("linux"@.len() != "windows"@.len());
    }
}

} // verus!
