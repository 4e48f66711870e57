//! Where extensions live, what the registry records about them, and how
//! installing, running and uninstalling change it.
use vstd::prelude::*;

use crate::config::{
    entries_map, keys_distinct, lemma_entries_map, ExtensionConfig, ExtensionConfigView,
    ExtensionRegistry, ExtensionType,
};
use crate::platform::{
    archive_suffix, drift_download_url_spec, exe_suffix, pactflow_ai_download_url_spec,
    ruby_target, PlatformInfo,
};
use crate::text::{escape_plus, replace_plus, str_eq, strip_leading, trim_start_char};

verus! {

/// The extension manager: the extensions directory, the drift directory and
/// the platform.
pub struct ExtensionManager {
    pub extensions_home: String,
    pub drift_home: String,
    pub platform: PlatformInfo,
}

/// The built-in extensions, which `list_extensions` always shows.
pub open spec fn builtin_seq() -> Seq<(Seq<char>, ExtensionType)> {
    seq![
        ("drift"@, ExtensionType::Drift),
        ("pactflow-ai"@, ExtensionType::PactflowAi),
        ("pact-broker-legacy"@, ExtensionType::PactRubyStandalone),
        ("pactflow-legacy"@, ExtensionType::PactRubyStandalone),
        ("message-legacy"@, ExtensionType::PactRubyStandalone),
        ("mock-legacy"@, ExtensionType::PactRubyStandalone),
        ("verifier-legacy"@, ExtensionType::PactRubyStandalone),
        ("stub-legacy"@, ExtensionType::PactRubyStandalone),
    ]
}

/// The pact-standalone commands and the names of the legacy tools they become.
pub open spec fn legacy_seq() -> Seq<(Seq<char>, Seq<char>)> {
    seq![
        ("pact-broker"@, "pact-broker-legacy"@),
        ("pactflow"@, "pactflow-legacy"@),
        ("pact-message"@, "message-legacy"@),
        ("pact-mock-service"@, "mock-legacy"@),
        ("pact-provider-verifier"@, "verifier-legacy"@),
        ("pact-stub-service"@, "stub-legacy"@),
    ]
}

/// `<home>/bin/<name><exe suffix>`: where an extension's executable is kept.
pub open spec fn bin_path_spec(home: Seq<char>, name: Seq<char>, os: Seq<char>) -> Seq<char> {
    home + "/bin/"@ + name + exe_suffix(os)
}

/// `<home>/pact-legacy`: where pact-standalone is unpacked.
pub open spec fn ruby_dir_spec(home: Seq<char>) -> Seq<char> {
    home + "/pact-legacy"@
}

/// `<home>/pact-legacy/bin/<name><exe suffix>`: a pact-standalone command.
pub open spec fn ruby_command_path_spec(home: Seq<char>, name: Seq<char>, os: Seq<char>) -> Seq<char> {
    home + "/pact-legacy/bin/"@ + name + exe_suffix(os)
}

/// The record of an extension that has just been installed.
pub open spec fn installed_record(
    name: Seq<char>,
    version: Seq<char>,
    binary_path: Seq<char>,
    t: ExtensionType,
) -> ExtensionConfigView {
    ExtensionConfigView {
        name: name,
        version: version,
        binary_path: binary_path,
        extension_type: t,
        installed: true,
    }
}

/// The record `list_extensions` shows for a built-in extension missing from the
/// registry: version `latest`, installed when its executable exists.
pub open spec fn builtin_record(
    home: Seq<char>,
    os: Seq<char>,
    name: Seq<char>,
    t: ExtensionType,
    existing: Seq<Seq<char>>,
) -> ExtensionConfigView {
    ExtensionConfigView {
        name: name,
        version: "latest"@,
        binary_path: bin_path_spec(home, name, os),
        extension_type: t,
        installed: existing.contains(bin_path_spec(home, name, os)),
    }
}

/// The registry after adding, in order, each of the first `n` built-in
/// extensions that it does not hold yet.
pub open spec fn add_builtins(
    m: Map<Seq<char>, ExtensionConfigView>,
    home: Seq<char>,
    os: Seq<char>,
    existing: Seq<Seq<char>>,
    n: nat,
) -> Map<Seq<char>, ExtensionConfigView>
    decreases n,
{
    if n == 0 {
        m
    } else {
        let prev = add_builtins(m, home, os, existing, (n - 1) as nat);
        let b = builtin_seq()[n - 1];
        if prev.contains_key(b.0) {
            prev
        } else {
            prev.insert(b.0, builtin_record(home, os, b.0, b.1, existing))
        }
    }
}

/// The registry after recording a pact-standalone install of `version`: the
/// `pact-legacy` entry for the unpacked directory, then the first `n` legacy
/// tools, each installed when its link exists.
pub open spec fn add_legacy(
    m: Map<Seq<char>, ExtensionConfigView>,
    home: Seq<char>,
    os: Seq<char>,
    version: Seq<char>,
    existing: Seq<Seq<char>>,
    n: nat,
) -> Map<Seq<char>, ExtensionConfigView>
    decreases n,
{
    if n == 0 {
        m.insert(
            "pact-legacy"@,
            ExtensionConfigView {
                name: "pact-legacy"@,
                version: version,
                binary_path: ruby_dir_spec(home),
                extension_type: ExtensionType::PactRubyStandalone,
                installed: existing.contains(ruby_dir_spec(home)),
            },
        )
    } else {
        let prev = add_legacy(m, home, os, version, existing, (n - 1) as nat);
        let target = legacy_seq()[n - 1].1;
        prev.insert(
            target,
            ExtensionConfigView {
                name: target,
                version: version,
                binary_path: bin_path_spec(home, target, os),
                extension_type: ExtensionType::PactRubyStandalone,
                installed: existing.contains(bin_path_spec(home, target, os)),
            },
        )
    }
}

/// Whether one of `paths` holds the same characters as `p`.
pub fn contains_path(paths: &Vec<String>, p: &String) -> (r: bool)
    ensures
        r == paths.deep_view().contains(p@),
{
    let n = paths.len();
    let mut i: usize = 0;
    while i < n
        invariant
            n == paths.len(),
            i <= n,
            forall|j: int| 0 <= j < i ==> paths.deep_view()[j] != p@,
        decreases n - i,
    {
        if paths[i] == *p {
            assert(paths.deep_view()[i as int] == p@);
            return true;
        }
        i = i + 1;
    }
    proof {
        if paths.deep_view().contains(p@) {
            let j = choose|j: int| 0 <= j < paths.deep_view().len() && paths.deep_view()[j] == p@;
            assert(paths.deep_view()[j] != p@);
        }
    }
    false
}

/// A process to start: the program, its arguments, and the error reported
/// when it does not succeed.
pub struct ProcessCall {
    pub program: String,
    pub args: Vec<String>,
    pub failure_message: String,
}

/// One legacy tool link: the pact-standalone command and the tool name it is
/// offered under, with both paths.
pub struct LegacyLink {
    pub source_name: String,
    pub target_name: String,
    pub source_path: String,
    pub target_path: String,
}

/// How `run_extension` starts an extension.
pub enum ExtensionLaunch {
    /// A registered, installed extension: run this executable.
    Registered(String),
    /// An unregistered name: try `pact-<name>` on the search path.
    External(String),
}

/// What uninstalling an extension does, in order: delete each listed legacy
/// tool file that exists, delete the listed directories, then save `config`.
pub struct UninstallPlan {
    /// Legacy tools (name, executable path) whose file is deleted if it exists.
    pub remove_files: Vec<(String, String)>,
    /// The pact-standalone directory, deleted if it exists.
    pub remove_dir_if_present: Option<String>,
    /// The drift directory, deleted (failing if it cannot be).
    pub remove_dir: Option<String>,
    /// The extension's executable, deleted if it exists.
    pub remove_binary: Option<String>,
    /// The registry to save.
    pub config: ExtensionRegistry,
}

/// The registry without any pact-standalone entry and without `pact-legacy`.
pub open spec fn drop_legacy(m: Map<Seq<char>, ExtensionConfigView>) -> Map<
    Seq<char>,
    ExtensionConfigView,
> {
    Map::new(
        |k: Seq<char>|
            m.contains_key(k) && m[k].extension_type != ExtensionType::PactRubyStandalone && k
                != "pact-legacy"@,
        |k: Seq<char>| m[k],
    )
}

/// The legacy tools of the registry, in entry order: the pact-standalone
/// entries other than `pact-legacy`, with their executable paths.
pub open spec fn legacy_tools(s: Seq<(Seq<char>, ExtensionConfigView)>) -> Seq<
    (Seq<char>, Seq<char>),
>
    decreases s.len(),
{
    if s.len() == 0 {
        seq![]
    } else {
        let prev = legacy_tools(s.drop_last());
        let e = s.last();
        if e.1.extension_type == ExtensionType::PactRubyStandalone && e.0 != "pact-legacy"@ {
            prev.push((e.0, e.1.binary_path))
        } else {
            prev
        }
    }
}

fn join2(a: &str, b: &str) -> (r: String)
    ensures
        r@ == a@ + b@,
{
    let mut r = String::from_str(a);
    r.append(b);
    r
}

fn join3(a: &str, b: &str, c: &str) -> (r: String)
    ensures
        r@ == a@ + b@ + c@,
{
    let mut r = join2(a, b);
    r.append(c);
    r
}

impl ExtensionManager {
    /// The manager for the given directories and platform. The extensions
    /// directory is `PACT_CLI_EXTENSIONS_HOME` when that is set (passed as
    /// `extensions_home_override`) and `~/.pact/extensions` otherwise; drift
    /// lives in `~/.drift`.
    pub fn new(
        extensions_home_override: Option<String>,
        default_extensions_home: String,
        drift_home: String,
        platform: PlatformInfo,
    ) -> (r: ExtensionManager)
        ensures
            r.extensions_home@ == match extensions_home_override {
                Some(h) => h@,
                None => default_extensions_home@,
            },
            r.drift_home@ == drift_home@,
            r.platform == platform,
    {
        let extensions_home = match extensions_home_override {
            Some(h) => h,
            None => default_extensions_home,
        };
        ExtensionManager { extensions_home, drift_home, platform }
    }

    /// `<extensions home>/config.json`.
    pub fn get_extension_config_path(&self) -> (r: String)
        ensures
            r@ == self.extensions_home@ + "/config.json"@,
    {
        join2(self.extensions_home.as_str(), "/config.json")
    }

    /// `<extensions home>/bin`.
    pub fn bin_dir(&self) -> (r: String)
        ensures
            r@ == self.extensions_home@ + "/bin"@,
    {
        join2(self.extensions_home.as_str(), "/bin")
    }

    /// Where the executable of extension `name` is kept.
    pub fn binary_path(&self, name: &str) -> (r: String)
        ensures
            r@ == bin_path_spec(self.extensions_home@, name@, self.platform.os@),
    {
        let mut r = join3(self.extensions_home.as_str(), "/bin/", name);
        r.append(self.platform.get_executable_extension());
        r
    }

    /// The executable paths of the built-in extensions, in order; whether each
    /// exists decides what `list_extensions` reports for it.
    pub fn builtin_binary_paths(&self) -> (r: Vec<String>)
        ensures
            r.len() == builtin_seq().len(),
            forall|i: int|
                0 <= i < r.len() ==> #[trigger] r[i]@ == bin_path_spec(
                    self.extensions_home@,
                    builtin_seq()[i].0,
                    self.platform.os@,
                ),
    {
        let names = builtin_names();
        let mut r: Vec<String> = Vec::new();
        let mut i: usize = 0;
        while i < names.len()
            invariant
                names@.len() == builtin_seq().len(),
                forall|j: int| 0 <= j < names@.len() ==> #[trigger] names@[j].0@ == builtin_seq()[j].0,
                i <= names.len(),
                r.len() == i,
                forall|j: int|
                    0 <= j < i ==> #[trigger] r[j]@ == bin_path_spec(
                        self.extensions_home@,
                        builtin_seq()[j].0,
                        self.platform.os@,
                    ),
            decreases names.len() - i,
        {
            r.push(self.binary_path(names[i].0));
            i = i + 1;
        }
        r
    }

    /// The registry as `pact extension list` shows it: every loaded entry, plus
    /// each built-in extension the registry lacks, with version `latest` and
    /// marked installed when its executable is among `existing_paths` (the
    /// paths that exist on disk).
    pub fn list_extensions(&self, config: ExtensionRegistry, existing_paths: &Vec<String>) -> (r:
        ExtensionRegistry)
        requires
            config.wf(),
        ensures
            r.wf(),
            r@ == add_builtins(
                config@,
                self.extensions_home@,
                self.platform.os@,
                existing_paths.deep_view(),
                builtin_seq().len(),
            ),
    {
        let names = builtin_names();
        let mut config = config;
        let ghost m0 = config@;
        let mut i: usize = 0;
        while i < names.len()
            invariant
                names@.len() == builtin_seq().len(),
                forall|j: int| 0 <= j < names@.len() ==> #[trigger] names@[j].0@ == builtin_seq()[j].0,
                forall|j: int| 0 <= j < names@.len() ==> #[trigger] names@[j].1 == builtin_seq()[j].1,
                i <= names.len(),
                config.wf(),
                config@ == add_builtins(
                    m0,
                    self.extensions_home@,
                    self.platform.os@,
                    existing_paths.deep_view(),
                    i as nat,
                ),
            decreases names.len() - i,
        {
            let (name, ext_type) = names[i];
            assert(name@ == builtin_seq()[i as int].0);
            if !config.contains_key(name) {
                let binary_path = self.binary_path(name);
                let installed = contains_path(existing_paths, &binary_path);
                config.insert(
                    String::from_str(name),
                    ExtensionConfig {
                        name: String::from_str(name),
                        version: String::from_str("latest"),
                        binary_path,
                        extension_type: ext_type,
                        installed,
                    },
                );
            }
            i = i + 1;
        }
        config
    }

    /// The check an install makes before anything else: `Ok` on a supported
    /// platform, otherwise the refusal naming the platform.
    pub fn install_precheck(&self) -> (r: Result<(), String>)
        ensures
            r is Ok <==> self.platform.supported(),
            r matches Err(m) ==> m@ == "Unsupported platform: "@ + self.platform.os@ + "-"@
                + self.platform.arch@,
    {
        if self.platform.is_supported() {
            Ok(())
        } else {
            Err(self.unsupported_platform_message())
        }
    }

    /// The outcome of downloading `tool`, from the HTTP status of the reply:
    /// `Ok` for a success status (200 to 299), otherwise the refusal with the
    /// status as it displays (`404 Not Found`).
    pub fn download_outcome(tool: &str, status_code: u16, status_text: &str) -> (r: Result<
        (),
        String,
    >)
        ensures
            r is Ok <==> 200 <= status_code < 300,
            r matches Err(m) ==> m@ == "Failed to download "@ + tool@ + ": HTTP "@
                + status_text@,
    {
        if 200 <= status_code && status_code < 300 {
            Ok(())
        } else {
            let mut m = join3("Failed to download ", tool, ": HTTP ");
            m.append(status_text);
            Err(m)
        }
    }

    /// The message for installing on a platform without published builds.
    pub fn unsupported_platform_message(&self) -> (r: String)
        ensures
            r@ == "Unsupported platform: "@ + self.platform.os@ + "-"@ + self.platform.arch@,
    {
        let mut r = join3("Unsupported platform: ", self.platform.os.as_str(), "-");
        r.append(self.platform.arch.as_str());
        r
    }

    /// The PactFlow AI download location for `version`, with `+` written as
    /// `%2b`.
    pub fn pactflow_ai_install_url(&self, version: &str) -> (r: String)
        requires
            self.platform.supported(),
        ensures
            r@ == pactflow_ai_download_url_spec(
                self.platform.os@,
                self.platform.arch@,
                escape_plus(version@),
            ),
    {
        let encoded = replace_plus(version);
        self.platform.get_pactflow_ai_download_url(encoded.as_str())
    }

    /// Records an installed PactFlow AI `version`, whose executable is kept
    /// with the other extensions.
    pub fn register_pactflow_ai(&self, config: &mut ExtensionRegistry, version: &str)
        requires
            old(config).wf(),
        ensures
            final(config).wf(),
            final(config)@ == old(config)@.insert(
                "pactflow-ai"@,
                installed_record(
                    "pactflow-ai"@,
                    version@,
                    bin_path_spec(self.extensions_home@, "pactflow-ai"@, self.platform.os@),
                    ExtensionType::PactflowAi,
                ),
            ),
    {
        config.insert(
            String::from_str("pactflow-ai"),
            ExtensionConfig {
                name: String::from_str("pactflow-ai"),
                version: String::from_str(version),
                binary_path: self.binary_path("pactflow-ai"),
                extension_type: ExtensionType::PactflowAi,
                installed: true,
            },
        );
    }

    /// The drift download location for `version`.
    pub fn drift_install_url(&self, version: &str) -> (r: String)
        requires
            self.platform.supported(),
        ensures
            r@ == drift_download_url_spec(self.platform.os@, self.platform.arch@, version@),
    {
        self.platform.get_drift_download_url(version)
    }

    /// `<drift home>/drift.tar.gz`, where the drift download is saved.
    pub fn drift_archive_path(&self) -> (r: String)
        ensures
            r@ == self.drift_home@ + "/drift.tar.gz"@,
    {
        join2(self.drift_home.as_str(), "/drift.tar.gz")
    }

    /// `tar -xzf <archive> -C <dir>`: unpacks the drift download.
    pub fn drift_extract_command(archive_path: &str, extract_dir: &str) -> (r: ProcessCall)
        ensures
            r.program@ == "tar"@,
            r.args.deep_view() == seq!["-xzf"@, archive_path@, "-C"@, extract_dir@],
            r.failure_message@ == "Failed to extract tar archive"@,
    {
        let mut args: Vec<String> = Vec::new();
        args.push(String::from_str("-xzf"));
        args.push(String::from_str(archive_path));
        args.push(String::from_str("-C"));
        args.push(String::from_str(extract_dir));
        assert(args.deep_view() =~= seq!["-xzf"@, archive_path@, "-C"@, extract_dir@]);
        ProcessCall {
            program: String::from_str("tar"),
            args,
            failure_message: String::from_str("Failed to extract tar archive"),
        }
    }

    /// Records an installed drift `version`; its executable is
    /// `<drift home>/drift`.
    pub fn register_drift(&self, config: &mut ExtensionRegistry, version: &str)
        requires
            old(config).wf(),
        ensures
            final(config).wf(),
            final(config)@ == old(config)@.insert(
                "drift"@,
                installed_record(
                    "drift"@,
                    version@,
                    self.drift_home@ + "/drift"@,
                    ExtensionType::Drift,
                ),
            ),
    {
        config.insert(
            String::from_str("drift"),
            ExtensionConfig {
                name: String::from_str("drift"),
                version: String::from_str(version),
                binary_path: join2(self.drift_home.as_str(), "/drift"),
                extension_type: ExtensionType::Drift,
                installed: true,
            },
        );
    }

    /// `<drift home>/drift<exe suffix>`, the executable asked for its version.
    pub fn drift_executable_path(&self) -> (r: String)
        ensures
            r@ == self.drift_home@ + "/drift"@ + exe_suffix(self.platform.os@),
    {
        join3(
            self.drift_home.as_str(),
            "/drift",
            self.platform.get_executable_extension(),
        )
    }

    /// `<extensions home>/pact-legacy`.
    pub fn ruby_dir(&self) -> (r: String)
        ensures
            r@ == ruby_dir_spec(self.extensions_home@),
    {
        join2(self.extensions_home.as_str(), "/pact-legacy")
    }

    /// The pact-standalone release asset for `version` (a tag such as `v2.5.5`;
    /// the file name repeats it without its leading `v`s).
    pub fn ruby_legacy_url(&self, version: &str) -> (r: String)
        requires
            self.platform.supported(),
        ensures
            r@ == "https://github.com/pact-foundation/pact-standalone/releases/download/"@
                + version@ + "/pact-"@ + strip_leading(version@, 'v') + "-"@ + ruby_target(
                self.platform.os@,
                self.platform.arch@,
            ) + "."@ + archive_suffix(self.platform.os@),
    {
        let mut r = join3(
            "https://github.com/pact-foundation/pact-standalone/releases/download/",
            version,
            "/pact-",
        );
        let bare = trim_start_char(version, 'v');
        r.append(bare.as_str());
        r.append("-");
        r.append(self.platform.get_ruby_standalone_target().as_str());
        r.append(".");
        r.append(self.platform.get_archive_extension());
        r
    }

    /// `<extensions home>/pact-legacy.<archive suffix>`, where the
    /// pact-standalone download is saved.
    pub fn ruby_archive_path(&self) -> (r: String)
        ensures
            r@ == self.extensions_home@ + "/pact-legacy."@ + archive_suffix(self.platform.os@),
    {
        join3(
            self.extensions_home.as_str(),
            "/pact-legacy.",
            self.platform.get_archive_extension(),
        )
    }

    /// The command that unpacks the pact-standalone download into
    /// `<extensions home>/pact-legacy`: PowerShell's `Expand-Archive` on
    /// Windows, `tar` dropping the top directory elsewhere.
    pub fn ruby_extract_command(&self, archive_path: &str) -> (r: ProcessCall)
        ensures
            self.platform.os@ == "windows"@ ==> r.program@ == "powershell"@
                && r.args.deep_view() == seq![
                "-Command"@,
                "Expand-Archive -Path '"@ + archive_path@ + "' -DestinationPath '"@
                    + ruby_dir_spec(self.extensions_home@) + "' -Force"@,
            ] && r.failure_message@ == "Failed to extract Windows archive"@,
            self.platform.os@ != "windows"@ ==> r.program@ == "tar"@ && r.args.deep_view()
                == seq![
                "-xzf"@,
                archive_path@,
                "-C"@,
                ruby_dir_spec(self.extensions_home@),
                "--strip-components=1"@,
            ] && r.failure_message@ == "Failed to extract tar archive"@,
    {
        let extract_dir = self.ruby_dir();
        let mut args: Vec<String> = Vec::new();
        if str_eq(self.platform.os.as_str(), "windows") {
            args.push(String::from_str("-Command"));
            let mut script = join3("Expand-Archive -Path '", archive_path, "' -DestinationPath '");
            script.append(extract_dir.as_str());
            script.append("' -Force");
            args.push(script);
            assert(args.deep_view() =~= seq![
                "-Command"@,
                "Expand-Archive -Path '"@ + archive_path@ + "' -DestinationPath '"@
                    + ruby_dir_spec(self.extensions_home@) + "' -Force"@,
            ]);
            ProcessCall {
                program: String::from_str("powershell"),
                args,
                failure_message: String::from_str("Failed to extract Windows archive"),
            }
        } else {
            args.push(String::from_str("-xzf"));
            args.push(String::from_str(archive_path));
            args.push(String::from_str("-C"));
            args.push(extract_dir);
            args.push(String::from_str("--strip-components=1"));
            assert(args.deep_view() =~= seq![
                "-xzf"@,
                archive_path@,
                "-C"@,
                ruby_dir_spec(self.extensions_home@),
                "--strip-components=1"@,
            ]);
            ProcessCall {
                program: String::from_str("tar"),
                args,
                failure_message: String::from_str("Failed to extract tar archive"),
            }
        }
    }

    /// The links that offer the pact-standalone commands as legacy tools, in
    /// order: `<home>/bin/<tool>` points at `<home>/pact-legacy/bin/<command>`.
    pub fn legacy_links(&self) -> (r: Vec<LegacyLink>)
        ensures
            r.len() == legacy_seq().len(),
            forall|i: int|
                0 <= i < r.len() ==> {
                    &&& (#[trigger] r[i]).source_name@ == legacy_seq()[i].0
                    &&& r[i].target_name@ == legacy_seq()[i].1
                    &&& r[i].source_path@ == ruby_command_path_spec(
                        self.extensions_home@,
                        legacy_seq()[i].0,
                        self.platform.os@,
                    )
                    &&& r[i].target_path@ == bin_path_spec(
                        self.extensions_home@,
                        legacy_seq()[i].1,
                        self.platform.os@,
                    )
                },
    {
        let mappings = legacy_names();
        let exe = self.platform.get_executable_extension();
        let mut r: Vec<LegacyLink> = Vec::new();
        let mut i: usize = 0;
        while i < mappings.len()
            invariant
                mappings@.len() == legacy_seq().len(),
                forall|j: int|
                    0 <= j < mappings@.len() ==> (#[trigger] mappings@[j]).0@ == legacy_seq()[j].0
                        && mappings@[j].1@ == legacy_seq()[j].1,
                exe@ == exe_suffix(self.platform.os@),
                i <= mappings.len(),
                r.len() == i,
                forall|j: int|
                    0 <= j < i ==> {
                        &&& (#[trigger] r[j]).source_name@ == legacy_seq()[j].0
                        &&& r[j].target_name@ == legacy_seq()[j].1
                        &&& r[j].source_path@ == ruby_command_path_spec(
                            self.extensions_home@,
                            legacy_seq()[j].0,
                            self.platform.os@,
                        )
                        &&& r[j].target_path@ == bin_path_spec(
                            self.extensions_home@,
                            legacy_seq()[j].1,
                            self.platform.os@,
                        )
                    },
            decreases mappings.len() - i,
        {
            let (source, target) = mappings[i];
            let mut source_path = join3(self.extensions_home.as_str(), "/pact-legacy/bin/", source);
            source_path.append(exe);
            r.push(
                LegacyLink {
                    source_name: String::from_str(source),
                    target_name: String::from_str(target),
                    source_path,
                    target_path: self.binary_path(target),
                },
            );
            i = i + 1;
        }
        r
    }

    /// Records a pact-standalone install of `version`: the `pact-legacy` entry
    /// for the unpacked directory and one entry per legacy tool, each marked
    /// installed when its path is among `existing_paths`.
    pub fn register_ruby_legacy(
        &self,
        config: &mut ExtensionRegistry,
        version: &str,
        existing_paths: &Vec<String>,
    )
        requires
            old(config).wf(),
        ensures
            final(config).wf(),
            final(config)@ == add_legacy(
                old(config)@,
                self.extensions_home@,
                self.platform.os@,
                version@,
                existing_paths.deep_view(),
                legacy_seq().len(),
            ),
    {
        let ruby_dir = self.ruby_dir();
        let ruby_installed = contains_path(existing_paths, &ruby_dir);
        config.insert(
            String::from_str("pact-legacy"),
            ExtensionConfig {
                name: String::from_str("pact-legacy"),
                version: String::from_str(version),
                binary_path: ruby_dir,
                extension_type: ExtensionType::PactRubyStandalone,
                installed: ruby_installed,
            },
        );
        let mappings = legacy_names();
        let mut i: usize = 0;
        while i < mappings.len()
            invariant
                mappings@.len() == legacy_seq().len(),
                forall|j: int|
                    0 <= j < mappings@.len() ==> (#[trigger] mappings@[j]).0@ == legacy_seq()[j].0
                        && mappings@[j].1@ == legacy_seq()[j].1,
                i <= mappings.len(),
                config.wf(),
                config@ == add_legacy(
                    old(config)@,
                    self.extensions_home@,
                    self.platform.os@,
                    version@,
                    existing_paths.deep_view(),
                    i as nat,
                ),
            decreases mappings.len() - i,
        {
            let target = mappings[i].1;
            let binary_path = self.binary_path(target);
            let installed = contains_path(existing_paths, &binary_path);
            config.insert(
                String::from_str(target),
                ExtensionConfig {
                    name: String::from_str(target),
                    version: String::from_str(version),
                    binary_path,
                    extension_type: ExtensionType::PactRubyStandalone,
                    installed,
                },
            );
            i = i + 1;
        }
    }

    /// How `run_extension` starts `name`: a registered extension must be
    /// installed and runs its recorded executable (drift always runs
    /// `<drift home>/drift<exe suffix>`); an unregistered name runs
    /// `pact-<name>`.
    pub fn resolve_extension(&self, config: &ExtensionRegistry, name: &str) -> (r: Result<
        ExtensionLaunch,
        String,
    >)
        requires
            config.wf(),
        ensures
            config@.contains_key(name@) && !config@[name@].installed <==> r is Err,
            r matches Err(msg) ==> msg@ == "Extension '"@ + name@
                + "' is not installed. Run 'pact extension install "@ + name@ + "' first."@,
            r matches Ok(ExtensionLaunch::Registered(p)) ==> config@.contains_key(name@) && p@ == if name@
                == "drift"@ {
                self.drift_home@ + "/drift"@ + exe_suffix(self.platform.os@)
            } else {
                config@[name@].binary_path
            },
            r matches Ok(ExtensionLaunch::External(b)) ==> !config@.contains_key(name@) && b@
                == "pact-"@ + name@,
    {
        match config.get(name) {
            Some(ext_config) => {
                if !ext_config.installed {
                    let mut msg = join3("Extension '", name, "' is not installed. Run 'pact extension install ");
                    msg.append(name);
                    msg.append("' first.");
                    return Err(msg);
                }
                if str_eq(name, "drift") {
                    Ok(ExtensionLaunch::Registered(self.drift_executable_path()))
                } else {
                    Ok(ExtensionLaunch::Registered(ext_config.binary_path.clone()))
                }
            },
            None => Ok(ExtensionLaunch::External(join2("pact-", name))),
        }
    }

    /// The error when an unregistered extension has no `pact-<name>` program
    /// to run.
    pub fn extension_not_found_message(name: &str) -> (r: String)
        ensures
            r@ == "Extension '"@ + name@
                + "' not found. Available extensions can be listed with 'pact extension list'."@,
    {
        join3(
            "Extension '",
            name,
            "' not found. Available extensions can be listed with 'pact extension list'.",
        )
    }

    /// What uninstalling `name` does. `pact-legacy` removes every
    /// pact-standalone entry with it and deletes the unpacked directory; drift
    /// deletes its directory; any other registered name deletes its recorded
    /// executable. Each leaves the registry. An unregistered name other than
    /// `pact-legacy` is refused.
    pub fn plan_uninstall(&self, config: ExtensionRegistry, name: &str) -> (r: Result<
        UninstallPlan,
        String,
    >)
        requires
            config.wf(),
        ensures
            r is Err <==> (name@ != "pact-legacy"@ && !config@.contains_key(name@)),
            r matches Err(msg) ==> msg@ == "Extension '"@ + name@ + "' is not installed."@,
            r matches Ok(p) ==> p.config.wf(),
            r matches Ok(p) ==> name@ == "pact-legacy"@ ==> {
                &&& p.config@ == drop_legacy(config@)
                &&& p.remove_files.deep_view() == legacy_tools(config.entry_seq())
                &&& p.remove_dir_if_present matches Some(d) && d@ == ruby_dir_spec(
                    self.extensions_home@,
                )
                &&& p.remove_dir is None
                &&& p.remove_binary is None
            },
            r matches Ok(p) ==> name@ != "pact-legacy"@ ==> {
                &&& p.config@ == config@.remove(name@)
                &&& p.remove_files.len() == 0
                &&& p.remove_dir_if_present is None
                &&& if name@ == "drift"@ {
                    &&& p.remove_dir matches Some(d) && d@ == self.drift_home@
                    &&& p.remove_binary is None
                } else {
                    &&& p.remove_dir is None
                    &&& p.remove_binary matches Some(b) && b@ == config@[name@].binary_path
                }
            },
    {
        let mut config = config;
        if str_eq(name, "pact-legacy") {
            let tools = collect_legacy_tools(&config);
            let ghost m0 = config@;
            let ghost s0 = config.entry_seq();
            let mut i: usize = 0;
            while i < tools.len()
                invariant
                    config.wf(),
                    i <= tools.len(),
                    config@ == remove_keys(m0, tools.deep_view(), i as nat),
                decreases tools.len() - i,
            {
                config.remove(tools[i].0.as_str());
                i = i + 1;
            }
            config.remove("pact-legacy");
            proof {
                lemma_remove_legacy(s0);
            }
            Ok(
                UninstallPlan {
                    remove_files: tools,
                    remove_dir_if_present: Some(self.ruby_dir()),
                    remove_dir: None,
                    remove_binary: None,
                    config,
                },
            )
        } else if config.contains_key(name) {
            let (remove_dir, remove_binary) = if str_eq(name, "drift") {
                (Some(self.drift_home.clone()), None)
            } else {
                let binary = match config.get(name) {
                    Some(c) => c.binary_path.clone(),
                    None => String::new(),
                };
                (None, Some(binary))
            };
            config.remove(name);
            Ok(
                UninstallPlan {
                    remove_files: Vec::new(),
                    remove_dir_if_present: None,
                    remove_dir,
                    remove_binary,
                    config,
                },
            )
        } else {
            Err(join3("Extension '", name, "' is not installed."))
        }
    }
}

/// The built-in extension names and kinds, in order.
pub fn builtin_names() -> (r: Vec<(&'static str, ExtensionType)>)
    ensures
        r@.len() == builtin_seq().len(),
        forall|j: int| 0 <= j < r@.len() ==> #[trigger] r@[j].0@ == builtin_seq()[j].0,
        forall|j: int| 0 <= j < r@.len() ==> #[trigger] r@[j].1 == builtin_seq()[j].1,
{
    vec![
        ("drift", ExtensionType::Drift),
        ("pactflow-ai", ExtensionType::PactflowAi),
        ("pact-broker-legacy", ExtensionType::PactRubyStandalone),
        ("pactflow-legacy", ExtensionType::PactRubyStandalone),
        ("message-legacy", ExtensionType::PactRubyStandalone),
        ("mock-legacy", ExtensionType::PactRubyStandalone),
        ("verifier-legacy", ExtensionType::PactRubyStandalone),
        ("stub-legacy", ExtensionType::PactRubyStandalone),
    ]
}

/// The pact-standalone commands and their legacy tool names, in order.
pub fn legacy_names() -> (r: Vec<(&'static str, &'static str)>)
    ensures
        r@.len() == legacy_seq().len(),
        forall|j: int|
            0 <= j < r@.len() ==> (#[trigger] r@[j]).0@ == legacy_seq()[j].0 && r@[j].1@
                == legacy_seq()[j].1,
{
    vec![
        ("pact-broker", "pact-broker-legacy"),
        ("pactflow", "pactflow-legacy"),
        ("pact-message", "message-legacy"),
        ("pact-mock-service", "mock-legacy"),
        ("pact-provider-verifier", "verifier-legacy"),
        ("pact-stub-service", "stub-legacy"),
    ]
}

/// The registry after removing the keys of the first `n` of `ks`.
pub open spec fn remove_keys(
    m: Map<Seq<char>, ExtensionConfigView>,
    ks: Seq<(Seq<char>, Seq<char>)>,
    n: nat,
) -> Map<Seq<char>, ExtensionConfigView>
    decreases n,
{
    if n == 0 {
        m
    } else {
        remove_keys(m, ks, (n - 1) as nat).remove(ks[n - 1].0)
    }
}

proof fn lemma_remove_keys(
    m: Map<Seq<char>, ExtensionConfigView>,
    ks: Seq<(Seq<char>, Seq<char>)>,
    n: nat,
)
    requires
        n <= ks.len(),
    ensures
        forall|k: Seq<char>| #[trigger]
            remove_keys(m, ks, n).contains_key(k) <==> (m.contains_key(k) && forall|j: int|
                0 <= j < n ==> ks[j].0 != k),
        forall|k: Seq<char>| #[trigger]
            remove_keys(m, ks, n).contains_key(k) ==> remove_keys(m, ks, n)[k] == m[k],
    decreases n,
{
    if n > 0 {
        lemma_remove_keys(m, ks, (n - 1) as nat);
        let prev = remove_keys(m, ks, (n - 1) as nat);
        assert(remove_keys(m, ks, n) == prev.remove(ks[n - 1].0));
        assert forall|k: Seq<char>| #[trigger]
            remove_keys(m, ks, n).contains_key(k) <==> (m.contains_key(k) && forall|j: int|
                0 <= j < n ==> ks[j].0 != k) by {
            if m.contains_key(k) && forall|j: int| 0 <= j < n ==> ks[j].0 != k {
                assert(forall|j: int| 0 <= j < n - 1 ==> ks[j].0 != k);
                assert(prev.contains_key(k));
                assert(ks[n - 1].0 != k);
            }
            if remove_keys(m, ks, n).contains_key(k) {
                assert(prev.contains_key(k));
                assert(k != ks[n - 1].0);
                assert forall|j: int| 0 <= j < n implies ks[j].0 != k by {
                    if j < n - 1 {
                    } else {
                        assert(j == n - 1);
                    }
                }
            }
        }
    }
}

/// `t` names a pact-standalone entry of `s` other than `pact-legacy`, with its
/// executable path.
pub open spec fn legacy_entry_of(
    s: Seq<(Seq<char>, ExtensionConfigView)>,
    t: (Seq<char>, Seq<char>),
) -> bool {
    exists|i: int|
        0 <= i < s.len() && s[i].0 == t.0 && s[i].1.extension_type
            == ExtensionType::PactRubyStandalone && s[i].0 != "pact-legacy"@ && s[i].1.binary_path
            == t.1
}

/// Membership in `legacy_tools`: exactly the pact-standalone entries other
/// than `pact-legacy`, with their executable paths.
proof fn lemma_legacy_tools(s: Seq<(Seq<char>, ExtensionConfigView)>)
    ensures
        forall|j: int|
            0 <= j < legacy_tools(s).len() ==> legacy_entry_of(s, #[trigger] legacy_tools(s)[j]),
        forall|i: int|
            0 <= i < s.len() && (#[trigger] s[i]).1.extension_type
                == ExtensionType::PactRubyStandalone && s[i].0 != "pact-legacy"@ ==> exists|j: int|
                0 <= j < legacy_tools(s).len() && legacy_tools(s)[j].0 == s[i].0,
    decreases s.len(),
{
    if s.len() > 0 {
        let p = s.drop_last();
        lemma_legacy_tools(p);
        let lp = legacy_tools(p);
        let ls = legacy_tools(s);
        assert forall|j: int| 0 <= j < ls.len() implies legacy_entry_of(s, #[trigger] ls[j]) by {
            if j < lp.len() {
                assert(ls[j] == lp[j]);
                assert(legacy_entry_of(p, lp[j]));
                let i = choose|i: int|
                    0 <= i < p.len() && p[i].0 == lp[j].0 && p[i].1.extension_type
                        == ExtensionType::PactRubyStandalone && p[i].0 != "pact-legacy"@
                        && p[i].1.binary_path == lp[j].1;
                assert(s[i] == p[i]);
            } else {
                let e = s.last();
                assert(e.1.extension_type == ExtensionType::PactRubyStandalone && e.0 != "pact-legacy"@);
                assert(ls == lp.push((e.0, e.1.binary_path)));
                assert(ls[j] == (e.0, e.1.binary_path));
                assert(s[s.len() - 1] == e);
            }
        }
        assert forall|i: int|
            0 <= i < s.len() && (#[trigger] s[i]).1.extension_type
                == ExtensionType::PactRubyStandalone && s[i].0 != "pact-legacy"@ implies exists|j: int|
            0 <= j < ls.len() && ls[j].0 == s[i].0 by {
            if i < s.len() - 1 {
                assert(s[i] == p[i]);
                let j = choose|j: int| 0 <= j < lp.len() && lp[j].0 == p[i].0;
                assert(ls[j] == lp[j]);
            } else {
                assert(ls[ls.len() - 1].0 == s[i].0);
            }
        }
    }
}

/// Removing the legacy tools and then `pact-legacy` leaves `drop_legacy`.
proof fn lemma_remove_legacy(s: Seq<(Seq<char>, ExtensionConfigView)>)
    requires
        keys_distinct(s),
    ensures
        remove_keys(entries_map(s), legacy_tools(s), legacy_tools(s).len()).remove("pact-legacy"@)
            == drop_legacy(entries_map(s)),
{
    let m = entries_map(s);
    let ts = legacy_tools(s);
    lemma_entries_map(s);
    lemma_legacy_tools(s);
    lemma_remove_keys(m, ts, ts.len());
    let a = remove_keys(m, ts, ts.len()).remove("pact-legacy"@);
    let b = drop_legacy(m);
    assert forall|k: Seq<char>| #[trigger] a.contains_key(k) <==> b.contains_key(k) by {
        if a.contains_key(k) {
            assert(m.contains_key(k));
            let i = choose|i: int| 0 <= i < s.len() && s[i].0 == k;
            assert(m[s[i].0] == s[i].1);
            if m[k].extension_type == ExtensionType::PactRubyStandalone {
                assert(s[i].1.extension_type == ExtensionType::PactRubyStandalone);
                let j = choose|j: int| 0 <= j < ts.len() && ts[j].0 == s[i].0;
                assert(false);
            }
        }
        if b.contains_key(k) {
            assert forall|j: int| 0 <= j < ts.len() implies ts[j].0 != k by {
                assert(legacy_entry_of(s, ts[j]));
                let i = choose|i: int|
                    0 <= i < s.len() && s[i].0 == ts[j].0 && s[i].1.extension_type
                        == ExtensionType::PactRubyStandalone && s[i].0 != "pact-legacy"@
                        && s[i].1.binary_path == ts[j].1;
                assert(m[s[i].0] == s[i].1);
            }
        }
    }
    assert(a =~= b);
}

/// The legacy tools of the registry, in entry order.
fn collect_legacy_tools(config: &ExtensionRegistry) -> (r: Vec<(String, String)>)
    ensures
        r.deep_view() == legacy_tools(config.entry_seq()),
{
    let n = config.len();
    let mut r: Vec<(String, String)> = Vec::new();
    let mut i: usize = 0;
    assert(config.entry_seq().take(0) =~= seq![]);
    while i < n
        invariant
            n == config.entry_seq().len(),
            i <= n,
            r.deep_view() == legacy_tools(config.entry_seq().take(i as int)),
        decreases n - i,
    {
        let key = config.key_at(i);
        let c = config.config_at(i);
        let ghost s = config.entry_seq().take(i + 1);
        assert(s.drop_last() =~= config.entry_seq().take(i as int));
        assert(s.last() == config.entry_seq()[i as int]);
        if c.extension_type == ExtensionType::PactRubyStandalone && !str_eq(key.as_str(), "pact-legacy") {
            let ghost before = r.deep_view();
            r.push((key.clone(), c.binary_path.clone()));
            assert(r.deep_view() =~= before.push((key@, c.binary_path@)));
        }
        i = i + 1;
    }
    assert(config.entry_seq().take(n as int) =~= config.entry_seq());
    r
}

} // verus!
