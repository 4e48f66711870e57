//! The decisions of `pact extension <subcommand>`: what to install, update or
//! uninstall, the rows of the listing, version texts, and how extension
//! commands are passed through.
use vstd::prelude::*;

use crate::config::{
    lemma_entries_map, ExtensionConfig, ExtensionConfigView, ExtensionRegistry, ExtensionType,
};
use crate::text::{
    has_prefix, split_whitespace, str_eq, strip_leading, strip_prefix, strip_trailing,
    trim_end_char, trim_start_char, words,
};

verus! {

/// The parsed `pact extension` command line, as the logic reads it.
pub enum ExtensionCommand {
    /// `list [--installed]`
    List { installed_only: bool },
    /// `install [<extension>] [--all] [--version <v>]`
    Install { extension: Option<String>, version: Option<String>, all: bool },
    /// `update [<extension>] [--all]`
    Update { extension: Option<String>, all: bool },
    /// `uninstall [<extension>] [--all]`
    Uninstall { extension: Option<String>, all: bool },
    /// Any other word: the command line is passed to an extension.
    External,
    /// No subcommand.
    Missing,
}

/// The installers the tool has.
#[derive(Clone, Copy, Debug, PartialEq, Eq, Structural)]
pub enum InstallTarget {
    PactflowAi,
    RubyLegacy,
    Drift,
}

/// A refused command: an optional notice printed first, then the error.
pub struct Refusal {
    pub notice: Option<String>,
    pub message: String,
}

/// One step of `pact extension update`: the extension, and the installer to
/// rerun (none for external extensions, which are reported and skipped).
pub struct UpdateStep {
    pub name: String,
    pub target: Option<InstallTarget>,
}

/// Where the "Installed" column of the listing comes from.
pub enum VersionSource {
    /// Not installed: `-`.
    NotInstalled,
    /// The version the registry records.
    Recorded(String),
    /// Ask the PactFlow AI executable for its version.
    PactflowAiProbe,
    /// Ask the drift executable for its version.
    DriftProbe,
}

/// The latest published versions, `unknown` where they could not be fetched.
pub struct LatestVersions {
    pub ruby: String,
    pub pactflow_ai: String,
    pub drift: String,
}

/// The installer that updates an extension of kind `t`.
pub open spec fn target_of(t: ExtensionType) -> Option<InstallTarget> {
    match t {
        ExtensionType::PactflowAi => Some(InstallTarget::PactflowAi),
        ExtensionType::Drift => Some(InstallTarget::Drift),
        ExtensionType::PactRubyStandalone => Some(InstallTarget::RubyLegacy),
        ExtensionType::External => None,
    }
}

/// `text` or, when absent, `unknown`.
pub open spec fn or_unknown(text: Option<Seq<char>>) -> Seq<char> {
    match text {
        Some(t) => t,
        None => "unknown"@,
    }
}

/// The steps of `update --all`: every installed entry, in entry order.
pub open spec fn update_all_steps(s: Seq<(Seq<char>, ExtensionConfigView)>) -> Seq<
    (Seq<char>, Option<InstallTarget>),
>
    decreases s.len(),
{
    if s.len() == 0 {
        seq![]
    } else {
        let prev = update_all_steps(s.drop_last());
        if s.last().1.installed {
            prev.push((s.last().0, target_of(s.last().1.extension_type)))
        } else {
            prev
        }
    }
}

/// What `uninstall --all` removes: the installed entries, of the
/// pact-standalone ones only `pact-legacy` (which takes the others with it).
pub open spec fn uninstall_all_names(s: Seq<(Seq<char>, ExtensionConfigView)>) -> Seq<Seq<char>>
    decreases s.len(),
{
    if s.len() == 0 {
        seq![]
    } else {
        let prev = uninstall_all_names(s.drop_last());
        let e = s.last();
        if e.1.installed && (e.1.extension_type != ExtensionType::PactRubyStandalone || e.0
            == "pact-legacy"@) {
            prev.push(e.0)
        } else {
            prev
        }
    }
}

/// The entries the listing shows: all, or only the installed ones.
pub open spec fn listed(s: Seq<(Seq<char>, ExtensionConfigView)>, installed_only: bool) -> Seq<
    (Seq<char>, ExtensionConfigView),
>
    decreases s.len(),
{
    if s.len() == 0 {
        seq![]
    } else {
        let prev = listed(s.drop_last(), installed_only);
        if installed_only && !s.last().1.installed {
            prev
        } else {
            prev.push(s.last())
        }
    }
}

/// The PactFlow extension commands: for each installed entry whose name
/// starts with `pactflow-`, the rest of its name.
pub open spec fn pactflow_names(s: Seq<(Seq<char>, ExtensionConfigView)>) -> Seq<Seq<char>>
    decreases s.len(),
{
    if s.len() == 0 {
        seq![]
    } else {
        let prev = pactflow_names(s.drop_last());
        let e = s.last();
        if e.1.installed && has_prefix(e.0, "pactflow-"@) {
            prev.push(e.0.subrange("pactflow-"@.len() as int, e.0.len() as int))
        } else {
            prev
        }
    }
}

/// The arguments after the first `extension`, if one occurs.
pub open spec fn after_extension_word(s: Seq<Seq<char>>) -> Option<Seq<Seq<char>>>
    decreases s.len(),
{
    if s.len() == 0 {
        None
    } else if s[0] == "extension"@ {
        Some(s.drop_first())
    } else {
        after_extension_word(s.drop_first())
    }
}

/// What an extension command line passes on: the arguments after the first
/// `extension`, or all of them when there is none.
pub open spec fn passthrough_args(s: Seq<Seq<char>>) -> Seq<Seq<char>> {
    match after_extension_word(s) {
        Some(t) => t,
        None => s,
    }
}

/// The label of the "Type" column.
pub open spec fn type_label_spec(t: ExtensionType) -> Seq<char> {
    match t {
        ExtensionType::Drift => "Drift"@,
        ExtensionType::PactflowAi => "PactFlow AI"@,
        ExtensionType::PactRubyStandalone => "Ruby Legacy"@,
        ExtensionType::External => "External"@,
    }
}

/// The "Latest" column: the latest published version for the extension's kind.
pub open spec fn latest_for(t: ExtensionType, ruby: Seq<char>, ai: Seq<char>, drift: Seq<char>) -> Seq<char> {
    match t {
        ExtensionType::PactRubyStandalone => ruby,
        ExtensionType::PactflowAi => ai,
        ExtensionType::Drift => drift,
        ExtensionType::External => "-"@,
    }
}

/// The version PactFlow AI reports in `pactflow-ai 2.0.10 (ae6a94e1 2026-03-03)`:
/// the second word, joined by `+` to the third without its parentheses.
pub open spec fn pactflow_ai_version_spec(output: Seq<char>) -> Seq<char> {
    let w = words(output);
    if w.len() > 2 {
        w[1] + "+"@ + strip_trailing(strip_leading(w[2], '('), ')')
    } else if w.len() > 1 {
        w[1]
    } else {
        "unknown"@
    }
}

/// The version drift reports in `Drift testing tools 2603.0.1-beta`: the
/// fourth word.
pub open spec fn drift_version_spec(output: Seq<char>) -> Seq<char> {
    let w = words(output);
    if w.len() > 3 {
        w[3]
    } else {
        "unknown"@
    }
}

/// What `pact extension install` installs, in order.
pub fn plan_install(extension: Option<&str>, all: bool) -> (r: Result<Vec<InstallTarget>, String>)
    ensures
        all ==> (r matches Ok(v) && v@ == seq![
            InstallTarget::PactflowAi,
            InstallTarget::RubyLegacy,
            InstallTarget::Drift,
        ]),
        !all ==> match extension {
            Some(e) => if e@ == "pactflow-ai"@ {
                r matches Ok(v) && v@ == seq![InstallTarget::PactflowAi]
            } else if e@ == "pact-legacy"@ {
                r matches Ok(v) && v@ == seq![InstallTarget::RubyLegacy]
            } else if e@ == "drift"@ {
                r matches Ok(v) && v@ == seq![InstallTarget::Drift]
            } else {
                r matches Err(m) && m@ == "Unknown extension: "@ + e@
            },
            None => r matches Err(m) && m@ == "Please specify an extension name or use --all flag"@,
        },
{
    if all {
        let v = vec![InstallTarget::PactflowAi, InstallTarget::RubyLegacy, InstallTarget::Drift];
        assert(v@ =~= seq![InstallTarget::PactflowAi, InstallTarget::RubyLegacy, InstallTarget::Drift]);
        return Ok(v);
    }
    match extension {
        Some(e) => {
            if str_eq(e, "pactflow-ai") {
                let v = vec![InstallTarget::PactflowAi];
                assert(v@ =~= seq![InstallTarget::PactflowAi]);
                Ok(v)
            } else if str_eq(e, "pact-legacy") {
                let v = vec![InstallTarget::RubyLegacy];
                assert(v@ =~= seq![InstallTarget::RubyLegacy]);
                Ok(v)
            } else if str_eq(e, "drift") {
                let v = vec![InstallTarget::Drift];
                assert(v@ =~= seq![InstallTarget::Drift]);
                Ok(v)
            } else {
                let mut m = String::from_str("Unknown extension: ");
                m.append(e);
                Err(m)
            }
        },
        None => Err(String::from_str("Please specify an extension name or use --all flag")),
    }
}

/// The installer that updates an extension of kind `t`.
pub fn update_target(t: ExtensionType) -> (r: Option<InstallTarget>)
    ensures
        r == target_of(t),
{
    match t {
        ExtensionType::PactflowAi => Some(InstallTarget::PactflowAi),
        ExtensionType::Drift => Some(InstallTarget::Drift),
        ExtensionType::PactRubyStandalone => Some(InstallTarget::RubyLegacy),
        ExtensionType::External => None,
    }
}

/// The steps of `pact extension update` over the listed extensions: with
/// `--all` every installed one (refused when there is none); otherwise the
/// named one, which must be listed and installed.
pub fn plan_update(extensions: &ExtensionRegistry, extension: Option<&str>, all: bool) -> (r:
    Result<Vec<UpdateStep>, Refusal>)
    requires
        extensions.wf(),
    ensures
        all ==> match r {
            Ok(v) => v@.map_values(|s: UpdateStep| (s.name@, s.target)) == update_all_steps(
                extensions.entry_seq(),
            ) && v.len() > 0,
            Err(e) => update_all_steps(extensions.entry_seq()).len() == 0 && e.message@
                == "No extensions installed"@ && (e.notice matches Some(n) && n@
                == "\u{26a0}\u{fe0f}  No extensions are currently installed. Use 'pact extension install' to install extensions first."@),
        },
        !all ==> match extension {
            Some(name) => if extensions@.contains_key(name@) && extensions@[name@].installed {
                r matches Ok(v) && v.len() == 1 && v[0].name@ == name@ && v[0].target
                    == target_of(extensions@[name@].extension_type)
            } else if extensions@.contains_key(name@) {
                r matches Err(e) && e.notice is None && e.message@ == "Extension '"@ + name@
                    + "' is not installed"@
            } else {
                r matches Err(e) && e.notice is None && e.message@ == "Extension '"@ + name@
                    + "' not found"@
            },
            None => r matches Err(e) && e.notice is None && e.message@
                == "Please specify an extension name or use --all flag"@,
        },
{
    if all {
        let n = extensions.len();
        let mut steps: Vec<UpdateStep> = Vec::new();
        let mut i: usize = 0;
        assert(extensions.entry_seq().take(0) =~= seq![]);
        assert(steps@.map_values(|s: UpdateStep| (s.name@, s.target)) =~= seq![]);
        while i < n
            invariant
                n == extensions.entry_seq().len(),
                i <= n,
                steps@.map_values(|s: UpdateStep| (s.name@, s.target)) == update_all_steps(
                    extensions.entry_seq().take(i as int),
                ),
            decreases n - i,
        {
            let c = extensions.config_at(i);
            let ghost t = extensions.entry_seq().take(i + 1);
            assert(t.drop_last() =~= extensions.entry_seq().take(i as int));
            assert(t.last() == extensions.entry_seq()[i as int]);
            if c.installed {
                let ghost before = steps@;
                steps.push(UpdateStep { name: extensions.key_at(i).clone(), target: update_target(c.extension_type) });
                assert(steps@ == before.push(steps@.last()));
                assert(steps@.map_values(|s: UpdateStep| (s.name@, s.target)) =~= before.map_values(
                    |s: UpdateStep| (s.name@, s.target),
                ).push((extensions.entry_seq()[i as int].0, target_of(c.extension_type))));
            }
            i = i + 1;
        }
        assert(extensions.entry_seq().take(n as int) =~= extensions.entry_seq());
        if steps.len() == 0 {
            return Err(
                Refusal {
                    notice: Some(
                        String::from_str(
                            "\u{26a0}\u{fe0f}  No extensions are currently installed. Use 'pact extension install' to install extensions first.",
                        ),
                    ),
                    message: String::from_str("No extensions installed"),
                },
            );
        }
        return Ok(steps);
    }
    match extension {
        Some(name) => match extensions.get(name) {
            Some(c) => {
                if c.installed {
                    let mut v: Vec<UpdateStep> = Vec::new();
                    v.push(UpdateStep { name: String::from_str(name), target: update_target(c.extension_type) });
                    Ok(v)
                } else {
                    let mut m = String::from_str("Extension '");
                    m.append(name);
                    m.append("' is not installed");
                    Err(Refusal { notice: None, message: m })
                }
            },
            None => {
                let mut m = String::from_str("Extension '");
                m.append(name);
                m.append("' not found");
                Err(Refusal { notice: None, message: m })
            },
        },
        None => Err(
            Refusal {
                notice: None,
                message: String::from_str("Please specify an extension name or use --all flag"),
            },
        ),
    }
}

/// The extensions `pact extension uninstall --all` removes, in entry order.
pub fn plan_uninstall_all(extensions: &ExtensionRegistry) -> (r: Vec<String>)
    ensures
        r.deep_view() == uninstall_all_names(extensions.entry_seq()),
{
    let n = extensions.len();
    let mut r: Vec<String> = Vec::new();
    let mut i: usize = 0;
    assert(extensions.entry_seq().take(0) =~= seq![]);
    while i < n
        invariant
            n == extensions.entry_seq().len(),
            i <= n,
            r.deep_view() == uninstall_all_names(extensions.entry_seq().take(i as int)),
        decreases n - i,
    {
        let c = extensions.config_at(i);
        let key = extensions.key_at(i);
        let ghost t = extensions.entry_seq().take(i + 1);
        assert(t.drop_last() =~= extensions.entry_seq().take(i as int));
        assert(t.last() == extensions.entry_seq()[i as int]);
        if c.installed && (c.extension_type != ExtensionType::PactRubyStandalone || str_eq(
            key.as_str(),
            "pact-legacy",
        )) {
            let ghost before = r.deep_view();
            r.push(key.clone());
            assert(r.deep_view() =~= before.push(key@));
        }
        i = i + 1;
    }
    assert(extensions.entry_seq().take(n as int) =~= extensions.entry_seq());
    r
}

/// The entries `pact extension list` shows, in entry order.
pub fn list_selection(extensions: &ExtensionRegistry, installed_only: bool) -> (r: Vec<
    (String, ExtensionConfig),
>)
    ensures
        r@.map_values(|e: (String, ExtensionConfig)| (e.0@, e.1@)) == listed(
            extensions.entry_seq(),
            installed_only,
        ),
{
    let n = extensions.len();
    let mut r: Vec<(String, ExtensionConfig)> = Vec::new();
    let mut i: usize = 0;
    assert(extensions.entry_seq().take(0) =~= seq![]);
    assert(r@.map_values(|e: (String, ExtensionConfig)| (e.0@, e.1@)) =~= seq![]);
    while i < n
        invariant
            n == extensions.entry_seq().len(),
            i <= n,
            r@.map_values(|e: (String, ExtensionConfig)| (e.0@, e.1@)) == listed(
                extensions.entry_seq().take(i as int),
                installed_only,
            ),
        decreases n - i,
    {
        let c = extensions.config_at(i);
        let key = extensions.key_at(i);
        let ghost t = extensions.entry_seq().take(i + 1);
        assert(t.drop_last() =~= extensions.entry_seq().take(i as int));
        assert(t.last() == extensions.entry_seq()[i as int]);
        if !(installed_only && !c.installed) {
            let ghost before = r@;
            r.push((key.clone(), c.duplicate()));
            assert(r@ == before.push(r@.last()));
            assert(r@.map_values(|e: (String, ExtensionConfig)| (e.0@, e.1@)) =~= before.map_values(
                |e: (String, ExtensionConfig)| (e.0@, e.1@),
            ).push(extensions.entry_seq()[i as int]));
        }
        i = i + 1;
    }
    assert(extensions.entry_seq().take(n as int) =~= extensions.entry_seq());
    r
}

/// Where the "Installed" column of an entry comes from.
pub fn installed_version_source(config: &ExtensionConfig) -> (r: VersionSource)
    ensures
        !config.installed ==> r is NotInstalled,
        config.installed && config.extension_type == ExtensionType::PactflowAi
            ==> r is PactflowAiProbe,
        config.installed && config.extension_type == ExtensionType::Drift ==> r is DriftProbe,
        config.installed && config.extension_type != ExtensionType::PactflowAi
            && config.extension_type != ExtensionType::Drift ==> (r matches VersionSource::Recorded(
            v,
        ) && v@ == config.version@),
{
    if !config.installed {
        VersionSource::NotInstalled
    } else if config.extension_type == ExtensionType::PactflowAi {
        VersionSource::PactflowAiProbe
    } else if config.extension_type == ExtensionType::Drift {
        VersionSource::DriftProbe
    } else {
        VersionSource::Recorded(config.version.clone())
    }
}

fn or_unknown_text(text: Option<String>) -> (r: String)
    ensures
        r@ == or_unknown(
            match text {
                Some(t) => Some(t@),
                None => None,
            },
        ),
{
    match text {
        Some(t) => t,
        None => String::from_str("unknown"),
    }
}

impl LatestVersions {
    /// The fetched versions, with `unknown` for each that could not be fetched.
    pub fn new(ruby: Option<String>, pactflow_ai: Option<String>, drift: Option<String>) -> (r:
        LatestVersions)
        ensures
            r.ruby@ == or_unknown(
                match ruby {
                    Some(t) => Some(t@),
                    None => None,
                },
            ),
            r.pactflow_ai@ == or_unknown(
                match pactflow_ai {
                    Some(t) => Some(t@),
                    None => None,
                },
            ),
            r.drift@ == or_unknown(
                match drift {
                    Some(t) => Some(t@),
                    None => None,
                },
            ),
    {
        LatestVersions {
            ruby: or_unknown_text(ruby),
            pactflow_ai: or_unknown_text(pactflow_ai),
            drift: or_unknown_text(drift),
        }
    }
}

/// The label of the "Type" column.
pub fn type_label(t: ExtensionType) -> (r: &'static str)
    ensures
        r@ == type_label_spec(t),
{
    match t {
        ExtensionType::Drift => "Drift",
        ExtensionType::PactflowAi => "PactFlow AI",
        ExtensionType::PactRubyStandalone => "Ruby Legacy",
        ExtensionType::External => "External",
    }
}

/// One row of the listing: name, type, installed version, latest version,
/// status.
pub fn list_row(name: &str, config: &ExtensionConfig, installed_version: String, latest: &LatestVersions) -> (r: Vec<String>)
    ensures
        r.deep_view() == seq![
            name@,
            type_label_spec(config.extension_type),
            installed_version@,
            latest_for(config.extension_type, latest.ruby@, latest.pactflow_ai@, latest.drift@),
            if config.installed {
                "\u{2705} Installed"@
            } else {
                "\u{274c} Not Installed"@
            },
        ],
        r.len() == 5,
        r[0]@ == name@,
        r[2]@ == installed_version@,
        config.extension_type == ExtensionType::PactflowAi ==> r[1]@ == "PactFlow AI"@
            && r[3]@ == latest.pactflow_ai@,
        config.extension_type == ExtensionType::Drift ==> r[1]@ == "Drift"@ && r[3]@
            == latest.drift@,
        config.extension_type == ExtensionType::PactRubyStandalone ==> r[1]@ == "Ruby Legacy"@
            && r[3]@ == latest.ruby@,
        config.extension_type == ExtensionType::External ==> r[1]@ == "External"@ && r[3]@
            == "-"@,
        config.installed ==> r[4]@ == "\u{2705} Installed"@,
        !config.installed ==> r[4]@ == "\u{274c} Not Installed"@,
{
    let status = if config.installed {
        "\u{2705} Installed"
    } else {
        "\u{274c} Not Installed"
    };
    let latest_version = match config.extension_type {
        ExtensionType::PactRubyStandalone => latest.ruby.clone(),
        ExtensionType::PactflowAi => latest.pactflow_ai.clone(),
        ExtensionType::Drift => latest.drift.clone(),
        ExtensionType::External => String::from_str("-"),
    };
    let mut r: Vec<String> = Vec::new();
    r.push(String::from_str(name));
    r.push(String::from_str(type_label(config.extension_type)));
    r.push(installed_version);
    r.push(latest_version);
    r.push(String::from_str(status));
    assert(r.deep_view() =~= seq![
        name@,
        type_label_spec(config.extension_type),
        installed_version@,
        latest_for(config.extension_type, latest.ruby@, latest.pactflow_ai@, latest.drift@),
        if config.installed {
            "\u{2705} Installed"@
        } else {
            "\u{274c} Not Installed"@
        },
    ]);
    r
}

/// The "Installed" column for PactFlow AI, from what `pactflow-ai --version`
/// printed (`None` when it was not run or failed).
pub fn pactflow_ai_installed_version(output: Option<&str>) -> (r: String)
    ensures
        r@ == match output {
            Some(o) => pactflow_ai_version_spec(o@),
            None => "unknown"@,
        },
{
    match output {
        Some(o) => {
            let w = split_whitespace(o);
            if w.len() > 2 {
                let mut r = w[1].clone();
                r.append("+");
                let inner = trim_start_char(w[2].as_str(), '(');
                let commit = trim_end_char(inner.as_str(), ')');
                r.append(commit.as_str());
                r
            } else if w.len() > 1 {
                w[1].clone()
            } else {
                String::from_str("unknown")
            }
        },
        None => String::from_str("unknown"),
    }
}

/// The "Installed" column for drift, from what `drift --version` printed
/// (`None` when it was not run or failed).
pub fn drift_installed_version(output: Option<&str>) -> (r: String)
    ensures
        r@ == match output {
            Some(o) => drift_version_spec(o@),
            None => "unknown"@,
        },
{
    match output {
        Some(o) => {
            let w = split_whitespace(o);
            if w.len() > 3 {
                w[3].clone()
            } else {
                String::from_str("unknown")
            }
        },
        None => String::from_str("unknown"),
    }
}

/// The executable asked for the installed PactFlow AI version: the recorded
/// one, when the registry holds an installed `pactflow-ai`.
pub fn pactflow_ai_probe_path(config: &ExtensionRegistry) -> (r: Option<String>)
    requires
        config.wf(),
    ensures
        (config@.contains_key("pactflow-ai"@) && config@["pactflow-ai"@].installed) <==> r is Some,
        r matches Some(p) ==> p@ == config@["pactflow-ai"@].binary_path,
{
    match config.get("pactflow-ai") {
        Some(c) => if c.installed {
            Some(c.binary_path.clone())
        } else {
            None
        },
        None => None,
    }
}

/// The PactFlow extension commands: for each installed extension named
/// `pactflow-<command>`, the command, in entry order.
pub fn get_pactflow_extensions(extensions: &ExtensionRegistry) -> (r: Vec<String>)
    ensures
        r.deep_view() == pactflow_names(extensions.entry_seq()),
{
    let n = extensions.len();
    let mut r: Vec<String> = Vec::new();
    let mut i: usize = 0;
    assert(extensions.entry_seq().take(0) =~= seq![]);
    while i < n
        invariant
            n == extensions.entry_seq().len(),
            i <= n,
            r.deep_view() == pactflow_names(extensions.entry_seq().take(i as int)),
        decreases n - i,
    {
        let c = extensions.config_at(i);
        let key = extensions.key_at(i);
        let ghost t = extensions.entry_seq().take(i + 1);
        assert(t.drop_last() =~= extensions.entry_seq().take(i as int));
        assert(t.last() == extensions.entry_seq()[i as int]);
        if c.installed {
            match strip_prefix(key.as_str(), "pactflow-") {
                Some(rest) => {
                    let ghost before = r.deep_view();
                    r.push(rest);
                    assert(r.deep_view() =~= before.push(
                        key@.subrange("pactflow-"@.len() as int, key@.len() as int),
                    ));
                },
                None => {},
            }
        }
        i = i + 1;
    }
    assert(extensions.entry_seq().take(n as int) =~= extensions.entry_seq());
    r
}

pub proof fn lemma_pactflow_names(s: Seq<(Seq<char>, ExtensionConfigView)>, c: Seq<char>)
    ensures
        pactflow_names(s).contains(c) <==> exists|i: int|
            0 <= i < s.len() && #[trigger] s[i].0 == "pactflow-"@ + c && s[i].1.installed,
    decreases s.len(),
{
    reveal_strlit("pactflow-");
    if s.len() > 0 {
        let p = s.drop_last();
        lemma_pactflow_names(p, c);
        let e = s.last();
        let pre = "pactflow-"@;
        if e.1.installed && has_prefix(e.0, pre) {
            assert(e.0 =~= pre + e.0.subrange(pre.len() as int, e.0.len() as int));
        }
        if e.0 == pre + c {
            assert(e.0.subrange(0, pre.len() as int) =~= pre);
            assert(e.0.subrange(pre.len() as int, e.0.len() as int) =~= c);
        }
        if pactflow_names(s).contains(c) {
            if pactflow_names(p).contains(c) {
                let i = choose|i: int| 0 <= i < p.len() && #[trigger] p[i].0 == pre + c && p[i].1.installed;
                assert(s[i] == p[i]);
            } else {
                assert(pactflow_names(s) == pactflow_names(p).push(
                    e.0.subrange(pre.len() as int, e.0.len() as int),
                ));
                assert(s[s.len() - 1] == e);
            }
        }
        if exists|i: int| 0 <= i < s.len() && #[trigger] s[i].0 == pre + c && s[i].1.installed {
            let i = choose|i: int| 0 <= i < s.len() && #[trigger] s[i].0 == pre + c && s[i].1.installed;
            if i < s.len() - 1 {
                assert(s[i] == p[i]);
                assert(p[i].0 == pre + c);
                let j = choose|j: int| 0 <= j < pactflow_names(p).len() && pactflow_names(p)[j] == c;
                assert(pactflow_names(s)[j] == c);
            } else {
                assert(s[i] == e);
                assert(pactflow_names(s).last() == c);
            }
        }
    }
}

/// Whether `command` is a PactFlow extension command: whether an installed
/// extension named `pactflow-<command>` is registered.
pub fn is_pactflow_extension(command: &str, extensions: &ExtensionRegistry) -> (r: bool)
    requires
        extensions.wf(),
    ensures
        r == (extensions@.contains_key("pactflow-"@ + command@) && extensions@["pactflow-"@
            + command@].installed),
{
    let names = get_pactflow_extensions(extensions);
    let n = names.len();
    let mut i: usize = 0;
    let target = String::from_str(command);
    let mut found = false;
    while i < n
        invariant
            n == names.deep_view().len(),
            i <= n,
            target@ == command@,
            found <==> exists|j: int| 0 <= j < i && names.deep_view()[j] == command@,
        decreases n - i,
    {
        if names[i] == target {
            found = true;
        }
        assert(names.deep_view()[i as int] == names[i as int]@);
        i = i + 1;
    }
    proof {
        let s = extensions.entry_seq();
        lemma_pactflow_names(s, command@);
        lemma_entries_map(s);
        assert(found == names.deep_view().contains(command@));
        let k = "pactflow-"@ + command@;
        if extensions@.contains_key(k) {
            let i = choose|i: int| 0 <= i < s.len() && s[i].0 == k;
            assert(extensions@[s[i].0] == s[i].1);
        }
    }
    found
}

/// `pactflow-<command>`: the extension a PactFlow extension command runs.
pub fn pactflow_extension_binary(command: &str) -> (r: String)
    ensures
        r@ == "pactflow-"@ + command@,
{
    let mut r = String::from_str("pactflow-");
    r.append(command);
    r
}

/// The extension and arguments an extension command line runs: what follows
/// the first `extension` (or the whole line when there is none), split into
/// the extension name and its arguments; `None` when nothing follows.
pub fn extension_invocation(args: &Vec<String>) -> (r: Option<(String, Vec<String>)>)
    ensures
        passthrough_args(args.deep_view()).len() > 0 <==> r is Some,
        r matches Some((name, rest)) ==> name@ == passthrough_args(args.deep_view())[0]
            && rest.deep_view() == passthrough_args(args.deep_view()).drop_first(),
{
    let ghost d = args.deep_view();
    let n = args.len();
    let word = String::from_str("extension");
    let mut i: usize = 0;
    assert(d.skip(0) =~= d);
    while i < n && !(args[i] == word)
        invariant
            n == d.len(),
            d == args.deep_view(),
            word@ == "extension"@,
            i <= n,
            after_extension_word(d) == after_extension_word(d.skip(i as int)),
        decreases n - i,
    {
        assert(d.skip(i as int)[0] == args[i as int]@);
        assert(d.skip(i as int).drop_first() =~= d.skip(i + 1));
        i = i + 1;
    }
    let start: usize = if i < n {
        assert(d.skip(i as int)[0] == "extension"@);
        assert(d.skip(i as int).drop_first() =~= d.skip(i + 1));
        i + 1
    } else {
        assert(d.skip(i as int) =~= Seq::<Seq<char>>::empty());
        0
    };
    assert(passthrough_args(d) =~= d.skip(start as int));
    if start >= n {
        return None;
    }
    let name = args[start].clone();
    let mut rest: Vec<String> = Vec::new();
    let mut j: usize = start + 1;
    while j < n
        invariant
            n == d.len(),
            d == args.deep_view(),
            start < n,
            start + 1 <= j <= n,
            rest.deep_view() == d.subrange(start + 1, j as int),
        decreases n - j,
    {
        let ghost before = rest.deep_view();
        rest.push(args[j].clone());
        assert(rest.deep_view() =~= before.push(d[j as int]));
        assert(d.subrange(start + 1, j + 1) =~= d.subrange(start + 1, j as int).push(d[j as int]));
        j = j + 1;
    }
    assert(d.skip(start as int).drop_first() =~= d.subrange(start + 1, n as int));
    Some((name, rest))
}

/// The "Installed" column: `-` when not installed, the recorded version, or
/// what the executable reported (`probed`).
pub fn installed_version_text(source: &VersionSource, probed: String) -> (r: String)
    ensures
        match source {
            VersionSource::NotInstalled => r@ == "-"@,
            VersionSource::Recorded(v) => r@ == v@,
            _ => r@ == probed@,
        },
{
    match source {
        VersionSource::NotInstalled => String::from_str("-"),
        VersionSource::Recorded(v) => v.clone(),
        _ => probed,
    }
}

/// The extensions `pact extension uninstall` removes: with `--all` every
/// installed one (pact-standalone through `pact-legacy` only); otherwise the
/// named one; refused without either.
pub fn plan_uninstall_command(extensions: &ExtensionRegistry, extension: Option<&str>, all: bool) -> (r:
    Result<Vec<String>, String>)
    ensures
        all ==> (r matches Ok(v) && v.deep_view() == uninstall_all_names(extensions.entry_seq())),
        !all ==> match extension {
            Some(e) => r matches Ok(v) && v.deep_view() == seq![e@],
            None => r matches Err(m) && m@ == "Please specify an extension name or use --all flag"@,
        },
{
    if all {
        Ok(plan_uninstall_all(extensions))
    } else {
        match extension {
            Some(e) => {
                let mut v: Vec<String> = Vec::new();
                v.push(String::from_str(e));
                assert(v.deep_view() =~= seq![e@]);
                Ok(v)
            },
            None => Err(String::from_str("Please specify an extension name or use --all flag")),
        }
    }
}

} // verus!
