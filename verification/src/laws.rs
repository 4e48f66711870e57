//! Properties of the extension logic that span several functions.
use vstd::prelude::*;

use crate::commands::{
    InstallTarget, latest_for, pactflow_names, target_of, type_label_spec, uninstall_all_names, update_all_steps,
};
use crate::config::{entries_map, keys_distinct, lemma_entries_map, ExtensionConfigView, ExtensionType};
use crate::manager::{
    add_builtins, add_legacy, bin_path_spec, builtin_record, builtin_seq, drop_legacy,
    installed_record, legacy_seq,
};
use crate::platform::exe_suffix;
use crate::text::escape_plus;

verus! {

/// Whether `k` names a built-in extension.
pub open spec fn is_builtin(k: Seq<char>) -> bool {
    exists|i: int| 0 <= i < builtin_seq().len() && builtin_seq()[i].0 == k
}

proof fn lemma_builtin_names_distinct()
    ensures
        forall|i: int, j: int|
            0 <= i < builtin_seq().len() && 0 <= j < builtin_seq().len() && i != j
                ==> builtin_seq()[i].0 != builtin_seq()[j].0,
{
    reveal_strlit("drift");
    reveal_strlit("pactflow-ai");
    reveal_strlit("pact-broker-legacy");
    reveal_strlit("pactflow-legacy");
    reveal_strlit("message-legacy");
    reveal_strlit("mock-legacy");
    reveal_strlit("verifier-legacy");
    reveal_strlit("stub-legacy");
    assert forall|i: int, j: int|
        0 <= i < builtin_seq().len() && 0 <= j < builtin_seq().len() && i != j implies builtin_seq()[i].0
        != builtin_seq()[j].0 by {
        let a = builtin_seq()[i].0;
        let b = builtin_seq()[j].0;
        if a.len() == b.len() {
            assert(a[0] != b[0] || a[1] != b[1] || a[2] != b[2] || a[3] != b[3] || a[4] != b[4]
                || a[5] != b[5] || a[6] != b[6] || a[7] != b[7] || a[8] != b[8]);
        }
    }
}

proof fn lemma_add_builtins(
    m: Map<Seq<char>, ExtensionConfigView>,
    home: Seq<char>,
    os: Seq<char>,
    existing: Seq<Seq<char>>,
    n: nat,
)
    requires
        n <= builtin_seq().len(),
    ensures
        forall|k: Seq<char>| #[trigger]
            add_builtins(m, home, os, existing, n).contains_key(k) <==> (m.contains_key(k)
                || exists|i: int| 0 <= i < n && builtin_seq()[i].0 == k),
        forall|k: Seq<char>|
            m.contains_key(k) ==> #[trigger] add_builtins(m, home, os, existing, n)[k] == m[k],
        forall|i: int|
            0 <= i < n && !m.contains_key(builtin_seq()[i].0) ==> add_builtins(
                m,
                home,
                os,
                existing,
                n,
            )[#[trigger] builtin_seq()[i].0] == builtin_record(
                home,
                os,
                builtin_seq()[i].0,
                builtin_seq()[i].1,
                existing,
            ),
    decreases n,
{
    if n > 0 {
        lemma_add_builtins(m, home, os, existing, (n - 1) as nat);
        lemma_builtin_names_distinct();
        let prev = add_builtins(m, home, os, existing, (n - 1) as nat);
        let r = add_builtins(m, home, os, existing, n);
        let b = builtin_seq()[n - 1];
        assert forall|k: Seq<char>| #[trigger]
            r.contains_key(k) <==> (m.contains_key(k) || exists|i: int|
                0 <= i < n && builtin_seq()[i].0 == k) by {
            if exists|i: int| 0 <= i < n && builtin_seq()[i].0 == k {
                let i = choose|i: int| 0 <= i < n && builtin_seq()[i].0 == k;
                if i < n - 1 {
                    assert(prev.contains_key(k));
                }
            }
            if prev.contains_key(k) && !m.contains_key(k) {
                let i = choose|i: int| 0 <= i < n - 1 && builtin_seq()[i].0 == k;
                assert(0 <= i < n && builtin_seq()[i].0 == k);
            }
            if k == b.0 {
                assert(builtin_seq()[n - 1].0 == k);
            }
        }
        assert forall|i: int|
            0 <= i < n && !m.contains_key(builtin_seq()[i].0) implies r[#[trigger] builtin_seq()[i].0]
            == builtin_record(home, os, builtin_seq()[i].0, builtin_seq()[i].1, existing) by {
            if i < n - 1 {
                assert(builtin_seq()[i].0 != b.0);
            } else {
                if prev.contains_key(b.0) {
                    let j = choose|j: int| 0 <= j < n - 1 && builtin_seq()[j].0 == b.0;
                    assert(builtin_seq()[j].0 != builtin_seq()[n - 1].0);
                }
            }
        }
    }
}

/// `pact extension list` shows every loaded entry unchanged and every
/// built-in extension; a built-in extension that was not loaded shows with
/// version `latest`, its executable under `<home>/bin`, and installed exactly
/// when that executable exists. Nothing else is shown.
pub proof fn law_list_shows_builtins(
    m: Map<Seq<char>, ExtensionConfigView>,
    home: Seq<char>,
    os: Seq<char>,
    existing: Seq<Seq<char>>,
)
    ensures
        forall|k: Seq<char>| #[trigger]
            add_builtins(m, home, os, existing, builtin_seq().len()).contains_key(k) <==> (
            m.contains_key(k) || is_builtin(k)),
        forall|k: Seq<char>|
            m.contains_key(k) ==> #[trigger] add_builtins(m, home, os, existing, builtin_seq().len())[k]
                == m[k],
        forall|i: int|
            0 <= i < builtin_seq().len() && !m.contains_key(builtin_seq()[i].0) ==> {
                let r = add_builtins(m, home, os, existing, builtin_seq().len())[#[trigger] builtin_seq()[i].0];
                &&& r.version == "latest"@
                &&& r.name == builtin_seq()[i].0
                &&& r.extension_type == builtin_seq()[i].1
                &&& r.binary_path == bin_path_spec(home, builtin_seq()[i].0, os)
                &&& r.installed == existing.contains(bin_path_spec(home, builtin_seq()[i].0, os))
            },
{
    lemma_add_builtins(m, home, os, existing, builtin_seq().len());
}

/// Listing a listing changes nothing.
pub proof fn law_list_is_idempotent(
    m: Map<Seq<char>, ExtensionConfigView>,
    home: Seq<char>,
    os: Seq<char>,
    existing: Seq<Seq<char>>,
)
    ensures
        add_builtins(
            add_builtins(m, home, os, existing, builtin_seq().len()),
            home,
            os,
            existing,
            builtin_seq().len(),
        ) == add_builtins(m, home, os, existing, builtin_seq().len()),
{
    let once = add_builtins(m, home, os, existing, builtin_seq().len());
    let twice = add_builtins(once, home, os, existing, builtin_seq().len());
    lemma_add_builtins(m, home, os, existing, builtin_seq().len());
    lemma_add_builtins(once, home, os, existing, builtin_seq().len());
    assert forall|k: Seq<char>| #[trigger] twice.contains_key(k) <==> once.contains_key(k) by {
        if twice.contains_key(k) && !once.contains_key(k) {
            let i = choose|i: int| 0 <= i < builtin_seq().len() && builtin_seq()[i].0 == k;
            assert(once.contains_key(builtin_seq()[i].0));
        }
    }
    assert(twice =~= once);
}

/// Uninstalling `pact-legacy` leaves no pact-standalone entry and no
/// `pact-legacy` entry, and keeps every other entry unchanged.
pub proof fn law_uninstall_legacy_removes_all_legacy(m: Map<Seq<char>, ExtensionConfigView>)
    ensures
        !drop_legacy(m).contains_key("pact-legacy"@),
        forall|k: Seq<char>| #[trigger]
            drop_legacy(m).contains_key(k) ==> drop_legacy(m)[k].extension_type
                != ExtensionType::PactRubyStandalone,
        forall|k: Seq<char>|
            m.contains_key(k) && m[k].extension_type != ExtensionType::PactRubyStandalone && k
                != "pact-legacy"@ ==> #[trigger] drop_legacy(m).contains_key(k) && drop_legacy(m)[k]
                == m[k],
{
}

/// Uninstalling an extension right after installing it leaves the registry as
/// uninstalling it would have before: the install is undone.
pub proof fn law_uninstall_undoes_install(
    m: Map<Seq<char>, ExtensionConfigView>,
    name: Seq<char>,
    record: ExtensionConfigView,
)
    ensures
        m.insert(name, record).remove(name) == m.remove(name),
        !m.contains_key(name) ==> m.insert(name, record).remove(name) == m,
{
    assert(m.insert(name, record).remove(name) =~= m.remove(name));
    if !m.contains_key(name) {
        assert(m.remove(name) =~= m);
    }
}

/// Once PactFlow AI is installed, `ai` is a PactFlow extension command
/// (`pact pactflow ai` runs it).
pub proof fn law_installed_pactflow_ai_is_pactflow_command(
    m: Map<Seq<char>, ExtensionConfigView>,
    version: Seq<char>,
    home: Seq<char>,
    os: Seq<char>,
)
    ensures
        ({
            let after = m.insert(
                "pactflow-ai"@,
                installed_record(
                    "pactflow-ai"@,
                    version,
                    bin_path_spec(home, "pactflow-ai"@, os),
                    ExtensionType::PactflowAi,
                ),
            );
            after.contains_key("pactflow-"@ + "ai"@) && after["pactflow-"@ + "ai"@].installed
        }),
{
    reveal_strlit("pactflow-ai");
    reveal_strlit("pactflow-");
    reveal_strlit("ai");
    assert("pactflow-"@ + "ai"@ =~= "pactflow-ai"@);
}

/// The PactFlow extension commands are exactly the `<command>`s of the
/// installed extensions named `pactflow-<command>`.
pub proof fn law_pactflow_commands(s: Seq<(Seq<char>, ExtensionConfigView)>, command: Seq<char>)
    requires
        keys_distinct(s),
    ensures
        pactflow_names(s).contains(command) <==> (entries_map(s).contains_key(
            "pactflow-"@ + command,
        ) && entries_map(s)["pactflow-"@ + command].installed),
{
    crate::commands::lemma_pactflow_names(s, command);
    lemma_entries_map(s);
    let k = "pactflow-"@ + command;
    if entries_map(s).contains_key(k) {
        let i = choose|i: int| 0 <= i < s.len() && s[i].0 == k;
        assert(entries_map(s)[s[i].0] == s[i].1);
    }
    if pactflow_names(s).contains(command) {
        let i = choose|i: int| 0 <= i < s.len() && #[trigger] s[i].0 == k && s[i].1.installed;
        assert(entries_map(s)[s[i].0] == s[i].1);
    }
}

/// The version written into a PactFlow AI download location holds no `+`.
pub proof fn law_escaped_version_has_no_plus(v: Seq<char>)
    ensures
        !escape_plus(v).contains('+'),
    decreases v.len(),
{
    reveal_strlit("%2b");
    if v.len() > 0 {
        law_escaped_version_has_no_plus(v.drop_last());
        let p = escape_plus(v.drop_last());
        let tail = if v.last() == '+' {
            "%2b"@
        } else {
            seq![v.last()]
        };
        assert(escape_plus(v) == p + tail);
        if escape_plus(v).contains('+') {
            let i = choose|i: int| 0 <= i < escape_plus(v).len() && escape_plus(v)[i] == '+';
            if i < p.len() {
                assert(p[i] == '+');
            } else {
                assert(tail[i - p.len()] == '+');
            }
        }
    }
}

/// `st` is the update step of an installed entry of `s`.
pub open spec fn installed_step_of(
    s: Seq<(Seq<char>, ExtensionConfigView)>,
    st: (Seq<char>, Option<crate::commands::InstallTarget>),
) -> bool {
    exists|i: int|
        0 <= i < s.len() && s[i].1.installed && st == (s[i].0, target_of(s[i].1.extension_type))
}

/// `name` is an installed entry of `s` that `uninstall --all` removes itself:
/// anything but a legacy tool.
pub open spec fn removable_entry_of(s: Seq<(Seq<char>, ExtensionConfigView)>, name: Seq<char>) -> bool {
    exists|i: int|
        0 <= i < s.len() && s[i].0 == name && s[i].1.installed && (s[i].1.extension_type
            != ExtensionType::PactRubyStandalone || s[i].0 == "pact-legacy"@)
}

/// `update --all` reruns the installer of every installed extension, and of
/// nothing else.
pub proof fn law_update_all_covers_installed(s: Seq<(Seq<char>, ExtensionConfigView)>)
    ensures
        forall|j: int|
            0 <= j < update_all_steps(s).len() ==> installed_step_of(
                s,
                #[trigger] update_all_steps(s)[j],
            ),
        forall|i: int|
            0 <= i < s.len() && (#[trigger] s[i]).1.installed ==> update_all_steps(s).contains(
                (s[i].0, target_of(s[i].1.extension_type)),
            ),
    decreases s.len(),
{
    if s.len() > 0 {
        let p = s.drop_last();
        law_update_all_covers_installed(p);
        let up = update_all_steps(p);
        let us = update_all_steps(s);
        assert forall|j: int| 0 <= j < us.len() implies installed_step_of(s, #[trigger] us[j]) by {
            if j < up.len() {
                assert(us[j] == up[j]);
                assert(installed_step_of(p, up[j]));
                let i = choose|i: int|
                    0 <= i < p.len() && p[i].1.installed && up[j] == (
                        p[i].0,
                        target_of(p[i].1.extension_type),
                    );
                assert(s[i] == p[i]);
            } else {
                assert(s[s.len() - 1] == s.last());
            }
        }
        assert forall|i: int| 0 <= i < s.len() && (#[trigger] s[i]).1.installed implies us.contains(
            (s[i].0, target_of(s[i].1.extension_type)),
        ) by {
            if i < s.len() - 1 {
                assert(s[i] == p[i]);
                let j = choose|j: int|
                    0 <= j < up.len() && up[j] == (p[i].0, target_of(p[i].1.extension_type));
                assert(us[j] == up[j]);
            } else {
                assert(us[us.len() - 1] == (s[i].0, target_of(s[i].1.extension_type)));
            }
        }
    }
}

/// `uninstall --all` names only installed extensions, never a legacy tool
/// (only `pact-legacy`, which takes them with it), and every other installed
/// extension.
pub proof fn law_uninstall_all_targets(s: Seq<(Seq<char>, ExtensionConfigView)>)
    ensures
        forall|j: int|
            0 <= j < uninstall_all_names(s).len() ==> removable_entry_of(
                s,
                #[trigger] uninstall_all_names(s)[j],
            ),
        forall|i: int|
            0 <= i < s.len() && (#[trigger] s[i]).1.installed && (s[i].1.extension_type
                != ExtensionType::PactRubyStandalone || s[i].0 == "pact-legacy"@)
                ==> uninstall_all_names(s).contains(s[i].0),
    decreases s.len(),
{
    if s.len() > 0 {
        let p = s.drop_last();
        law_uninstall_all_targets(p);
        let up = uninstall_all_names(p);
        let us = uninstall_all_names(s);
        assert forall|j: int| 0 <= j < us.len() implies removable_entry_of(s, #[trigger] us[j]) by {
            if j < up.len() {
                assert(us[j] == up[j]);
                let t = up[j];
                assert(removable_entry_of(p, t));
                let i = choose|i: int|
                    0 <= i < p.len() && p[i].0 == t && p[i].1.installed && (p[i].1.extension_type
                        != ExtensionType::PactRubyStandalone || p[i].0 == "pact-legacy"@);
                assert(s[i] == p[i]);
            } else {
                assert(s[s.len() - 1] == s.last());
            }
        }
        assert forall|i: int|
            0 <= i < s.len() && (#[trigger] s[i]).1.installed && (s[i].1.extension_type
                != ExtensionType::PactRubyStandalone || s[i].0 == "pact-legacy"@) implies us.contains(
            s[i].0,
        ) by {
            if i < s.len() - 1 {
                assert(s[i] == p[i]);
                let j = choose|j: int| 0 <= j < up.len() && up[j] == p[i].0;
                assert(us[j] == up[j]);
            } else {
                assert(us[us.len() - 1] == s[i].0);
            }
        }
    }
}

/// The "Type" and "Latest" columns of the listing follow the entry's kind:
/// PactFlow AI shows the latest PactFlow AI version, drift the latest drift
/// version, a pact-standalone tool the latest pact-standalone release, and an
/// external extension `-`; no kind shows another kind's version.
pub proof fn law_listing_columns(ruby: Seq<char>, ai: Seq<char>, drift: Seq<char>)
    ensures
        latest_for(ExtensionType::PactflowAi, ruby, ai, drift) == ai,
        latest_for(ExtensionType::Drift, ruby, ai, drift) == drift,
        latest_for(ExtensionType::PactRubyStandalone, ruby, ai, drift) == ruby,
        latest_for(ExtensionType::External, ruby, ai, drift) == "-"@,
        type_label_spec(ExtensionType::PactflowAi) == "PactFlow AI"@,
        type_label_spec(ExtensionType::Drift) == "Drift"@,
        type_label_spec(ExtensionType::PactRubyStandalone) == "Ruby Legacy"@,
        type_label_spec(ExtensionType::External) == "External"@,
{
}

/// The names that a pact-standalone install records: `pact-legacy` and its
/// six legacy tools.
pub open spec fn legacy_record_names() -> Seq<Seq<char>> {
    seq![
        "pact-legacy"@,
        "pact-broker-legacy"@,
        "pactflow-legacy"@,
        "message-legacy"@,
        "mock-legacy"@,
        "verifier-legacy"@,
        "stub-legacy"@,
    ]
}

/// Recording a pact-standalone install of `version` puts `pact-legacy` and
/// each of the six legacy tools into the registry as pact-standalone records
/// of that version: `pact-legacy` points at `<home>/pact-legacy`, each tool at
/// `<home>/bin/<tool><exe suffix>`, and each is installed exactly when its
/// path exists. Every other entry stays, and uninstalling `pact-legacy`
/// afterwards removes all seven names.
pub proof fn law_register_ruby_legacy_records(
    m: Map<Seq<char>, ExtensionConfigView>,
    home: Seq<char>,
    os: Seq<char>,
    version: Seq<char>,
    existing: Seq<Seq<char>>,
)
    ensures
        ({
            let r = add_legacy(m, home, os, version, existing, legacy_seq().len());
            &&& forall|i: int|
                0 <= i < legacy_record_names().len() ==> {
                    let n = #[trigger] legacy_record_names()[i];
                    let path = if i == 0 {
                        home + "/pact-legacy"@
                    } else {
                        home + "/bin/"@ + n + exe_suffix(os)
                    };
                    &&& r.contains_key(n)
                    &&& r[n].name == n
                    &&& r[n].version == version
                    &&& r[n].extension_type == ExtensionType::PactRubyStandalone
                    &&& r[n].binary_path == path
                    &&& r[n].installed == existing.contains(path)
                }
            &&& forall|k: Seq<char>|
                !legacy_record_names().contains(k) ==> (#[trigger] r.contains_key(k)
                    == m.contains_key(k) && (m.contains_key(k) ==> r[k] == m[k]))
            &&& forall|i: int|
                0 <= i < legacy_record_names().len() ==> !drop_legacy(r).contains_key(
                    #[trigger] legacy_record_names()[i],
                )
        }),
{
    reveal_strlit("pact-legacy");
    reveal_strlit("pact-broker-legacy");
    reveal_strlit("pactflow-legacy");
    reveal_strlit("message-legacy");
    reveal_strlit("mock-legacy");
    reveal_strlit("verifier-legacy");
    reveal_strlit("stub-legacy");
    reveal_with_fuel(add_legacy, 7);
    let names = legacy_record_names();
    assert forall|i: int, j: int| 0 <= i < names.len() && 0 <= j < names.len() && i != j implies names[i]
        != names[j] by {
        let a = names[i];
        let b = names[j];
        if a.len() == b.len() {
            assert(a[0] != b[0] || a[1] != b[1] || a[2] != b[2] || a[3] != b[3] || a[4] != b[4]
                || a[5] != b[5] || a[6] != b[6] || a[7] != b[7] || a[8] != b[8]);
        }
    }
    assert forall|k: int| 0 <= k < 6 implies legacy_seq()[k].1 == #[trigger] names[k + 1] by {}
    let r = add_legacy(m, home, os, version, existing, legacy_seq().len());
    assert forall|k: Seq<char>| !names.contains(k) implies (#[trigger] r.contains_key(k)
        == m.contains_key(k) && (m.contains_key(k) ==> r[k] == m[k])) by {
        assert(k != names[0]);
        assert(k != names[1]);
        assert(k != names[2]);
        assert(k != names[3]);
        assert(k != names[4]);
        assert(k != names[5]);
        assert(k != names[6]);
    }
    assert forall|i: int| 0 <= i < names.len() implies !drop_legacy(r).contains_key(
        #[trigger] names[i],
    ) by {
        assert(r.contains_key(names[i]));
        assert(r[names[i]].extension_type == ExtensionType::PactRubyStandalone);
    }
}

/// `update` reinstalls each kind of extension with its own installer and
/// leaves external extensions alone.
pub proof fn law_update_installers()
    ensures
        target_of(ExtensionType::PactflowAi) == Some(InstallTarget::PactflowAi),
        target_of(ExtensionType::Drift) == Some(InstallTarget::Drift),
        target_of(ExtensionType::PactRubyStandalone) == Some(InstallTarget::RubyLegacy),
        target_of(ExtensionType::External) == None::<InstallTarget>,
{
}

} // verus!
