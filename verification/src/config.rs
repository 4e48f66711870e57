//! Extension records and the registry that maps extension names to them
//! (the contents of `config.json`).
use vstd::prelude::*;

use crate::text::str_eq;

verus! {

/// The kinds of extension the tool knows how to install and run.
#[derive(Clone, Copy, Debug, PartialEq, Eq, Structural)]
pub enum ExtensionType {
    Drift,
    PactflowAi,
    PactRubyStandalone,
    External,
}

/// One registry record.
#[derive(Debug, Clone)]
pub struct ExtensionConfig {
    pub name: String,
    pub version: String,
    pub binary_path: String,
    pub extension_type: ExtensionType,
    pub installed: bool,
}

/// The mathematical content of an [`ExtensionConfig`].
pub struct ExtensionConfigView {
    pub name: Seq<char>,
    pub version: Seq<char>,
    pub binary_path: Seq<char>,
    pub extension_type: ExtensionType,
    pub installed: bool,
}

impl View for ExtensionConfig {
    type V = ExtensionConfigView;

    open spec fn view(&self) -> ExtensionConfigView {
        ExtensionConfigView {
            name: self.name@,
            version: self.version@,
            binary_path: self.binary_path@,
            extension_type: self.extension_type,
            installed: self.installed,
        }
    }
}

impl ExtensionConfig {
    /// A field-by-field copy.
    pub fn duplicate(&self) -> (r: ExtensionConfig)
        ensures
            r@ == self@,
    {
        ExtensionConfig {
            name: self.name.clone(),
            version: self.version.clone(),
            binary_path: self.binary_path.clone(),
            extension_type: self.extension_type,
            installed: self.installed,
        }
    }
}

/// The map that a sequence of `(key, value)` entries denotes, later entries
/// taking precedence.
pub open spec fn entries_map<K, V>(s: Seq<(K, V)>) -> Map<K, V>
    decreases s.len(),
{
    if s.len() == 0 {
        Map::empty()
    } else {
        entries_map(s.drop_last()).insert(s.last().0, s.last().1)
    }
}

/// No key occurs twice.
pub open spec fn keys_distinct<K, V>(s: Seq<(K, V)>) -> bool {
    forall|i: int, j: int| 0 <= i < s.len() && 0 <= j < s.len() && i != j ==> s[i].0 != s[j].0
}

/// With distinct keys, the map holds exactly the keys of the entries, each with
/// its entry's value.
pub proof fn lemma_entries_map<K, V>(s: Seq<(K, V)>)
    requires
        keys_distinct(s),
    ensures
        forall|k: K| #[trigger]
            entries_map(s).contains_key(k) <==> exists|i: int| 0 <= i < s.len() && s[i].0 == k,
        forall|i: int| 0 <= i < s.len() ==> entries_map(s)[#[trigger] s[i].0] == s[i].1,
    decreases s.len(),
{
    if s.len() > 0 {
        let p = s.drop_last();
        assert(keys_distinct(p));
        lemma_entries_map(p);
        assert forall|k: K| #[trigger]
            entries_map(s).contains_key(k) <==> exists|i: int| 0 <= i < s.len() && s[i].0 == k by {
            if entries_map(s).contains_key(k) {
                if k == s.last().0 {
                    assert(s[s.len() - 1].0 == k);
                } else {
                    assert(entries_map(s) == entries_map(p).insert(s.last().0, s.last().1));
                    assert(entries_map(p).contains_key(k));
                    let i = choose|i: int| 0 <= i < p.len() && p[i].0 == k;
                    assert(p[i] == s[i]);
                    assert(s[i].0 == k);
                }
            }
            if exists|i: int| 0 <= i < s.len() && s[i].0 == k {
                let i = choose|i: int| 0 <= i < s.len() && s[i].0 == k;
                assert(entries_map(s) == entries_map(p).insert(s.last().0, s.last().1));
                if i < s.len() - 1 {
                    assert(p[i] == s[i]);
                    assert(p[i].0 == k);
                    assert(entries_map(p).contains_key(k));
                }
            }
        }
        assert forall|i: int| 0 <= i < s.len() implies entries_map(s)[#[trigger] s[i].0]
            == s[i].1 by {
            if i < s.len() - 1 {
                assert(p[i] == s[i]);
                assert(s[i].0 != s[s.len() - 1].0);
            }
        }
    }
}

/// Dropping entry `i` drops its key from the map.
pub proof fn lemma_entries_map_remove<K, V>(s: Seq<(K, V)>, i: int)
    requires
        keys_distinct(s),
        0 <= i < s.len(),
    ensures
        keys_distinct(s.remove(i)),
        entries_map(s.remove(i)) == entries_map(s).remove(s[i].0),
{
    let r = s.remove(i);
    assert forall|a: int, b: int| 0 <= a < r.len() && 0 <= b < r.len() && a != b implies r[a].0
        != r[b].0 by {
        let a2 = if a < i {
            a
        } else {
            a + 1
        };
        let b2 = if b < i {
            b
        } else {
            b + 1
        };
        assert(r[a] == s[a2]);
        assert(r[b] == s[b2]);
    }
    lemma_entries_map(s);
    lemma_entries_map(r);
    let m = entries_map(s).remove(s[i].0);
    assert forall|k: K| #[trigger] entries_map(r).contains_key(k) <==> m.contains_key(k) by {
        if entries_map(r).contains_key(k) {
            let j = choose|j: int| 0 <= j < r.len() && r[j].0 == k;
            let j2 = if j < i {
                j
            } else {
                j + 1
            };
            assert(s[j2].0 == k);
        }
        if m.contains_key(k) {
            let j = choose|j: int| 0 <= j < s.len() && s[j].0 == k;
            assert(j != i);
            let j2 = if j < i {
                j
            } else {
                j - 1
            };
            assert(r[j2].0 == k);
        }
    }
    assert forall|k: K| #[trigger] entries_map(r).contains_key(k) implies entries_map(r)[k]
        == m[k] by {
        let j = choose|j: int| 0 <= j < r.len() && r[j].0 == k;
        let j2 = if j < i {
            j
        } else {
            j + 1
        };
        assert(r[j] == s[j2]);
        assert(entries_map(r)[r[j].0] == r[j].1);
        assert(entries_map(s)[s[j2].0] == s[j2].1);
    }
    assert(entries_map(r) =~= m);
}

/// Replacing the value of entry `i` replaces it in the map.
pub proof fn lemma_entries_map_update<K, V>(s: Seq<(K, V)>, i: int, v: V)
    requires
        keys_distinct(s),
        0 <= i < s.len(),
    ensures
        keys_distinct(s.update(i, (s[i].0, v))),
        entries_map(s.update(i, (s[i].0, v))) == entries_map(s).insert(s[i].0, v),
{
    let r = s.update(i, (s[i].0, v));
    assert forall|a: int, b: int| 0 <= a < r.len() && 0 <= b < r.len() && a != b implies r[a].0
        != r[b].0 by {
        assert(r[a].0 == s[a].0);
        assert(r[b].0 == s[b].0);
    }
    lemma_entries_map(s);
    lemma_entries_map(r);
    let m = entries_map(s).insert(s[i].0, v);
    assert forall|k: K| #[trigger] entries_map(r).contains_key(k) <==> m.contains_key(k) by {
        if entries_map(r).contains_key(k) {
            let j = choose|j: int| 0 <= j < r.len() && r[j].0 == k;
            assert(s[j].0 == k);
        }
        if m.contains_key(k) && k != s[i].0 {
            let j = choose|j: int| 0 <= j < s.len() && s[j].0 == k;
            assert(r[j].0 == k);
        }
        if k == s[i].0 {
            assert(r[i].0 == k);
        }
    }
    assert forall|k: K| #[trigger] entries_map(r).contains_key(k) implies entries_map(r)[k]
        == m[k] by {
        let j = choose|j: int| 0 <= j < r.len() && r[j].0 == k;
        assert(entries_map(r)[r[j].0] == r[j].1);
        if j != i {
            assert(r[j] == s[j]);
            assert(entries_map(s)[s[j].0] == s[j].1);
        }
    }
    assert(entries_map(r) =~= m);
}

/// The extension registry: extension names mapped to their records. It keeps
/// its entries in the order they were first added.
pub struct ExtensionRegistry {
    entries: Vec<(String, ExtensionConfig)>,
}

impl View for ExtensionRegistry {
    type V = Map<Seq<char>, ExtensionConfigView>;

    open spec fn view(&self) -> Map<Seq<char>, ExtensionConfigView> {
        entries_map(self.entry_seq())
    }
}

impl ExtensionRegistry {
    /// The entries in order, as plain values.
    pub closed spec fn entry_seq(&self) -> Seq<(Seq<char>, ExtensionConfigView)> {
        self.entries@.map_values(|e: (String, ExtensionConfig)| (e.0@, e.1@))
    }

    /// Well-formedness: no name occurs twice.
    pub open spec fn wf(&self) -> bool {
        keys_distinct(self.entry_seq())
    }

    /// The empty registry.
    pub fn new() -> (r: ExtensionRegistry)
        ensures
            r.wf(),
            r@ == Map::<Seq<char>, ExtensionConfigView>::empty(),
            r.entry_seq() == Seq::<(Seq<char>, ExtensionConfigView)>::empty(),
    {
        let r = ExtensionRegistry { entries: Vec::new() };
        assert(r.entry_seq() =~= Seq::<(Seq<char>, ExtensionConfigView)>::empty());
        r
    }

    /// The number of entries.
    pub fn len(&self) -> (r: usize)
        ensures
            r == self.entry_seq().len(),
    {
        self.entries.len()
    }

    /// The name of entry `i`.
    pub fn key_at(&self, i: usize) -> (r: &String)
        requires
            i < self.entry_seq().len(),
        ensures
            r@ == self.entry_seq()[i as int].0,
    {
        &self.entries[i].0
    }

    /// The record of entry `i`.
    pub fn config_at(&self, i: usize) -> (r: &ExtensionConfig)
        requires
            i < self.entry_seq().len(),
        ensures
            r@ == self.entry_seq()[i as int].1,
    {
        &self.entries[i].1
    }

    /// The position of `key` among the entries, if it is there.
    pub fn find(&self, key: &str) -> (r: Option<usize>)
        ensures
            r matches Some(i) ==> i < self.entry_seq().len() && self.entry_seq()[i as int].0
                == key@,
            r is None ==> forall|i: int|
                0 <= i < self.entry_seq().len() ==> #[trigger] self.entry_seq()[i].0 != key@,
    {
        let n = self.entries.len();
        let mut i: usize = 0;
        while i < n
            invariant
                n == self.entry_seq().len(),
                i <= n,
                forall|j: int| 0 <= j < i ==> #[trigger] self.entry_seq()[j].0 != key@,
            decreases n - i,
        {
            if str_eq(self.entries[i].0.as_str(), key) {
                return Some(i);
            }
            i = i + 1;
        }
        None
    }

    /// `HashMap::contains_key`.
    pub fn contains_key(&self, key: &str) -> (r: bool)
        requires
            self.wf(),
        ensures
            r == self@.contains_key(key@),
    {
        proof {
            lemma_entries_map(self.entry_seq());
        }
        self.find(key).is_some()
    }

    /// `HashMap::get`.
    pub fn get(&self, key: &str) -> (r: Option<&ExtensionConfig>)
        requires
            self.wf(),
        ensures
            r is Some <==> self@.contains_key(key@),
            r matches Some(c) ==> c@ == self@[key@],
    {
        proof {
            lemma_entries_map(self.entry_seq());
        }
        match self.find(key) {
            Some(i) => Some(&self.entries[i].1),
            None => None,
        }
    }

    /// `HashMap::insert`: a new name is added after the others, a known one
    /// keeps its place and gets the new record.
    pub fn insert(&mut self, key: String, value: ExtensionConfig)
        requires
            old(self).wf(),
        ensures
            final(self).wf(),
            final(self)@ == old(self)@.insert(key@, value@),
    {
        let ghost s = self.entry_seq();
        match self.find(key.as_str()) {
            Some(i) => {
                let ghost v = value@;
                self.entries.set(i, (key, value));
                proof {
                    lemma_entries_map_update(s, i as int, v);
                    assert(self.entry_seq() =~= s.update(i as int, (s[i as int].0, v)));
                }
            },
            None => {
                let ghost e = (key@, value@);
                self.entries.push((key, value));
                proof {
                    assert(self.entry_seq() =~= s.push(e));
                    assert(self.entry_seq().drop_last() =~= s);
                    assert forall|a: int, b: int|
                        0 <= a < self.entry_seq().len() && 0 <= b < self.entry_seq().len() && a
                            != b implies self.entry_seq()[a].0 != self.entry_seq()[b].0 by {
                        if a < s.len() && b < s.len() {
                            assert(self.entry_seq()[a] == s[a]);
                            assert(self.entry_seq()[b] == s[b]);
                        } else if a < s.len() {
                            assert(self.entry_seq()[a] == s[a]);
                        } else if b < s.len() {
                            assert(self.entry_seq()[b] == s[b]);
                        }
                    }
                }
            },
        }
    }

    /// `HashMap::remove` (the removed record is not handed back).
    pub fn remove(&mut self, key: &str)
        requires
            old(self).wf(),
        ensures
            final(self).wf(),
            final(self)@ == old(self)@.remove(key@),
    {
        let ghost s = self.entry_seq();
        match self.find(key) {
            Some(i) => {
                self.entries.remove(i);
                proof {
                    lemma_entries_map_remove(s, i as int);
                    assert(self.entry_seq() =~= s.remove(i as int));
                }
            },
            None => {
                proof {
                    lemma_entries_map(s);
                    assert(!self@.contains_key(key@));
                    assert(self@ =~= self@.remove(key@));
                }
            },
        }
    }
}

} // verus!
