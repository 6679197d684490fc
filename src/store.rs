//! The State Store: pane names and running commands, rebuilt in full from
//! each manifest.
use vstd::prelude::*;
use std::collections::BTreeMap;
use vstd::std_specs::iter::IteratorSpec;
use crate::pane::{Manifest, PaneDescriptor, flat, lemma_flat_take, key_for, pane_key, key_id_text, key_identifier, pane_id_text, lemma_key_id};

verus! {

broadcast use vstd::std_specs::btree::group_btree_axioms;

/// Titles by store key; a later pane with the same key wins.
pub open spec fn names_of(s: Seq<PaneDescriptor>) -> Map<u64, String>
    decreases s.len(),
{
    if s.len() == 0 {
        Map::empty()
    } else {
        names_of(s.drop_last()).insert(pane_key(s.last()), s.last().title)
    }
}

/// Running commands by store key, for the panes that report one; a later
/// pane with the same key and a command wins.
pub open spec fn commands_of(s: Seq<PaneDescriptor>) -> Map<u64, String>
    decreases s.len(),
{
    if s.len() == 0 {
        Map::empty()
    } else {
        match s.last().command {
            Some(c) => commands_of(s.drop_last()).insert(pane_key(s.last()), c),
            None => commands_of(s.drop_last()),
        }
    }
}

/// The store keys of the panes in `s`.
pub open spec fn keys_of(s: Seq<PaneDescriptor>) -> Set<u64> {
    Set::new(|k: u64| exists|i: int| 0 <= i < s.len() && pane_key(s[i]) == k)
}

/// The identifiers of the panes in `s`.
pub open spec fn ids_of(s: Seq<PaneDescriptor>) -> Set<Seq<char>> {
    Set::new(
        |id: Seq<char>|
            exists|i: int| 0 <= i < s.len() && pane_id_text(s[i].is_plugin, s[i].index as nat) == id,
    )
}

/// The names cover exactly the panes of `s`; the commands no more than those.
pub proof fn lemma_store_keys(s: Seq<PaneDescriptor>)
    ensures
        names_of(s).dom() == keys_of(s),
        commands_of(s).dom().subset_of(keys_of(s)),
    decreases s.len(),
{
    if s.len() > 0 {
        let p = s.drop_last();
        lemma_store_keys(p);
        assert forall|k: u64| keys_of(s).contains(k) <==> (keys_of(p).contains(k) || k == pane_key(s.last())) by {
            if keys_of(s).contains(k) {
                let i = choose|i: int| 0 <= i < s.len() && pane_key(s[i]) == k;
                if i < p.len() {
                    assert(p[i] == s[i]);
                }
            }
            if keys_of(p).contains(k) {
                let i = choose|i: int| 0 <= i < p.len() && pane_key(p[i]) == k;
                assert(s[i] == p[i]);
            }
            if k == pane_key(s.last()) {
                assert(pane_key(s[s.len() - 1]) == k);
            }
        }
        assert(names_of(s).dom() =~= keys_of(s));
    }
}

/// The pane names and commands of the most recent manifest, and that manifest.
/// Both maps are keyed by `key_of(is_plugin, index)`, which stands for the
/// pane identifier `key_id_text(key)`.
#[derive(Debug, Clone)]
pub struct PaneStore {
    pub names: BTreeMap<u64, String>,
    pub commands: BTreeMap<u64, String>,
    pub last_manifest: Option<Manifest>,
}

/// The exported document: each stored name under its pane identifier, and
/// the time of export in seconds since the Unix epoch.
#[derive(Debug, Clone, PartialEq, Eq)]
pub struct Snapshot {
    pub panes: Vec<(String, String)>,
    pub timestamp: u64,
}

/// Whether `pairs` holds the entries of `names` in the order of `keys`,
/// each under its identifier, where `keys` lists every key of `names`.
pub open spec fn lists_names(pairs: Seq<(String, String)>, names: Map<u64, String>, keys: Seq<u64>) -> bool {
    &&& pairs.len() == keys.len()
    &&& keys.len() == names.dom().len()
    &&& forall|i: int|
        #![trigger keys[i]]
        0 <= i < keys.len() ==> names.contains_key(keys[i]) && pairs[i].0@ == key_id_text(keys[i])
            && pairs[i].1 == names[keys[i]]
    &&& forall|k: u64| #![trigger names.contains_key(k)] names.contains_key(k) ==> keys.contains(k)
}

impl PaneStore {
    /// Whether the names and commands are those of manifest `m`.
    pub open spec fn reflects(&self, m: &Manifest) -> bool {
        &&& self.names@ == names_of(m.panes())
        &&& self.commands@ == commands_of(m.panes())
    }

    /// An empty store that has seen no manifest.
    pub fn new() -> (r: PaneStore)
        ensures
            r.names@ == Map::<u64, String>::empty(),
            r.commands@ == Map::<u64, String>::empty(),
            r.last_manifest is None,
    {
        PaneStore { names: BTreeMap::new(), commands: BTreeMap::new(), last_manifest: None }
    }

    /// The snapshot of the stored names, stamped with `timestamp`.
    pub fn snapshot(&self, timestamp: u64) -> (r: Snapshot)
        ensures
            exists|keys: Seq<u64>| #[trigger] lists_names(r.panes@, self.names@, keys),
            r.timestamp == timestamp,
    {
        let mut panes: Vec<(String, String)> = Vec::new();
        let ghost all = self.names.iter().remaining();
        for kv in it: self.names.iter()
            invariant
                all == it.seq(),
                panes@.len() == it.index(),
                forall|i: int|
                    0 <= i < panes@.len() ==> panes@[i].0@ == key_id_text(*all[i].0) && panes@[i].1
                        == *all[i].1,
        {
            let (k, v) = kv;
            panes.push((key_identifier(*k), v.clone()));
        }
        let ghost keys = all.map_values(|kv: (&u64, &String)| *kv.0);
        proof {
            let m = self.names@;
            assert forall|k: u64| #![trigger m.contains_key(k)] m.contains_key(k) implies keys.contains(k) by {
                assert(all.contains((&k, &m[k])));
                let i = choose|i: int| 0 <= i < all.len() && all[i] == (&k, &m[k]);
                assert(keys[i] == k);
            }
            assert(lists_names(panes@, m, keys));
        }
        let r = Snapshot { panes, timestamp };
        assert(lists_names(r.panes@, self.names@, keys));
        r
    }

    /// Replaces the names and commands with those of `m`: nothing of the
    /// previous contents survives.
    pub fn reconcile(&mut self, m: &Manifest)
        ensures
            final(self).reflects(m),
            final(self).names@.dom() == keys_of(m.panes()),
            final(self).last_manifest == old(self).last_manifest,
    {
        self.names.clear();
        self.commands.clear();
        let ghost tabs = m.tab_seqs();
        let mut t: usize = 0;
        while t < m.tabs.len()
            invariant
                tabs == m.tab_seqs(),
                t <= m.tabs@.len(),
                self.names@ == names_of(flat(tabs.take(t as int))),
                self.commands@ == commands_of(flat(tabs.take(t as int))),
                self.last_manifest == old(self).last_manifest,
            decreases m.tabs@.len() - t,
        {
            let tab = &m.tabs[t];
            let ghost done = flat(tabs.take(t as int));
            let mut j: usize = 0;
            while j < tab.len()
                invariant
                    tabs == m.tab_seqs(),
                    t < m.tabs@.len(),
                    tab@ == tabs[t as int],
                    j <= tab@.len(),
                    done == flat(tabs.take(t as int)),
                    self.names@ == names_of(done + tab@.take(j as int)),
                    self.commands@ == commands_of(done + tab@.take(j as int)),
                    self.last_manifest == old(self).last_manifest,
                decreases tab@.len() - j,
            {
                let d = &tab[j];
                let key = key_for(d.is_plugin, d.index);
                self.names.insert(key, d.title.clone());
                match &d.command {
                    Some(c) => {
                        self.commands.insert(key, c.clone());
                    },
                    None => {},
                }
                proof {
                    let q = done + tab@.take(j + 1);
                    assert(q.drop_last() =~= done + tab@.take(j as int));
                    assert(q.last() == *d);
                }
                j += 1;
            }
            proof {
                lemma_flat_take(tabs, t as int);
                assert(tab@.take(tab@.len() as int) =~= tab@);
            }
            t += 1;
        }
        proof {
            assert(tabs.take(tabs.len() as int) =~= tabs);
            lemma_store_keys(m.panes());
        }
    }
}

/// The snapshot of an empty store lists no pane.
pub proof fn law_empty_snapshot(pairs: Seq<(String, String)>, keys: Seq<u64>)
    requires
        lists_names(pairs, Map::<u64, String>::empty(), keys),
    ensures
        pairs.len() == 0,
{
    assert(Map::<u64, String>::empty().dom() =~= Set::<u64>::empty());
}

/// After reconciliation with `m`, the identifiers of the stored names are
/// exactly the identifiers of the panes of `m`.
pub proof fn law_names_match_manifest(store: PaneStore, m: Manifest)
    requires
        store.reflects(&m),
    ensures
        store.names@.dom().map(|k: u64| key_id_text(k)) == ids_of(m.panes()),
{
    let s = m.panes();
    lemma_store_keys(s);
    let lhs = store.names@.dom().map(|k: u64| key_id_text(k));
    assert forall|id: Seq<char>| lhs.contains(id) <==> ids_of(s).contains(id) by {
        if lhs.contains(id) {
            let k = choose|k: u64| store.names@.dom().contains(k) && key_id_text(k) == id;
            let i = choose|i: int| 0 <= i < s.len() && pane_key(s[i]) == k;
            lemma_key_id(s[i].is_plugin, s[i].index);
        }
        if ids_of(s).contains(id) {
            let i = choose|i: int|
                0 <= i < s.len() && pane_id_text(s[i].is_plugin, s[i].index as nat) == id;
            lemma_key_id(s[i].is_plugin, s[i].index);
            assert(keys_of(s).contains(pane_key(s[i])));
            assert(lhs.contains(key_id_text(pane_key(s[i]))));
        }
    }
    assert(lhs =~= ids_of(s));
}

/// Reconciling with the same manifest twice gives the same names and
/// commands, whatever the store held before.
pub proof fn law_reconcile_idempotent(first: PaneStore, second: PaneStore, m: Manifest)
    requires
        first.reflects(&m),
        second.reflects(&m),
    ensures
        first.names@ == second.names@,
        first.commands@ == second.commands@,
{
}

} // verus!
