//! Panes as the host reports them, and the identifiers the tracker gives them.
use vstd::prelude::*;
use vstd::string::*;
use crate::text::{decimal, push_decimal};

verus! {

/// One pane of the host's manifest.
#[derive(Debug, Clone, PartialEq, Eq)]
pub struct PaneDescriptor {
    pub index: u32,
    pub is_plugin: bool,
    pub is_floating: bool,
    pub is_focused: bool,
    pub title: String,
    pub command: Option<String>,
    pub columns: usize,
    pub rows: usize,
    pub x: usize,
    pub y: usize,
}

/// All panes of a session, tab by tab.
#[derive(Debug, Clone, PartialEq, Eq)]
pub struct Manifest {
    pub tabs: Vec<Vec<PaneDescriptor>>,
}

/// The panes of `tabs`, one tab after the other.
pub open spec fn flat(tabs: Seq<Seq<PaneDescriptor>>) -> Seq<PaneDescriptor>
    decreases tabs.len(),
{
    if tabs.len() == 0 {
        Seq::empty()
    } else {
        flat(tabs.drop_last()) + tabs.last()
    }
}

/// Taking one more tab appends its panes.
pub proof fn lemma_flat_take(tabs: Seq<Seq<PaneDescriptor>>, t: int)
    requires
        0 <= t < tabs.len(),
    ensures
        flat(tabs.take(t + 1)) == flat(tabs.take(t)) + tabs[t],
{
    assert(tabs.take(t + 1).drop_last() =~= tabs.take(t));
}

impl Manifest {
    /// The tabs as sequences of panes.
    pub open spec fn tab_seqs(&self) -> Seq<Seq<PaneDescriptor>> {
        self.tabs@.map_values(|t: Vec<PaneDescriptor>| t@)
    }

    /// Every pane of the manifest, in the order the tabs list them.
    pub open spec fn panes(&self) -> Seq<PaneDescriptor> {
        flat(self.tab_seqs())
    }

    /// A manifest without tabs.
    pub fn empty() -> (r: Manifest)
        ensures
            r.panes() == Seq::<PaneDescriptor>::empty(),
    {
        let r = Manifest { tabs: Vec::new() };
        assert(r.tab_seqs() =~= Seq::<Seq<PaneDescriptor>>::empty());
        r
    }
}

/// The store key of a pane: its index, doubled, plus one for a plugin.
pub open spec fn key_of(is_plugin: bool, index: u32) -> u64 {
    (2 * (index as nat) + if is_plugin { 1nat } else { 0nat }) as u64
}

/// The store key of `d`.
pub open spec fn pane_key(d: PaneDescriptor) -> u64 {
    key_of(d.is_plugin, d.index)
}

/// Computes `key_of(is_plugin, index)`.
pub fn key_for(is_plugin: bool, index: u32) -> (r: u64)
    ensures
        r == key_of(is_plugin, index),
{
    2 * (index as u64) + if is_plugin { 1 } else { 0 }
}

/// The identifier of a pane of the given kind and index.
pub open spec fn pane_id_text(is_plugin: bool, index: nat) -> Seq<char> {
    (if is_plugin { "plugin_"@ } else { "terminal_"@ }) + decimal(index)
}

/// The identifier of the pane stored under `key`.
pub open spec fn key_id_text(key: u64) -> Seq<char> {
    pane_id_text(key % 2 == 1, (key / 2) as nat)
}

/// A key names the same identifier as the pane it was made from.
pub proof fn lemma_key_id(is_plugin: bool, index: u32)
    ensures
        key_id_text(key_of(is_plugin, index)) == pane_id_text(is_plugin, index as nat),
{
}

/// Builds the identifier `plugin_<index>` or `terminal_<index>`.
pub fn pane_identifier(is_plugin: bool, index: u32) -> (r: String)
    ensures
        r@ == pane_id_text(is_plugin, index as nat),
{
    let mut s = if is_plugin {
        String::from_str("plugin_")
    } else {
        String::from_str("terminal_")
    };
    push_decimal(&mut s, index as u64);
    s
}

/// Builds the identifier of the pane stored under `key`.
pub fn key_identifier(key: u64) -> (r: String)
    ensures
        r@ == key_id_text(key),
{
    let mut s = if key % 2 == 1 {
        String::from_str("plugin_")
    } else {
        String::from_str("terminal_")
    };
    push_decimal(&mut s, key / 2);
    s
}

} // verus!
