//! The Capture Director: which panes to dump and which names to link.
use vstd::prelude::*;
use std::collections::BTreeMap;
use crate::pane::{Manifest, PaneDescriptor, flat, lemma_flat_take, key_of, key_for, pane_key, pane_id_text, pane_identifier};
use crate::text::{decimal, push_decimal, sanitized, is_link_name, is_default_name, sanitize_name, link_worthy, dump_command_text, link_command_text, dump_command, link_command};
use vstd::string::*;

verus! {

broadcast use vstd::std_specs::btree::group_btree_axioms;

/// A command the host is asked to run; failures are never reported back.
#[derive(Debug, Clone, PartialEq, Eq)]
pub enum CaptureRequest {
    /// Dump the content of pane `index` to its numbered file.
    Dump { index: u32 },
    /// Point the file named after `name` at the dump of pane `index`.
    Link { index: u32, name: String },
}

/// What a capture request asks for.
pub enum RequestModel {
    Dump { index: nat },
    Link { index: nat, name: Seq<char> },
}

impl View for CaptureRequest {
    type V = RequestModel;

    open spec fn view(&self) -> RequestModel {
        match self {
            CaptureRequest::Dump { index } => RequestModel::Dump { index: *index as nat },
            CaptureRequest::Link { index, name } => RequestModel::Link {
                index: *index as nat,
                name: name@,
            },
        }
    }
}

/// The shell line that carries out a request.
pub open spec fn request_text(q: RequestModel) -> Seq<char> {
    match q {
        RequestModel::Dump { index } => dump_command_text(index),
        RequestModel::Link { index, name } => link_command_text(index, name),
    }
}

impl CaptureRequest {
    /// Builds the shell line for this request.
    pub fn command_line(&self) -> (r: String)
        ensures
            r@ == request_text(self@),
    {
        match self {
            CaptureRequest::Dump { index } => dump_command(*index),
            CaptureRequest::Link { index, name } => link_command(*index, name.as_str()),
        }
    }
}

/// The views of a sequence of requests.
pub open spec fn request_views(qs: Seq<CaptureRequest>) -> Seq<RequestModel> {
    qs.map_values(|q: CaptureRequest| q@)
}

/// The link name of terminal pane `index`, if its stored name sanitizes to
/// one worth linking.
pub open spec fn link_name(names: Map<u64, String>, index: u32) -> Option<Seq<char>> {
    let key = key_of(false, index);
    if names.contains_key(key) && is_link_name(sanitized(names[key]@)) {
        Some(sanitized(names[key]@))
    } else {
        None
    }
}

/// The requests for one pane: none for a plugin; for a terminal pane a
/// dump, then a link when it has a name worth linking.
pub open spec fn pane_requests(names: Map<u64, String>, d: PaneDescriptor) -> Seq<RequestModel> {
    if d.is_plugin {
        Seq::empty()
    } else {
        let dump = seq![RequestModel::Dump { index: d.index as nat }];
        match link_name(names, d.index) {
            Some(n) => dump.push(RequestModel::Link { index: d.index as nat, name: n }),
            None => dump,
        }
    }
}

/// The requests of an auto-capture pass over `s`, pane by pane.
pub open spec fn auto_requests(names: Map<u64, String>, s: Seq<PaneDescriptor>) -> Seq<RequestModel>
    decreases s.len(),
{
    if s.len() == 0 {
        Seq::empty()
    } else {
        auto_requests(names, s.drop_last()) + pane_requests(names, s.last())
    }
}

/// The requests of an auto-capture pass over the panes of `m`, given the
/// stored `names`.
pub fn auto_capture(names: &BTreeMap<u64, String>, m: &Manifest) -> (r: Vec<CaptureRequest>)
    ensures
        request_views(r@) == auto_requests(names@, m.panes()),
{
    let mut out: Vec<CaptureRequest> = Vec::new();
    let ghost tabs = m.tab_seqs();
    let mut t: usize = 0;
    while t < m.tabs.len()
        invariant
            tabs == m.tab_seqs(),
            t <= m.tabs@.len(),
            request_views(out@) == auto_requests(names@, flat(tabs.take(t as int))),
        decreases m.tabs@.len() - t,
    {
        let tab = &m.tabs[t];
        let ghost done = flat(tabs.take(t as int));
        let mut j: usize = 0;
        while j < tab.len()
            invariant
                tabs == m.tab_seqs(),
                t < m.tabs@.len(),
                tab@ == tabs[t as int],
                j <= tab@.len(),
                done == flat(tabs.take(t as int)),
                request_views(out@) == auto_requests(names@, done + tab@.take(j as int)),
            decreases tab@.len() - j,
        {
            let d = &tab[j];
            let ghost before = request_views(out@);
            if !d.is_plugin {
                out.push(CaptureRequest::Dump { index: d.index });
                let key = key_for(false, d.index);
                match names.get(&key) {
                    Some(name) => {
                        let safe = sanitize_name(name.as_str());
                        if link_worthy(safe.as_str()) {
                            out.push(CaptureRequest::Link { index: d.index, name: safe });
                        }
                    },
                    None => {},
                }
            }
            proof {
                let q = done + tab@.take(j + 1);
                assert(q.drop_last() =~= done + tab@.take(j as int));
                assert(q.last() == *d);
                assert(request_views(out@) =~= before + pane_requests(names@, *d));
            }
            j += 1;
        }
        proof {
            lemma_flat_take(tabs, t as int);
            assert(tab@.take(tab@.len() as int) =~= tab@);
        }
        t += 1;
    }
    proof {
        assert(tabs.take(tabs.len() as int) =~= tabs);
    }
    out
}

/// A pass over plugin panes alone asks for nothing.
pub proof fn law_plugins_request_nothing(names: Map<u64, String>, s: Seq<PaneDescriptor>)
    requires
        forall|i: int| 0 <= i < s.len() ==> s[i].is_plugin,
    ensures
        auto_requests(names, s) == Seq::<RequestModel>::empty(),
    decreases s.len(),
{
    if s.len() > 0 {
        law_plugins_request_nothing(names, s.drop_last());
        assert(s.last().is_plugin);
        assert(auto_requests(names, s) =~= Seq::<RequestModel>::empty());
    }
}

/// Every link asked for has a name that is not empty and does not start
/// with the host's default prefix `Pane-`.
pub proof fn law_links_have_chosen_names(names: Map<u64, String>, s: Seq<PaneDescriptor>)
    ensures
        forall|i: int|
            0 <= i < auto_requests(names, s).len() ==> match #[trigger] auto_requests(names, s)[i] {
                RequestModel::Link { index, name } => name.len() > 0 && !is_default_name(name),
                RequestModel::Dump { index } => true,
            },
    decreases s.len(),
{
    if s.len() > 0 {
        let p = s.drop_last();
        law_links_have_chosen_names(names, p);
        let a = auto_requests(names, p);
        let b = pane_requests(names, s.last());
        assert forall|i: int| 0 <= i < auto_requests(names, s).len() implies match #[trigger] auto_requests(names, s)[i] {
            RequestModel::Link { index, name } => name.len() > 0 && !is_default_name(name),
            RequestModel::Dump { index } => true,
        } by {
            if i < a.len() {
                assert(auto_requests(names, s)[i] == a[i]);
            } else {
                assert(auto_requests(names, s)[i] == b[i - a.len()]);
            }
        }
    }
}

/// One pane's line in the metadata document.
#[derive(Debug, Clone, PartialEq, Eq)]
pub struct CaptureEntry {
    pub pane_id: String,
    pub name: String,
    pub command: Option<String>,
    pub is_focused: bool,
    pub is_floating: bool,
    pub coordinates: String,
}

/// What a metadata line holds.
pub struct EntryModel {
    pub pane_id: Seq<char>,
    pub name: Seq<char>,
    pub command: Option<Seq<char>>,
    pub is_focused: bool,
    pub is_floating: bool,
    pub coordinates: Seq<char>,
}

impl View for CaptureEntry {
    type V = EntryModel;

    open spec fn view(&self) -> EntryModel {
        EntryModel {
            pane_id: self.pane_id@,
            name: self.name@,
            command: match self.command {
                Some(c) => Some(c@),
                None => None,
            },
            is_focused: self.is_focused,
            is_floating: self.is_floating,
            coordinates: self.coordinates@,
        }
    }
}

/// Geometry written as `WxH at (X,Y)`.
pub open spec fn geometry_text(columns: nat, rows: nat, x: nat, y: nat) -> Seq<char> {
    decimal(columns) + "x"@ + decimal(rows) + " at ("@ + decimal(x) + ","@ + decimal(y) + ")"@
}

/// The metadata line of pane `d`: its stored name (empty when there is
/// none), its stored command, its flags and its geometry.
pub open spec fn entry_for(
    names: Map<u64, String>,
    commands: Map<u64, String>,
    d: PaneDescriptor,
) -> EntryModel {
    let k = pane_key(d);
    EntryModel {
        pane_id: pane_id_text(d.is_plugin, d.index as nat),
        name: if names.contains_key(k) { names[k]@ } else { Seq::empty() },
        command: if commands.contains_key(k) { Some(commands[k]@) } else { None },
        is_focused: d.is_focused,
        is_floating: d.is_floating,
        coordinates: geometry_text(d.columns as nat, d.rows as nat, d.x as nat, d.y as nat),
    }
}

/// The metadata lines of the panes `s`, one per pane, plugins included.
pub open spec fn capture_entries(
    names: Map<u64, String>,
    commands: Map<u64, String>,
    s: Seq<PaneDescriptor>,
) -> Seq<EntryModel> {
    s.map_values(|d: PaneDescriptor| entry_for(names, commands, d))
}

/// The views of a sequence of metadata lines.
pub open spec fn entry_views(es: Seq<CaptureEntry>) -> Seq<EntryModel> {
    es.map_values(|e: CaptureEntry| e@)
}

/// Builds `geometry_text` of the given geometry.
pub fn geometry(columns: usize, rows: usize, x: usize, y: usize) -> (r: String)
    ensures
        r@ == geometry_text(columns as nat, rows as nat, x as nat, y as nat),
{
    let mut s = String::new();
    push_decimal(&mut s, columns as u64);
    s.append("x");
    push_decimal(&mut s, rows as u64);
    s.append(" at (");
    push_decimal(&mut s, x as u64);
    s.append(",");
    push_decimal(&mut s, y as u64);
    s.append(")");
    assert(s@ =~= geometry_text(columns as nat, rows as nat, x as nat, y as nat));
    s
}

/// Builds the metadata line of pane `d`.
pub fn entry(names: &BTreeMap<u64, String>, commands: &BTreeMap<u64, String>, d: &PaneDescriptor) -> (r: CaptureEntry)
    ensures
        r@ == entry_for(names@, commands@, *d),
{
    let key = key_for(d.is_plugin, d.index);
    let name = match names.get(&key) {
        Some(n) => n.clone(),
        None => String::new(),
    };
    let command = match commands.get(&key) {
        Some(c) => Some(c.clone()),
        None => None,
    };
    CaptureEntry {
        pane_id: pane_identifier(d.is_plugin, d.index),
        name,
        command,
        is_focused: d.is_focused,
        is_floating: d.is_floating,
        coordinates: geometry(d.columns, d.rows, d.x, d.y),
    }
}

/// The metadata lines of every pane of `m`, in manifest order.
pub fn capture_metadata(names: &BTreeMap<u64, String>, commands: &BTreeMap<u64, String>, m: &Manifest) -> (r: Vec<CaptureEntry>)
    ensures
        entry_views(r@) == capture_entries(names@, commands@, m.panes()),
{
    let mut out: Vec<CaptureEntry> = Vec::new();
    let ghost tabs = m.tab_seqs();
    let mut t: usize = 0;
    while t < m.tabs.len()
        invariant
            tabs == m.tab_seqs(),
            t <= m.tabs@.len(),
            entry_views(out@) == capture_entries(names@, commands@, flat(tabs.take(t as int))),
        decreases m.tabs@.len() - t,
    {
        let tab = &m.tabs[t];
        let ghost done = flat(tabs.take(t as int));
        let mut j: usize = 0;
        while j < tab.len()
            invariant
                tabs == m.tab_seqs(),
                t < m.tabs@.len(),
                tab@ == tabs[t as int],
                j <= tab@.len(),
                done == flat(tabs.take(t as int)),
                entry_views(out@) == capture_entries(names@, commands@, done + tab@.take(j as int)),
            decreases tab@.len() - j,
        {
            let ghost before = out@;
            let e = entry(names, commands, &tab[j]);
            let ghost ev = e@;
            out.push(e);
            proof {
                assert(entry_views(out@) =~= entry_views(before).push(ev));
                let q = done + tab@.take(j + 1);
                assert(q =~= (done + tab@.take(j as int)).push(tab@[j as int]));
                assert(entry_views(out@) =~= capture_entries(names@, commands@, q));
            }
            j += 1;
        }
        proof {
            lemma_flat_take(tabs, t as int);
            assert(tab@.take(tab@.len() as int) =~= tab@);
        }
        t += 1;
    }
    proof {
        assert(tabs.take(tabs.len() as int) =~= tabs);
    }
    out
}

/// The outcome of a full capture: the metadata lines to write, then the
/// requests of an auto-capture pass.
#[derive(Debug, Clone)]
pub struct FullCapture {
    pub entries: Vec<CaptureEntry>,
    pub requests: Vec<CaptureRequest>,
}

/// A full capture of `m`: a metadata line for every pane, then the
/// auto-capture requests.
pub fn full_capture(names: &BTreeMap<u64, String>, commands: &BTreeMap<u64, String>, m: &Manifest) -> (r: FullCapture)
    ensures
        entry_views(r.entries@) == capture_entries(names@, commands@, m.panes()),
        request_views(r.requests@) == auto_requests(names@, m.panes()),
{
    let entries = capture_metadata(names, commands, m);
    let requests = auto_capture(names, m);
    FullCapture { entries, requests }
}

/// A full capture of a manifest without panes yields an empty metadata
/// sequence and no requests.
pub proof fn law_full_capture_of_nothing(names: Map<u64, String>, commands: Map<u64, String>, m: Manifest)
    requires
        m.panes().len() == 0,
    ensures
        capture_entries(names, commands, m.panes()) == Seq::<EntryModel>::empty(),
        auto_requests(names, m.panes()) == Seq::<RequestModel>::empty(),
{
    assert(capture_entries(names, commands, m.panes()) =~= Seq::<EntryModel>::empty());
}

} // verus!
