//! How the tracker reacts to what the host tells it.
use vstd::prelude::*;
use vstd::string::*;
use crate::pane::Manifest;
use crate::store::{PaneStore, Snapshot, lists_names};
use crate::capture::{CaptureEntry, CaptureRequest, auto_capture, full_capture, request_views, auto_requests, entry_views, capture_entries};
use crate::text::{write_command, write_command_text};

verus! {

/// Where the snapshot of pane names is written.
pub open spec fn names_file() -> Seq<char> {
    "/tmp/zj-pane-names.json"@
}

/// Where the metadata of a full capture is written.
pub open spec fn metadata_file() -> Seq<char> {
    "/tmp/zj-panes-info.json"@
}

/// The shell line that writes the encoded snapshot `json` to its file.
pub fn snapshot_write_command(json: &str) -> (r: String)
    ensures
        r@ == write_command_text(json@, names_file()),
{
    write_command(json, "/tmp/zj-pane-names.json")
}

/// The shell line that writes the encoded capture metadata `json` to its file.
pub fn metadata_write_command(json: &str) -> (r: String)
    ensures
        r@ == write_command_text(json@, metadata_file()),
{
    write_command(json, "/tmp/zj-panes-info.json")
}

/// What the host reports.
pub enum PluginEvent {
    /// The panes changed; `timestamp` is the time now in seconds since the
    /// Unix epoch, or 0 where the clock cannot be read.
    PaneUpdate { manifest: Manifest, timestamp: u64 },
    /// The user asked for a full capture.
    CaptureKey,
    /// Anything else.
    Other,
}

/// What the host is asked to do after an event.
#[derive(Debug, Clone)]
pub struct Reaction {
    /// Whether the status display is drawn again.
    pub redraw: bool,
    /// The snapshot to encode and write to its file.
    pub snapshot: Option<Snapshot>,
    /// The metadata lines to encode and write to their file.
    pub metadata: Option<Vec<CaptureEntry>>,
    /// The capture commands to run, after the writes.
    pub requests: Vec<CaptureRequest>,
}

impl PaneStore {
    /// Reacts to `event`. A pane update rebuilds the store from its
    /// manifest, exports a snapshot, asks for an auto-capture and keeps the
    /// manifest. A capture key runs a full capture of the last manifest, if
    /// one was seen. Anything else changes nothing.
    pub fn handle(&mut self, event: PluginEvent) -> (r: Reaction)
        ensures
            match event {
                PluginEvent::PaneUpdate { manifest, timestamp } => {
                    &&& final(self).reflects(&manifest)
                    &&& final(self).last_manifest == Some(manifest)
                    &&& r.redraw
                    &&& r.snapshot matches Some(s) && s.timestamp == timestamp
                        && exists|keys: Seq<u64>| #[trigger] lists_names(s.panes@, final(self).names@, keys)
                    &&& r.metadata is None
                    &&& request_views(r.requests@) == auto_requests(final(self).names@, manifest.panes())
                },
                PluginEvent::CaptureKey => {
                    &&& *final(self) == *old(self)
                    &&& !r.redraw
                    &&& r.snapshot is None
                    &&& match old(self).last_manifest {
                        Some(m) => {
                            &&& r.metadata matches Some(es) && entry_views(es@) == capture_entries(
                                old(self).names@,
                                old(self).commands@,
                                m.panes(),
                            )
                            &&& request_views(r.requests@) == auto_requests(old(self).names@, m.panes())
                        },
                        None => r.metadata is None && r.requests@.len() == 0,
                    }
                },
                PluginEvent::Other => {
                    &&& *final(self) == *old(self)
                    &&& !r.redraw
                    &&& r.snapshot is None
                    &&& r.metadata is None
                    &&& r.requests@.len() == 0
                },
            },
    {
        match event {
            PluginEvent::PaneUpdate { manifest, timestamp } => {
                self.reconcile(&manifest);
                let snapshot = self.snapshot(timestamp);
                let requests = auto_capture(&self.names, &manifest);
                self.last_manifest = Some(manifest);
                Reaction { redraw: true, snapshot: Some(snapshot), metadata: None, requests }
            },
            PluginEvent::CaptureKey => {
                match &self.last_manifest {
                    Some(m) => {
                        let full = full_capture(&self.names, &self.commands, m);
                        Reaction {
                            redraw: false,
                            snapshot: None,
                            metadata: Some(full.entries),
                            requests: full.requests,
                        }
                    },
                    None => Reaction {
                        redraw: false,
                        snapshot: None,
                        metadata: None,
                        requests: Vec::new(),
                    },
                }
            },
            PluginEvent::Other => Reaction {
                redraw: false,
                snapshot: None,
                metadata: None,
                requests: Vec::new(),
            },
        }
    }
}

} // verus!
