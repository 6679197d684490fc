use pane_tracker::capture::{auto_capture, full_capture, CaptureRequest};
use pane_tracker::pane::{key_for, key_identifier, pane_identifier, Manifest, PaneDescriptor};
use pane_tracker::plugin::{metadata_write_command, snapshot_write_command, PluginEvent};
use pane_tracker::store::PaneStore;
use pane_tracker::text::{dump_command, link_command, link_worthy, sanitize_name, write_command};

fn pane(index: u32, is_plugin: bool, title: &str, command: Option<&str>) -> PaneDescriptor {
    PaneDescriptor {
        index,
        is_plugin,
        is_floating: false,
        is_focused: false,
        title: title.to_string(),
        command: command.map(|c| c.to_string()),
        columns: 80,
        rows: 24,
        x: 0,
        y: 0,
    }
}

fn manifest(tabs: Vec<Vec<PaneDescriptor>>) -> Manifest {
    Manifest { tabs }
}

fn ids(store: &PaneStore) -> Vec<String> {
    store.names.keys().map(|k| key_identifier(*k)).collect()
}

#[test]
fn sanitize_replaces_space_and_slash() {
    assert_eq!(sanitize_name("My Pane/1"), "My-Pane-1");
}

#[test]
fn sanitize_replaces_other_characters() {
    assert_eq!(sanitize_name("Pane #3"), "Pane-_3");
    assert_eq!(sanitize_name("a.b:c"), "a_b_c");
    assert_eq!(sanitize_name("keep-this_one"), "keep-this_one");
    assert_eq!(sanitize_name("héllo"), "héllo");
}

#[test]
fn sanitize_empty_is_empty() {
    assert_eq!(sanitize_name(""), "");
}

#[test]
fn default_and_empty_names_are_not_linked() {
    assert!(!link_worthy("Pane-3"));
    assert!(!link_worthy(""));
    assert!(link_worthy("Pane"));
    assert!(link_worthy("build"));
    assert!(link_worthy("Panel-3"));
}

#[test]
fn default_title_gets_no_symlink() {
    let m = manifest(vec![vec![pane(3, false, "Pane #3", None)]]);
    let mut store = PaneStore::new();
    store.reconcile(&m);
    let requests = auto_capture(&store.names, &m);
    assert_eq!(requests, vec![CaptureRequest::Dump { index: 3 }]);
}

#[test]
fn empty_title_gets_no_symlink() {
    let m = manifest(vec![vec![pane(4, false, "", None)]]);
    let mut store = PaneStore::new();
    store.reconcile(&m);
    assert_eq!(auto_capture(&store.names, &m), vec![CaptureRequest::Dump { index: 4 }]);
}

#[test]
fn named_pane_gets_dump_and_symlink() {
    let m = manifest(vec![vec![pane(7, false, "build", Some("cargo build"))]]);
    let mut store = PaneStore::new();
    store.reconcile(&m);
    let requests = auto_capture(&store.names, &m);
    assert_eq!(
        requests,
        vec![
            CaptureRequest::Dump { index: 7 },
            CaptureRequest::Link { index: 7, name: "build".to_string() },
        ]
    );
    assert_eq!(
        requests[0].command_line(),
        "zellij action dump-pane 7 > /tmp/zj-pane-7.txt 2>/dev/null || true"
    );
    assert_eq!(
        requests[1].command_line(),
        "ln -sf /tmp/zj-pane-7.txt /tmp/zj-build.txt 2>/dev/null || true"
    );
}

#[test]
fn plugin_panes_get_no_requests() {
    let m = manifest(vec![
        vec![pane(0, true, "status-bar", None)],
        vec![pane(1, true, "tab-bar", None), pane(2, true, "tracker", None)],
    ]);
    let mut store = PaneStore::new();
    store.reconcile(&m);
    assert!(auto_capture(&store.names, &m).is_empty());
}

#[test]
fn full_capture_of_empty_manifest() {
    let m = Manifest::empty();
    let store = PaneStore::new();
    let full = full_capture(&store.names, &store.commands, &m);
    assert!(full.entries.is_empty());
    assert!(full.requests.is_empty());
}

#[test]
fn full_capture_lists_every_pane() {
    let mut p = pane(5, false, "editor", Some("vim"));
    p.is_focused = true;
    p.columns = 120;
    p.rows = 40;
    p.x = 3;
    p.y = 17;
    let m = manifest(vec![vec![p, pane(1, true, "bar", None)]]);
    let mut store = PaneStore::new();
    store.reconcile(&m);
    let full = full_capture(&store.names, &store.commands, &m);
    assert_eq!(full.entries.len(), 2);
    let e = &full.entries[0];
    assert_eq!(e.pane_id, "terminal_5");
    assert_eq!(e.name, "editor");
    assert_eq!(e.command, Some("vim".to_string()));
    assert!(e.is_focused);
    assert!(!e.is_floating);
    assert_eq!(e.coordinates, "120x40 at (3,17)");
    let f = &full.entries[1];
    assert_eq!(f.pane_id, "plugin_1");
    assert_eq!(f.command, None);
    assert_eq!(f.coordinates, "80x24 at (0,0)");
    assert_eq!(
        full.requests,
        vec![
            CaptureRequest::Dump { index: 5 },
            CaptureRequest::Link { index: 5, name: "editor".to_string() },
        ]
    );
}

#[test]
fn empty_store_snapshot() {
    let store = PaneStore::new();
    let snap = store.snapshot(0);
    assert!(snap.panes.is_empty());
    assert_eq!(snap.timestamp, 0);
    let later = store.snapshot(1_700_000_000);
    assert!(later.panes.is_empty());
    assert_eq!(later.timestamp, 1_700_000_000);
}

#[test]
fn snapshot_lists_names_by_identifier() {
    let m = manifest(vec![
        vec![pane(2, false, "logs", None)],
        vec![pane(2, true, "status", None), pane(10, false, "shell", None)],
    ]);
    let mut store = PaneStore::new();
    store.reconcile(&m);
    let mut pairs = store.snapshot(42).panes;
    pairs.sort();
    assert_eq!(
        pairs,
        vec![
            ("plugin_2".to_string(), "status".to_string()),
            ("terminal_10".to_string(), "shell".to_string()),
            ("terminal_2".to_string(), "logs".to_string()),
        ]
    );
}

#[test]
fn reconcile_drops_stale_panes() {
    let first = manifest(vec![vec![pane(1, false, "one", Some("top")), pane(2, false, "two", None)]]);
    let second = manifest(vec![vec![pane(3, false, "three", None)], vec![pane(4, true, "four", None)]]);
    let mut store = PaneStore::new();
    store.reconcile(&first);
    store.reconcile(&second);
    let mut found = ids(&store);
    found.sort();
    assert_eq!(found, vec!["plugin_4".to_string(), "terminal_3".to_string()]);
    assert!(store.commands.is_empty());
}

#[test]
fn reconcile_twice_is_idempotent() {
    let m = manifest(vec![vec![pane(1, false, "one", Some("htop")), pane(9, true, "nine", None)]]);
    let mut store = PaneStore::new();
    store.reconcile(&m);
    let names = store.names.clone();
    let commands = store.commands.clone();
    store.reconcile(&m);
    assert_eq!(store.names, names);
    assert_eq!(store.commands, commands);
    assert_eq!(store.commands.get(&key_for(false, 1)), Some(&"htop".to_string()));
}

#[test]
fn duplicate_panes_last_write_wins() {
    let m = manifest(vec![
        vec![pane(6, false, "old", Some("make"))],
        vec![pane(6, false, "new", None)],
    ]);
    let mut store = PaneStore::new();
    store.reconcile(&m);
    assert_eq!(store.names.len(), 1);
    assert_eq!(store.names.get(&key_for(false, 6)), Some(&"new".to_string()));
    assert_eq!(store.commands.get(&key_for(false, 6)), Some(&"make".to_string()));
}

#[test]
fn identifiers() {
    assert_eq!(pane_identifier(true, 12), "plugin_12");
    assert_eq!(pane_identifier(false, 0), "terminal_0");
    assert_eq!(pane_identifier(false, 4294967295), "terminal_4294967295");
    assert_eq!(key_identifier(key_for(true, 305)), "plugin_305");
    assert_eq!(key_identifier(key_for(false, 305)), "terminal_305");
}

#[test]
fn command_lines() {
    assert_eq!(
        dump_command(120),
        "zellij action dump-pane 120 > /tmp/zj-pane-120.txt 2>/dev/null || true"
    );
    assert_eq!(
        link_command(0, "My-Pane-1"),
        "ln -sf /tmp/zj-pane-0.txt /tmp/zj-My-Pane-1.txt 2>/dev/null || true"
    );
    assert_eq!(
        write_command("it's", "/tmp/x"),
        "echo 'it'\"'\"'s' > /tmp/x 2>/dev/null || true"
    );
    assert_eq!(
        snapshot_write_command("{}"),
        "echo '{}' > /tmp/zj-pane-names.json 2>/dev/null || true"
    );
    assert_eq!(
        metadata_write_command("[]"),
        "echo '[]' > /tmp/zj-panes-info.json 2>/dev/null || true"
    );
}

#[test]
fn events_drive_the_store() {
    let mut store = PaneStore::new();
    let early = store.handle(PluginEvent::CaptureKey);
    assert!(!early.redraw);
    assert!(early.metadata.is_none());
    assert!(early.requests.is_empty());

    let m = manifest(vec![vec![pane(7, false, "build", None)]]);
    let update = store.handle(PluginEvent::PaneUpdate { manifest: m.clone(), timestamp: 99 });
    assert!(update.redraw);
    let snap = update.snapshot.unwrap();
    assert_eq!(snap.timestamp, 99);
    assert_eq!(snap.panes, vec![("terminal_7".to_string(), "build".to_string())]);
    assert!(update.metadata.is_none());
    assert_eq!(update.requests.len(), 2);
    assert_eq!(store.last_manifest, Some(m));

    let capture = store.handle(PluginEvent::CaptureKey);
    assert!(!capture.redraw);
    assert!(capture.snapshot.is_none());
    assert_eq!(capture.metadata.unwrap().len(), 1);
    assert_eq!(capture.requests.len(), 2);

    let other = store.handle(PluginEvent::Other);
    assert!(!other.redraw && other.snapshot.is_none() && other.metadata.is_none());
    assert!(other.requests.is_empty());
}
