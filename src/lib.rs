//! Tracks the panes of a terminal multiplexer session: flattens the host's
//! per-tab pane manifest into a store keyed by pane identifier, decides the
//! capture commands for each pane, and builds the exported snapshot.
pub mod text;
pub mod pane;
pub mod store;
pub mod capture;
pub mod plugin;
