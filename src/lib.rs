//! Named workspaces (saved sets of repository paths) for a version-control GUI,
//! and the rules that keep them in step with the tabs that GUI had open.

pub mod host_process;
pub mod ids;
pub mod open_tabs;
pub mod presentation;
pub mod reconcile;
pub mod workspaces;
