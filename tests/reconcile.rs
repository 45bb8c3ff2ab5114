use st_workspaces::ids::NIL_ID;
use st_workspaces::open_tabs::OpenTabs;
use st_workspaces::reconcile::{ReconcileOutcome, UnidentifiedSession};
use st_workspaces::workspaces::{Workspace, Workspaces};

fn paths(p: &[&str]) -> Vec<String> {
    p.iter().map(|s| s.to_string()).collect()
}

#[test]
fn reconcile_match_replaces_paths_and_keeps_name() {
    let mut spaces = Workspaces::new();
    let mut w = Workspace::new("Foo", 100);
    w.repo_paths = paths(&["A", "B"]);
    spaces.workspaces.insert(100, w);
    let session = OpenTabs { tabs: paths(&["C", "D"]), workspace_id: Some(100) };
    let r = spaces.reconcile_with_id(&session, UnidentifiedSession::KeepAsLastWorkspace, 500);
    assert_eq!(r, ReconcileOutcome::Updated(100));
    assert_eq!(spaces.workspaces.len(), 1);
    let w = &spaces.workspaces[&100];
    assert_eq!(w.uuid, 100);
    assert_eq!(w.name, "Foo");
    assert_eq!(w.repo_paths, paths(&["C", "D"]));
    assert_eq!(spaces.current_workspace, 100);
}

#[test]
fn reconcile_no_match_creates_last_workspace() {
    let mut spaces = Workspaces::new();
    let session = OpenTabs { tabs: paths(&["A", "B"]), workspace_id: Some(200) };
    let r = spaces.reconcile_with_id(&session, UnidentifiedSession::Ignore, 300);
    assert_eq!(r, ReconcileOutcome::Created(300));
    assert_eq!(spaces.workspaces.len(), 1);
    let w = &spaces.workspaces[&300];
    assert_eq!(w.name, "Last Workspace");
    assert_eq!(w.repo_paths, paths(&["A", "B"]));
    assert_eq!(spaces.current_workspace, 300);
    assert!(spaces.current_workspace().is_some());
}

#[test]
fn reconcile_with_drawn_id_creates_last_workspace() {
    let mut spaces = Workspaces::new();
    let session = OpenTabs { tabs: paths(&["A", "B"]), workspace_id: Some(200) };
    let r = spaces.reconcile(&session, UnidentifiedSession::Ignore);
    let id = match r {
        ReconcileOutcome::Created(id) => id,
        other => panic!("unexpected outcome {:?}", other),
    };
    assert_ne!(id, NIL_ID);
    assert_eq!(spaces.workspaces.len(), 1);
    assert_eq!(spaces.workspaces[&id].name, "Last Workspace");
    assert_eq!(spaces.current_workspace, id);
}

#[test]
fn reconcile_skips_blank_session() {
    let mut spaces = Workspaces::new();
    spaces.workspaces.insert(1, Workspace::new("One", 1));
    spaces.current_workspace = 77;
    let session = OpenTabs::new();
    let r = spaces.reconcile_with_id(&session, UnidentifiedSession::KeepAsLastWorkspace, 300);
    assert_eq!(r, ReconcileOutcome::Skipped);
    assert_eq!(spaces.workspaces.len(), 1);
    assert_eq!(spaces.current_workspace, 77);
}

#[test]
fn reconcile_ignores_unidentified_session_when_asked() {
    let mut spaces = Workspaces::new();
    let session = OpenTabs { tabs: paths(&["A"]), workspace_id: None };
    let r = spaces.reconcile_with_id(&session, UnidentifiedSession::Ignore, 300);
    assert_eq!(r, ReconcileOutcome::Skipped);
    assert!(spaces.workspaces.is_empty());
}

#[test]
fn reconcile_keeps_unidentified_session_when_asked() {
    let mut spaces = Workspaces::new();
    spaces.workspaces.insert(1, Workspace::new("One", 1));
    spaces.current_workspace = 1;
    let session = OpenTabs { tabs: paths(&["A"]), workspace_id: None };
    let r = spaces.reconcile_with_id(&session, UnidentifiedSession::KeepAsLastWorkspace, 300);
    assert_eq!(r, ReconcileOutcome::Created(300));
    assert_eq!(spaces.workspaces.len(), 2);
    assert_eq!(spaces.workspaces[&300].name, "Last Workspace");
    assert_eq!(spaces.current_workspace, 1);
}

#[test]
fn reconcile_identified_session_with_no_tabs_empties_workspace() {
    let mut spaces = Workspaces::new();
    let mut w = Workspace::new("Foo", 100);
    w.repo_paths = paths(&["A"]);
    spaces.workspaces.insert(100, w);
    let session = OpenTabs { tabs: Vec::new(), workspace_id: Some(100) };
    let r = spaces.reconcile_with_id(&session, UnidentifiedSession::Ignore, 300);
    assert_eq!(r, ReconcileOutcome::Updated(100));
    assert!(spaces.workspaces[&100].repo_paths.is_empty());
}

#[test]
fn reconcile_refuses_an_id_in_use_or_nil() {
    let mut spaces = Workspaces::new();
    spaces.workspaces.insert(1, Workspace::new("One", 1));
    let session = OpenTabs { tabs: paths(&["A"]), workspace_id: Some(2) };
    let r = spaces.reconcile_with_id(&session, UnidentifiedSession::Ignore, 1);
    assert_eq!(r, ReconcileOutcome::NoFreshId);
    let r = spaces.reconcile_with_id(&session, UnidentifiedSession::Ignore, NIL_ID);
    assert_eq!(r, ReconcileOutcome::NoFreshId);
    assert_eq!(spaces.workspaces.len(), 1);
    assert_eq!(spaces.workspaces[&1].name, "One");
}

#[test]
fn reconcile_repairs_a_dangling_selection() {
    let mut spaces = Workspaces::new();
    spaces.workspaces.insert(40, Workspace::new("Forty", 40));
    spaces.current_workspace = 9;
    let session = OpenTabs { tabs: paths(&["A"]), workspace_id: Some(40) };
    let r = spaces.reconcile_with_id(&session, UnidentifiedSession::Ignore, 300);
    assert_eq!(r, ReconcileOutcome::Updated(40));
    assert_eq!(spaces.current_workspace, 40);
}
