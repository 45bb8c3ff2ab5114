use vstd::prelude::*;

use crate::ids::{new_workspace_id, uuid_version, WorkspaceId, NIL_ID};
use crate::workspaces::Workspace;

verus! {

/// The host application's record of its open tabs: the repository paths in
/// tab order, and the workspace they were opened from, when it was told one.
#[derive(Clone, Debug)]
pub struct OpenTabs {
    pub tabs: Vec<String>,
    pub workspace_id: Option<WorkspaceId>,
}

impl Default for OpenTabs {
    /// No tabs and no workspace.
    fn default() -> (r: OpenTabs)
        ensures
            r.tabs@.len() == 0,
            r.workspace_id is None,
    {
        OpenTabs::new()
    }
}

impl OpenTabs {
    /// No tabs and no workspace.
    pub fn new() -> (r: OpenTabs)
        ensures
            r.tabs@.len() == 0,
            r.workspace_id is None,
    {
        OpenTabs { tabs: Vec::new(), workspace_id: None }
    }

    /// The tabs that open `workspace`, tagged with its identifier.
    pub fn from_workspace(workspace: &Workspace) -> (r: OpenTabs)
        ensures
            r.tabs@ == workspace.repo_paths@,
            r.workspace_id == Some(workspace.uuid),
    {
        let tabs = workspace.repo_paths.clone();
        assert(tabs@ =~= workspace.repo_paths@);
        OpenTabs { tabs, workspace_id: Some(workspace.uuid) }
    }

    /// The session to reconcile once the host application has stopped: the
    /// tabs it wrote on exit (`after`), under the workspace identifier read
    /// before it was stopped (`before`), or else the one it wrote on exit.
    pub fn last_session(before: &OpenTabs, after: &OpenTabs) -> (r: OpenTabs)
        ensures
            r.tabs@ == after.tabs@,
            r.workspace_id == match before.workspace_id {
                Some(id) => Some(id),
                None => after.workspace_id,
            },
    {
        let tabs = after.tabs.clone();
        assert(tabs@ =~= after.tabs@);
        let workspace_id = match before.workspace_id {
            Some(id) => Some(id),
            None => after.workspace_id,
        };
        OpenTabs { tabs, workspace_id }
    }

    /// Nothing to take from this record: no tabs and no workspace.
    pub open spec fn is_blank(&self) -> bool {
        self.tabs@.len() == 0 && self.workspace_id is None
    }
}

impl Workspace {
    /// A workspace named "New Workspace" holding the tabs' paths, under the
    /// tabs' workspace identifier, or under a new random (version 4) one when
    /// they carry none.
    pub fn from_open_tabs(open_tabs: &OpenTabs) -> (w: Workspace)
        ensures
            w.name@ == "New Workspace"@,
            w.repo_paths@ == open_tabs.tabs@,
            match open_tabs.workspace_id {
                Some(id) => w.uuid == id,
                None => w.uuid != NIL_ID && uuid_version(w.uuid) == 4,
            },
    {
        let uuid = match open_tabs.workspace_id {
            Some(id) => id,
            None => new_workspace_id(),
        };
        let repo_paths = open_tabs.tabs.clone();
        assert(repo_paths@ =~= open_tabs.tabs@);
        Workspace { uuid, name: "New Workspace".to_string(), repo_paths }
    }
}

} // verus!
