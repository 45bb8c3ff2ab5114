use vstd::prelude::*;

use crate::ids::{new_workspace_id, uuid_version, WorkspaceId, NIL_ID};
use crate::open_tabs::OpenTabs;
use crate::workspaces::{repaired_selection, sets_entry, Workspace, Workspaces};

verus! {

broadcast use vstd::std_specs::hash::group_hash_axioms;

/// What to do with open tabs that carry no workspace identifier.
#[derive(PartialEq, Eq, Structural, Clone, Copy, Debug)]
pub enum UnidentifiedSession {
    /// Leave the collection as it is.
    Ignore,
    /// Keep the tabs as a new workspace named "Last Workspace".
    KeepAsLastWorkspace,
}

/// What reconciling a session did to the collection.
#[derive(PartialEq, Eq, Structural, Clone, Copy, Debug)]
pub enum ReconcileOutcome {
    /// Nothing to merge, or the session carries no identifier and is ignored.
    Skipped,
    /// The workspace under this identifier took the session's tabs.
    Updated(WorkspaceId),
    /// A new workspace was made under this identifier from the session's tabs.
    Created(WorkspaceId),
    /// A new workspace was called for, but the identifier offered for it was
    /// nil or already in use; nothing changed.
    NoFreshId,
}

/// The outcome of reconciling `session` into the workspaces `m`, offering
/// `fresh` as the identifier of a workspace that has to be made.
pub open spec fn reconcile_outcome(
    m: Map<WorkspaceId, Workspace>,
    session: OpenTabs,
    policy: UnidentifiedSession,
    fresh: WorkspaceId,
) -> ReconcileOutcome {
    if session.is_blank() {
        ReconcileOutcome::Skipped
    } else if session.workspace_id is Some && m.contains_key(session.workspace_id->0) {
        ReconcileOutcome::Updated(session.workspace_id->0)
    } else if session.workspace_id is None && policy == UnidentifiedSession::Ignore {
        ReconcileOutcome::Skipped
    } else if fresh == NIL_ID || m.contains_key(fresh) {
        ReconcileOutcome::NoFreshId
    } else {
        ReconcileOutcome::Created(fresh)
    }
}

/// `new` is `old` after reconciling `session` with outcome `r`.
pub open spec fn reconciled(
    old: Workspaces,
    new: Workspaces,
    session: OpenTabs,
    r: ReconcileOutcome,
) -> bool {
    match r {
        ReconcileOutcome::Updated(id) => {
            &&& sets_entry(old.workspaces@, new.workspaces@, id)
            &&& new.workspaces@[id].uuid == id
            &&& new.workspaces@[id].name == old.workspaces@[id].name
            &&& new.workspaces@[id].repo_paths@ == session.tabs@
            &&& repaired_selection(new.workspaces@, old.current_workspace, new.current_workspace)
            &&& new.has_valid_selection()
        },
        ReconcileOutcome::Created(id) => {
            &&& sets_entry(old.workspaces@, new.workspaces@, id)
            &&& new.workspaces@[id].uuid == id
            &&& new.workspaces@[id].name@ == "Last Workspace"@
            &&& new.workspaces@[id].repo_paths@ == session.tabs@
            &&& repaired_selection(new.workspaces@, old.current_workspace, new.current_workspace)
            &&& new.has_valid_selection()
        },
        _ => new == old,
    }
}

impl Workspaces {
    /// Merges the host application's last session into the collection. A
    /// session that names a stored workspace replaces that workspace's paths and
    /// keeps its name; any other session, unless it is blank or unidentified
    /// and ignored by `policy`, becomes a new workspace named "Last Workspace"
    /// under `fresh_id`. The selection is then repaired.
    pub fn reconcile_with_id(
        &mut self,
        session: &OpenTabs,
        policy: UnidentifiedSession,
        fresh_id: WorkspaceId,
    ) -> (r: ReconcileOutcome)
        ensures
            r == reconcile_outcome(old(self).workspaces@, *session, policy, fresh_id),
            reconciled(*old(self), *final(self), *session, r),
            old(self).wf() ==> final(self).wf(),
    {
        if session.tabs.len() == 0 && session.workspace_id.is_none() {
            return ReconcileOutcome::Skipped;
        }
        if let Some(id) = session.workspace_id {
            if self.workspaces.contains_key(&id) {
                let name = self.workspaces.get(&id).unwrap().name.clone();
                let repo_paths = session.tabs.clone();
                assert(repo_paths@ =~= session.tabs@);
                self.add_workspace(Workspace { uuid: id, name, repo_paths });
                return ReconcileOutcome::Updated(id);
            }
        }
        if session.workspace_id.is_none() && policy == UnidentifiedSession::Ignore {
            return ReconcileOutcome::Skipped;
        }
        if fresh_id == NIL_ID || self.workspaces.contains_key(&fresh_id) {
            return ReconcileOutcome::NoFreshId;
        }
        let repo_paths = session.tabs.clone();
        assert(repo_paths@ =~= session.tabs@);
        self.add_workspace(Workspace { uuid: fresh_id, name: "Last Workspace".to_string(), repo_paths });
        ReconcileOutcome::Created(fresh_id)
    }

    /// `reconcile_with_id`, offering a newly drawn identifier for a workspace
    /// that has to be made.
    pub fn reconcile(&mut self, session: &OpenTabs, policy: UnidentifiedSession) -> (r:
        ReconcileOutcome)
        ensures
            exists|fresh_id: WorkspaceId|
                #![trigger reconcile_outcome(old(self).workspaces@, *session, policy, fresh_id)]
                fresh_id != NIL_ID && uuid_version(fresh_id) == 4 && r == reconcile_outcome(
                    old(self).workspaces@,
                    *session,
                    policy,
                    fresh_id,
                ),
            reconciled(*old(self), *final(self), *session, r),
            old(self).wf() ==> final(self).wf(),
    {
        let fresh_id = new_workspace_id();
        self.reconcile_with_id(session, policy, fresh_id)
    }
}

} // verus!
