use std::collections::hash_map::Entry;
use std::collections::HashMap;
use vstd::prelude::*;

use crate::ids::{new_workspace_id, uuid_version, WorkspaceId, NIL_ID};
use crate::open_tabs::OpenTabs;

verus! {

broadcast use vstd::std_specs::hash::group_hash_axioms;

/// A named, ordered set of repository paths.
#[derive(Clone, Debug)]
pub struct Workspace {
    pub uuid: WorkspaceId,
    pub name: String,
    pub repo_paths: Vec<String>,
}

/// Every saved workspace, keyed by identifier, and the one currently selected.
#[derive(Debug)]
pub struct Workspaces {
    pub current_workspace: WorkspaceId,
    pub workspaces: HashMap<WorkspaceId, Workspace>,
}

/// `k` is the smallest identifier that `m` holds.
pub open spec fn is_least_key(m: Map<WorkspaceId, Workspace>, k: WorkspaceId) -> bool {
    &&& m.contains_key(k)
    &&& forall|j: WorkspaceId| #[trigger] m.contains_key(j) ==> k <= j
}

/// `new_current` is what repairing the selection `old_current` over `m` gives:
/// the selection is kept when `m` is empty or holds it, and otherwise moves to
/// the smallest identifier in `m`.
pub open spec fn repaired_selection(
    m: Map<WorkspaceId, Workspace>,
    old_current: WorkspaceId,
    new_current: WorkspaceId,
) -> bool {
    if m.is_empty() || m.contains_key(old_current) {
        new_current == old_current
    } else {
        is_least_key(m, new_current)
    }
}

/// `new_m` is `old_m` with one entry, under `id`, added or replaced.
pub open spec fn sets_entry(
    old_m: Map<WorkspaceId, Workspace>,
    new_m: Map<WorkspaceId, Workspace>,
    id: WorkspaceId,
) -> bool {
    new_m == old_m.insert(id, new_m[id])
}

/// `new` is `old` with a workspace named `name` holding `paths` added under
/// `id`, and its selection repaired (so naming a workspace).
pub open spec fn added_workspace(
    old: Workspaces,
    new: Workspaces,
    id: WorkspaceId,
    name: Seq<char>,
    paths: Seq<String>,
) -> bool {
    &&& sets_entry(old.workspaces@, new.workspaces@, id)
    &&& new.workspaces@[id].uuid == id
    &&& new.workspaces@[id].name@ == name
    &&& new.workspaces@[id].repo_paths@ == paths
    &&& repaired_selection(new.workspaces@, old.current_workspace, new.current_workspace)
    &&& new.has_valid_selection()
}

impl Workspace {
    /// A workspace with the given name and identifier and no repository paths.
    pub fn new(name: &str, uuid: WorkspaceId) -> (w: Workspace)
        ensures
            w.uuid == uuid,
            w.name@ == name@,
            w.repo_paths@.len() == 0,
    {
        Workspace { uuid, name: name.to_string(), repo_paths: Vec::new() }
    }
}

impl Default for Workspaces {
    /// An empty collection with nothing selected.
    fn default() -> (r: Workspaces)
        ensures
            r.current_workspace == NIL_ID,
            r.workspaces@.is_empty(),
    {
        Workspaces::new()
    }
}

impl Workspaces {
    /// Every workspace is stored under its own identifier, and none under the
    /// nil one.
    pub open spec fn wf(&self) -> bool {
        forall|k: WorkspaceId| #[trigger] self.workspaces@.contains_key(k)
            ==> k != NIL_ID && self.workspaces@[k].uuid == k
    }

    /// When any workspace exists, the selection names one of them.
    pub open spec fn has_valid_selection(&self) -> bool {
        !self.workspaces@.is_empty() ==> self.workspaces@.contains_key(self.current_workspace)
    }

    /// An empty collection with nothing selected.
    pub fn new() -> (r: Workspaces)
        ensures
            r.current_workspace == NIL_ID,
            r.workspaces@.is_empty(),
            r.wf(),
    {
        Workspaces { current_workspace: NIL_ID, workspaces: HashMap::new() }
    }

    /// The selected workspace, if the selection names one.
    pub fn current_workspace(&self) -> (r: Option<&Workspace>)
        ensures
            match r {
                Some(w) => self.workspaces@.contains_key(self.current_workspace) && *w
                    == self.workspaces@[self.current_workspace],
                None => !self.workspaces@.contains_key(self.current_workspace),
            },
    {
        self.workspaces.get(&self.current_workspace)
    }

    /// The selected workspace, for editing in place, if the selection names one.
    pub fn current_workspace_mut(&mut self) -> (r: Option<&mut Workspace>)
        ensures
            final(self).current_workspace == old(self).current_workspace,
            match r {
                Some(w) => {
                    &&& old(self).workspaces@.contains_key(old(self).current_workspace)
                    &&& *w == old(self).workspaces@[old(self).current_workspace]
                    &&& final(self).workspaces@ == old(self).workspaces@.insert(
                        old(self).current_workspace,
                        *final(w),
                    )
                },
                None => {
                    &&& !old(self).workspaces@.contains_key(old(self).current_workspace)
                    &&& final(self).workspaces@ == old(self).workspaces@
                },
            },
    {
        match self.workspaces.entry(self.current_workspace) {
            Entry::Occupied(occupied) => Some(occupied.into_mut()),
            Entry::Vacant(_) => None,
        }
    }

    /// Makes the selection name a workspace whenever any exists: a selection that
    /// names no workspace (nil or dangling) moves to the smallest identifier.
    pub fn force_valid_workspace(&mut self)
        ensures
            final(self).workspaces@ == old(self).workspaces@,
            repaired_selection(
                old(self).workspaces@,
                old(self).current_workspace,
                final(self).current_workspace,
            ),
            final(self).has_valid_selection(),
            old(self).workspaces@.is_empty() ==> final(self).current_workspace
                == old(self).current_workspace,
    {
        if self.workspaces.is_empty() || self.workspaces.contains_key(&self.current_workspace) {
            return;
        }
        let ghost m = self.workspaces@;
        let mut least: Option<WorkspaceId> = None;
        for k in it: self.workspaces.keys()
            invariant
                m == self.workspaces@,
                it.seq().unref().to_set() == m.dom(),
                match least {
                    None => it.index() == 0,
                    Some(l) => {
                        &&& m.contains_key(l)
                        &&& forall|i: int| 0 <= i < it.index() ==> l <= *it.seq()[i]
                    },
                },
                it.index() == it.seq().len() ==> forall|j: WorkspaceId| #[trigger]
                    m.contains_key(j) ==> least is Some && is_least_key(m, least.unwrap()),
        {
            let ghost keys = it.seq().unref();
            proof {
                assert(keys[it.index()] == *k);
                assert(keys.to_set().contains(*k));
            }
            least = match least {
                None => Some(*k),
                Some(l) => if *k < l { Some(*k) } else { Some(l) },
            };
            assert forall|j: WorkspaceId| #[trigger] m.contains_key(j) && it.index() + 1
                == it.seq().len() implies least.unwrap() <= j by {
                assert(keys.to_set().contains(j));
                let i = choose|i: int| 0 <= i < keys.len() && keys[i] == j;
                assert(keys[i] == *it.seq()[i]);
            }
        }
        let ghost some_key = m.dom().choose();
        assert(m.contains_key(some_key));
        self.current_workspace = least.unwrap();
    }

    /// Stores `workspace` under its own identifier, replacing what was stored
    /// there, and repairs the selection.
    pub fn add_workspace(&mut self, workspace: Workspace)
        ensures
            final(self).workspaces@ == old(self).workspaces@.insert(workspace.uuid, workspace),
            repaired_selection(
                final(self).workspaces@,
                old(self).current_workspace,
                final(self).current_workspace,
            ),
            final(self).has_valid_selection(),
            old(self).wf() && workspace.uuid != NIL_ID ==> final(self).wf(),
    {
        let id = workspace.uuid;
        self.workspaces.insert(id, workspace);
        self.force_valid_workspace();
    }

    /// Adds an empty workspace named "New Workspace" under `id`, when `id` is
    /// neither nil nor in use, and repairs the selection. Returns `Some(id)`
    /// then, and otherwise `None` with nothing changed.
    pub fn create_new_workspace_with_id(&mut self, id: WorkspaceId) -> (r: Option<WorkspaceId>)
        ensures
            r is Some <==> id != NIL_ID && !old(self).workspaces@.contains_key(id),
            r is Some ==> r == Some(id) && added_workspace(
                *old(self),
                *final(self),
                id,
                "New Workspace"@,
                Seq::empty(),
            ),
            r is None ==> *final(self) == *old(self),
            old(self).wf() ==> final(self).wf(),
    {
        if id == NIL_ID || self.workspaces.contains_key(&id) {
            return None;
        }
        let workspace = Workspace::new("New Workspace", id);
        assert(workspace.repo_paths@ =~= Seq::<String>::empty());
        self.add_workspace(workspace);
        Some(id)
    }

    /// Adds an empty workspace named "New Workspace" under a newly drawn
    /// identifier and repairs the selection. Returns the identifier, or `None`,
    /// with nothing changed, when the identifier drawn is already in use (so
    /// never on an empty collection).
    pub fn create_new_workspace(&mut self) -> (r: Option<WorkspaceId>)
        ensures
            match r {
                Some(id) => {
                    &&& uuid_version(id) == 4
                    &&& id != NIL_ID
                    &&& !old(self).workspaces@.contains_key(id)
                    &&& added_workspace(
                        *old(self),
                        *final(self),
                        id,
                        "New Workspace"@,
                        Seq::empty(),
                    )
                },
                None => {
                    &&& *final(self) == *old(self)
                    &&& exists|k: WorkspaceId| #[trigger]
                        old(self).workspaces@.contains_key(k) && uuid_version(k) == 4
                },
            },
            old(self).wf() ==> final(self).wf(),
    {
        let id = new_workspace_id();
        let r = self.create_new_workspace_with_id(id);
        if r.is_none() {
            assert(old(self).workspaces@.contains_key(id));
        }
        r
    }

    /// Adds a workspace named "New Workspace" holding the paths of `open_tabs`
    /// under `id`, when `id` is neither nil nor in use, and repairs the
    /// selection. Returns `Some(id)` then, and otherwise `None` with nothing
    /// changed.
    pub fn create_workspace_from_tabs_with_id(&mut self, open_tabs: &OpenTabs, id: WorkspaceId) -> (r:
        Option<WorkspaceId>)
        ensures
            r is Some <==> id != NIL_ID && !old(self).workspaces@.contains_key(id),
            r is Some ==> r == Some(id) && added_workspace(
                *old(self),
                *final(self),
                id,
                "New Workspace"@,
                open_tabs.tabs@,
            ),
            r is None ==> *final(self) == *old(self),
            old(self).wf() ==> final(self).wf(),
    {
        if id == NIL_ID || self.workspaces.contains_key(&id) {
            return None;
        }
        let mut workspace = Workspace::from_open_tabs(open_tabs);
        workspace.uuid = id;
        self.add_workspace(workspace);
        Some(id)
    }

    /// Adds a workspace named "New Workspace" holding the paths of `open_tabs`
    /// under a newly drawn identifier, and repairs the selection. Returns the
    /// identifier, or `None`, with nothing changed, when the identifier drawn is
    /// already in use (so never on an empty collection).
    pub fn create_workspace_from_tabs(&mut self, open_tabs: &OpenTabs) -> (r: Option<
        WorkspaceId,
    >)
        ensures
            match r {
                Some(id) => {
                    &&& uuid_version(id) == 4
                    &&& id != NIL_ID
                    &&& !old(self).workspaces@.contains_key(id)
                    &&& added_workspace(
                        *old(self),
                        *final(self),
                        id,
                        "New Workspace"@,
                        open_tabs.tabs@,
                    )
                },
                None => {
                    &&& *final(self) == *old(self)
                    &&& exists|k: WorkspaceId| #[trigger]
                        old(self).workspaces@.contains_key(k) && uuid_version(k) == 4
                },
            },
            old(self).wf() ==> final(self).wf(),
    {
        let id = new_workspace_id();
        let r = self.create_workspace_from_tabs_with_id(open_tabs, id);
        if r.is_none() {
            assert(old(self).workspaces@.contains_key(id));
        }
        r
    }

    /// Removes the selected workspace, if the selection names one, and repairs
    /// the selection. Returns the workspace removed.
    pub fn remove_current_workspace(&mut self) -> (r: Option<Workspace>)
        ensures
            final(self).workspaces@ == old(self).workspaces@.remove(old(self).current_workspace),
            match r {
                Some(w) => old(self).workspaces@.contains_key(old(self).current_workspace) && w
                    == old(self).workspaces@[old(self).current_workspace],
                None => !old(self).workspaces@.contains_key(old(self).current_workspace),
            },
            repaired_selection(
                final(self).workspaces@,
                old(self).current_workspace,
                final(self).current_workspace,
            ),
            final(self).has_valid_selection(),
            old(self).wf() ==> final(self).wf(),
    {
        let removed = self.workspaces.remove(&self.current_workspace);
        self.force_valid_workspace();
        removed
    }
}

} // verus!
