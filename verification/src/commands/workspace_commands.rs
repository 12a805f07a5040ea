use vstd::prelude::*;

use crate::app_manager::state::{AppManager, AppRuntimeState, Registry};
use crate::config::models::{OrblyConfig, Workspace};
use crate::text::{chars_of, contains_text, lowercase, string_of, texts};

verus! {

/// Why a change to the workspaces was not made.
#[derive(Debug, PartialEq, Eq)]
pub enum WorkspaceError {
    /// No workspace has the given id.
    NotFound { id: String },
    /// A workspace with the given id exists already.
    AlreadyExists { id: String },
    /// The default workspace stays.
    CannotDeleteDefault,
}

impl WorkspaceError {
    /// The error in words.
    pub fn message(&self) -> (m: String)
        ensures
            m@ == match *self {
                WorkspaceError::NotFound { id } => "Workspace '"@ + id@ + "' not found"@,
                WorkspaceError::AlreadyExists { id } => "Workspace '"@ + id@
                    + "' already exists"@,
                WorkspaceError::CannotDeleteDefault => "Cannot delete the default workspace"@,
            },
    {
        match self {
            WorkspaceError::NotFound { id } => String::from_str("Workspace '").concat(
                id.as_str(),
            ).concat("' not found"),
            WorkspaceError::AlreadyExists { id } => String::from_str("Workspace '").concat(
                id.as_str(),
            ).concat("' already exists"),
            WorkspaceError::CannotDeleteDefault => String::from_str(
                "Cannot delete the default workspace",
            ),
        }
    }
}

/// The ids of a list of workspaces, in order.
pub open spec fn workspace_ids(items: Seq<Workspace>) -> Seq<Seq<char>> {
    items.map_values(|w: Workspace| w.id@)
}

/// A text with each space replaced by a hyphen.
pub open spec fn hyphenated(s: Seq<char>) -> Seq<char> {
    s.map_values(
        |c: char|
            if c == ' ' {
                '-'
            } else {
                c
            },
    )
}

/// The id of a workspace of the given name: the name in lowercase with
/// hyphens for spaces.
pub open spec fn workspace_id_of(name: Seq<char>) -> Seq<char> {
    hyphenated(lowercase(name))
}

/// A text with each space replaced by a hyphen.
pub fn hyphenate(s: &str) -> (r: String)
    ensures
        r@ == hyphenated(s@),
{
    let chars = chars_of(s);
    let mut out: Vec<char> = Vec::new();
    let mut i: usize = 0;
    while i < chars.len()
        invariant
            i <= chars.len(),
            out@.len() == i,
            forall|j: int| 0 <= j < i ==> out@[j] == hyphenated(chars@)[j],
        decreases chars.len() - i,
    {
        let c = chars[i];
        out.push(if c == ' ' {
            '-'
        } else {
            c
        });
        i += 1;
    }
    assert(out@ =~= hyphenated(chars@));
    string_of(out.as_slice())
}

/// The id of a workspace of the given name.
pub fn workspace_id(name: &str) -> (id: String)
    ensures
        id@ == workspace_id_of(name@),
{
    let lower = name.to_lowercase();
    hyphenate(lower.as_str())
}

fn find_workspace(items: &Vec<Workspace>, id: &str) -> (r: Option<usize>)
    ensures
        match r {
            Some(i) => i < items@.len() && items@[i as int].id@ == id@ && forall|j: int|
                0 <= j < i ==> (#[trigger] items@[j]).id@ != id@,
            None => !workspace_ids(items@).contains(id@),
        },
{
    let mut i: usize = 0;
    while i < items.len()
        invariant
            i <= items.len(),
            forall|j: int| 0 <= j < i ==> (#[trigger] items@[j]).id@ != id@,
        decreases items.len() - i,
    {
        if items[i].id.as_str().eq(id) {
            return Some(i);
        }
        i += 1;
    }
    proof {
        if workspace_ids(items@).contains(id@) {
            let j = choose|j: int|
                0 <= j < workspace_ids(items@).len() && workspace_ids(items@)[j] == id@;
            assert(items@[j].id@ == id@);
        }
    }
    None
}

/// Adds a workspace of the given name, with the id that the name gives.
/// Fails, and changes nothing, where a workspace has that id already.
pub fn create_workspace(config: &mut OrblyConfig, name: String, app_ids: Vec<String>) -> (r:
    Result<String, WorkspaceError>)
    ensures
        final(config).workspaces.active == old(config).workspaces.active,
        match r {
            Ok(id) => {
                &&& id@ == workspace_id_of(name@)
                &&& !workspace_ids(old(config).workspaces.items@).contains(id@)
                &&& final(config).workspaces.items@.len() == old(config).workspaces.items@.len()
                    + 1
                &&& final(config).workspaces.items@.drop_last() == old(config).workspaces.items@
                &&& final(config).workspaces.items@.last().id@ == id@
                &&& final(config).workspaces.items@.last().name == name
                &&& final(config).workspaces.items@.last().app_ids == app_ids
            },
            Err(e) => {
                &&& e matches WorkspaceError::AlreadyExists { id }
                &&& e->AlreadyExists_id@ == workspace_id_of(name@)
                &&& workspace_ids(old(config).workspaces.items@).contains(workspace_id_of(name@))
                &&& final(config).workspaces.items@ == old(config).workspaces.items@
            },
        },
{
    let id = workspace_id(name.as_str());
    if find_workspace(&config.workspaces.items, id.as_str()).is_some() {
        proof {
            let items = config.workspaces.items@;
            let j = choose|j: int| 0 <= j < items.len() && items[j].id@ == id@;
            assert(workspace_ids(items)[j] == id@);
        }
        return Err(WorkspaceError::AlreadyExists { id });
    }
    config.workspaces.items.push(Workspace { id: id.clone(), name, app_ids });
    assert(config.workspaces.items@.drop_last() =~= old(config).workspaces.items@);
    Ok(id)
}

/// Puts `workspace` in the place of the first workspace with its id.
/// Fails, and changes nothing, where there is none.
pub fn update_workspace(config: &mut OrblyConfig, workspace: Workspace) -> (r: Result<
    (),
    WorkspaceError,
>)
    ensures
        final(config).workspaces.active == old(config).workspaces.active,
        match r {
            Ok(_) => exists|i: int|
                0 <= i < old(config).workspaces.items@.len() && old(
                    config,
                ).workspaces.items@[i].id@ == workspace.id@ && final(config).workspaces.items@
                    == old(config).workspaces.items@.update(i, workspace),
            Err(e) => {
                &&& e matches WorkspaceError::NotFound { id }
                &&& e->NotFound_id@ == workspace.id@
                &&& !workspace_ids(old(config).workspaces.items@).contains(workspace.id@)
                &&& final(config).workspaces.items@ == old(config).workspaces.items@
            },
        },
{
    match find_workspace(&config.workspaces.items, workspace.id.as_str()) {
        Some(i) => {
            config.workspaces.items[i] = workspace;
            Ok(())
        },
        None => Err(WorkspaceError::NotFound { id: workspace.id.clone() }),
    }
}

/// The workspaces of `items` whose id is not `id`, in order.
pub open spec fn without_workspace(items: Seq<Workspace>, id: Seq<char>) -> Seq<Workspace>
    decreases items.len(),
{
    if items.len() == 0 {
        Seq::empty()
    } else if items.last().id@ == id {
        without_workspace(items.drop_last(), id)
    } else {
        without_workspace(items.drop_last(), id).push(items.last())
    }
}

/// Deletes the workspace `workspace_id`. Where it was the active one the
/// default workspace becomes active; the result tells whether it was. The
/// default workspace cannot be deleted.
pub fn delete_workspace(config: &mut OrblyConfig, workspace_id: &str) -> (r: Result<
    bool,
    WorkspaceError,
>)
    ensures
        match r {
            Ok(was_active) => {
                &&& workspace_id@ != "default"@
                &&& was_active == (old(config).workspaces.active@ == workspace_id@)
                &&& final(config).workspaces.items@ == without_workspace(
                    old(config).workspaces.items@,
                    workspace_id@,
                )
                &&& was_active ==> final(config).workspaces.active@ == "default"@
                &&& !was_active ==> final(config).workspaces.active == old(
                    config,
                ).workspaces.active
            },
            Err(e) => {
                &&& e == WorkspaceError::CannotDeleteDefault
                &&& workspace_id@ == "default"@
                &&& final(config).workspaces == old(config).workspaces
            },
        },
{
    if workspace_id.eq("default") {
        return Err(WorkspaceError::CannotDeleteDefault);
    }
    let ghost items0 = config.workspaces.items@;
    let ghost mut done: int = 0;
    let mut i: usize = 0;
    proof {
        assert(items0.take(0) =~= Seq::<Workspace>::empty());
        assert(config.workspaces.items@ =~= without_workspace(items0.take(0), workspace_id@)
            + items0.skip(0));
    }
    while i < config.workspaces.items.len()
        invariant
            items0 == old(config).workspaces.items@,
            config.workspaces.active == old(config).workspaces.active,
            0 <= done <= items0.len(),
            i <= config.workspaces.items@.len(),
            i == without_workspace(items0.take(done), workspace_id@).len(),
            config.workspaces.items@ == without_workspace(items0.take(done), workspace_id@)
                + items0.skip(done),
        decreases items0.len() - done,
    {
        proof {
            assert(done < items0.len());
            assert(config.workspaces.items@[i as int] == items0.skip(done)[0]);
            assert(items0.take(done + 1).drop_last() =~= items0.take(done));
            assert(items0.take(done + 1).last() == items0[done]);
        }
        if config.workspaces.items[i].id.as_str().eq(workspace_id) {
            let _ = config.workspaces.items.remove(i);
            proof {
                assert(config.workspaces.items@ =~= without_workspace(
                    items0.take(done + 1),
                    workspace_id@,
                ) + items0.skip(done + 1));
            }
        } else {
            proof {
                assert(config.workspaces.items@ =~= without_workspace(
                    items0.take(done + 1),
                    workspace_id@,
                ) + items0.skip(done + 1));
            }
            i += 1;
        }
        proof {
            done = done + 1;
        }
    }
    proof {
        assert(done == items0.len()) by {
            if done < items0.len() {
                assert(config.workspaces.items@.len() == i + items0.skip(done).len());
            }
        }
        assert(items0.take(done) =~= items0);
        assert(items0.skip(done) =~= Seq::<Workspace>::empty());
        assert(config.workspaces.items@ =~= without_workspace(items0, workspace_id@));
    }
    let was_active = config.workspaces.active.as_str().eq(workspace_id);
    if was_active {
        config.workspaces.active = String::from_str("default");
    }
    Ok(was_active)
}

/// Whether instance `k` is put to sleep when the user switches to a
/// workspace with the instances `members`: it is active and not among them.
pub open spec fn leaves_with_switch(m: Registry, members: Seq<Seq<char>>, k: Seq<char>) -> bool {
    m.contains_key(k) && m[k].state is Active && !members.contains(k)
}

/// Makes the workspace `workspace_id` the active one. Returns the instances
/// that are to be put to sleep: where the configuration asks for it and the
/// workspace is not the default one, those that are active and do not
/// belong to the workspace; else none.
///
/// Fails, and changes nothing, where there is no such workspace.
pub fn switch_workspace(config: &mut OrblyConfig, manager: &AppManager, workspace_id: &str) -> (r:
    Result<Vec<String>, WorkspaceError>)
    requires
        manager.wf(),
    ensures
        final(config).workspaces.items == old(config).workspaces.items,
        final(config).workspaces.auto_hibernate_on_workspace_switch == old(
            config,
        ).workspaces.auto_hibernate_on_workspace_switch,
        match r {
            Ok(asleep) => {
                &&& workspace_ids(old(config).workspaces.items@).contains(workspace_id@)
                &&& final(config).workspaces.active@ == workspace_id@
                &&& texts(asleep@).no_duplicates()
                &&& exists|i: int|
                    {
                        &&& 0 <= i < old(config).workspaces.items@.len()
                        &&& old(config).workspaces.items@[i].id@ == workspace_id@
                        &&& forall|j: int|
                            0 <= j < i ==> (#[trigger] old(config).workspaces.items@[j]).id@
                                != workspace_id@
                        &&& forall|k: Seq<char>|
                            texts(asleep@).contains(k) <==> old(
                                config,
                            ).workspaces.auto_hibernate_on_workspace_switch && workspace_id@
                                != "default"@ && leaves_with_switch(
                                manager@,
                                texts(old(config).workspaces.items@[i].app_ids@),
                                k,
                            )
                    }
            },
            Err(e) => {
                &&& e matches WorkspaceError::NotFound { id }
                &&& e->NotFound_id@ == workspace_id@
                &&& !workspace_ids(old(config).workspaces.items@).contains(workspace_id@)
                &&& final(config).workspaces.active == old(config).workspaces.active
            },
        },
{
    let at = match find_workspace(&config.workspaces.items, workspace_id) {
        Some(at) => at,
        None => {
            return Err(WorkspaceError::NotFound { id: workspace_id.to_owned() });
        },
    };
    proof {
        assert(workspace_ids(config.workspaces.items@)[at as int] == workspace_id@);
    }
    config.workspaces.active = workspace_id.to_owned();
    let mut asleep: Vec<String> = Vec::new();
    if config.workspaces.auto_hibernate_on_workspace_switch && !workspace_id.eq("default") {
        let ghost members = texts(config.workspaces.items@[at as int].app_ids@);
        let n = manager.len();
        let ghost ids = manager.ids();
        proof {
            manager.lemma_ids();
        }
        let mut i: usize = 0;
        while i < n
            invariant
                i <= n,
                n == ids.len(),
                ids == manager.ids(),
                ids.no_duplicates(),
                ids.to_set() == manager@.dom(),
                manager.wf(),
                at < config.workspaces.items@.len(),
                members == texts(config.workspaces.items@[at as int].app_ids@),
                texts(asleep@).no_duplicates(),
                forall|x: int|
                    0 <= x < asleep@.len() ==> exists|j: int|
                        0 <= j < i && ids[j] == #[trigger] texts(asleep@)[x],
                forall|x: int|
                    0 <= x < asleep@.len() ==> leaves_with_switch(
                        manager@,
                        members,
                        #[trigger] texts(asleep@)[x],
                    ),
                forall|j: int|
                    0 <= j < i && leaves_with_switch(manager@, members, #[trigger] ids[j])
                        ==> texts(asleep@).contains(ids[j]),
            decreases n - i,
        {
            let ghost before = asleep@;
            let id = manager.id_at(i);
            let active = match &manager.runtime_at(i).state {
                AppRuntimeState::Active { .. } => true,
                _ => false,
            };
            if active && !contains_text(&config.workspaces.items[at].app_ids, id.as_str()) {
                asleep.push(id.clone());
                proof {
                    assert(texts(asleep@) =~= texts(before).push(ids[i as int]));
                    assert(!texts(before).contains(ids[i as int])) by {
                        if texts(before).contains(ids[i as int]) {
                            let x = choose|x: int|
                                0 <= x < before.len() && texts(before)[x] == ids[i as int];
                            let j = choose|j: int| 0 <= j < i && ids[j] == texts(before)[x];
                            assert(ids[j] == ids[i as int]);
                        }
                    }
                }
            }
            proof {
                assert forall|x: int| 0 <= x < asleep@.len() implies exists|j: int|
                    0 <= j < i + 1 && ids[j] == #[trigger] texts(asleep@)[x] by {
                    if x < before.len() {
                        assert(texts(asleep@)[x] == texts(before)[x]);
                        let j = choose|j: int| 0 <= j < i && ids[j] == texts(before)[x];
                        assert(0 <= j < i + 1 && ids[j] == texts(asleep@)[x]);
                    } else {
                        assert(0 <= i < i + 1 && ids[i as int] == texts(asleep@)[x]);
                    }
                }
                assert forall|x: int| 0 <= x < asleep@.len() implies leaves_with_switch(
                    manager@,
                    members,
                    #[trigger] texts(asleep@)[x],
                ) by {
                    if x < before.len() {
                        assert(texts(asleep@)[x] == texts(before)[x]);
                    }
                }
                assert forall|j: int|
                    0 <= j < i + 1 && leaves_with_switch(
                        manager@,
                        members,
                        #[trigger] ids[j],
                    ) implies texts(asleep@).contains(ids[j]) by {
                    if j < i {
                        let x = choose|x: int|
                            0 <= x < before.len() && texts(before)[x] == ids[j];
                        assert(texts(asleep@)[x] == ids[j]);
                    } else {
                        assert(texts(asleep@)[before.len() as int] == ids[j]);
                    }
                }
            }
            i += 1;
        }
        proof {
            assert forall|k: Seq<char>|
                texts(asleep@).contains(k) <==> leaves_with_switch(manager@, members, k) by {
                if texts(asleep@).contains(k) {
                    let x = choose|x: int| 0 <= x < asleep@.len() && texts(asleep@)[x] == k;
                    assert(leaves_with_switch(manager@, members, texts(asleep@)[x]));
                }
                if leaves_with_switch(manager@, members, k) {
                    assert(ids.to_set().contains(k));
                    let j = choose|j: int| 0 <= j < ids.len() && ids[j] == k;
                    assert(texts(asleep@).contains(ids[j]));
                }
            }
        }
    }
    Ok(asleep)
}

} // verus!
