//! The rules for creating, listing and renaming projects in a folder.

use vstd::prelude::*;
use vstd::string::*;
use crate::db::{ProjectDatabase, StoreView, store_of, usable};
use crate::error::StoreError;
use crate::models::{ProjectMeta, ProjectMetaView};
use crate::order::{ordered, sort_ranked, views};
use crate::schema::{StoredProject, migrated, nothing_stored};
use crate::text::{join_path, joined, same_text};

verus! {

/// The store of a project that has just been created: every table exists
/// and is empty.
pub open spec fn empty_store() -> StoreView {
    StoreView {
        shots: Seq::empty(),
        characters: Seq::empty(),
        scenes: Seq::empty(),
        props: Seq::empty(),
        meta: Seq::empty(),
        log: Seq::empty(),
    }
}

/// Whether a project of the given name is among the entries of a folder.
pub open spec fn name_taken(siblings: Seq<String>, name: Seq<char>) -> bool {
    exists|i: int| 0 <= i < siblings.len() && (#[trigger] siblings[i])@ == name
}

/// Whether a project cannot take a new name: another entry of its folder
/// has that name.  The project itself, under its old name, is no obstacle.
pub open spec fn rename_collides(
    siblings: Seq<String>,
    old_name: Seq<char>,
    new_name: Seq<char>,
) -> bool {
    new_name != old_name && name_taken(siblings, new_name)
}

/// The count that is shown for a table of `n` rows.
pub open spec fn shown_count(n: nat) -> int {
    if n > i64::MAX {
        i64::MAX as int
    } else {
        n as int
    }
}

/// The summary of a project.  The name falls back to `Unknown` and each
/// time to 0 where the file system gives none.
pub open spec fn summary(
    folder_path: Seq<char>,
    folder_name: Option<Seq<char>>,
    created_at: Option<int>,
    modified_at: Option<int>,
    store: StoreView,
) -> ProjectMetaView {
    ProjectMetaView {
        name: match folder_name {
            Some(name) => name,
            None => "Unknown"@,
        },
        path: folder_path,
        created_at: match created_at {
            Some(t) => t,
            None => 0,
        },
        modified_at: match modified_at {
            Some(t) => t,
            None => 0,
        },
        storyboard_count: shown_count(store.shots.len()),
        chat_count: shown_count(store.log.len()),
    }
}

/// Opening a project of which nothing exists yet gives the empty store.
pub proof fn lemma_fresh_project_opens()
    ensures
        usable(migrated(nothing_stored())),
        store_of(migrated(nothing_stored())) == empty_store(),
        empty_store().wf(),
{
}

/// Creates a project in a folder.  `exists` tells whether the folder has an
/// entry of that name already; then nothing is created.  Else the result is
/// the path of the new project and its store, which is empty.
pub fn create_project(folder_path: &str, project_name: &str, exists: bool) -> (created: Result<
    (String, ProjectDatabase),
    StoreError,
>)
    ensures
        match created {
            Ok((path, db)) => !exists && path@ == joined(folder_path@, project_name@) && db@
                == empty_store() && db.wf(),
            Err(e) => exists && e == StoreError::ValidationFailure,
        },
{
    if exists {
        return Err(StoreError::ValidationFailure);
    }
    proof {
        lemma_fresh_project_opens();
    }
    match ProjectDatabase::open(StoredProject::empty()) {
        Ok(db) => Ok((join_path(folder_path, project_name), db)),
        Err(e) => Err(e),
    }
}

/// The count shown for a table.
fn count_of(n: usize) -> (count: i64)
    ensures
        count == shown_count(n as nat),
{
    if n as u64 > i64::MAX as u64 {
        i64::MAX
    } else {
        n as i64
    }
}

/// The summary of an opened project: its name and path, the times that the
/// file system gives for its folder, in seconds, and the sizes of its shot
/// list and of its conversation.
pub fn open_project(
    folder_path: String,
    folder_name: Option<String>,
    created_at: Option<i64>,
    modified_at: Option<i64>,
    db: &ProjectDatabase,
) -> (meta: ProjectMeta)
    ensures
        meta@ == summary(
            folder_path@,
            crate::models::opt_text(folder_name),
            crate::models::opt_int(created_at),
            crate::models::opt_int(modified_at),
            db@,
        ),
{
    let name = match folder_name {
        Some(name) => name,
        None => String::from_str("Unknown"),
    };
    let created_at = match created_at {
        Some(t) => t,
        None => 0,
    };
    let modified_at = match modified_at {
        Some(t) => t,
        None => 0,
    };
    ProjectMeta {
        name,
        path: folder_path,
        created_at,
        modified_at,
        storyboard_count: count_of(db.storyboards().len()),
        chat_count: count_of(db.messages().len()),
    }
}

/// Puts the projects of a folder in the order in which they are listed:
/// the one changed last comes first, and projects changed at the same time
/// keep their order.
pub fn list_projects(projects: Vec<ProjectMeta>) -> (listed: Vec<ProjectMeta>)
    ensures
        views(listed@) == ordered::<ProjectMeta>(views(projects@)),
{
    sort_ranked(projects)
}

/// Tells whether a project of the given name is among the entries of a
/// folder.
pub fn check_project_name_exists(project_name: &str, siblings: &Vec<String>) -> (taken: bool)
    ensures
        taken == name_taken(siblings@, project_name@),
{
    let wanted = String::from_str(project_name);
    let mut i: usize = 0;
    while i < siblings.len()
        invariant
            i <= siblings.len(),
            wanted@ == project_name@,
            forall|j: int| 0 <= j < i ==> (#[trigger] siblings[j])@ != project_name@,
        decreases siblings.len() - i,
    {
        if siblings[i] == wanted {
            return true;
        }
        i += 1;
    }
    false
}

/// Decides a renaming.  `siblings` are the names of the entries of the
/// folder that holds the project, the project itself among them.  The
/// renaming is refused where another entry has the new name; else the
/// result is the new path of the project.
pub fn update_project_name(
    parent: &str,
    old_name: &str,
    new_name: &str,
    siblings: &Vec<String>,
) -> (renamed: Result<String, StoreError>)
    ensures
        match renamed {
            Ok(path) => !rename_collides(siblings@, old_name@, new_name@) && path@ == joined(
                parent@,
                new_name@,
            ),
            Err(e) => e == StoreError::ValidationFailure && rename_collides(
                siblings@,
                old_name@,
                new_name@,
            ),
        },
{
    if !same_text(old_name, new_name) && check_project_name_exists(new_name, siblings) {
        return Err(StoreError::ValidationFailure);
    }
    Ok(join_path(parent, new_name))
}

} // verus!
