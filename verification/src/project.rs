//! Project operations: create, inspect, mutate and delete projects, the
//! roots of the hierarchy. Projects carry a completed flag instead of the
//! lifecycle state machine, and `updated_at` is refreshed on every write.

use vstd::prelude::*;
use vstd::string::StringExecFns;

use crate::db;
use crate::errors::{EntityKind, MemError, ValidationReason};
use crate::model::{
    modules_of, project_ids, project_ids_named, remove_project, ProjectRow, StoreModel,
};
use crate::text::{id_string, spec_i64_string, spec_trim, trim_str};

verus! {

/// A project, as loaded from the store. A project maps to one codebase;
/// it is the root of the hierarchy and owns modules.
#[derive(Debug, PartialEq, Eq)]
pub struct Project {
    pub id: i64,
    pub name: String,
    pub path: String,
    pub description: String,
    pub completed: bool,
    pub updated_at: String,
}

impl View for Project {
    type V = ProjectRow;

    open spec fn view(&self) -> ProjectRow {
        ProjectRow {
            name: self.name@,
            path: self.path@,
            description: self.description@,
            completed: self.completed,
            updated_at: self.updated_at@,
        }
    }
}

impl Clone for Project {
    fn clone(&self) -> (r: Self)
        ensures
            r == *self,
    {
        Project {
            id: self.id,
            name: self.name.clone(),
            path: self.path.clone(),
            description: self.description.clone(),
            completed: self.completed,
            updated_at: self.updated_at.clone(),
        }
    }
}

/// Whether this value is exactly the row stored under its id.
pub open spec fn project_in(p: Project, s: StoreModel) -> bool {
    s.projects.dom().contains(p.id) && s.projects[p.id] == p@
}

/// The stores agree except that this one project row was replaced.
pub open spec fn project_row_set(s0: StoreModel, s1: StoreModel, id: i64, row: ProjectRow) -> bool {
    &&& s0.projects.dom().contains(id)
    &&& s1 == (StoreModel { projects: s0.projects.insert(id, row), ..s0 })
}

/// Loads one project by id.
pub fn load(conn: &rusqlite::Connection, id: i64) -> (r: Result<Option<Project>, MemError>)
    ensures
        match r {
            Ok(Some(p)) => p.id == id && project_in(p, db::store_of(*conn)),
            Ok(None) => !db::store_of(*conn).projects.dom().contains(id),
            Err(e) => e is Storage,
        },
{
    match db::load_project(conn, id) {
        Ok(p) => Ok(p),
        Err(e) => Err(db::storage_error(&e)),
    }
}

/// Loads one project, turning absence into the not-found error.
fn load_required(conn: &rusqlite::Connection, id: i64) -> (r: Result<Project, MemError>)
    ensures
        match r {
            Ok(p) => p.id == id && project_in(p, db::store_of(*conn)),
            Err(e) => match e {
                MemError::NotFound(k, t) => k == EntityKind::Project && t@ == spec_i64_string(
                    id as int,
                ) && !db::store_of(*conn).projects.dom().contains(id),
                MemError::Storage(_) => true,
                _ => false,
            },
        },
{
    match db::load_project(conn, id) {
        Ok(Some(p)) => Ok(p),
        Ok(None) => Err(MemError::NotFound(EntityKind::Project, id_string(id))),
        Err(e) => Err(db::storage_error(&e)),
    }
}

/// Registers a project. The name is trimmed and must not end up empty;
/// the new row starts incomplete, and is returned as stored.
pub fn add(conn: &mut rusqlite::Connection, name: &str, path: &str, description: &str) -> (r:
    Result<Project, MemError>)
    ensures
        ({
            let s0 = db::store_of(*old(conn));
            let s1 = db::store_of(*final(conn));
            match r {
                Ok(p) => {
                    &&& spec_trim(name@).len() > 0
                    &&& p.id > 0
                    &&& !s0.projects.dom().contains(p.id)
                    &&& project_ids_named(s0, spec_trim(name@)).is_empty()
                    &&& project_in(p, s1)
                    &&& s1 == (StoreModel { projects: s0.projects.insert(p.id, p@), ..s0 })
                    &&& p@ == (ProjectRow {
                        name: spec_trim(name@),
                        path: path@,
                        description: description@,
                        completed: false,
                        updated_at: p@.updated_at,
                    })
                    &&& db::spec_timestamp_shape(p@.updated_at)
                },
                Err(e) => s1 == s0 && match e {
                    MemError::Validation(v) => v == ValidationReason::EmptyName && spec_trim(
                        name@,
                    ).len() == 0,
                    MemError::Storage(_) => true,
                    _ => false,
                },
            }
        }),
        spec_trim(name@).len() == 0 ==> r == Err::<Project, MemError>(MemError::Validation(
            ValidationReason::EmptyName,
        )),
{
    let trimmed = trim_str(name);
    if trimmed.as_str().is_empty() {
        return Err(MemError::Validation(ValidationReason::EmptyName));
    }
    let ts = db::now_timestamp();
    match db::insert_project(conn, trimmed.as_str(), path, description, ts.as_str()) {
        Ok(id) => Ok(
            Project {
                id,
                name: trimmed,
                path: path.to_owned(),
                description: description.to_owned(),
                completed: false,
                updated_at: ts,
            },
        ),
        Err(e) => Err(db::storage_error(&e)),
    }
}

/// Renames a project. The new name is trimmed and must not end up empty;
/// everything but the name and the refreshed timestamp is kept, and the
/// post-mutation snapshot is returned.
pub fn rename(conn: &mut rusqlite::Connection, id: i64, new_name: &str) -> (r: Result<
    Project,
    MemError,
>)
    ensures
        ({
            let s0 = db::store_of(*old(conn));
            let s1 = db::store_of(*final(conn));
            match r {
                Ok(p) => {
                    &&& spec_trim(new_name@).len() > 0
                    &&& p.id == id
                    &&& project_in(p, s1)
                    &&& project_row_set(s0, s1, id, p@)
                    &&& p@ == (ProjectRow {
                        name: spec_trim(new_name@),
                        updated_at: p@.updated_at,
                        ..s0.projects[id]
                    })
                    &&& db::spec_timestamp_shape(p@.updated_at)
                },
                Err(e) => s1 == s0 && match e {
                    MemError::Validation(v) => v == ValidationReason::EmptyName && spec_trim(
                        new_name@,
                    ).len() == 0,
                    MemError::NotFound(k, t) => k == EntityKind::Project && t@ == spec_i64_string(
                        id as int,
                    ) && !s0.projects.dom().contains(id),
                    MemError::Storage(_) => true,
                    _ => false,
                },
            }
        }),
        spec_trim(new_name@).len() == 0 ==> r == Err::<Project, MemError>(MemError::Validation(
            ValidationReason::EmptyName,
        )),
{
    let trimmed = trim_str(new_name);
    if trimmed.as_str().is_empty() {
        return Err(MemError::Validation(ValidationReason::EmptyName));
    }
    let p0 = load_required(conn, id)?;
    let ts = db::now_timestamp();
    match db::update_project_row(
        conn,
        id,
        trimmed.as_str(),
        p0.path.as_str(),
        p0.description.as_str(),
        p0.completed,
        ts.as_str(),
    ) {
        Ok(_) => Ok(
            Project {
                id,
                name: trimmed,
                path: p0.path,
                description: p0.description,
                completed: p0.completed,
                updated_at: ts,
            },
        ),
        Err(e) => Err(db::storage_error(&e)),
    }
}

/// Replaces a project's description, keeping everything else but the
/// refreshed timestamp, and returns the post-mutation snapshot.
pub fn set_description(conn: &mut rusqlite::Connection, id: i64, description: &str) -> (r: Result<
    Project,
    MemError,
>)
    ensures
        ({
            let s0 = db::store_of(*old(conn));
            let s1 = db::store_of(*final(conn));
            match r {
                Ok(p) => {
                    &&& p.id == id
                    &&& project_in(p, s1)
                    &&& project_row_set(s0, s1, id, p@)
                    &&& p@ == (ProjectRow {
                        description: description@,
                        updated_at: p@.updated_at,
                        ..s0.projects[id]
                    })
                    &&& db::spec_timestamp_shape(p@.updated_at)
                },
                Err(e) => s1 == s0 && match e {
                    MemError::NotFound(k, t) => k == EntityKind::Project && t@ == spec_i64_string(
                        id as int,
                    ) && !s0.projects.dom().contains(id),
                    MemError::Storage(_) => true,
                    _ => false,
                },
            }
        }),
{
    let p0 = load_required(conn, id)?;
    let ts = db::now_timestamp();
    match db::update_project_row(
        conn,
        id,
        p0.name.as_str(),
        p0.path.as_str(),
        description,
        p0.completed,
        ts.as_str(),
    ) {
        Ok(_) => Ok(
            Project {
                id,
                name: p0.name,
                path: p0.path,
                description: description.to_owned(),
                completed: p0.completed,
                updated_at: ts,
            },
        ),
        Err(e) => Err(db::storage_error(&e)),
    }
}

/// Replaces a project's filesystem path, keeping everything else but the
/// refreshed timestamp, and returns the post-mutation snapshot.
pub fn set_path(conn: &mut rusqlite::Connection, id: i64, path: &str) -> (r: Result<
    Project,
    MemError,
>)
    ensures
        ({
            let s0 = db::store_of(*old(conn));
            let s1 = db::store_of(*final(conn));
            match r {
                Ok(p) => {
                    &&& p.id == id
                    &&& project_in(p, s1)
                    &&& project_row_set(s0, s1, id, p@)
                    &&& p@ == (ProjectRow {
                        path: path@,
                        updated_at: p@.updated_at,
                        ..s0.projects[id]
                    })
                    &&& db::spec_timestamp_shape(p@.updated_at)
                },
                Err(e) => s1 == s0 && match e {
                    MemError::NotFound(k, t) => k == EntityKind::Project && t@ == spec_i64_string(
                        id as int,
                    ) && !s0.projects.dom().contains(id),
                    MemError::Storage(_) => true,
                    _ => false,
                },
            }
        }),
{
    let p0 = load_required(conn, id)?;
    let ts = db::now_timestamp();
    match db::update_project_row(
        conn,
        id,
        p0.name.as_str(),
        path,
        p0.description.as_str(),
        p0.completed,
        ts.as_str(),
    ) {
        Ok(_) => Ok(
            Project {
                id,
                name: p0.name,
                path: path.to_owned(),
                description: p0.description,
                completed: p0.completed,
                updated_at: ts,
            },
        ),
        Err(e) => Err(db::storage_error(&e)),
    }
}

/// Marks a project complete or reopens it — a toggle independent of the
/// lifecycle state machine — and returns the post-mutation snapshot.
pub fn set_completed(conn: &mut rusqlite::Connection, id: i64, completed: bool) -> (r: Result<
    Project,
    MemError,
>)
    ensures
        ({
            let s0 = db::store_of(*old(conn));
            let s1 = db::store_of(*final(conn));
            match r {
                Ok(p) => {
                    &&& p.id == id
                    &&& project_in(p, s1)
                    &&& project_row_set(s0, s1, id, p@)
                    &&& p@ == (ProjectRow {
                        completed: completed,
                        updated_at: p@.updated_at,
                        ..s0.projects[id]
                    })
                    &&& db::spec_timestamp_shape(p@.updated_at)
                },
                Err(e) => s1 == s0 && match e {
                    MemError::NotFound(k, t) => k == EntityKind::Project && t@ == spec_i64_string(
                        id as int,
                    ) && !s0.projects.dom().contains(id),
                    MemError::Storage(_) => true,
                    _ => false,
                },
            }
        }),
{
    let p0 = load_required(conn, id)?;
    let ts = db::now_timestamp();
    match db::update_project_row(
        conn,
        id,
        p0.name.as_str(),
        p0.path.as_str(),
        p0.description.as_str(),
        completed,
        ts.as_str(),
    ) {
        Ok(_) => Ok(
            Project {
                id,
                name: p0.name,
                path: p0.path,
                description: p0.description,
                completed,
                updated_at: ts,
            },
        ),
        Err(e) => Err(db::storage_error(&e)),
    }
}

/// Deletes a project. With direct modules present the deletion is refused
/// unless the caller authorized the cascade, which then takes the whole
/// subtree and all of its association rows along — never a research
/// record itself. The snapshot of the deleted row is returned.
pub fn remove(conn: &mut rusqlite::Connection, id: i64, cascade: bool) -> (r: Result<
    Project,
    MemError,
>)
    ensures
        ({
            let s0 = db::store_of(*old(conn));
            let s1 = db::store_of(*final(conn));
            match r {
                Ok(p) => {
                    &&& p.id == id
                    &&& project_in(p, s0)
                    &&& s1 == remove_project(s0, id)
                    &&& cascade || modules_of(s0, id).len() == 0
                },
                Err(e) => s1 == s0 && match e {
                    MemError::NotFound(k, t) => k == EntityKind::Project && t@ == spec_i64_string(
                        id as int,
                    ) && !s0.projects.dom().contains(id),
                    MemError::ConflictHasChildren(n, flag) => !cascade && flag@ == "cascade"@
                        && s0.projects.dom().contains(id) && n > 0 && n as nat == modules_of(
                        s0,
                        id,
                    ).len(),
                    MemError::Storage(_) => true,
                    _ => false,
                },
            }
        }),
{
    let p0 = load_required(conn, id)?;
    let count = match db::count_modules_of(conn, id) {
        Ok(n) => n,
        Err(e) => {
            return Err(db::storage_error(&e));
        },
    };
    if count > 0 && !cascade {
        return Err(MemError::ConflictHasChildren(count as u64, String::from_str("cascade")));
    }
    match db::delete_project_row(conn, id) {
        Ok(_) => Ok(p0),
        Err(e) => Err(db::storage_error(&e)),
    }
}

/// Whether a row's completed flag passes the list filter.
pub open spec fn completed_matches(completed: bool, filter: Option<bool>) -> bool {
    match filter {
        Some(want) => completed == want,
        None => true,
    }
}

/// Lists all projects in ascending id order, kept to only completed or
/// only incomplete ones when a filter is given.
#[verifier::rlimit(100)]
pub fn list(conn: &rusqlite::Connection, filter: Option<bool>) -> (r: Result<
    Vec<Project>,
    MemError,
>)
    ensures
        ({
            let s = db::store_of(*conn);
            match r {
                Ok(v) => {
                    &&& db::project_ids_ascending(v@)
                    &&& forall|i: int|
                        0 <= i < v@.len() ==> project_in(#[trigger] v@[i], s)
                            && completed_matches(v@[i].completed, filter)
                    &&& forall|pid: i64|
                        #[trigger] project_ids(s).contains(pid) && completed_matches(
                            s.projects[pid].completed,
                            filter,
                        ) ==> exists|i: int| 0 <= i < v@.len() && v@[i].id == pid
                },
                Err(e) => e is Storage,
            }
        }),
{
    let rows = match db::all_projects(conn) {
        Ok(v) => v,
        Err(e) => {
            return Err(db::storage_error(&e));
        },
    };
    match filter {
        None => Ok(rows),
        Some(want) => {
            let mut out: Vec<Project> = Vec::new();
            let mut i: usize = 0;
            while i < rows.len()
                invariant
                    0 <= i <= rows@.len(),
                    db::project_ids_ascending(rows@),
                    forall|j: int|
                        0 <= j < rows@.len() ==> project_in(
                            #[trigger] rows@[j],
                            db::store_of(*conn),
                        ),
                    db::project_ids_ascending(out@),
                    forall|a: int|
                        0 <= a < out@.len() ==> exists|j: int|
                            0 <= j < i && rows@[j] == #[trigger] out@[a],
                    forall|a: int|
                        0 <= a < out@.len() ==> project_in(#[trigger] out@[a], db::store_of(*conn))
                            && out@[a].completed == want,
                    forall|j: int| #![trigger rows@[j]]
                        0 <= j < i && rows@[j].completed == want ==> exists|a: int|
                            0 <= a < out@.len() && out@[a].id == rows@[j].id,
                decreases rows@.len() - i,
            {
                let ghost out0 = out@;
                let keep = rows[i].completed == want;
                if keep {
                    let picked = rows[i].clone();
                    proof {
                        assert(picked == rows@[i as int]);
                        assert forall|a: int| 0 <= a < out@.len() implies out@[a].id
                            < picked.id by {
                            let j = choose|j: int| 0 <= j < i && rows@[j] == out@[a];
                            assert(rows@[j].id < rows@[i as int].id);
                        }
                    }
                    out.push(picked);
                    assert(out@[out@.len() - 1] == rows@[i as int]);
                }
                proof {
                    assert forall|j: int| #![trigger rows@[j]]
                        0 <= j < i + 1 && rows@[j].completed == want implies exists|a: int|
                        0 <= a < out@.len() && out@[a].id == rows@[j].id by {
                        if j < i {
                            let a = choose|a: int|
                                0 <= a < out0.len() && out0[a].id == rows@[j].id;
                            assert(out@[a] == out0[a]);
                        } else {
                            assert(keep);
                            assert(out@[out@.len() - 1].id == rows@[j].id);
                        }
                    }
                }
                i = i + 1;
            }
            proof {
                let s = db::store_of(*conn);
                assert forall|pid: i64|
                    #[trigger] project_ids(s).contains(pid) && s.projects[pid].completed
                        == want implies exists|a: int|
                    0 <= a < out@.len() && out@[a].id == pid by {
                    let j = choose|j: int| 0 <= j < rows@.len() && rows@[j].id == pid;
                    assert(project_in(rows@[j], s));
                }
                assert(forall|i: int|
                    0 <= i < out@.len() ==> project_in(#[trigger] out@[i], s)
                        && completed_matches(out@[i].completed, filter));
                assert(forall|pid: i64|
                    #[trigger] project_ids(s).contains(pid) && completed_matches(
                        s.projects[pid].completed,
                        filter,
                    ) ==> exists|i: int| 0 <= i < out@.len() && out@[i].id == pid);
            }
            Ok(out)
        },
    }
}

/// Everything the project view shows: the row, its modules and the
/// research linked to it.
pub struct ProjectDetail {
    pub project: Project,
    pub modules: Vec<crate::module::Module>,
    pub research: Vec<crate::research::Research>,
}

/// Loads the full view of one project: the row itself, its modules and
/// the research records linked to it, both in ascending id order.
pub fn show(conn: &rusqlite::Connection, id: i64) -> (r: Result<ProjectDetail, MemError>)
    ensures
        ({
            let s = db::store_of(*conn);
            match r {
                Ok(d) => {
                    &&& d.project.id == id
                    &&& project_in(d.project, s)
                    &&& db::module_ids_ascending(d.modules@)
                    &&& forall|i: int|
                        0 <= i < d.modules@.len() ==> crate::module::module_in(
                            #[trigger] d.modules@[i],
                            s,
                        ) && d.modules@[i].project_id == id
                    &&& forall|mid: i64|
                        #[trigger] modules_of(s, id).contains(mid) ==> exists|i: int|
                            0 <= i < d.modules@.len() && d.modules@[i].id == mid
                    &&& db::research_ids_ascending(d.research@)
                    &&& forall|i: int|
                        0 <= i < d.research@.len() ==> crate::research::research_in(
                            #[trigger] d.research@[i],
                            s,
                        ) && s.research_projects.contains((d.research@[i].id, id))
                    &&& forall|rid: i64|
                        #[trigger] s.research_projects.contains((rid, id)) && s.research.dom()
                            .contains(rid) ==> exists|i: int|
                            0 <= i < d.research@.len() && d.research@[i].id == rid
                },
                Err(e) => match e {
                    MemError::NotFound(k, t) => k == EntityKind::Project && t@ == spec_i64_string(
                        id as int,
                    ) && !s.projects.dom().contains(id),
                    MemError::Storage(_) => true,
                    _ => false,
                },
            }
        }),
{
    let p0 = load_required(conn, id)?;
    let modules = match db::modules_of_project(conn, id) {
        Ok(v) => v,
        Err(e) => {
            return Err(db::storage_error(&e));
        },
    };
    let research = match db::research_linked_to_project(conn, id) {
        Ok(v) => v,
        Err(e) => {
            return Err(db::storage_error(&e));
        },
    };
    Ok(ProjectDetail { project: p0, modules, research })
}

} // verus!
