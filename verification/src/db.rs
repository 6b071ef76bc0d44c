//! The persistence layer: a SQLite database reached through `rusqlite`.
//!
//! Every function here is a trusted wrapper around one SQL statement. Each
//! wrapper's contract describes the statement as a transformation of the
//! [`StoreModel`] named by [`store_of`]; the verified operations of the
//! library are proved against these contracts. The schema installed by
//! [`open`] carries the store's own guarantees — uniqueness of names in
//! their scope, foreign keys from child to parent with `ON DELETE CASCADE` —
//! and the wrappers' contracts state no more than the schema and the
//! statement show.

use vstd::prelude::*;

use rusqlite::OptionalExtension;

use crate::feature::{feature_in, Feature};
use crate::model::{
    feature_ids_named, feature_ids_named_in, features_of, link_feature_model, link_module_model,
    link_project_model, link_task_model, module_ids_named, module_ids_named_in, modules_of,
    project_ids, project_ids_named, remove_feature, remove_module, remove_project,
    remove_research, research_ids,
    remove_task, research_ids_named, task_ids_named, task_ids_named_in, tasks_of,
    unlink_feature_model, unlink_module_model, unlink_project_model, unlink_task_model,
    FeatureRow, ModuleRow, ProjectRow, ResearchRow, StoreModel, TaskRow,
};
use crate::state::{spec_state_name, State};
use crate::text::spec_is_digit;
use crate::module::{module_in, Module};
use crate::project::{project_in, Project};
use crate::research::{research_in, Research};
use crate::task::{task_in, Task};

verus! {

#[verifier::external_type_specification]
#[verifier::external_body]
pub struct ExConnection(rusqlite::Connection);

#[verifier::external_type_specification]
#[verifier::external_body]
pub struct ExSqlError(rusqlite::Error);

/// The contents of the database behind a connection, as a store model.
///
/// The model is a function of the connection value: it treats the store
/// as changed only by this library's own writes on that connection. That
/// matches the one-shot, single-invocation use the system is built for;
/// under concurrent writers the same reading would call for wrapping each
/// command in one transaction, a strengthening the design allows.
pub uninterp spec fn store_of(c: rusqlite::Connection) -> StoreModel;

/// A sequence of ids in strictly ascending order, hence without duplicates.
pub open spec fn ids_ascending(ids: Seq<i64>) -> bool {
    forall|i: int, j: int| 0 <= i < j < ids.len() ==> ids[i] < ids[j]
}

/// A sequence of loaded rows sorted by strictly ascending id.
pub open spec fn project_ids_ascending(v: Seq<Project>) -> bool {
    forall|i: int, j: int| 0 <= i < j < v.len() ==> v[i].id < v[j].id
}

/// A sequence of loaded rows sorted by strictly ascending id.
pub open spec fn module_ids_ascending(v: Seq<Module>) -> bool {
    forall|i: int, j: int| 0 <= i < j < v.len() ==> v[i].id < v[j].id
}

/// A sequence of loaded rows sorted by strictly ascending id.
pub open spec fn feature_ids_ascending(v: Seq<Feature>) -> bool {
    forall|i: int, j: int| 0 <= i < j < v.len() ==> v[i].id < v[j].id
}

/// A sequence of loaded rows sorted by strictly ascending id.
pub open spec fn task_ids_ascending(v: Seq<Task>) -> bool {
    forall|i: int, j: int| 0 <= i < j < v.len() ==> v[i].id < v[j].id
}

/// A sequence of loaded rows sorted by strictly ascending id.
pub open spec fn research_ids_ascending(v: Seq<Research>) -> bool {
    forall|i: int, j: int| 0 <= i < j < v.len() ==> v[i].id < v[j].id
}

/// Relies on rusqlite's implementation of `std::fmt::Display` for
/// `rusqlite::Error`: the human-readable report of a storage failure.
#[verifier::external_body]
pub(crate) fn sql_error_text(e: &rusqlite::Error) -> String {
    format!("{}", e)
}

/// Turns a storage failure into the library's error variant for it.
pub(crate) fn storage_error(e: &rusqlite::Error) -> (r: crate::errors::MemError)
    ensures
        r is Storage,
{
    crate::errors::MemError::Storage(sql_error_text(e))
}

/// Relies on `rusqlite::Connection::open` and `execute_batch`: opens or
/// creates the database file and installs the schema if it is missing. The
/// schema declares per-scope name uniqueness, a five-name check on every
/// state column, and cascading foreign keys from child to parent and from
/// association row to both of its endpoints.
#[verifier::external_body]
fn open_raw(path: &str) -> Result<rusqlite::Connection, rusqlite::Error> {
    let c = rusqlite::Connection::open(path)?;
    c.execute_batch("PRAGMA journal_mode=WAL; PRAGMA foreign_keys=ON;")?;
    c.execute_batch("CREATE TABLE IF NOT EXISTS projects (id INTEGER PRIMARY KEY AUTOINCREMENT, name TEXT NOT NULL UNIQUE, path TEXT NOT NULL, description TEXT NOT NULL DEFAULT '', completed INTEGER NOT NULL DEFAULT 0, updated_at TEXT NOT NULL DEFAULT (strftime('%Y-%m-%dT%H:%M:%SZ', 'now'))); CREATE TABLE IF NOT EXISTS modules (id INTEGER PRIMARY KEY AUTOINCREMENT, project_id INTEGER NOT NULL REFERENCES projects(id) ON DELETE CASCADE, name TEXT NOT NULL, description TEXT NOT NULL DEFAULT '', details TEXT NOT NULL DEFAULT '', state TEXT NOT NULL DEFAULT 'Draft' CHECK(state IN ('Draft','Planning','Building','Complete','Amending')), last_worked_on TEXT NOT NULL DEFAULT (strftime('%Y-%m-%dT%H:%M:%SZ', 'now')), UNIQUE(project_id, name));")?;
    c.execute_batch("CREATE TABLE IF NOT EXISTS features (id INTEGER PRIMARY KEY AUTOINCREMENT, module_id INTEGER NOT NULL REFERENCES modules(id) ON DELETE CASCADE, name TEXT NOT NULL, description TEXT NOT NULL DEFAULT '', details TEXT NOT NULL DEFAULT '', state TEXT NOT NULL DEFAULT 'Draft' CHECK(state IN ('Draft','Planning','Building','Complete','Amending')), last_worked_on TEXT NOT NULL DEFAULT (strftime('%Y-%m-%dT%H:%M:%SZ', 'now')), UNIQUE(module_id, name)); CREATE TABLE IF NOT EXISTS tasks (id INTEGER PRIMARY KEY AUTOINCREMENT, feature_id INTEGER NOT NULL REFERENCES features(id) ON DELETE CASCADE, name TEXT NOT NULL, description TEXT NOT NULL DEFAULT '', details TEXT NOT NULL DEFAULT '', state TEXT NOT NULL DEFAULT 'Draft' CHECK(state IN ('Draft','Planning','Building','Complete','Amending')), last_worked_on TEXT NOT NULL DEFAULT (strftime('%Y-%m-%dT%H:%M:%SZ', 'now')), UNIQUE(feature_id, name));")?;
    c.execute_batch("CREATE TABLE IF NOT EXISTS research (id INTEGER PRIMARY KEY AUTOINCREMENT, name TEXT NOT NULL UNIQUE, description TEXT NOT NULL DEFAULT '', content TEXT NOT NULL DEFAULT '', source TEXT NOT NULL DEFAULT '', researched_at TEXT NOT NULL DEFAULT (strftime('%Y-%m-%dT%H:%M:%SZ', 'now')), created_at TEXT NOT NULL DEFAULT (strftime('%Y-%m-%dT%H:%M:%SZ', 'now')), updated_at TEXT NOT NULL DEFAULT (strftime('%Y-%m-%dT%H:%M:%SZ', 'now')));")?;
    c.execute_batch("CREATE TABLE IF NOT EXISTS research_projects (research_id INTEGER NOT NULL REFERENCES research(id) ON DELETE CASCADE, project_id INTEGER NOT NULL REFERENCES projects(id) ON DELETE CASCADE, PRIMARY KEY (research_id, project_id)); CREATE TABLE IF NOT EXISTS research_modules (research_id INTEGER NOT NULL REFERENCES research(id) ON DELETE CASCADE, module_id INTEGER NOT NULL REFERENCES modules(id) ON DELETE CASCADE, PRIMARY KEY (research_id, module_id)); CREATE TABLE IF NOT EXISTS research_features (research_id INTEGER NOT NULL REFERENCES research(id) ON DELETE CASCADE, feature_id INTEGER NOT NULL REFERENCES features(id) ON DELETE CASCADE, PRIMARY KEY (research_id, feature_id)); CREATE TABLE IF NOT EXISTS research_tasks (research_id INTEGER NOT NULL REFERENCES research(id) ON DELETE CASCADE, task_id INTEGER NOT NULL REFERENCES tasks(id) ON DELETE CASCADE, PRIMARY KEY (research_id, task_id));")?;
    Ok(c)
}

/// Opens the store at the given path, creating the schema if needed.
pub fn open(path: &str) -> Result<rusqlite::Connection, crate::errors::MemError> {
    match open_raw(path) {
        Ok(c) => Ok(c),
        Err(e) => Err(storage_error(&e)),
    }
}

/// The shape every stored timestamp has: twenty characters of zero-padded
/// date and time fields at second precision, a `T` separator and a
/// literal `Z` suffix.
pub open spec fn spec_timestamp_shape(s: Seq<char>) -> bool {
    &&& s.len() == 20
    &&& spec_is_digit(s[0]) && spec_is_digit(s[1]) && spec_is_digit(s[2]) && spec_is_digit(s[3])
    &&& s[4] == '-'
    &&& spec_is_digit(s[5]) && spec_is_digit(s[6])
    &&& s[7] == '-'
    &&& spec_is_digit(s[8]) && spec_is_digit(s[9])
    &&& s[10] == 'T'
    &&& spec_is_digit(s[11]) && spec_is_digit(s[12])
    &&& s[13] == ':'
    &&& spec_is_digit(s[14]) && spec_is_digit(s[15])
    &&& s[16] == ':'
    &&& spec_is_digit(s[17]) && spec_is_digit(s[18])
    &&& s[19] == 'Z'
}

/// Relies on `chrono::Utc::now` and `DateTime::format` with the fixed
/// recipe of a zero-padded four-digit proleptic Gregorian year, zero-padded
/// two-digit month, day, hour, minute and second fields, the separators
/// written literally. The clock decides the value; only the shape is
/// stated, and it holds of every reading whose year has four digits —
/// chrono widens the year field only outside the years 0 through 9999.
#[verifier::external_body]
pub(crate) fn now_timestamp() -> (r: String)
    ensures
        spec_timestamp_shape(r@),
{
    chrono::Utc::now().format("%Y-%m-%dT%H:%M:%SZ").to_string()
}

// ── Point lookups ────────────────────────────────────────────────────────

/// Relies on `rusqlite::Connection::query_row` running a SELECT on projects
/// by id: the row under that id, if any.
#[verifier::external_body]
pub(crate) fn load_project(c: &rusqlite::Connection, id: i64) -> (r: Result<
    Option<Project>,
    rusqlite::Error,
>)
    ensures
        match r {
            Ok(Some(p)) => p.id == id && project_in(p, store_of(*c)),
            Ok(None) => !store_of(*c).projects.dom().contains(id),
            Err(_) => true,
        },
{
    c.query_row(
        "SELECT id, name, path, description, completed, updated_at FROM projects WHERE id=?1",
        (id,),
        |row| Ok(Project {
            id: row.get(0)?,
            name: row.get(1)?,
            path: row.get(2)?,
            description: row.get(3)?,
            completed: row.get::<_, i64>(4)? != 0,
            updated_at: row.get(5)?,
        }),
    ).optional()
}

/// Relies on `rusqlite::Connection::query_row` running a SELECT on modules
/// by id: the row under that id, if any.
#[verifier::external_body]
pub(crate) fn load_module(c: &rusqlite::Connection, id: i64) -> (r: Result<
    Option<Module>,
    rusqlite::Error,
>)
    ensures
        match r {
            Ok(Some(m)) => m.id == id && module_in(m, store_of(*c)),
            Ok(None) => !store_of(*c).modules.dom().contains(id),
            Err(_) => true,
        },
{
    c.query_row(
        "SELECT id, project_id, name, description, details, state, last_worked_on FROM modules WHERE id=?1",
        (id,),
        |row| Ok(Module {
            id: row.get(0)?,
            project_id: row.get(1)?,
            name: row.get(2)?,
            description: row.get(3)?,
            details: row.get(4)?,
            state: row.get(5)?,
            last_worked_on: row.get(6)?,
        }),
    ).optional()
}

/// Relies on `rusqlite::Connection::query_row` running a SELECT on features
/// by id: the row under that id, if any.
#[verifier::external_body]
pub(crate) fn load_feature(c: &rusqlite::Connection, id: i64) -> (r: Result<
    Option<Feature>,
    rusqlite::Error,
>)
    ensures
        match r {
            Ok(Some(f)) => f.id == id && feature_in(f, store_of(*c)),
            Ok(None) => !store_of(*c).features.dom().contains(id),
            Err(_) => true,
        },
{
    c.query_row(
        "SELECT id, module_id, name, description, details, state, last_worked_on FROM features WHERE id=?1",
        (id,),
        |row| Ok(Feature {
            id: row.get(0)?,
            module_id: row.get(1)?,
            name: row.get(2)?,
            description: row.get(3)?,
            details: row.get(4)?,
            state: row.get(5)?,
            last_worked_on: row.get(6)?,
        }),
    ).optional()
}

/// Relies on `rusqlite::Connection::query_row` running a SELECT on tasks by
/// id: the row under that id, if any.
#[verifier::external_body]
pub(crate) fn load_task(c: &rusqlite::Connection, id: i64) -> (r: Result<
    Option<Task>,
    rusqlite::Error,
>)
    ensures
        match r {
            Ok(Some(t)) => t.id == id && task_in(t, store_of(*c)),
            Ok(None) => !store_of(*c).tasks.dom().contains(id),
            Err(_) => true,
        },
{
    c.query_row(
        "SELECT id, feature_id, name, description, details, state, last_worked_on FROM tasks WHERE id=?1",
        (id,),
        |row| Ok(Task {
            id: row.get(0)?,
            feature_id: row.get(1)?,
            name: row.get(2)?,
            description: row.get(3)?,
            details: row.get(4)?,
            state: row.get(5)?,
            last_worked_on: row.get(6)?,
        }),
    ).optional()
}

/// Relies on `rusqlite::Connection::query_row` running a SELECT on research
/// by id: the row under that id, if any.
#[verifier::external_body]
pub(crate) fn load_research(c: &rusqlite::Connection, id: i64) -> (r: Result<
    Option<Research>,
    rusqlite::Error,
>)
    ensures
        match r {
            Ok(Some(x)) => x.id == id && research_in(x, store_of(*c)),
            Ok(None) => !store_of(*c).research.dom().contains(id),
            Err(_) => true,
        },
{
    c.query_row(
        "SELECT id, name, description, content, source, researched_at, created_at, updated_at FROM research WHERE id=?1",
        (id,),
        |row| Ok(Research {
            id: row.get(0)?,
            name: row.get(1)?,
            description: row.get(2)?,
            content: row.get(3)?,
            source: row.get(4)?,
            researched_at: row.get(5)?,
            created_at: row.get(6)?,
            updated_at: row.get(7)?,
        }),
    ).optional()
}

// ── Name lookups ─────────────────────────────────────────────────────────

/// Relies on `rusqlite::Statement::query_map` running a SELECT of project
/// ids by exact name: all matching ids, without duplicates.
#[verifier::external_body]
pub(crate) fn project_ids_by_name(c: &rusqlite::Connection, name: &str) -> (r: Result<
    Vec<i64>,
    rusqlite::Error,
>)
    ensures
        match r {
            Ok(v) => v@.no_duplicates() && v@.to_set() == project_ids_named(store_of(*c), name@),
            Err(_) => true,
        },
{
    let mut stmt = c.prepare("SELECT id FROM projects WHERE name=?1")?;
    let v = stmt.query_map((name,), |row| row.get(0))?.collect::<rusqlite::Result<Vec<i64>>>()?;
    Ok(v)
}

/// Relies on `rusqlite::Statement::query_map` running a SELECT of module
/// ids by exact name over all projects: all matching ids, no duplicates.
#[verifier::external_body]
pub(crate) fn module_ids_by_name(c: &rusqlite::Connection, name: &str) -> (r: Result<
    Vec<i64>,
    rusqlite::Error,
>)
    ensures
        match r {
            Ok(v) => v@.no_duplicates() && v@.to_set() == module_ids_named(store_of(*c), name@),
            Err(_) => true,
        },
{
    let mut stmt = c.prepare("SELECT id FROM modules WHERE name=?1")?;
    let v = stmt.query_map((name,), |row| row.get(0))?.collect::<rusqlite::Result<Vec<i64>>>()?;
    Ok(v)
}

/// Relies on `rusqlite::Statement::query_map` running a SELECT of module
/// ids by exact name within one project: all matching ids, no duplicates.
#[verifier::external_body]
pub(crate) fn module_ids_by_name_in(
    c: &rusqlite::Connection,
    name: &str,
    project_id: i64,
) -> (r: Result<Vec<i64>, rusqlite::Error>)
    ensures
        match r {
            Ok(v) => v@.no_duplicates() && v@.to_set() == module_ids_named_in(
                store_of(*c),
                name@,
                project_id,
            ),
            Err(_) => true,
        },
{
    let mut stmt = c.prepare("SELECT id FROM modules WHERE name=?1 AND project_id=?2")?;
    let v = stmt.query_map((name, project_id), |row| row.get(0))?.collect::<rusqlite::Result<
        Vec<i64>,
    >>()?;
    Ok(v)
}

/// Relies on `rusqlite::Statement::query_map` running a SELECT of feature
/// ids by exact name over all modules: all matching ids, no duplicates.
#[verifier::external_body]
pub(crate) fn feature_ids_by_name(c: &rusqlite::Connection, name: &str) -> (r: Result<
    Vec<i64>,
    rusqlite::Error,
>)
    ensures
        match r {
            Ok(v) => v@.no_duplicates() && v@.to_set() == feature_ids_named(store_of(*c), name@),
            Err(_) => true,
        },
{
    let mut stmt = c.prepare("SELECT id FROM features WHERE name=?1")?;
    let v = stmt.query_map((name,), |row| row.get(0))?.collect::<rusqlite::Result<Vec<i64>>>()?;
    Ok(v)
}

/// Relies on `rusqlite::Statement::query_map` running a SELECT of feature
/// ids by exact name within one module: all matching ids, no duplicates.
#[verifier::external_body]
pub(crate) fn feature_ids_by_name_in(
    c: &rusqlite::Connection,
    name: &str,
    module_id: i64,
) -> (r: Result<Vec<i64>, rusqlite::Error>)
    ensures
        match r {
            Ok(v) => v@.no_duplicates() && v@.to_set() == feature_ids_named_in(
                store_of(*c),
                name@,
                module_id,
            ),
            Err(_) => true,
        },
{
    let mut stmt = c.prepare("SELECT id FROM features WHERE name=?1 AND module_id=?2")?;
    let v = stmt.query_map((name, module_id), |row| row.get(0))?.collect::<rusqlite::Result<
        Vec<i64>,
    >>()?;
    Ok(v)
}

/// Relies on `rusqlite::Statement::query_map` running a SELECT of task ids
/// by exact name over all features: all matching ids, no duplicates.
#[verifier::external_body]
pub(crate) fn task_ids_by_name(c: &rusqlite::Connection, name: &str) -> (r: Result<
    Vec<i64>,
    rusqlite::Error,
>)
    ensures
        match r {
            Ok(v) => v@.no_duplicates() && v@.to_set() == task_ids_named(store_of(*c), name@),
            Err(_) => true,
        },
{
    let mut stmt = c.prepare("SELECT id FROM tasks WHERE name=?1")?;
    let v = stmt.query_map((name,), |row| row.get(0))?.collect::<rusqlite::Result<Vec<i64>>>()?;
    Ok(v)
}

/// Relies on `rusqlite::Statement::query_map` running a SELECT of task ids
/// by exact name within one feature: all matching ids, no duplicates.
#[verifier::external_body]
pub(crate) fn task_ids_by_name_in(
    c: &rusqlite::Connection,
    name: &str,
    feature_id: i64,
) -> (r: Result<Vec<i64>, rusqlite::Error>)
    ensures
        match r {
            Ok(v) => v@.no_duplicates() && v@.to_set() == task_ids_named_in(
                store_of(*c),
                name@,
                feature_id,
            ),
            Err(_) => true,
        },
{
    let mut stmt = c.prepare("SELECT id FROM tasks WHERE name=?1 AND feature_id=?2")?;
    let v = stmt.query_map((name, feature_id), |row| row.get(0))?.collect::<rusqlite::Result<
        Vec<i64>,
    >>()?;
    Ok(v)
}

/// Relies on `rusqlite::Statement::query_map` running a SELECT of research
/// ids by exact name: all matching ids, without duplicates.
#[verifier::external_body]
pub(crate) fn research_ids_by_name(c: &rusqlite::Connection, name: &str) -> (r: Result<
    Vec<i64>,
    rusqlite::Error,
>)
    ensures
        match r {
            Ok(v) => v@.no_duplicates() && v@.to_set() == research_ids_named(store_of(*c), name@),
            Err(_) => true,
        },
{
    let mut stmt = c.prepare("SELECT id FROM research WHERE name=?1")?;
    let v = stmt.query_map((name,), |row| row.get(0))?.collect::<rusqlite::Result<Vec<i64>>>()?;
    Ok(v)
}

// ── Table scans ──────────────────────────────────────────────────────────

/// Relies on `rusqlite::Statement::query_map` running a SELECT of all
/// projects ordered by id: every row, each exactly as stored.
#[verifier::external_body]
pub(crate) fn all_projects(c: &rusqlite::Connection) -> (r: Result<Vec<Project>, rusqlite::Error>)
    ensures
        match r {
            Ok(v) => ({
                let s = store_of(*c);
                &&& project_ids_ascending(v@)
                &&& forall|i: int| 0 <= i < v@.len() ==> project_in(#[trigger] v@[i], s)
                &&& forall|id: i64|
                    #[trigger] project_ids(s).contains(id) ==> exists|i: int|
                        0 <= i < v@.len() && v@[i].id == id
            }),
            Err(_) => true,
        },
{
    let mut stmt = c.prepare(
        "SELECT id, name, path, description, completed, updated_at FROM projects ORDER BY id",
    )?;
    let v = stmt.query_map((), |row| Ok(Project {
        id: row.get(0)?,
        name: row.get(1)?,
        path: row.get(2)?,
        description: row.get(3)?,
        completed: row.get::<_, i64>(4)? != 0,
        updated_at: row.get(5)?,
    }))?.collect::<rusqlite::Result<Vec<Project>>>()?;
    Ok(v)
}

/// Relies on `rusqlite::Statement::query_map` running a SELECT of the
/// modules under one project ordered by id: every such row, each exactly
/// as stored.
#[verifier::external_body]
pub(crate) fn modules_of_project(c: &rusqlite::Connection, project_id: i64) -> (r: Result<
    Vec<Module>,
    rusqlite::Error,
>)
    ensures
        match r {
            Ok(v) => ({
                let s = store_of(*c);
                &&& module_ids_ascending(v@)
                &&& forall|i: int|
                    0 <= i < v@.len() ==> module_in(#[trigger] v@[i], s) && v@[i].project_id
                        == project_id
                &&& forall|id: i64|
                    #[trigger] modules_of(s, project_id).contains(id) ==> exists|i: int|
                        0 <= i < v@.len() && v@[i].id == id
            }),
            Err(_) => true,
        },
{
    let mut stmt = c.prepare(
        "SELECT id, project_id, name, description, details, state, last_worked_on FROM modules WHERE project_id=?1 ORDER BY id",
    )?;
    let v = stmt.query_map((project_id,), |row| Ok(Module {
        id: row.get(0)?,
        project_id: row.get(1)?,
        name: row.get(2)?,
        description: row.get(3)?,
        details: row.get(4)?,
        state: row.get(5)?,
        last_worked_on: row.get(6)?,
    }))?.collect::<rusqlite::Result<Vec<Module>>>()?;
    Ok(v)
}

/// Relies on `rusqlite::Statement::query_map` running a SELECT of the
/// features under one module ordered by id: every such row, each exactly
/// as stored.
#[verifier::external_body]
pub(crate) fn features_of_module(c: &rusqlite::Connection, module_id: i64) -> (r: Result<
    Vec<Feature>,
    rusqlite::Error,
>)
    ensures
        match r {
            Ok(v) => ({
                let s = store_of(*c);
                &&& feature_ids_ascending(v@)
                &&& forall|i: int|
                    0 <= i < v@.len() ==> feature_in(#[trigger] v@[i], s) && v@[i].module_id
                        == module_id
                &&& forall|id: i64|
                    #[trigger] features_of(s, module_id).contains(id) ==> exists|i: int|
                        0 <= i < v@.len() && v@[i].id == id
            }),
            Err(_) => true,
        },
{
    let mut stmt = c.prepare(
        "SELECT id, module_id, name, description, details, state, last_worked_on FROM features WHERE module_id=?1 ORDER BY id",
    )?;
    let v = stmt.query_map((module_id,), |row| Ok(Feature {
        id: row.get(0)?,
        module_id: row.get(1)?,
        name: row.get(2)?,
        description: row.get(3)?,
        details: row.get(4)?,
        state: row.get(5)?,
        last_worked_on: row.get(6)?,
    }))?.collect::<rusqlite::Result<Vec<Feature>>>()?;
    Ok(v)
}

/// Relies on `rusqlite::Statement::query_map` running a SELECT of the
/// tasks under one feature ordered by id: every such row, each exactly as
/// stored.
#[verifier::external_body]
pub(crate) fn tasks_of_feature(c: &rusqlite::Connection, feature_id: i64) -> (r: Result<
    Vec<Task>,
    rusqlite::Error,
>)
    ensures
        match r {
            Ok(v) => ({
                let s = store_of(*c);
                &&& task_ids_ascending(v@)
                &&& forall|i: int|
                    0 <= i < v@.len() ==> task_in(#[trigger] v@[i], s) && v@[i].feature_id
                        == feature_id
                &&& forall|id: i64|
                    #[trigger] tasks_of(s, feature_id).contains(id) ==> exists|i: int|
                        0 <= i < v@.len() && v@[i].id == id
            }),
            Err(_) => true,
        },
{
    let mut stmt = c.prepare(
        "SELECT id, feature_id, name, description, details, state, last_worked_on FROM tasks WHERE feature_id=?1 ORDER BY id",
    )?;
    let v = stmt.query_map((feature_id,), |row| Ok(Task {
        id: row.get(0)?,
        feature_id: row.get(1)?,
        name: row.get(2)?,
        description: row.get(3)?,
        details: row.get(4)?,
        state: row.get(5)?,
        last_worked_on: row.get(6)?,
    }))?.collect::<rusqlite::Result<Vec<Task>>>()?;
    Ok(v)
}

/// Relies on `rusqlite::Statement::query_map` running a SELECT of all
/// research ordered by id: every row, each exactly as stored.
#[verifier::external_body]
pub(crate) fn all_research(c: &rusqlite::Connection) -> (r: Result<Vec<Research>, rusqlite::Error>)
    ensures
        match r {
            Ok(v) => ({
                let s = store_of(*c);
                &&& research_ids_ascending(v@)
                &&& forall|i: int| 0 <= i < v@.len() ==> research_in(#[trigger] v@[i], s)
                &&& forall|id: i64|
                    #[trigger] research_ids(s).contains(id) ==> exists|i: int|
                        0 <= i < v@.len() && v@[i].id == id
            }),
            Err(_) => true,
        },
{
    let mut stmt = c.prepare(
        "SELECT id, name, description, content, source, researched_at, created_at, updated_at FROM research ORDER BY id",
    )?;
    let v = stmt.query_map((), |row| Ok(Research {
        id: row.get(0)?,
        name: row.get(1)?,
        description: row.get(2)?,
        content: row.get(3)?,
        source: row.get(4)?,
        researched_at: row.get(5)?,
        created_at: row.get(6)?,
        updated_at: row.get(7)?,
    }))?.collect::<rusqlite::Result<Vec<Research>>>()?;
    Ok(v)
}

/// Relies on `rusqlite::Statement::query_map` with a cutoff computed by
/// SQLite from the wall clock: research whose `researched_at` is older
/// than the given number of days. The clock decides membership, so only
/// the ordering and that every row comes from the store are promised.
#[verifier::external_body]
pub(crate) fn research_older_than(c: &rusqlite::Connection, days: i64) -> (r: Result<
    Vec<Research>,
    rusqlite::Error,
>)
    ensures
        match r {
            Ok(v) => research_ids_ascending(v@) && forall|i: int|
                0 <= i < v@.len() ==> research_in(#[trigger] v@[i], store_of(*c)),
            Err(_) => true,
        },
{
    let mut stmt = c.prepare(
        "SELECT id, name, description, content, source, researched_at, created_at, updated_at FROM research WHERE researched_at < datetime('now', ?1) ORDER BY id",
    )?;
    let cutoff = format!("-{} days", days);
    let v = stmt.query_map((cutoff,), |row| Ok(Research {
        id: row.get(0)?,
        name: row.get(1)?,
        description: row.get(2)?,
        content: row.get(3)?,
        source: row.get(4)?,
        researched_at: row.get(5)?,
        created_at: row.get(6)?,
        updated_at: row.get(7)?,
    }))?.collect::<rusqlite::Result<Vec<Research>>>()?;
    Ok(v)
}

// ── Association scans ────────────────────────────────────────────────────

/// Relies on `rusqlite::Statement::query_map` running a SELECT on
/// research_projects by research id, ordered: exactly the associated
/// project ids.
#[verifier::external_body]
pub(crate) fn linked_project_ids(c: &rusqlite::Connection, research_id: i64) -> (r: Result<
    Vec<i64>,
    rusqlite::Error,
>)
    ensures
        match r {
            Ok(v) => ({
                let s = store_of(*c);
                &&& ids_ascending(v@)
                &&& forall|i: int|
                    0 <= i < v@.len() ==> s.research_projects.contains(
                        (research_id, #[trigger] v@[i]),
                    )
                &&& forall|t: i64|
                    #[trigger] s.research_projects.contains((research_id, t)) ==> v@.contains(t)
            }),
            Err(_) => true,
        },
{
    let mut stmt = c.prepare(
        "SELECT project_id FROM research_projects WHERE research_id=?1 ORDER BY project_id",
    )?;
    let v = stmt.query_map((research_id,), |row| row.get(0))?.collect::<rusqlite::Result<
        Vec<i64>,
    >>()?;
    Ok(v)
}

/// Relies on `rusqlite::Statement::query_map` running a SELECT on
/// research_modules by research id, ordered: exactly the associated
/// module ids.
#[verifier::external_body]
pub(crate) fn linked_module_ids(c: &rusqlite::Connection, research_id: i64) -> (r: Result<
    Vec<i64>,
    rusqlite::Error,
>)
    ensures
        match r {
            Ok(v) => ({
                let s = store_of(*c);
                &&& ids_ascending(v@)
                &&& forall|i: int|
                    0 <= i < v@.len() ==> s.research_modules.contains(
                        (research_id, #[trigger] v@[i]),
                    )
                &&& forall|t: i64|
                    #[trigger] s.research_modules.contains((research_id, t)) ==> v@.contains(t)
            }),
            Err(_) => true,
        },
{
    let mut stmt = c.prepare(
        "SELECT module_id FROM research_modules WHERE research_id=?1 ORDER BY module_id",
    )?;
    let v = stmt.query_map((research_id,), |row| row.get(0))?.collect::<rusqlite::Result<
        Vec<i64>,
    >>()?;
    Ok(v)
}

/// Relies on `rusqlite::Statement::query_map` running a SELECT on
/// research_features by research id, ordered: exactly the associated
/// feature ids.
#[verifier::external_body]
pub(crate) fn linked_feature_ids(c: &rusqlite::Connection, research_id: i64) -> (r: Result<
    Vec<i64>,
    rusqlite::Error,
>)
    ensures
        match r {
            Ok(v) => ({
                let s = store_of(*c);
                &&& ids_ascending(v@)
                &&& forall|i: int|
                    0 <= i < v@.len() ==> s.research_features.contains(
                        (research_id, #[trigger] v@[i]),
                    )
                &&& forall|t: i64|
                    #[trigger] s.research_features.contains((research_id, t)) ==> v@.contains(t)
            }),
            Err(_) => true,
        },
{
    let mut stmt = c.prepare(
        "SELECT feature_id FROM research_features WHERE research_id=?1 ORDER BY feature_id",
    )?;
    let v = stmt.query_map((research_id,), |row| row.get(0))?.collect::<rusqlite::Result<
        Vec<i64>,
    >>()?;
    Ok(v)
}

/// Relies on `rusqlite::Statement::query_map` running a SELECT on
/// research_tasks by research id, ordered: exactly the associated task
/// ids.
#[verifier::external_body]
pub(crate) fn linked_task_ids(c: &rusqlite::Connection, research_id: i64) -> (r: Result<
    Vec<i64>,
    rusqlite::Error,
>)
    ensures
        match r {
            Ok(v) => ({
                let s = store_of(*c);
                &&& ids_ascending(v@)
                &&& forall|i: int|
                    0 <= i < v@.len() ==> s.research_tasks.contains((research_id, #[trigger] v@[i]))
                &&& forall|t: i64|
                    #[trigger] s.research_tasks.contains((research_id, t)) ==> v@.contains(t)
            }),
            Err(_) => true,
        },
{
    let mut stmt = c.prepare(
        "SELECT task_id FROM research_tasks WHERE research_id=?1 ORDER BY task_id",
    )?;
    let v = stmt.query_map((research_id,), |row| row.get(0))?.collect::<rusqlite::Result<
        Vec<i64>,
    >>()?;
    Ok(v)
}

/// Relies on `rusqlite::Statement::query_map` joining research to
/// research_projects: the research rows associated with one project,
/// ordered by id, each exactly as stored.
#[verifier::external_body]
pub(crate) fn research_linked_to_project(c: &rusqlite::Connection, project_id: i64) -> (r: Result<
    Vec<Research>,
    rusqlite::Error,
>)
    ensures
        match r {
            Ok(v) => ({
                let s = store_of(*c);
                &&& research_ids_ascending(v@)
                &&& forall|i: int|
                    0 <= i < v@.len() ==> research_in(#[trigger] v@[i], s)
                        && s.research_projects.contains((v@[i].id, project_id))
                &&& forall|rid: i64|
                    #[trigger] s.research_projects.contains((rid, project_id))
                        && s.research.dom().contains(rid) ==> exists|i: int|
                        0 <= i < v@.len() && v@[i].id == rid
            }),
            Err(_) => true,
        },
{
    let mut stmt = c.prepare(
        "SELECT r.id, r.name, r.description, r.content, r.source, r.researched_at, r.created_at, r.updated_at FROM research r JOIN research_projects rp ON rp.research_id=r.id WHERE rp.project_id=?1 ORDER BY r.id",
    )?;
    let v = stmt.query_map((project_id,), |row| Ok(Research {
        id: row.get(0)?,
        name: row.get(1)?,
        description: row.get(2)?,
        content: row.get(3)?,
        source: row.get(4)?,
        researched_at: row.get(5)?,
        created_at: row.get(6)?,
        updated_at: row.get(7)?,
    }))?.collect::<rusqlite::Result<Vec<Research>>>()?;
    Ok(v)
}

/// Relies on `rusqlite::Statement::query_map` joining research to
/// research_modules, as for projects.
#[verifier::external_body]
pub(crate) fn research_linked_to_module(c: &rusqlite::Connection, module_id: i64) -> (r: Result<
    Vec<Research>,
    rusqlite::Error,
>)
    ensures
        match r {
            Ok(v) => ({
                let s = store_of(*c);
                &&& research_ids_ascending(v@)
                &&& forall|i: int|
                    0 <= i < v@.len() ==> research_in(#[trigger] v@[i], s)
                        && s.research_modules.contains((v@[i].id, module_id))
                &&& forall|rid: i64|
                    #[trigger] s.research_modules.contains((rid, module_id))
                        && s.research.dom().contains(rid) ==> exists|i: int|
                        0 <= i < v@.len() && v@[i].id == rid
            }),
            Err(_) => true,
        },
{
    let mut stmt = c.prepare(
        "SELECT r.id, r.name, r.description, r.content, r.source, r.researched_at, r.created_at, r.updated_at FROM research r JOIN research_modules rm ON rm.research_id=r.id WHERE rm.module_id=?1 ORDER BY r.id",
    )?;
    let v = stmt.query_map((module_id,), |row| Ok(Research {
        id: row.get(0)?,
        name: row.get(1)?,
        description: row.get(2)?,
        content: row.get(3)?,
        source: row.get(4)?,
        researched_at: row.get(5)?,
        created_at: row.get(6)?,
        updated_at: row.get(7)?,
    }))?.collect::<rusqlite::Result<Vec<Research>>>()?;
    Ok(v)
}

/// Relies on `rusqlite::Statement::query_map` joining research to
/// research_features, as for projects.
#[verifier::external_body]
pub(crate) fn research_linked_to_feature(c: &rusqlite::Connection, feature_id: i64) -> (r: Result<
    Vec<Research>,
    rusqlite::Error,
>)
    ensures
        match r {
            Ok(v) => ({
                let s = store_of(*c);
                &&& research_ids_ascending(v@)
                &&& forall|i: int|
                    0 <= i < v@.len() ==> research_in(#[trigger] v@[i], s)
                        && s.research_features.contains((v@[i].id, feature_id))
                &&& forall|rid: i64|
                    #[trigger] s.research_features.contains((rid, feature_id))
                        && s.research.dom().contains(rid) ==> exists|i: int|
                        0 <= i < v@.len() && v@[i].id == rid
            }),
            Err(_) => true,
        },
{
    let mut stmt = c.prepare(
        "SELECT r.id, r.name, r.description, r.content, r.source, r.researched_at, r.created_at, r.updated_at FROM research r JOIN research_features rf ON rf.research_id=r.id WHERE rf.feature_id=?1 ORDER BY r.id",
    )?;
    let v = stmt.query_map((feature_id,), |row| Ok(Research {
        id: row.get(0)?,
        name: row.get(1)?,
        description: row.get(2)?,
        content: row.get(3)?,
        source: row.get(4)?,
        researched_at: row.get(5)?,
        created_at: row.get(6)?,
        updated_at: row.get(7)?,
    }))?.collect::<rusqlite::Result<Vec<Research>>>()?;
    Ok(v)
}

/// Relies on `rusqlite::Statement::query_map` joining research to
/// research_tasks, as for projects.
#[verifier::external_body]
pub(crate) fn research_linked_to_task(c: &rusqlite::Connection, task_id: i64) -> (r: Result<
    Vec<Research>,
    rusqlite::Error,
>)
    ensures
        match r {
            Ok(v) => ({
                let s = store_of(*c);
                &&& research_ids_ascending(v@)
                &&& forall|i: int|
                    0 <= i < v@.len() ==> research_in(#[trigger] v@[i], s)
                        && s.research_tasks.contains((v@[i].id, task_id))
                &&& forall|rid: i64|
                    #[trigger] s.research_tasks.contains((rid, task_id)) && s.research.dom()
                        .contains(rid) ==> exists|i: int| 0 <= i < v@.len() && v@[i].id == rid
            }),
            Err(_) => true,
        },
{
    let mut stmt = c.prepare(
        "SELECT r.id, r.name, r.description, r.content, r.source, r.researched_at, r.created_at, r.updated_at FROM research r JOIN research_tasks rt ON rt.research_id=r.id WHERE rt.task_id=?1 ORDER BY r.id",
    )?;
    let v = stmt.query_map((task_id,), |row| Ok(Research {
        id: row.get(0)?,
        name: row.get(1)?,
        description: row.get(2)?,
        content: row.get(3)?,
        source: row.get(4)?,
        researched_at: row.get(5)?,
        created_at: row.get(6)?,
        updated_at: row.get(7)?,
    }))?.collect::<rusqlite::Result<Vec<Research>>>()?;
    Ok(v)
}

// ── Inserts ──────────────────────────────────────────────────────────────

/// Relies on `rusqlite::Connection::execute` running an INSERT on projects
/// and on `last_insert_rowid` for the fresh id. Success shows that the
/// schema's global UNIQUE on the name held; the new row starts incomplete.
#[verifier::external_body]
pub(crate) fn insert_project(
    c: &mut rusqlite::Connection,
    name: &str,
    path: &str,
    description: &str,
    ts: &str,
) -> (r: Result<i64, rusqlite::Error>)
    ensures
        match r {
            Ok(id) => ({
                let s0 = store_of(*old(c));
                &&& 0 < id
                &&& !s0.projects.dom().contains(id)
                &&& project_ids_named(s0, name@).is_empty()
                &&& store_of(*final(c)) == (StoreModel {
                    projects: s0.projects.insert(
                        id,
                        ProjectRow {
                            name: name@,
                            path: path@,
                            description: description@,
                            completed: false,
                            updated_at: ts@,
                        },
                    ),
                    ..s0
                })
            }),
            Err(_) => store_of(*final(c)) == store_of(*old(c)),
        },
{
    c.execute(
        "INSERT INTO projects (name, path, description, updated_at) VALUES (?1,?2,?3,?4)",
        (name, path, description, ts),
    )?;
    Ok(c.last_insert_rowid())
}

/// Relies on `rusqlite::Connection::execute` running an INSERT on modules
/// and on `last_insert_rowid` for the fresh id. Success shows that the
/// schema's UNIQUE(project_id, name) and the foreign key to projects held;
/// the new row starts in Draft with empty details.
#[verifier::external_body]
pub(crate) fn insert_module(
    c: &mut rusqlite::Connection,
    project_id: i64,
    name: &str,
    description: &str,
    ts: &str,
) -> (r: Result<i64, rusqlite::Error>)
    ensures
        match r {
            Ok(id) => ({
                let s0 = store_of(*old(c));
                &&& 0 < id
                &&& !s0.modules.dom().contains(id)
                &&& s0.projects.dom().contains(project_id)
                &&& module_ids_named_in(s0, name@, project_id).is_empty()
                &&& store_of(*final(c)) == (StoreModel {
                    modules: s0.modules.insert(
                        id,
                        ModuleRow {
                            project_id: project_id,
                            name: name@,
                            description: description@,
                            details: Seq::<char>::empty(),
                            state: spec_state_name(State::Draft),
                            last_worked_on: ts@,
                        },
                    ),
                    ..s0
                })
            }),
            Err(_) => store_of(*final(c)) == store_of(*old(c)),
        },
{
    c.execute(
        "INSERT INTO modules (project_id, name, description, last_worked_on) VALUES (?1,?2,?3,?4)",
        (project_id, name, description, ts),
    )?;
    Ok(c.last_insert_rowid())
}

/// Relies on `rusqlite::Connection::execute` running an INSERT on features
/// and on `last_insert_rowid` for the fresh id. Success shows that the
/// schema's UNIQUE(module_id, name) and the foreign key to modules held;
/// the new row starts in Draft with empty details.
#[verifier::external_body]
pub(crate) fn insert_feature(
    c: &mut rusqlite::Connection,
    module_id: i64,
    name: &str,
    description: &str,
    ts: &str,
) -> (r: Result<i64, rusqlite::Error>)
    ensures
        match r {
            Ok(id) => ({
                let s0 = store_of(*old(c));
                &&& 0 < id
                &&& !s0.features.dom().contains(id)
                &&& s0.modules.dom().contains(module_id)
                &&& feature_ids_named_in(s0, name@, module_id).is_empty()
                &&& store_of(*final(c)) == (StoreModel {
                    features: s0.features.insert(
                        id,
                        FeatureRow {
                            module_id: module_id,
                            name: name@,
                            description: description@,
                            details: Seq::<char>::empty(),
                            state: spec_state_name(State::Draft),
                            last_worked_on: ts@,
                        },
                    ),
                    ..s0
                })
            }),
            Err(_) => store_of(*final(c)) == store_of(*old(c)),
        },
{
    c.execute(
        "INSERT INTO features (module_id, name, description, last_worked_on) VALUES (?1,?2,?3,?4)",
        (module_id, name, description, ts),
    )?;
    Ok(c.last_insert_rowid())
}

/// Relies on `rusqlite::Connection::execute` running an INSERT on tasks and
/// on `last_insert_rowid` for the fresh id. Success shows that the schema's
/// UNIQUE(feature_id, name) and the foreign key to features held; the new
/// row starts in Draft with empty details.
#[verifier::external_body]
pub(crate) fn insert_task(
    c: &mut rusqlite::Connection,
    feature_id: i64,
    name: &str,
    description: &str,
    ts: &str,
) -> (r: Result<i64, rusqlite::Error>)
    ensures
        match r {
            Ok(id) => ({
                let s0 = store_of(*old(c));
                &&& 0 < id
                &&& !s0.tasks.dom().contains(id)
                &&& s0.features.dom().contains(feature_id)
                &&& task_ids_named_in(s0, name@, feature_id).is_empty()
                &&& store_of(*final(c)) == (StoreModel {
                    tasks: s0.tasks.insert(
                        id,
                        TaskRow {
                            feature_id: feature_id,
                            name: name@,
                            description: description@,
                            details: Seq::<char>::empty(),
                            state: spec_state_name(State::Draft),
                            last_worked_on: ts@,
                        },
                    ),
                    ..s0
                })
            }),
            Err(_) => store_of(*final(c)) == store_of(*old(c)),
        },
{
    c.execute(
        "INSERT INTO tasks (feature_id, name, description, last_worked_on) VALUES (?1,?2,?3,?4)",
        (feature_id, name, description, ts),
    )?;
    Ok(c.last_insert_rowid())
}

/// Relies on `rusqlite::Connection::execute` running an INSERT on research
/// and on `last_insert_rowid` for the fresh id. Success shows that the
/// schema's global UNIQUE on the name held; all three timestamps start at
/// the given instant.
#[verifier::external_body]
pub(crate) fn insert_research(
    c: &mut rusqlite::Connection,
    name: &str,
    description: &str,
    ts: &str,
) -> (r: Result<i64, rusqlite::Error>)
    ensures
        match r {
            Ok(id) => ({
                let s0 = store_of(*old(c));
                &&& 0 < id
                &&& !s0.research.dom().contains(id)
                &&& research_ids_named(s0, name@).is_empty()
                &&& store_of(*final(c)) == (StoreModel {
                    research: s0.research.insert(
                        id,
                        ResearchRow {
                            name: name@,
                            description: description@,
                            content: Seq::<char>::empty(),
                            source: Seq::<char>::empty(),
                            researched_at: ts@,
                            created_at: ts@,
                            updated_at: ts@,
                        },
                    ),
                    ..s0
                })
            }),
            Err(_) => store_of(*final(c)) == store_of(*old(c)),
        },
{
    c.execute(
        "INSERT INTO research (name, description, researched_at, created_at, updated_at) VALUES (?1,?2,?3,?3,?3)",
        (name, description, ts),
    )?;
    Ok(c.last_insert_rowid())
}

// ── Row updates ──────────────────────────────────────────────────────────

/// Relies on `rusqlite::Connection::execute` running an UPDATE of every
/// mutable column of one project row. A row that is not there is left
/// alone, and a failure (say, a name taken by another project) changes
/// nothing.
#[verifier::external_body]
pub(crate) fn update_project_row(
    c: &mut rusqlite::Connection,
    id: i64,
    name: &str,
    path: &str,
    description: &str,
    completed: bool,
    ts: &str,
) -> (r: Result<(), rusqlite::Error>)
    ensures
        match r {
            Ok(_) => ({
                let s0 = store_of(*old(c));
                if s0.projects.dom().contains(id) {
                    store_of(*final(c)) == (StoreModel {
                        projects: s0.projects.insert(
                            id,
                            ProjectRow {
                                name: name@,
                                path: path@,
                                description: description@,
                                completed: completed,
                                updated_at: ts@,
                            },
                        ),
                        ..s0
                    })
                } else {
                    store_of(*final(c)) == s0
                }
            }),
            Err(_) => store_of(*final(c)) == store_of(*old(c)),
        },
{
    c.execute(
        "UPDATE projects SET name=?1, path=?2, description=?3, completed=?4, updated_at=?5 WHERE id=?6",
        (name, path, description, completed as i64, ts, id),
    )?;
    Ok(())
}

/// Relies on `rusqlite::Connection::execute` running an UPDATE of every
/// mutable column of one module row; the owning project is untouched.
#[verifier::external_body]
pub(crate) fn update_module_row(
    c: &mut rusqlite::Connection,
    id: i64,
    name: &str,
    description: &str,
    details: &str,
    state: &str,
    ts: &str,
) -> (r: Result<(), rusqlite::Error>)
    ensures
        match r {
            Ok(_) => ({
                let s0 = store_of(*old(c));
                if s0.modules.dom().contains(id) {
                    store_of(*final(c)) == (StoreModel {
                        modules: s0.modules.insert(
                            id,
                            ModuleRow {
                                project_id: s0.modules[id].project_id,
                                name: name@,
                                description: description@,
                                details: details@,
                                state: state@,
                                last_worked_on: ts@,
                            },
                        ),
                        ..s0
                    })
                } else {
                    store_of(*final(c)) == s0
                }
            }),
            Err(_) => store_of(*final(c)) == store_of(*old(c)),
        },
{
    c.execute(
        "UPDATE modules SET name=?1, description=?2, details=?3, state=?4, last_worked_on=?5 WHERE id=?6",
        (name, description, details, state, ts, id),
    )?;
    Ok(())
}

/// Relies on `rusqlite::Connection::execute` running an UPDATE of every
/// mutable column of one feature row; the owning module is untouched.
#[verifier::external_body]
pub(crate) fn update_feature_row(
    c: &mut rusqlite::Connection,
    id: i64,
    name: &str,
    description: &str,
    details: &str,
    state: &str,
    ts: &str,
) -> (r: Result<(), rusqlite::Error>)
    ensures
        match r {
            Ok(_) => ({
                let s0 = store_of(*old(c));
                if s0.features.dom().contains(id) {
                    store_of(*final(c)) == (StoreModel {
                        features: s0.features.insert(
                            id,
                            FeatureRow {
                                module_id: s0.features[id].module_id,
                                name: name@,
                                description: description@,
                                details: details@,
                                state: state@,
                                last_worked_on: ts@,
                            },
                        ),
                        ..s0
                    })
                } else {
                    store_of(*final(c)) == s0
                }
            }),
            Err(_) => store_of(*final(c)) == store_of(*old(c)),
        },
{
    c.execute(
        "UPDATE features SET name=?1, description=?2, details=?3, state=?4, last_worked_on=?5 WHERE id=?6",
        (name, description, details, state, ts, id),
    )?;
    Ok(())
}

/// Relies on `rusqlite::Connection::execute` running an UPDATE of every
/// mutable column of one task row; the owning feature is untouched.
#[verifier::external_body]
pub(crate) fn update_task_row(
    c: &mut rusqlite::Connection,
    id: i64,
    name: &str,
    description: &str,
    details: &str,
    state: &str,
    ts: &str,
) -> (r: Result<(), rusqlite::Error>)
    ensures
        match r {
            Ok(_) => ({
                let s0 = store_of(*old(c));
                if s0.tasks.dom().contains(id) {
                    store_of(*final(c)) == (StoreModel {
                        tasks: s0.tasks.insert(
                            id,
                            TaskRow {
                                feature_id: s0.tasks[id].feature_id,
                                name: name@,
                                description: description@,
                                details: details@,
                                state: state@,
                                last_worked_on: ts@,
                            },
                        ),
                        ..s0
                    })
                } else {
                    store_of(*final(c)) == s0
                }
            }),
            Err(_) => store_of(*final(c)) == store_of(*old(c)),
        },
{
    c.execute(
        "UPDATE tasks SET name=?1, description=?2, details=?3, state=?4, last_worked_on=?5 WHERE id=?6",
        (name, description, details, state, ts, id),
    )?;
    Ok(())
}

/// Relies on `rusqlite::Connection::execute` running an UPDATE of every
/// mutable column of one research row; `created_at` is never rewritten.
#[verifier::external_body]
pub(crate) fn update_research_row(
    c: &mut rusqlite::Connection,
    id: i64,
    name: &str,
    description: &str,
    content: &str,
    source: &str,
    researched_at: &str,
    ts: &str,
) -> (r: Result<(), rusqlite::Error>)
    ensures
        match r {
            Ok(_) => ({
                let s0 = store_of(*old(c));
                if s0.research.dom().contains(id) {
                    store_of(*final(c)) == (StoreModel {
                        research: s0.research.insert(
                            id,
                            ResearchRow {
                                name: name@,
                                description: description@,
                                content: content@,
                                source: source@,
                                researched_at: researched_at@,
                                created_at: s0.research[id].created_at,
                                updated_at: ts@,
                            },
                        ),
                        ..s0
                    })
                } else {
                    store_of(*final(c)) == s0
                }
            }),
            Err(_) => store_of(*final(c)) == store_of(*old(c)),
        },
{
    c.execute(
        "UPDATE research SET name=?1, description=?2, content=?3, source=?4, researched_at=?5, updated_at=?6 WHERE id=?7",
        (name, description, content, source, researched_at, ts, id),
    )?;
    Ok(())
}

// ── Counts ───────────────────────────────────────────────────────────────

/// Relies on `rusqlite::Connection::query_row` running a COUNT of modules
/// under one project.
#[verifier::external_body]
pub(crate) fn count_modules_of(c: &rusqlite::Connection, project_id: i64) -> (r: Result<
    i64,
    rusqlite::Error,
>)
    ensures
        match r {
            Ok(n) => n >= 0 && modules_of(store_of(*c), project_id).finite() && n
                as nat == modules_of(store_of(*c), project_id).len(),
            Err(_) => true,
        },
{
    c.query_row("SELECT COUNT(*) FROM modules WHERE project_id=?1", (project_id,), |row| row.get(0))
}

/// Relies on `rusqlite::Connection::query_row` running a COUNT of features
/// under one module.
#[verifier::external_body]
pub(crate) fn count_features_of(c: &rusqlite::Connection, module_id: i64) -> (r: Result<
    i64,
    rusqlite::Error,
>)
    ensures
        match r {
            Ok(n) => n >= 0 && features_of(store_of(*c), module_id).finite() && n
                as nat == features_of(store_of(*c), module_id).len(),
            Err(_) => true,
        },
{
    c.query_row("SELECT COUNT(*) FROM features WHERE module_id=?1", (module_id,), |row| row.get(0))
}

/// Relies on `rusqlite::Connection::query_row` running a COUNT of tasks
/// under one feature.
#[verifier::external_body]
pub(crate) fn count_tasks_of(c: &rusqlite::Connection, feature_id: i64) -> (r: Result<
    i64,
    rusqlite::Error,
>)
    ensures
        match r {
            Ok(n) => n >= 0 && tasks_of(store_of(*c), feature_id).finite() && n
                as nat == tasks_of(store_of(*c), feature_id).len(),
            Err(_) => true,
        },
{
    c.query_row("SELECT COUNT(*) FROM tasks WHERE feature_id=?1", (feature_id,), |row| row.get(0))
}

// ── Deletes ──────────────────────────────────────────────────────────────

/// Relies on `rusqlite::Connection::execute` running a DELETE on projects
/// and on the schema's `ON DELETE CASCADE` chain: the subtree below the
/// project and every association row of a removed row go with it, and
/// nothing else — research records in particular stay.
#[verifier::external_body]
pub(crate) fn delete_project_row(c: &mut rusqlite::Connection, id: i64) -> (r: Result<
    (),
    rusqlite::Error,
>)
    ensures
        match r {
            Ok(_) => store_of(*final(c)) == remove_project(store_of(*old(c)), id),
            Err(_) => store_of(*final(c)) == store_of(*old(c)),
        },
{
    c.execute("DELETE FROM projects WHERE id=?1", (id,))?;
    Ok(())
}

/// Relies on `rusqlite::Connection::execute` running a DELETE on modules
/// and on the schema's `ON DELETE CASCADE` chain, as for projects.
#[verifier::external_body]
pub(crate) fn delete_module_row(c: &mut rusqlite::Connection, id: i64) -> (r: Result<
    (),
    rusqlite::Error,
>)
    ensures
        match r {
            Ok(_) => store_of(*final(c)) == remove_module(store_of(*old(c)), id),
            Err(_) => store_of(*final(c)) == store_of(*old(c)),
        },
{
    c.execute("DELETE FROM modules WHERE id=?1", (id,))?;
    Ok(())
}

/// Relies on `rusqlite::Connection::execute` running a DELETE on features
/// and on the schema's `ON DELETE CASCADE` chain, as for projects.
#[verifier::external_body]
pub(crate) fn delete_feature_row(c: &mut rusqlite::Connection, id: i64) -> (r: Result<
    (),
    rusqlite::Error,
>)
    ensures
        match r {
            Ok(_) => store_of(*final(c)) == remove_feature(store_of(*old(c)), id),
            Err(_) => store_of(*final(c)) == store_of(*old(c)),
        },
{
    c.execute("DELETE FROM features WHERE id=?1", (id,))?;
    Ok(())
}

/// Relies on `rusqlite::Connection::execute` running a DELETE on tasks and
/// on the schema's `ON DELETE CASCADE` for the task's association rows.
#[verifier::external_body]
pub(crate) fn delete_task_row(c: &mut rusqlite::Connection, id: i64) -> (r: Result<
    (),
    rusqlite::Error,
>)
    ensures
        match r {
            Ok(_) => store_of(*final(c)) == remove_task(store_of(*old(c)), id),
            Err(_) => store_of(*final(c)) == store_of(*old(c)),
        },
{
    c.execute("DELETE FROM tasks WHERE id=?1", (id,))?;
    Ok(())
}

/// Relies on `rusqlite::Connection::execute` running a DELETE on research
/// and on the schema's `ON DELETE CASCADE` for its association rows; the
/// hierarchy rows it was linked to stay.
#[verifier::external_body]
pub(crate) fn delete_research_row(c: &mut rusqlite::Connection, id: i64) -> (r: Result<
    (),
    rusqlite::Error,
>)
    ensures
        match r {
            Ok(_) => store_of(*final(c)) == remove_research(store_of(*old(c)), id),
            Err(_) => store_of(*final(c)) == store_of(*old(c)),
        },
{
    c.execute("DELETE FROM research WHERE id=?1", (id,))?;
    Ok(())
}

// ── Research associations ────────────────────────────────────────────────

/// Relies on `rusqlite::Connection::execute` running INSERT OR IGNORE on
/// research_projects: after success the pair is associated whether or not
/// it already was, and the schema's foreign keys show both endpoints exist.
#[verifier::external_body]
pub(crate) fn insert_research_project(
    c: &mut rusqlite::Connection,
    research_id: i64,
    project_id: i64,
) -> (r: Result<(), rusqlite::Error>)
    ensures
        match r {
            Ok(_) => ({
                let s0 = store_of(*old(c));
                &&& s0.research.dom().contains(research_id)
                &&& s0.projects.dom().contains(project_id)
                &&& store_of(*final(c)) == link_project_model(s0, research_id, project_id)
            }),
            Err(_) => store_of(*final(c)) == store_of(*old(c)),
        },
{
    c.execute(
        "INSERT OR IGNORE INTO research_projects (research_id, project_id) VALUES (?1,?2)",
        (research_id, project_id),
    )?;
    Ok(())
}

/// Relies on `rusqlite::Connection::execute` running INSERT OR IGNORE on
/// research_modules, as for research_projects.
#[verifier::external_body]
pub(crate) fn insert_research_module(
    c: &mut rusqlite::Connection,
    research_id: i64,
    module_id: i64,
) -> (r: Result<(), rusqlite::Error>)
    ensures
        match r {
            Ok(_) => ({
                let s0 = store_of(*old(c));
                &&& s0.research.dom().contains(research_id)
                &&& s0.modules.dom().contains(module_id)
                &&& store_of(*final(c)) == link_module_model(s0, research_id, module_id)
            }),
            Err(_) => store_of(*final(c)) == store_of(*old(c)),
        },
{
    c.execute(
        "INSERT OR IGNORE INTO research_modules (research_id, module_id) VALUES (?1,?2)",
        (research_id, module_id),
    )?;
    Ok(())
}

/// Relies on `rusqlite::Connection::execute` running INSERT OR IGNORE on
/// research_features, as for research_projects.
#[verifier::external_body]
pub(crate) fn insert_research_feature(
    c: &mut rusqlite::Connection,
    research_id: i64,
    feature_id: i64,
) -> (r: Result<(), rusqlite::Error>)
    ensures
        match r {
            Ok(_) => ({
                let s0 = store_of(*old(c));
                &&& s0.research.dom().contains(research_id)
                &&& s0.features.dom().contains(feature_id)
                &&& store_of(*final(c)) == link_feature_model(s0, research_id, feature_id)
            }),
            Err(_) => store_of(*final(c)) == store_of(*old(c)),
        },
{
    c.execute(
        "INSERT OR IGNORE INTO research_features (research_id, feature_id) VALUES (?1,?2)",
        (research_id, feature_id),
    )?;
    Ok(())
}

/// Relies on `rusqlite::Connection::execute` running INSERT OR IGNORE on
/// research_tasks, as for research_projects.
#[verifier::external_body]
pub(crate) fn insert_research_task(
    c: &mut rusqlite::Connection,
    research_id: i64,
    task_id: i64,
) -> (r: Result<(), rusqlite::Error>)
    ensures
        match r {
            Ok(_) => ({
                let s0 = store_of(*old(c));
                &&& s0.research.dom().contains(research_id)
                &&& s0.tasks.dom().contains(task_id)
                &&& store_of(*final(c)) == link_task_model(s0, research_id, task_id)
            }),
            Err(_) => store_of(*final(c)) == store_of(*old(c)),
        },
{
    c.execute(
        "INSERT OR IGNORE INTO research_tasks (research_id, task_id) VALUES (?1,?2)",
        (research_id, task_id),
    )?;
    Ok(())
}

/// Relies on `rusqlite::Connection::execute` running a DELETE on
/// research_projects: after success the pair is gone, whether or not it was
/// there.
#[verifier::external_body]
pub(crate) fn delete_research_project(
    c: &mut rusqlite::Connection,
    research_id: i64,
    project_id: i64,
) -> (r: Result<(), rusqlite::Error>)
    ensures
        match r {
            Ok(_) => store_of(*final(c)) == unlink_project_model(
                store_of(*old(c)),
                research_id,
                project_id,
            ),
            Err(_) => store_of(*final(c)) == store_of(*old(c)),
        },
{
    c.execute(
        "DELETE FROM research_projects WHERE research_id=?1 AND project_id=?2",
        (research_id, project_id),
    )?;
    Ok(())
}

/// Relies on `rusqlite::Connection::execute` running a DELETE on
/// research_modules, as for research_projects.
#[verifier::external_body]
pub(crate) fn delete_research_module(
    c: &mut rusqlite::Connection,
    research_id: i64,
    module_id: i64,
) -> (r: Result<(), rusqlite::Error>)
    ensures
        match r {
            Ok(_) => store_of(*final(c)) == unlink_module_model(
                store_of(*old(c)),
                research_id,
                module_id,
            ),
            Err(_) => store_of(*final(c)) == store_of(*old(c)),
        },
{
    c.execute(
        "DELETE FROM research_modules WHERE research_id=?1 AND module_id=?2",
        (research_id, module_id),
    )?;
    Ok(())
}

/// Relies on `rusqlite::Connection::execute` running a DELETE on
/// research_features, as for research_projects.
#[verifier::external_body]
pub(crate) fn delete_research_feature(
    c: &mut rusqlite::Connection,
    research_id: i64,
    feature_id: i64,
) -> (r: Result<(), rusqlite::Error>)
    ensures
        match r {
            Ok(_) => store_of(*final(c)) == unlink_feature_model(
                store_of(*old(c)),
                research_id,
                feature_id,
            ),
            Err(_) => store_of(*final(c)) == store_of(*old(c)),
        },
{
    c.execute(
        "DELETE FROM research_features WHERE research_id=?1 AND feature_id=?2",
        (research_id, feature_id),
    )?;
    Ok(())
}

/// Relies on `rusqlite::Connection::execute` running a DELETE on
/// research_tasks, as for research_projects.
#[verifier::external_body]
pub(crate) fn delete_research_task(
    c: &mut rusqlite::Connection,
    research_id: i64,
    task_id: i64,
) -> (r: Result<(), rusqlite::Error>)
    ensures
        match r {
            Ok(_) => store_of(*final(c)) == unlink_task_model(
                store_of(*old(c)),
                research_id,
                task_id,
            ),
            Err(_) => store_of(*final(c)) == store_of(*old(c)),
        },
{
    c.execute(
        "DELETE FROM research_tasks WHERE research_id=?1 AND task_id=?2",
        (research_id, task_id),
    )?;
    Ok(())
}

} // verus!
