//! The entity resolver: one user token, one row id.
//!
//! A token of decimal digits is read as a direct id and only checked for
//! existence — a stated scope never constrains a numeric token. Any other
//! token is matched by exact, case-sensitive equality against the name
//! column, within the parent scope when one is given and table-wide when
//! not. Zero matches fail as not found; several matches fail as ambiguous,
//! naming the flag that would narrow the scope.

use vstd::prelude::*;
use vstd::string::StringExecFns;

use crate::db;
use crate::errors::{EntityKind, MemError};
use crate::model::{
    project_ids_named, research_ids_named, scoped_feature_ids, scoped_module_ids,
    scoped_task_ids,
};
use crate::text::{parse_token_id, spec_token_id};

verus! {

/// Whether the token reads as a direct numeric id.
pub fn is_id(s: &str) -> (r: bool)
    ensures
        r == (spec_token_id(s@) is Some),
{
    parse_token_id(s).is_some()
}

/// What a duplicate-free id list says of the set it was drawn from: none,
/// exactly the one, or two distinct witnesses.
proof fn lemma_ids_shape(ids: Seq<i64>, named: Set<i64>)
    requires
        ids.no_duplicates(),
        ids.to_set() == named,
    ensures
        ids.len() == 0 ==> named == Set::<i64>::empty(),
        ids.len() == 1 ==> named == set![ids[0]],
        ids.len() >= 2 ==> ids[0] != ids[1] && named.contains(ids[0]) && named.contains(ids[1]),
{
    if ids.len() == 0 {
        assert(named =~= Set::<i64>::empty());
    } else if ids.len() == 1 {
        assert forall|x: i64| named.contains(x) implies set![ids[0]].contains(x) by {
            let i = choose|i: int| 0 <= i < ids.len() && ids[i] == x;
            assert(i == 0);
        }
        assert(named =~= set![ids[0]]);
    } else {
        assert(named.contains(ids[0]));
        assert(named.contains(ids[1]));
    }
}

/// Resolves a project token. Project names are globally unique in the
/// store, so a name can match several rows only if the store was built
/// outside this library; that case still reports ambiguity, with no
/// narrowing flag to suggest.
pub fn resolve_project(conn: &rusqlite::Connection, token: &str) -> (r: Result<i64, MemError>)
    ensures
        ({
            let s = db::store_of(*conn);
            let named = project_ids_named(s, token@);
            match r {
                Ok(id) => match spec_token_id(token@) {
                    Some(n) => id == n && s.projects.dom().contains(n),
                    None => named == set![id],
                },
                Err(MemError::NotFound(k, t)) => k == EntityKind::Project && t@ == token@
                    && match spec_token_id(token@) {
                    Some(n) => !s.projects.dom().contains(n),
                    None => named == Set::<i64>::empty(),
                },
                Err(MemError::Ambiguous(k, t, flag)) => k == EntityKind::Project && t@ == token@
                    && flag@ == Seq::<char>::empty() && spec_token_id(token@) is None && exists|
                    a: i64,
                    b: i64,
                |
                    a != b && named.contains(a) && named.contains(b),
                Err(e) => e is Storage,
            }
        }),
{
    match parse_token_id(token) {
        Some(id) => match db::load_project(conn, id) {
            Ok(Some(_)) => Ok(id),
            Ok(None) => Err(MemError::NotFound(EntityKind::Project, token.to_owned())),
            Err(e) => Err(db::storage_error(&e)),
        },
        None => {
            let ids = match db::project_ids_by_name(conn, token) {
                Ok(v) => v,
                Err(e) => {
                    return Err(db::storage_error(&e));
                },
            };
            proof {
                lemma_ids_shape(ids@, project_ids_named(db::store_of(*conn), token@));
            }
            if ids.len() == 0 {
                Err(MemError::NotFound(EntityKind::Project, token.to_owned()))
            } else if ids.len() == 1 {
                Ok(ids[0])
            } else {
                Err(MemError::Ambiguous(EntityKind::Project, token.to_owned(), String::new()))
            }
        },
    }
}

/// Resolves a module token, disambiguated by its project when one is
/// given. A numeric token is checked for existence only; a name is matched
/// within the scope, or table-wide without one, and several matches name
/// the project flag as the remedy.
pub fn resolve_module(
    conn: &rusqlite::Connection,
    token: &str,
    project_id: Option<i64>,
) -> (r: Result<i64, MemError>)
    ensures
        ({
            let s = db::store_of(*conn);
            let named = scoped_module_ids(s, token@, project_id);
            match r {
                Ok(id) => match spec_token_id(token@) {
                    Some(n) => id == n && s.modules.dom().contains(n),
                    None => named == set![id],
                },
                Err(MemError::NotFound(k, t)) => k == EntityKind::Module && t@ == token@
                    && match spec_token_id(token@) {
                    Some(n) => !s.modules.dom().contains(n),
                    None => named == Set::<i64>::empty(),
                },
                Err(MemError::Ambiguous(k, t, flag)) => k == EntityKind::Module && t@ == token@
                    && flag@ == "project"@ && spec_token_id(token@) is None && exists|
                    a: i64,
                    b: i64,
                |
                    a != b && named.contains(a) && named.contains(b),
                Err(e) => e is Storage,
            }
        }),
{
    match parse_token_id(token) {
        Some(id) => match db::load_module(conn, id) {
            Ok(Some(_)) => Ok(id),
            Ok(None) => Err(MemError::NotFound(EntityKind::Module, token.to_owned())),
            Err(e) => Err(db::storage_error(&e)),
        },
        None => {
            let looked = match project_id {
                Some(pid) => db::module_ids_by_name_in(conn, token, pid),
                None => db::module_ids_by_name(conn, token),
            };
            let ids = match looked {
                Ok(v) => v,
                Err(e) => {
                    return Err(db::storage_error(&e));
                },
            };
            proof {
                lemma_ids_shape(ids@, scoped_module_ids(db::store_of(*conn), token@, project_id));
            }
            if ids.len() == 0 {
                Err(MemError::NotFound(EntityKind::Module, token.to_owned()))
            } else if ids.len() == 1 {
                Ok(ids[0])
            } else {
                Err(
                    MemError::Ambiguous(
                        EntityKind::Module,
                        token.to_owned(),
                        String::from_str("project"),
                    ),
                )
            }
        },
    }
}

/// Resolves a feature token, disambiguated by its module when one is
/// given; several matches name the module flag as the remedy.
pub fn resolve_feature(
    conn: &rusqlite::Connection,
    token: &str,
    module_id: Option<i64>,
) -> (r: Result<i64, MemError>)
    ensures
        ({
            let s = db::store_of(*conn);
            let named = scoped_feature_ids(s, token@, module_id);
            match r {
                Ok(id) => match spec_token_id(token@) {
                    Some(n) => id == n && s.features.dom().contains(n),
                    None => named == set![id],
                },
                Err(MemError::NotFound(k, t)) => k == EntityKind::Feature && t@ == token@
                    && match spec_token_id(token@) {
                    Some(n) => !s.features.dom().contains(n),
                    None => named == Set::<i64>::empty(),
                },
                Err(MemError::Ambiguous(k, t, flag)) => k == EntityKind::Feature && t@ == token@
                    && flag@ == "module"@ && spec_token_id(token@) is None && exists|
                    a: i64,
                    b: i64,
                |
                    a != b && named.contains(a) && named.contains(b),
                Err(e) => e is Storage,
            }
        }),
{
    match parse_token_id(token) {
        Some(id) => match db::load_feature(conn, id) {
            Ok(Some(_)) => Ok(id),
            Ok(None) => Err(MemError::NotFound(EntityKind::Feature, token.to_owned())),
            Err(e) => Err(db::storage_error(&e)),
        },
        None => {
            let looked = match module_id {
                Some(mid) => db::feature_ids_by_name_in(conn, token, mid),
                None => db::feature_ids_by_name(conn, token),
            };
            let ids = match looked {
                Ok(v) => v,
                Err(e) => {
                    return Err(db::storage_error(&e));
                },
            };
            proof {
                lemma_ids_shape(ids@, scoped_feature_ids(db::store_of(*conn), token@, module_id));
            }
            if ids.len() == 0 {
                Err(MemError::NotFound(EntityKind::Feature, token.to_owned()))
            } else if ids.len() == 1 {
                Ok(ids[0])
            } else {
                Err(
                    MemError::Ambiguous(
                        EntityKind::Feature,
                        token.to_owned(),
                        String::from_str("module"),
                    ),
                )
            }
        },
    }
}

/// Resolves a task token, disambiguated by its feature when one is given;
/// several matches name the feature flag as the remedy.
pub fn resolve_task(
    conn: &rusqlite::Connection,
    token: &str,
    feature_id: Option<i64>,
) -> (r: Result<i64, MemError>)
    ensures
        ({
            let s = db::store_of(*conn);
            let named = scoped_task_ids(s, token@, feature_id);
            match r {
                Ok(id) => match spec_token_id(token@) {
                    Some(n) => id == n && s.tasks.dom().contains(n),
                    None => named == set![id],
                },
                Err(MemError::NotFound(k, t)) => k == EntityKind::Task && t@ == token@ && match
                    spec_token_id(token@) {
                    Some(n) => !s.tasks.dom().contains(n),
                    None => named == Set::<i64>::empty(),
                },
                Err(MemError::Ambiguous(k, t, flag)) => k == EntityKind::Task && t@ == token@
                    && flag@ == "feature"@ && spec_token_id(token@) is None && exists|
                    a: i64,
                    b: i64,
                |
                    a != b && named.contains(a) && named.contains(b),
                Err(e) => e is Storage,
            }
        }),
{
    match parse_token_id(token) {
        Some(id) => match db::load_task(conn, id) {
            Ok(Some(_)) => Ok(id),
            Ok(None) => Err(MemError::NotFound(EntityKind::Task, token.to_owned())),
            Err(e) => Err(db::storage_error(&e)),
        },
        None => {
            let looked = match feature_id {
                Some(fid) => db::task_ids_by_name_in(conn, token, fid),
                None => db::task_ids_by_name(conn, token),
            };
            let ids = match looked {
                Ok(v) => v,
                Err(e) => {
                    return Err(db::storage_error(&e));
                },
            };
            proof {
                lemma_ids_shape(ids@, scoped_task_ids(db::store_of(*conn), token@, feature_id));
            }
            if ids.len() == 0 {
                Err(MemError::NotFound(EntityKind::Task, token.to_owned()))
            } else if ids.len() == 1 {
                Ok(ids[0])
            } else {
                Err(
                    MemError::Ambiguous(
                        EntityKind::Task,
                        token.to_owned(),
                        String::from_str("feature"),
                    ),
                )
            }
        },
    }
}

/// Resolves a research token. Research has no scope concept — its name is
/// globally unique in the store — so resolution either finds a row or
/// fails as not found.
pub fn resolve_research(conn: &rusqlite::Connection, token: &str) -> (r: Result<i64, MemError>)
    ensures
        ({
            let s = db::store_of(*conn);
            let named = research_ids_named(s, token@);
            match r {
                Ok(id) => match spec_token_id(token@) {
                    Some(n) => id == n && s.research.dom().contains(n),
                    None => named.contains(id),
                },
                Err(MemError::NotFound(k, t)) => k == EntityKind::Research && t@ == token@
                    && match spec_token_id(token@) {
                    Some(n) => !s.research.dom().contains(n),
                    None => named == Set::<i64>::empty(),
                },
                Err(e) => e is Storage,
            }
        }),
{
    match parse_token_id(token) {
        Some(id) => match db::load_research(conn, id) {
            Ok(Some(_)) => Ok(id),
            Ok(None) => Err(MemError::NotFound(EntityKind::Research, token.to_owned())),
            Err(e) => Err(db::storage_error(&e)),
        },
        None => {
            let ids = match db::research_ids_by_name(conn, token) {
                Ok(v) => v,
                Err(e) => {
                    return Err(db::storage_error(&e));
                },
            };
            proof {
                lemma_ids_shape(ids@, research_ids_named(db::store_of(*conn), token@));
            }
            if ids.len() == 0 {
                Err(MemError::NotFound(EntityKind::Research, token.to_owned()))
            } else {
                Ok(ids[0])
            }
        },
    }
}

} // verus!
