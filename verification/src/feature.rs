//! Feature operations: create, inspect, mutate and delete the features of a
//! module. Every operation takes the open connection, states its effect
//! on the store model, and refreshes `last_worked_on` on every write.

use vstd::prelude::*;
use vstd::string::StringExecFns;

use crate::db;
use crate::errors::{EntityKind, MemError, ValidationReason};
use crate::model::{tasks_of, feature_ids_named_in, remove_feature, FeatureRow, StoreModel};
use crate::state::{spec_state_name, spec_transition_allowed, validate_transition, State};
use crate::text::{id_string, spec_i64_string, spec_trim, trim_str};

verus! {

/// A feature, as loaded from the store: a bounded area of concern within a
/// module. It owns tasks and carries a lifecycle state.
#[derive(Debug, PartialEq, Eq)]
pub struct Feature {
    pub id: i64,
    pub module_id: i64,
    pub name: String,
    pub description: String,
    pub details: String,
    pub state: String,
    pub last_worked_on: String,
}

impl View for Feature {
    type V = FeatureRow;

    open spec fn view(&self) -> FeatureRow {
        FeatureRow {
            module_id: self.module_id,
            name: self.name@,
            description: self.description@,
            details: self.details@,
            state: self.state@,
            last_worked_on: self.last_worked_on@,
        }
    }
}

impl Clone for Feature {
    fn clone(&self) -> (r: Self)
        ensures
            r == *self,
    {
        Feature {
            id: self.id,
            module_id: self.module_id,
            name: self.name.clone(),
            description: self.description.clone(),
            details: self.details.clone(),
            state: self.state.clone(),
            last_worked_on: self.last_worked_on.clone(),
        }
    }
}

/// Whether this value is exactly the row stored under its id.
pub open spec fn feature_in(m: Feature, s: StoreModel) -> bool {
    s.features.dom().contains(m.id) && s.features[m.id] == m@
}

/// The stores agree except that this one feature row was replaced.
pub open spec fn feature_row_set(s0: StoreModel, s1: StoreModel, id: i64, row: FeatureRow) -> bool {
    &&& s0.features.dom().contains(id)
    &&& s1 == (StoreModel { features: s0.features.insert(id, row), ..s0 })
}

/// Loads one feature by id.
pub fn load(conn: &rusqlite::Connection, id: i64) -> (r: Result<Option<Feature>, MemError>)
    ensures
        match r {
            Ok(Some(m)) => m.id == id && feature_in(m, db::store_of(*conn)),
            Ok(None) => !db::store_of(*conn).features.dom().contains(id),
            Err(e) => e is Storage,
        },
{
    match db::load_feature(conn, id) {
        Ok(m) => Ok(m),
        Err(e) => Err(db::storage_error(&e)),
    }
}

/// Loads one feature, turning absence into the not-found error.
fn load_required(conn: &rusqlite::Connection, id: i64) -> (r: Result<Feature, MemError>)
    ensures
        match r {
            Ok(m) => m.id == id && feature_in(m, db::store_of(*conn)),
            Err(e) => match e {
                MemError::NotFound(k, t) => k == EntityKind::Feature && t@ == spec_i64_string(
                    id as int,
                ) && !db::store_of(*conn).features.dom().contains(id),
                MemError::Storage(_) => true,
                _ => false,
            },
        },
{
    match db::load_feature(conn, id) {
        Ok(Some(m)) => Ok(m),
        Ok(None) => Err(MemError::NotFound(EntityKind::Feature, id_string(id))),
        Err(e) => Err(db::storage_error(&e)),
    }
}

/// Creates a feature under a module. The name is trimmed and must not end
/// up empty; the new row starts in Draft with empty details and the given
/// description, and is returned as stored.
pub fn add(
    conn: &mut rusqlite::Connection,
    module_id: i64,
    name: &str,
    description: &str,
) -> (r: Result<Feature, MemError>)
    ensures
        ({
            let s0 = db::store_of(*old(conn));
            let s1 = db::store_of(*final(conn));
            match r {
                Ok(m) => {
                    &&& spec_trim(name@).len() > 0
                    &&& m.id > 0
                    &&& !s0.features.dom().contains(m.id)
                    &&& s0.modules.dom().contains(module_id)
                    &&& feature_ids_named_in(s0, spec_trim(name@), module_id).is_empty()
                    &&& feature_in(m, s1)
                    &&& s1 == (StoreModel { features: s0.features.insert(m.id, m@), ..s0 })
                    &&& m@ == (FeatureRow {
                        module_id: module_id,
                        name: spec_trim(name@),
                        description: description@,
                        details: Seq::<char>::empty(),
                        state: spec_state_name(State::Draft),
                        last_worked_on: m@.last_worked_on,
                    })
                    &&& db::spec_timestamp_shape(m@.last_worked_on)
                },
                Err(e) => s1 == s0 && match e {
                    MemError::Validation(v) => v == ValidationReason::EmptyName && spec_trim(
                        name@,
                    ).len() == 0,
                    MemError::Storage(_) => true,
                    _ => false,
                },
            }
        }),
        spec_trim(name@).len() == 0 ==> r == Err::<Feature, MemError>(MemError::Validation(
            ValidationReason::EmptyName,
        )),
{
    let trimmed = trim_str(name);
    if trimmed.as_str().is_empty() {
        return Err(MemError::Validation(ValidationReason::EmptyName));
    }
    let ts = db::now_timestamp();
    match db::insert_feature(conn, module_id, trimmed.as_str(), description, ts.as_str()) {
        Ok(id) => Ok(
            Feature {
                id,
                module_id,
                name: trimmed,
                description: description.to_owned(),
                details: String::new(),
                state: State::Draft.name_string(),
                last_worked_on: ts,
            },
        ),
        Err(e) => Err(db::storage_error(&e)),
    }
}

/// Renames a feature. The new name is trimmed and must not end up empty;
/// everything but the name and the refreshed timestamp is kept, and the
/// post-mutation snapshot is returned.
pub fn rename(conn: &mut rusqlite::Connection, id: i64, new_name: &str) -> (r: Result<
    Feature,
    MemError,
>)
    ensures
        ({
            let s0 = db::store_of(*old(conn));
            let s1 = db::store_of(*final(conn));
            match r {
                Ok(m) => {
                    &&& spec_trim(new_name@).len() > 0
                    &&& m.id == id
                    &&& feature_in(m, s1)
                    &&& feature_row_set(s0, s1, id, m@)
                    &&& m@ == (FeatureRow {
                        name: spec_trim(new_name@),
                        last_worked_on: m@.last_worked_on,
                        ..s0.features[id]
                    })
                    &&& db::spec_timestamp_shape(m@.last_worked_on)
                },
                Err(e) => s1 == s0 && match e {
                    MemError::Validation(v) => v == ValidationReason::EmptyName && spec_trim(
                        new_name@,
                    ).len() == 0,
                    MemError::NotFound(k, t) => k == EntityKind::Feature && t@ == spec_i64_string(
                        id as int,
                    ) && !s0.features.dom().contains(id),
                    MemError::Storage(_) => true,
                    _ => false,
                },
            }
        }),
        spec_trim(new_name@).len() == 0 ==> r == Err::<Feature, MemError>(MemError::Validation(
            ValidationReason::EmptyName,
        )),
{
    let trimmed = trim_str(new_name);
    if trimmed.as_str().is_empty() {
        return Err(MemError::Validation(ValidationReason::EmptyName));
    }
    let m0 = load_required(conn, id)?;
    let ts = db::now_timestamp();
    match db::update_feature_row(
        conn,
        id,
        trimmed.as_str(),
        m0.description.as_str(),
        m0.details.as_str(),
        m0.state.as_str(),
        ts.as_str(),
    ) {
        Ok(_) => Ok(
            Feature {
                id,
                module_id: m0.module_id,
                name: trimmed,
                description: m0.description,
                details: m0.details,
                state: m0.state,
                last_worked_on: ts,
            },
        ),
        Err(e) => Err(db::storage_error(&e)),
    }
}

/// Replaces a feature's description, keeping everything else but the
/// refreshed timestamp, and returns the post-mutation snapshot.
pub fn set_description(conn: &mut rusqlite::Connection, id: i64, description: &str) -> (r: Result<
    Feature,
    MemError,
>)
    ensures
        ({
            let s0 = db::store_of(*old(conn));
            let s1 = db::store_of(*final(conn));
            match r {
                Ok(m) => {
                    &&& m.id == id
                    &&& feature_in(m, s1)
                    &&& feature_row_set(s0, s1, id, m@)
                    &&& m@ == (FeatureRow {
                        description: description@,
                        last_worked_on: m@.last_worked_on,
                        ..s0.features[id]
                    })
                    &&& db::spec_timestamp_shape(m@.last_worked_on)
                },
                Err(e) => s1 == s0 && match e {
                    MemError::NotFound(k, t) => k == EntityKind::Feature && t@ == spec_i64_string(
                        id as int,
                    ) && !s0.features.dom().contains(id),
                    MemError::Storage(_) => true,
                    _ => false,
                },
            }
        }),
{
    let m0 = load_required(conn, id)?;
    let ts = db::now_timestamp();
    match db::update_feature_row(
        conn,
        id,
        m0.name.as_str(),
        description,
        m0.details.as_str(),
        m0.state.as_str(),
        ts.as_str(),
    ) {
        Ok(_) => Ok(
            Feature {
                id,
                module_id: m0.module_id,
                name: m0.name,
                description: description.to_owned(),
                details: m0.details,
                state: m0.state,
                last_worked_on: ts,
            },
        ),
        Err(e) => Err(db::storage_error(&e)),
    }
}

/// Replaces a feature's working notes entirely, keeping everything else but
/// the refreshed timestamp, and returns the post-mutation snapshot.
pub fn set_details(conn: &mut rusqlite::Connection, id: i64, details: &str) -> (r: Result<
    Feature,
    MemError,
>)
    ensures
        ({
            let s0 = db::store_of(*old(conn));
            let s1 = db::store_of(*final(conn));
            match r {
                Ok(m) => {
                    &&& m.id == id
                    &&& feature_in(m, s1)
                    &&& feature_row_set(s0, s1, id, m@)
                    &&& m@ == (FeatureRow {
                        details: details@,
                        last_worked_on: m@.last_worked_on,
                        ..s0.features[id]
                    })
                    &&& db::spec_timestamp_shape(m@.last_worked_on)
                },
                Err(e) => s1 == s0 && match e {
                    MemError::NotFound(k, t) => k == EntityKind::Feature && t@ == spec_i64_string(
                        id as int,
                    ) && !s0.features.dom().contains(id),
                    MemError::Storage(_) => true,
                    _ => false,
                },
            }
        }),
{
    let m0 = load_required(conn, id)?;
    let ts = db::now_timestamp();
    match db::update_feature_row(
        conn,
        id,
        m0.name.as_str(),
        m0.description.as_str(),
        details,
        m0.state.as_str(),
        ts.as_str(),
    ) {
        Ok(_) => Ok(
            Feature {
                id,
                module_id: m0.module_id,
                name: m0.name,
                description: m0.description,
                details: details.to_owned(),
                state: m0.state,
                last_worked_on: ts,
            },
        ),
        Err(e) => Err(db::storage_error(&e)),
    }
}

/// Moves a feature along the lifecycle graph.
///
/// A request to the current state is a no-op: it validates, writes nothing
/// — the timestamp included — and is reported as `Ok(None)`. A real move
/// writes the new state with a fresh timestamp and returns the snapshot.
/// A pair outside the graph fails with `InvalidTransition` and changes
/// nothing.
pub fn transition(conn: &mut rusqlite::Connection, id: i64, to: &State) -> (r: Result<
    Option<Feature>,
    MemError,
>)
    ensures
        ({
            let s0 = db::store_of(*old(conn));
            let s1 = db::store_of(*final(conn));
            match r {
                Ok(Some(m)) => {
                    &&& exists|f: State|
                        s0.features[id].state == spec_state_name(f) && f != *to
                            && spec_transition_allowed(f, *to)
                    &&& m.id == id
                    &&& feature_in(m, s1)
                    &&& feature_row_set(s0, s1, id, m@)
                    &&& m@ == (FeatureRow {
                        state: spec_state_name(*to),
                        last_worked_on: m@.last_worked_on,
                        ..s0.features[id]
                    })
                    &&& db::spec_timestamp_shape(m@.last_worked_on)
                },
                Ok(None) => s1 == s0 && s0.features.dom().contains(id) && s0.features[id].state
                    == spec_state_name(*to),
                Err(e) => s1 == s0 && match e {
                    MemError::NotFound(k, t) => k == EntityKind::Feature && t@ == spec_i64_string(
                        id as int,
                    ) && !s0.features.dom().contains(id),
                    MemError::InvalidTransition(f, t) => t == *to && s0.features.dom().contains(id)
                        && s0.features[id].state == spec_state_name(f) && f != *to
                        && !spec_transition_allowed(f, *to),
                    MemError::Validation(v) => match v {
                        ValidationReason::InvalidStateName(n) => s0.features.dom().contains(id)
                            && n@ == s0.features[id].state && forall|f: State|
                            s0.features[id].state != spec_state_name(f),
                        _ => false,
                    },
                    MemError::Storage(_) => true,
                    _ => false,
                },
            }
        }),
{
    let m0 = load_required(conn, id)?;
    match validate_transition(m0.state.as_str(), to) {
        Err(e) => Err(e),
        Ok(false) => Ok(None),
        Ok(true) => {
            let ts = db::now_timestamp();
            let state_name = to.name_string();
            match db::update_feature_row(
                conn,
                id,
                m0.name.as_str(),
                m0.description.as_str(),
                m0.details.as_str(),
                state_name.as_str(),
                ts.as_str(),
            ) {
                Ok(_) => Ok(
                    Some(
                        Feature {
                            id,
                            module_id: m0.module_id,
                            name: m0.name,
                            description: m0.description,
                            details: m0.details,
                            state: state_name,
                            last_worked_on: ts,
                        },
                    ),
                ),
                Err(e) => Err(db::storage_error(&e)),
            }
        },
    }
}

/// Deletes a feature. With direct tasks present the deletion is refused
/// unless the caller authorized the cascade, which then takes the tasks,
/// their tasks and all of their association rows along — never a research
/// record itself. The snapshot of the deleted row is returned.
pub fn remove(conn: &mut rusqlite::Connection, id: i64, cascade: bool) -> (r: Result<
    Feature,
    MemError,
>)
    ensures
        ({
            let s0 = db::store_of(*old(conn));
            let s1 = db::store_of(*final(conn));
            match r {
                Ok(m) => {
                    &&& m.id == id
                    &&& feature_in(m, s0)
                    &&& s1 == remove_feature(s0, id)
                    &&& cascade || tasks_of(s0, id).len() == 0
                },
                Err(e) => s1 == s0 && match e {
                    MemError::NotFound(k, t) => k == EntityKind::Feature && t@ == spec_i64_string(
                        id as int,
                    ) && !s0.features.dom().contains(id),
                    MemError::ConflictHasChildren(n, flag) => !cascade && flag@ == "cascade"@
                        && s0.features.dom().contains(id) && n > 0 && n as nat == tasks_of(
                        s0,
                        id,
                    ).len(),
                    MemError::Storage(_) => true,
                    _ => false,
                },
            }
        }),
{
    let m0 = load_required(conn, id)?;
    let count = match db::count_tasks_of(conn, id) {
        Ok(n) => n,
        Err(e) => {
            return Err(db::storage_error(&e));
        },
    };
    if count > 0 && !cascade {
        return Err(MemError::ConflictHasChildren(count as u64, String::from_str("cascade")));
    }
    match db::delete_feature_row(conn, id) {
        Ok(_) => Ok(m0),
        Err(e) => Err(db::storage_error(&e)),
    }
}

/// Lists the features of a module in ascending id order, kept to one
/// lifecycle state when a filter is given.
pub fn list(conn: &rusqlite::Connection, module_id: i64, state_filter: Option<&str>) -> (r:
    Result<Vec<Feature>, MemError>)
    ensures
        ({
            let s = db::store_of(*conn);
            match r {
                Ok(v) => {
                    &&& db::feature_ids_ascending(v@)
                    &&& forall|i: int|
                        0 <= i < v@.len() ==> feature_in(#[trigger] v@[i], s) && v@[i].module_id
                            == module_id && (match state_filter {
                            Some(f) => v@[i].state@ == f@,
                            None => true,
                        })
                    &&& forall|mid: i64|
                        #[trigger] crate::model::features_of(s, module_id).contains(mid) && (
                        match state_filter {
                            Some(f) => s.features[mid].state == f@,
                            None => true,
                        }) ==> exists|i: int| 0 <= i < v@.len() && v@[i].id == mid
                },
                Err(e) => e is Storage,
            }
        }),
{
    let rows = match db::features_of_module(conn, module_id) {
        Ok(v) => v,
        Err(e) => {
            return Err(db::storage_error(&e));
        },
    };
    match state_filter {
        None => Ok(rows),
        Some(f) => {
            let filt: String = f.to_owned();
            let mut out: Vec<Feature> = Vec::new();
            let mut i: usize = 0;
            while i < rows.len()
                invariant
                    0 <= i <= rows@.len(),
                    db::feature_ids_ascending(rows@),
                    forall|j: int|
                        0 <= j < rows@.len() ==> feature_in(#[trigger] rows@[j], db::store_of(*conn))
                            && rows@[j].module_id == module_id,
                    forall|mid: i64|
                        #[trigger] crate::model::features_of(db::store_of(*conn), module_id)
                            .contains(mid) ==> exists|j: int|
                            0 <= j < rows@.len() && rows@[j].id == mid,
                    filt@ == f@,
                    db::feature_ids_ascending(out@),
                    forall|a: int|
                        0 <= a < out@.len() ==> exists|j: int|
                            0 <= j < i && rows@[j] == #[trigger] out@[a],
                    forall|a: int|
                        0 <= a < out@.len() ==> feature_in(#[trigger] out@[a], db::store_of(*conn))
                            && out@[a].module_id == module_id && out@[a].state@ == f@,
                    forall|j: int|
                        0 <= j < i && #[trigger] rows@[j].state@ == f@ ==> exists|a: int|
                            0 <= a < out@.len() && out@[a].id == rows@[j].id,
                decreases rows@.len() - i,
            {
                let ghost out0 = out@;
                let keep = rows[i].state == filt;
                if keep {
                    let picked = rows[i].clone();
                    proof {
                        assert(picked == rows@[i as int]);
                        assert(feature_in(picked, db::store_of(*conn)));
                        assert(picked.state@ == f@);
                        assert forall|a: int| 0 <= a < out@.len() implies out@[a].id
                            < picked.id by {
                            let j = choose|j: int| 0 <= j < i && rows@[j] == out@[a];
                            assert(rows@[j].id < rows@[i as int].id);
                        }
                    }
                    out.push(picked);
                    assert(out@[out@.len() - 1] == rows@[i as int]);
                }
                proof {
                    assert forall|j: int|
                        0 <= j < i + 1 && #[trigger] rows@[j].state@ == f@ implies exists|a: int|
                        0 <= a < out@.len() && out@[a].id == rows@[j].id by {
                        if j < i {
                            let a = choose|a: int|
                                0 <= a < out0.len() && out0[a].id == rows@[j].id;
                            assert(out@[a] == out0[a]);
                        } else {
                            assert(keep);
                            assert(out@[out@.len() - 1].id == rows@[j].id);
                        }
                    }
                }
                i = i + 1;
            }
            Ok(out)
        },
    }
}

/// Everything the feature view shows: the row, its module's name, its
/// tasks and the research linked to it.
pub struct FeatureDetail {
    pub feature: Feature,
    pub module_name: String,
    pub tasks: Vec<crate::task::Task>,
    pub research: Vec<crate::research::Research>,
}

/// Loads the full view of one feature: the row itself, the owning
/// module's name (empty if the module row is gone), its tasks and
/// the research records linked to it, both in ascending id order.
pub fn show(conn: &rusqlite::Connection, id: i64) -> (r: Result<FeatureDetail, MemError>)
    ensures
        ({
            let s = db::store_of(*conn);
            match r {
                Ok(d) => {
                    &&& d.feature.id == id
                    &&& feature_in(d.feature, s)
                    &&& (if s.modules.dom().contains(d.feature.module_id) {
                        d.module_name@ == s.modules[d.feature.module_id].name
                    } else {
                        d.module_name@ == Seq::<char>::empty()
                    })
                    &&& db::task_ids_ascending(d.tasks@)
                    &&& forall|i: int|
                        0 <= i < d.tasks@.len() ==> crate::task::task_in(
                            #[trigger] d.tasks@[i],
                            s,
                        ) && d.tasks@[i].feature_id == id
                    &&& forall|fid: i64|
                        #[trigger] tasks_of(s, id).contains(fid) ==> exists|i: int|
                            0 <= i < d.tasks@.len() && d.tasks@[i].id == fid
                    &&& db::research_ids_ascending(d.research@)
                    &&& forall|i: int|
                        0 <= i < d.research@.len() ==> crate::research::research_in(
                            #[trigger] d.research@[i],
                            s,
                        ) && s.research_features.contains((d.research@[i].id, id))
                    &&& forall|rid: i64|
                        #[trigger] s.research_features.contains((rid, id)) && s.research.dom()
                            .contains(rid) ==> exists|i: int|
                            0 <= i < d.research@.len() && d.research@[i].id == rid
                },
                Err(e) => match e {
                    MemError::NotFound(k, t) => k == EntityKind::Feature && t@ == spec_i64_string(
                        id as int,
                    ) && !s.features.dom().contains(id),
                    MemError::Storage(_) => true,
                    _ => false,
                },
            }
        }),
{
    let m0 = load_required(conn, id)?;
    let module_name = match db::load_module(conn, m0.module_id) {
        Ok(Some(p)) => p.name,
        Ok(None) => String::new(),
        Err(e) => {
            return Err(db::storage_error(&e));
        },
    };
    let tasks = match db::tasks_of_feature(conn, id) {
        Ok(v) => v,
        Err(e) => {
            return Err(db::storage_error(&e));
        },
    };
    let research = match db::research_linked_to_feature(conn, id) {
        Ok(v) => v,
        Err(e) => {
            return Err(db::storage_error(&e));
        },
    };
    Ok(FeatureDetail { feature: m0, module_name, tasks, research })
}

} // verus!
