//! The mathematical model of the persisted store.
//!
//! Every operation of the library is specified against a [`StoreModel`]: five
//! row tables keyed by id plus four association relations. The contracts of
//! the persistence wrappers describe each statement as a transformation of
//! this model, and the verified operations build on those descriptions.

use vstd::prelude::*;

verus! {

/// A project row: the root of the hierarchy.
#[verifier::ext_equal]
pub struct ProjectRow {
    pub name: Seq<char>,
    pub path: Seq<char>,
    pub description: Seq<char>,
    pub completed: bool,
    pub updated_at: Seq<char>,
}

/// A module row, owned by one project.
#[verifier::ext_equal]
pub struct ModuleRow {
    pub project_id: i64,
    pub name: Seq<char>,
    pub description: Seq<char>,
    pub details: Seq<char>,
    pub state: Seq<char>,
    pub last_worked_on: Seq<char>,
}

/// A feature row, owned by one module.
#[verifier::ext_equal]
pub struct FeatureRow {
    pub module_id: i64,
    pub name: Seq<char>,
    pub description: Seq<char>,
    pub details: Seq<char>,
    pub state: Seq<char>,
    pub last_worked_on: Seq<char>,
}

/// A task row, owned by one feature; a leaf of the hierarchy.
#[verifier::ext_equal]
pub struct TaskRow {
    pub feature_id: i64,
    pub name: Seq<char>,
    pub description: Seq<char>,
    pub details: Seq<char>,
    pub state: Seq<char>,
    pub last_worked_on: Seq<char>,
}

/// A research row; not owned by any hierarchy node.
#[verifier::ext_equal]
pub struct ResearchRow {
    pub name: Seq<char>,
    pub description: Seq<char>,
    pub content: Seq<char>,
    pub source: Seq<char>,
    pub researched_at: Seq<char>,
    pub created_at: Seq<char>,
    pub updated_at: Seq<char>,
}

/// The whole store: one map per entity table, keyed by the surrogate id, and
/// one relation per research association table, holding (research id,
/// target id) pairs.
#[verifier::ext_equal]
pub struct StoreModel {
    pub projects: Map<i64, ProjectRow>,
    pub modules: Map<i64, ModuleRow>,
    pub features: Map<i64, FeatureRow>,
    pub tasks: Map<i64, TaskRow>,
    pub research: Map<i64, ResearchRow>,
    pub research_projects: Set<(i64, i64)>,
    pub research_modules: Set<(i64, i64)>,
    pub research_features: Set<(i64, i64)>,
    pub research_tasks: Set<(i64, i64)>,
}

// ── Name lookups ─────────────────────────────────────────────────────────

/// The ids of all projects carrying exactly this name.
pub open spec fn project_ids_named(s: StoreModel, name: Seq<char>) -> Set<i64> {
    s.projects.dom().filter(|id: i64| s.projects[id].name == name)
}

/// The ids of all modules carrying exactly this name, in any project.
pub open spec fn module_ids_named(s: StoreModel, name: Seq<char>) -> Set<i64> {
    s.modules.dom().filter(|id: i64| s.modules[id].name == name)
}

/// The ids of all modules of one project carrying exactly this name.
pub open spec fn module_ids_named_in(s: StoreModel, name: Seq<char>, project_id: i64) -> Set<
    i64,
> {
    s.modules.dom().filter(
        |id: i64| s.modules[id].name == name && s.modules[id].project_id == project_id,
    )
}

/// The ids of all features carrying exactly this name, in any module.
pub open spec fn feature_ids_named(s: StoreModel, name: Seq<char>) -> Set<i64> {
    s.features.dom().filter(|id: i64| s.features[id].name == name)
}

/// The ids of all features of one module carrying exactly this name.
pub open spec fn feature_ids_named_in(s: StoreModel, name: Seq<char>, module_id: i64) -> Set<
    i64,
> {
    s.features.dom().filter(
        |id: i64| s.features[id].name == name && s.features[id].module_id == module_id,
    )
}

/// The ids of all tasks carrying exactly this name, in any feature.
pub open spec fn task_ids_named(s: StoreModel, name: Seq<char>) -> Set<i64> {
    s.tasks.dom().filter(|id: i64| s.tasks[id].name == name)
}

/// The ids of all tasks of one feature carrying exactly this name.
pub open spec fn task_ids_named_in(s: StoreModel, name: Seq<char>, feature_id: i64) -> Set<i64> {
    s.tasks.dom().filter(
        |id: i64| s.tasks[id].name == name && s.tasks[id].feature_id == feature_id,
    )
}

/// The ids of all research records carrying exactly this name.
pub open spec fn research_ids_named(s: StoreModel, name: Seq<char>) -> Set<i64> {
    s.research.dom().filter(|id: i64| s.research[id].name == name)
}

/// The module ids a name token can mean: within the project when a scope
/// is given, table-wide when not.
pub open spec fn scoped_module_ids(s: StoreModel, name: Seq<char>, scope: Option<i64>) -> Set<
    i64,
> {
    match scope {
        Some(pid) => module_ids_named_in(s, name, pid),
        None => module_ids_named(s, name),
    }
}

/// The feature ids a name token can mean: within the module when a scope
/// is given, table-wide when not.
pub open spec fn scoped_feature_ids(s: StoreModel, name: Seq<char>, scope: Option<i64>) -> Set<
    i64,
> {
    match scope {
        Some(mid) => feature_ids_named_in(s, name, mid),
        None => feature_ids_named(s, name),
    }
}

/// The task ids a name token can mean: within the feature when a scope is
/// given, table-wide when not.
pub open spec fn scoped_task_ids(s: StoreModel, name: Seq<char>, scope: Option<i64>) -> Set<i64> {
    match scope {
        Some(fid) => task_ids_named_in(s, name, fid),
        None => task_ids_named(s, name),
    }
}

/// The ids of all projects in the store.
pub open spec fn project_ids(s: StoreModel) -> Set<i64> {
    s.projects.dom()
}

/// The ids of all research records in the store.
pub open spec fn research_ids(s: StoreModel) -> Set<i64> {
    s.research.dom()
}

// ── Children ─────────────────────────────────────────────────────────────

/// The ids of the modules directly under a project.
pub open spec fn modules_of(s: StoreModel, project_id: i64) -> Set<i64> {
    s.modules.dom().filter(|id: i64| s.modules[id].project_id == project_id)
}

/// The ids of the features directly under a module.
pub open spec fn features_of(s: StoreModel, module_id: i64) -> Set<i64> {
    s.features.dom().filter(|id: i64| s.features[id].module_id == module_id)
}

/// The ids of the tasks directly under a feature.
pub open spec fn tasks_of(s: StoreModel, feature_id: i64) -> Set<i64> {
    s.tasks.dom().filter(|id: i64| s.tasks[id].feature_id == feature_id)
}

// ── Deletion, with the store's cascading foreign keys ────────────────────

/// The store after physically deleting one task: only the task row and its
/// research associations disappear.
pub open spec fn remove_task(s: StoreModel, task_id: i64) -> StoreModel {
    StoreModel {
        tasks: s.tasks.remove(task_id),
        research_tasks: s.research_tasks.filter(|p: (i64, i64)| p.1 != task_id),
        ..s
    }
}

/// The store after physically deleting one feature: its tasks go with it,
/// and every association row of a removed row goes too. Research records
/// themselves are never touched.
pub open spec fn remove_feature(s: StoreModel, feature_id: i64) -> StoreModel {
    let tasks = s.tasks.filter_keys(|tid: i64| s.tasks[tid].feature_id != feature_id);
    StoreModel {
        features: s.features.remove(feature_id),
        tasks: tasks,
        research_features: s.research_features.filter(|p: (i64, i64)| p.1 != feature_id),
        research_tasks: s.research_tasks.filter(|p: (i64, i64)| tasks.dom().contains(p.1)),
        ..s
    }
}

/// The store after physically deleting one module: features and tasks below
/// it go with it, along with all of their association rows.
pub open spec fn remove_module(s: StoreModel, module_id: i64) -> StoreModel {
    let features = s.features.filter_keys(|fid: i64| s.features[fid].module_id != module_id);
    let tasks = s.tasks.filter_keys(
        |tid: i64| features.dom().contains(s.tasks[tid].feature_id),
    );
    StoreModel {
        modules: s.modules.remove(module_id),
        features: features,
        tasks: tasks,
        research_modules: s.research_modules.filter(|p: (i64, i64)| p.1 != module_id),
        research_features: s.research_features.filter(
            |p: (i64, i64)| features.dom().contains(p.1),
        ),
        research_tasks: s.research_tasks.filter(|p: (i64, i64)| tasks.dom().contains(p.1)),
        ..s
    }
}

/// The store after physically deleting one project: the whole subtree below
/// it goes with it, along with all of their association rows.
pub open spec fn remove_project(s: StoreModel, project_id: i64) -> StoreModel {
    let modules = s.modules.filter_keys(|mid: i64| s.modules[mid].project_id != project_id);
    let features = s.features.filter_keys(
        |fid: i64| modules.dom().contains(s.features[fid].module_id),
    );
    let tasks = s.tasks.filter_keys(
        |tid: i64| features.dom().contains(s.tasks[tid].feature_id),
    );
    StoreModel {
        projects: s.projects.remove(project_id),
        modules: modules,
        features: features,
        tasks: tasks,
        research_projects: s.research_projects.filter(|p: (i64, i64)| p.1 != project_id),
        research_modules: s.research_modules.filter(|p: (i64, i64)| modules.dom().contains(p.1)),
        research_features: s.research_features.filter(
            |p: (i64, i64)| features.dom().contains(p.1),
        ),
        research_tasks: s.research_tasks.filter(|p: (i64, i64)| tasks.dom().contains(p.1)),
        ..s
    }
}

/// The store after physically deleting one research record: only the record
/// and its association rows disappear; hierarchy rows are never touched.
pub open spec fn remove_research(s: StoreModel, research_id: i64) -> StoreModel {
    StoreModel {
        research: s.research.remove(research_id),
        research_projects: s.research_projects.filter(|p: (i64, i64)| p.0 != research_id),
        research_modules: s.research_modules.filter(|p: (i64, i64)| p.0 != research_id),
        research_features: s.research_features.filter(|p: (i64, i64)| p.0 != research_id),
        research_tasks: s.research_tasks.filter(|p: (i64, i64)| p.0 != research_id),
        ..s
    }
}

// ── Research associations ────────────────────────────────────────────────

/// The store after associating a research record with a project.
pub open spec fn link_project_model(s: StoreModel, research_id: i64, project_id: i64) -> StoreModel {
    StoreModel { research_projects: s.research_projects.insert((research_id, project_id)), ..s }
}

/// The store after associating a research record with a module.
pub open spec fn link_module_model(s: StoreModel, research_id: i64, module_id: i64) -> StoreModel {
    StoreModel { research_modules: s.research_modules.insert((research_id, module_id)), ..s }
}

/// The store after associating a research record with a feature.
pub open spec fn link_feature_model(s: StoreModel, research_id: i64, feature_id: i64) -> StoreModel {
    StoreModel { research_features: s.research_features.insert((research_id, feature_id)), ..s }
}

/// The store after associating a research record with a task.
pub open spec fn link_task_model(s: StoreModel, research_id: i64, task_id: i64) -> StoreModel {
    StoreModel { research_tasks: s.research_tasks.insert((research_id, task_id)), ..s }
}

/// The store after dissolving the association of a research record with a
/// project, present or not.
pub open spec fn unlink_project_model(
    s: StoreModel,
    research_id: i64,
    project_id: i64,
) -> StoreModel {
    StoreModel { research_projects: s.research_projects.remove((research_id, project_id)), ..s }
}

/// The store after dissolving the association of a research record with a
/// module, present or not.
pub open spec fn unlink_module_model(
    s: StoreModel,
    research_id: i64,
    module_id: i64,
) -> StoreModel {
    StoreModel { research_modules: s.research_modules.remove((research_id, module_id)), ..s }
}

/// The store after dissolving the association of a research record with a
/// feature, present or not.
pub open spec fn unlink_feature_model(
    s: StoreModel,
    research_id: i64,
    feature_id: i64,
) -> StoreModel {
    StoreModel { research_features: s.research_features.remove((research_id, feature_id)), ..s }
}

/// The store after dissolving the association of a research record with a
/// task, present or not.
pub open spec fn unlink_task_model(s: StoreModel, research_id: i64, task_id: i64) -> StoreModel {
    StoreModel { research_tasks: s.research_tasks.remove((research_id, task_id)), ..s }
}

} // verus!
