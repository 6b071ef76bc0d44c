//! Laws of the store model that span several operations: the idempotence
//! of linking, the silence of unlinking an absent association, and what a
//! cascading module deletion does and does not take with it.

use vstd::prelude::*;

use crate::model::{
    features_of, link_feature_model, link_module_model, link_project_model, link_task_model,
    remove_module, unlink_feature_model, unlink_module_model, unlink_project_model,
    unlink_task_model, StoreModel,
};

verus! {

/// Linking the same pair twice is idempotent: after the second link the
/// store is exactly what it was after the first, so the association is
/// held exactly once, whichever of the four kinds the target has.
pub proof fn lemma_link_idempotent(s: StoreModel, research_id: i64, target_id: i64)
    ensures
        link_project_model(link_project_model(s, research_id, target_id), research_id, target_id)
            == link_project_model(s, research_id, target_id),
        link_module_model(link_module_model(s, research_id, target_id), research_id, target_id)
            == link_module_model(s, research_id, target_id),
        link_feature_model(link_feature_model(s, research_id, target_id), research_id, target_id)
            == link_feature_model(s, research_id, target_id),
        link_task_model(link_task_model(s, research_id, target_id), research_id, target_id)
            == link_task_model(s, research_id, target_id),
{
    assert(link_project_model(link_project_model(s, research_id, target_id), research_id, target_id)
        =~~= link_project_model(s, research_id, target_id));
    assert(link_module_model(link_module_model(s, research_id, target_id), research_id, target_id)
        =~~= link_module_model(s, research_id, target_id));
    assert(link_feature_model(link_feature_model(s, research_id, target_id), research_id, target_id)
        =~~= link_feature_model(s, research_id, target_id));
    assert(link_task_model(link_task_model(s, research_id, target_id), research_id, target_id)
        =~~= link_task_model(s, research_id, target_id));
}

/// Unlinking an association that is not there changes nothing at all:
/// the store after the unlink is the store it was handed, row for row,
/// whichever of the four kinds the target has.
pub proof fn lemma_unlink_absent_noop(s: StoreModel, research_id: i64, target_id: i64)
    ensures
        !s.research_projects.contains((research_id, target_id)) ==> unlink_project_model(
            s,
            research_id,
            target_id,
        ) == s,
        !s.research_modules.contains((research_id, target_id)) ==> unlink_module_model(
            s,
            research_id,
            target_id,
        ) == s,
        !s.research_features.contains((research_id, target_id)) ==> unlink_feature_model(
            s,
            research_id,
            target_id,
        ) == s,
        !s.research_tasks.contains((research_id, target_id)) ==> unlink_task_model(
            s,
            research_id,
            target_id,
        ) == s,
{
    if !s.research_projects.contains((research_id, target_id)) {
        assert(unlink_project_model(s, research_id, target_id) =~~= s);
    }
    if !s.research_modules.contains((research_id, target_id)) {
        assert(unlink_module_model(s, research_id, target_id) =~~= s);
    }
    if !s.research_features.contains((research_id, target_id)) {
        assert(unlink_feature_model(s, research_id, target_id) =~~= s);
    }
    if !s.research_tasks.contains((research_id, target_id)) {
        assert(unlink_task_model(s, research_id, target_id) =~~= s);
    }
}

/// What a cascading module deletion takes with it, and what it spares:
/// the module, every feature directly under it, every task under such a
/// feature and every association row of a removed row are gone, while the
/// research records themselves and the project table are untouched.
pub proof fn lemma_remove_module_cascade(s: StoreModel, module_id: i64)
    ensures
        remove_module(s, module_id).research == s.research,
        remove_module(s, module_id).projects == s.projects,
        remove_module(s, module_id).research_projects == s.research_projects,
        !remove_module(s, module_id).modules.dom().contains(module_id),
        forall|fid: i64|
            #[trigger] features_of(s, module_id).contains(fid) ==> !remove_module(
                s,
                module_id,
            ).features.dom().contains(fid),
        forall|tid: i64|
            #[trigger] s.tasks.dom().contains(tid) && features_of(s, module_id).contains(
                s.tasks[tid].feature_id,
            ) ==> !remove_module(s, module_id).tasks.dom().contains(tid),
        forall|p: (i64, i64)|
            #[trigger] remove_module(s, module_id).research_modules.contains(p) ==> p.1
                != module_id,
        forall|p: (i64, i64)|
            #[trigger] remove_module(s, module_id).research_features.contains(p) ==> remove_module(
                s,
                module_id,
            ).features.dom().contains(p.1),
        forall|p: (i64, i64)|
            #[trigger] remove_module(s, module_id).research_tasks.contains(p) ==> remove_module(
                s,
                module_id,
            ).tasks.dom().contains(p.1),
{
}

} // verus!
