//! What holds of the project store whatever is done with it, proved from
//! the outcomes that its operations promise.

use crate::error::ApiError;
use crate::model::{
    Component, ComponentStatus, ComponentType, ComponentView, Project, ProjectStatus, ProjectView,
};
use crate::names::name_accepted;
use crate::project_model::{
    add_component_outcome, as_map, component_ids_distinct, create_project_outcome,
    delete_project_outcome, get_project_outcome, has_component, has_project, ids_distinct,
    lemma_position, lemma_upsert, lemma_without_project, listing_valid, position,
    remove_component_outcome, update_component_outcome, update_project_outcome,
    without_component,
};
use crate::time::Timestamp;
use vstd::prelude::*;

verus! {

/// Creating a project with an accepted name succeeds. The project returned
/// has the identifier that was drawn, is in the planning state, has no
/// components, and was last modified when it was created; it is what the
/// store then holds under that identifier. Where the identifier is new to
/// the store, the project is listed last and all others stay.
pub proof fn law_created_project(
    before: Seq<ProjectView>,
    after: Seq<ProjectView>,
    id: Seq<char>,
    name: Seq<char>,
    description: Seq<char>,
    now: Timestamp,
    r: Result<Project, ApiError>,
)
    requires
        ids_distinct(before),
        name_accepted(name),
        create_project_outcome(before, after, id, name, description, now, r),
    ensures
        r is Ok,
        r->Ok_0@.id == id,
        r->Ok_0@.status == ProjectStatus::Planning,
        r->Ok_0@.components.len() == 0,
        r->Ok_0@.created_at == r->Ok_0@.updated_at,
        as_map(after).contains_key(id),
        as_map(after)[id] == r->Ok_0@,
        as_map(after) == as_map(before).insert(id, r->Ok_0@),
        !has_project(before, id) ==> after == before.push(r->Ok_0@),
{
    lemma_upsert(before, r->Ok_0@);
}

/// A name that is blank or longer than 255 characters makes creating a
/// project, adding a component, updating a project and updating a component
/// fail, and leaves the store as it was. The error is the invalid-data error
/// of the entity concerned, unless the update names a project or a component
/// that does not exist.
pub proof fn law_refused_name_changes_nothing(
    before: Seq<ProjectView>,
    after: Seq<ProjectView>,
    project_id: Seq<char>,
    component_id: Seq<char>,
    name: Seq<char>,
    description: Seq<char>,
    other_description: Option<Seq<char>>,
    project_status: Option<ProjectStatus>,
    component_type: ComponentType,
    component_status: Option<ComponentStatus>,
    dependencies: Option<Seq<Seq<char>>>,
    now: Timestamp,
    created: Result<Project, ApiError>,
    added: Result<Option<Component>, ApiError>,
    updated: Result<Option<Project>, ApiError>,
    component_updated: Result<Option<Component>, ApiError>,
)
    requires
        !name_accepted(name),
    ensures
        create_project_outcome(before, after, project_id, name, description, now, created)
            ==> created is Err && created->Err_0@ is InvalidProjectData && after == before,
        add_component_outcome(
            before,
            after,
            project_id,
            component_id,
            name,
            component_type,
            description,
            now,
            added,
        ) ==> added is Err && added->Err_0@ is InvalidComponentData && after == before,
        update_project_outcome(
            before,
            after,
            project_id,
            Some(name),
            other_description,
            project_status,
            now,
            updated,
        ) ==> after == before && !(updated matches Ok(Some(p))) && (has_project(
            before,
            project_id,
        ) ==> updated is Err && updated->Err_0@ is InvalidProjectData),
        update_component_outcome(
            before,
            after,
            project_id,
            component_id,
            Some(name),
            other_description,
            component_status,
            dependencies,
            now,
            component_updated,
        ) ==> after == before && component_updated is Err && (has_project(before, project_id)
            && has_component(before[position(before, project_id)].components, component_id)
            ==> component_updated->Err_0@ is InvalidComponentData),
{
}

/// Reading a project twice from the same store gives the same data.
pub proof fn law_reads_are_repeatable(
    listing: Seq<ProjectView>,
    id: Seq<char>,
    first: Option<Project>,
    second: Option<Project>,
)
    requires
        get_project_outcome(listing, id, first),
        get_project_outcome(listing, id, second),
    ensures
        first is Some <==> second is Some,
        first is Some ==> first->0@ == second->0@,
{
}

/// The project `id` is in both listings, was created at the same time in
/// both, and was not modified earlier in `after` than in `before`.
pub open spec fn modified_no_earlier(
    before: Seq<ProjectView>,
    after: Seq<ProjectView>,
    id: Seq<char>,
) -> bool {
    &&& as_map(before).contains_key(id)
    &&& as_map(after).contains_key(id)
    &&& as_map(after)[id].id == id
    &&& as_map(after)[id].created_at == as_map(before)[id].created_at
    &&& as_map(before)[id].updated_at.at_or_before(as_map(after)[id].updated_at)
}

/// No operation on a project moves its modification time backwards: after
/// an update of the project, or after a component of it was added, updated
/// or removed, the time is at or after what it was.
pub proof fn law_modification_time_never_decreases(
    before: Seq<ProjectView>,
    after: Seq<ProjectView>,
    project_id: Seq<char>,
    component_id: Seq<char>,
    name: Option<Seq<char>>,
    description: Option<Seq<char>>,
    project_status: Option<ProjectStatus>,
    new_name: Seq<char>,
    new_description: Seq<char>,
    component_type: ComponentType,
    component_status: Option<ComponentStatus>,
    dependencies: Option<Seq<Seq<char>>>,
    now: Timestamp,
    updated: Result<Option<Project>, ApiError>,
    added: Result<Option<Component>, ApiError>,
    component_updated: Result<Option<Component>, ApiError>,
    removed: Result<bool, ApiError>,
)
    requires
        ids_distinct(before),
        has_project(before, project_id),
    ensures
        update_project_outcome(
            before,
            after,
            project_id,
            name,
            description,
            project_status,
            now,
            updated,
        ) ==> modified_no_earlier(before, after, project_id),
        add_component_outcome(
            before,
            after,
            project_id,
            component_id,
            new_name,
            component_type,
            new_description,
            now,
            added,
        ) ==> modified_no_earlier(before, after, project_id),
        update_component_outcome(
            before,
            after,
            project_id,
            component_id,
            name,
            description,
            component_status,
            dependencies,
            now,
            component_updated,
        ) ==> modified_no_earlier(before, after, project_id),
        remove_component_outcome(before, after, project_id, component_id, now, removed)
            ==> modified_no_earlier(before, after, project_id),
{
    let k = position(before, project_id);
    lemma_position(before, k);
    if after.len() == before.len() && after[k].id == project_id && (forall|i: int|
        0 <= i < after.len() ==> (#[trigger] after[i]).id == before[i].id) {
        assert forall|i: int, j: int| 0 <= i < j < after.len() implies (#[trigger] after[i]).id
            != (#[trigger] after[j]).id by {
            assert(after[i].id == before[i].id);
            assert(after[j].id == before[j].id);
        }
        lemma_position(after, k);
    }
}

/// Once a project was deleted it is gone: reading it gives nothing, and
/// deleting it again reports that there was nothing to delete.
pub proof fn law_deleted_project_is_gone(
    before: Seq<ProjectView>,
    after: Seq<ProjectView>,
    last: Seq<ProjectView>,
    id: Seq<char>,
    read: Option<Project>,
    again: bool,
)
    requires
        ids_distinct(before),
        delete_project_outcome(before, after, id, true),
        get_project_outcome(after, id, read),
        delete_project_outcome(after, last, id, again),
    ensures
        read is None,
        !again,
        last == after,
        !as_map(after).contains_key(id),
{
    lemma_without_project(before, id);
}

/// Every project that a well-formed store holds stands under its own
/// identifier, has an acceptable name, components with acceptable names, and
/// a modification time at or after its creation time.
pub proof fn law_stored_projects_are_valid(listing: Seq<ProjectView>, id: Seq<char>)
    requires
        listing_valid(listing),
        as_map(listing).contains_key(id),
    ensures
        as_map(listing)[id].id == id,
        as_map(listing)[id].valid(),
        as_map(listing)[id].created_at.at_or_before(as_map(listing)[id].updated_at),
        name_accepted(as_map(listing)[id].name),
{
    let k = position(listing, id);
    assert(listing[k].valid());
}

/// The identifiers of a project's components stay distinct: adding a
/// component whose identifier the project does not yet use, updating a
/// component and removing one all keep them so.
pub proof fn law_component_ids_stay_distinct(
    cs: Seq<ComponentView>,
    added: ComponentView,
    i: int,
    patched: ComponentView,
    removed_id: Seq<char>,
)
    requires
        component_ids_distinct(cs),
    ensures
        !has_component(cs, added.id) ==> component_ids_distinct(cs.push(added)),
        0 <= i < cs.len() && patched.id == cs[i].id ==> component_ids_distinct(
            cs.update(i, patched),
        ),
        component_ids_distinct(without_component(cs, removed_id)),
{
    if !has_component(cs, added.id) {
        let t = cs.push(added);
        assert forall|a: int, b: int| 0 <= a < b < t.len() implies (#[trigger] t[a]).id != (
        #[trigger] t[b]).id by {
            assert(t[a] == cs[a]);
            if b < cs.len() {
                assert(t[b] == cs[b]);
            }
        }
    }
    if 0 <= i < cs.len() && patched.id == cs[i].id {
        let t = cs.update(i, patched);
        assert forall|a: int, b: int| 0 <= a < b < t.len() implies (#[trigger] t[a]).id != (
        #[trigger] t[b]).id by {
            assert(t[a].id == cs[a].id);
            assert(t[b].id == cs[b].id);
        }
    }
    lemma_filter_keeps_distinct(cs, removed_id);
}

/// Leaving components out keeps the identifiers of the others distinct.
proof fn lemma_filter_keeps_distinct(cs: Seq<ComponentView>, id: Seq<char>)
    requires
        component_ids_distinct(cs),
    ensures
        component_ids_distinct(without_component(cs, id)),
        forall|j: int|
            0 <= j < without_component(cs, id).len() ==> has_component(
                cs,
                (#[trigger] without_component(cs, id)[j]).id,
            ),
    decreases cs.len(),
{
    reveal(Seq::filter);
    let keep = |c: ComponentView| c.id != id;
    if cs.len() > 0 {
        let rest = cs.drop_last();
        assert forall|a: int, b: int| 0 <= a < b < rest.len() implies (#[trigger] rest[a]).id != (
        #[trigger] rest[b]).id by {
            assert(rest[a] == cs[a]);
            assert(rest[b] == cs[b]);
        }
        lemma_filter_keeps_distinct(rest, id);
        let t = without_component(cs, id);
        let u = without_component(rest, id);
        assert forall|j: int| 0 <= j < t.len() implies has_component(cs, (#[trigger] t[j]).id) by {
            if j < u.len() {
                assert(t[j] == u[j]);
                let m = choose|m: int| 0 <= m < rest.len() && (#[trigger] rest[m]).id == u[j].id;
                assert(cs[m].id == t[j].id);
            } else {
                assert(t[j] == cs.last());
                assert(cs[cs.len() - 1].id == t[j].id);
            }
        }
        assert forall|a: int, b: int| 0 <= a < b < t.len() implies (#[trigger] t[a]).id != (
        #[trigger] t[b]).id by {
            if b < u.len() {
                assert(t[a] == u[a] && t[b] == u[b]);
            } else {
                assert(t[b] == cs.last());
                assert(t[a] == u[a]);
                let m = choose|m: int| 0 <= m < rest.len() && (#[trigger] rest[m]).id == u[a].id;
                assert(cs[m].id != cs[cs.len() - 1].id);
            }
        }
    }
}

} // verus!
