//! The mathematical model of the project store: a listing of project views
//! with distinct identifiers, read as a map from identifier to project, and
//! what each operation makes of it.

use crate::error::{ApiError, ErrorReport};
use crate::model::{
    Component, ComponentStatus, ComponentType, ComponentView, Project, ProjectStatus, ProjectView,
};
use crate::names::{name_accepted, name_rejection};
use crate::text::{
    lemma_trimmed, lemma_trimmed_empty_iff_blank, lemma_trimmed_idempotent, trimmed,
};
use crate::time::Timestamp;
use vstd::prelude::*;

verus! {

impl ComponentView {
    /// The component that `add_component` makes.
    pub open spec fn created(
        id: Seq<char>,
        name: Seq<char>,
        component_type: ComponentType,
        description: Seq<char>,
    ) -> ComponentView {
        ComponentView {
            id,
            name: trimmed(name),
            component_type,
            description: trimmed(description),
            dependencies: Seq::empty(),
            status: ComponentStatus::NotStarted,
            metadata: Map::empty(),
        }
    }

    /// The component with the given fields replaced; an absent field stays.
    pub open spec fn patched(
        self,
        name: Option<Seq<char>>,
        description: Option<Seq<char>>,
        status: Option<ComponentStatus>,
        dependencies: Option<Seq<Seq<char>>>,
    ) -> ComponentView {
        ComponentView {
            name: match name {
                Some(n) => trimmed(n),
                None => self.name,
            },
            description: match description {
                Some(d) => trimmed(d),
                None => self.description,
            },
            status: match status {
                Some(s) => s,
                None => self.status,
            },
            dependencies: match dependencies {
                Some(d) => d,
                None => self.dependencies,
            },
            ..self
        }
    }
}

/// Some component of `cs` has the identifier `id`.
pub open spec fn has_component(cs: Seq<ComponentView>, id: Seq<char>) -> bool {
    exists|i: int| 0 <= i < cs.len() && (#[trigger] cs[i]).id == id
}

/// `i` is the position of the first component of `cs` with the identifier
/// `id`.
pub open spec fn is_first_component(cs: Seq<ComponentView>, id: Seq<char>, i: int) -> bool {
    &&& 0 <= i < cs.len()
    &&& cs[i].id == id
    &&& forall|j: int| 0 <= j < i ==> (#[trigger] cs[j]).id != id
}

/// The position of the first component of `cs` with the identifier `id`.
pub open spec fn first_component(cs: Seq<ComponentView>, id: Seq<char>) -> int {
    choose|i: int| is_first_component(cs, id, i)
}

/// No two components of `cs` share an identifier.
pub open spec fn component_ids_distinct(cs: Seq<ComponentView>) -> bool {
    forall|i: int, j: int|
        0 <= i < j < cs.len() ==> (#[trigger] cs[i]).id != (#[trigger] cs[j]).id
}

/// `cs` without the components whose identifier is `id`.
pub open spec fn without_component(cs: Seq<ComponentView>, id: Seq<char>) -> Seq<ComponentView> {
    cs.filter(|c: ComponentView| c.id != id)
}

impl ProjectView {
    /// The project that `create_project` makes.
    pub open spec fn created(
        id: Seq<char>,
        name: Seq<char>,
        description: Seq<char>,
        now: Timestamp,
    ) -> ProjectView {
        ProjectView {
            id,
            name: trimmed(name),
            description: trimmed(description),
            created_at: now,
            updated_at: now,
            status: ProjectStatus::Planning,
            components: Seq::empty(),
        }
    }

    /// The project with its modification time refreshed at `now`. The time
    /// never moves backwards.
    pub open spec fn touched(self, now: Timestamp) -> ProjectView {
        ProjectView { updated_at: self.updated_at.later_of(now), ..self }
    }

    /// The project with the given fields replaced and its modification time
    /// refreshed; an absent field stays.
    pub open spec fn patched(
        self,
        name: Option<Seq<char>>,
        description: Option<Seq<char>>,
        status: Option<ProjectStatus>,
        now: Timestamp,
    ) -> ProjectView {
        ProjectView {
            name: match name {
                Some(n) => trimmed(n),
                None => self.name,
            },
            description: match description {
                Some(d) => trimmed(d),
                None => self.description,
            },
            status: match status {
                Some(s) => s,
                None => self.status,
            },
            ..self
        }.touched(now)
    }

    /// The project with `components` in place of its own, refreshed at `now`.
    pub open spec fn with_components(
        self,
        components: Seq<ComponentView>,
        now: Timestamp,
    ) -> ProjectView {
        ProjectView { components, ..self }.touched(now)
    }

    /// What the store keeps true of every project: its name and those of its
    /// components are acceptable names, and it was not modified before it was
    /// created.
    pub open spec fn valid(self) -> bool {
        &&& name_accepted(self.name)
        &&& self.created_at.at_or_before(self.updated_at)
        &&& forall|i: int|
            0 <= i < self.components.len() ==> name_accepted((#[trigger] self.components[i]).name)
    }
}

/// Some project of `s` has the identifier `id`.
pub open spec fn has_project(s: Seq<ProjectView>, id: Seq<char>) -> bool {
    exists|i: int| 0 <= i < s.len() && (#[trigger] s[i]).id == id
}

/// The position in `s` of a project with the identifier `id`.
pub open spec fn position(s: Seq<ProjectView>, id: Seq<char>) -> int {
    choose|i: int| 0 <= i < s.len() && (#[trigger] s[i]).id == id
}

/// No two projects of `s` share an identifier.
pub open spec fn ids_distinct(s: Seq<ProjectView>) -> bool {
    forall|i: int, j: int| 0 <= i < j < s.len() ==> (#[trigger] s[i]).id != (#[trigger] s[j]).id
}

/// What holds of every listing that a store keeps.
pub open spec fn listing_valid(s: Seq<ProjectView>) -> bool {
    &&& ids_distinct(s)
    &&& forall|i: int| 0 <= i < s.len() ==> (#[trigger] s[i]).valid()
}

/// The listing read as a map from identifier to project.
pub open spec fn as_map(s: Seq<ProjectView>) -> Map<Seq<char>, ProjectView> {
    Map::new(|id: Seq<char>| has_project(s, id), |id: Seq<char>| s[position(s, id)])
}

/// `s` with `p` in the place of the project that shares its identifier, or
/// at the end where there is none.
pub open spec fn upsert(s: Seq<ProjectView>, p: ProjectView) -> Seq<ProjectView> {
    if has_project(s, p.id) {
        s.update(position(s, p.id), p)
    } else {
        s.push(p)
    }
}

/// `s` without the project whose identifier is `id`.
pub open spec fn without_project(s: Seq<ProjectView>, id: Seq<char>) -> Seq<ProjectView> {
    if has_project(s, id) {
        s.remove(position(s, id))
    } else {
        s
    }
}

/// In a listing with distinct identifiers, a project's position is the only
/// one with its identifier.
pub proof fn lemma_position(s: Seq<ProjectView>, i: int)
    requires
        ids_distinct(s),
        0 <= i < s.len(),
    ensures
        has_project(s, s[i].id),
        position(s, s[i].id) == i,
        as_map(s).contains_key(s[i].id),
        as_map(s)[s[i].id] == s[i],
{
    let k = position(s, s[i].id);
    assert(0 <= k < s.len() && s[k].id == s[i].id);
    if k < i {
        assert(s[k].id != s[i].id);
    } else if i < k {
        assert(s[i].id != s[k].id);
    }
}

/// Putting a project into a listing inserts it into the map, and keeps the
/// identifiers distinct.
pub proof fn lemma_upsert(s: Seq<ProjectView>, p: ProjectView)
    requires
        ids_distinct(s),
    ensures
        ids_distinct(upsert(s, p)),
        as_map(upsert(s, p)) == as_map(s).insert(p.id, p),
        has_project(s, p.id) ==> upsert(s, p).len() == s.len(),
        !has_project(s, p.id) ==> upsert(s, p).len() == s.len() + 1,
{
    let t = upsert(s, p);
    if has_project(s, p.id) {
        let k = position(s, p.id);
        assert forall|i: int, j: int| 0 <= i < j < t.len() implies (#[trigger] t[i]).id != (
        #[trigger] t[j]).id by {
            assert(t[i].id == s[i].id);
            assert(t[j].id == s[j].id);
        }
        assert forall|id: Seq<char>| has_project(t, id) == has_project(s, id) by {
            if has_project(s, id) {
                let i = position(s, id);
                assert(t[i].id == id);
            }
            if has_project(t, id) {
                let i = position(t, id);
                assert(s[i].id == id);
            }
        }
        assert forall|id: Seq<char>| has_project(t, id) implies #[trigger] as_map(t)[id]
            == as_map(s).insert(p.id, p)[id] by {
            let i = position(t, id);
            lemma_position(t, i);
            if id != p.id {
                assert(i != k);
                assert(t[i] == s[i]);
                lemma_position(s, i);
            } else {
                lemma_position(s, k);
                assert(t[k].id == id);
                lemma_position(t, k);
            }
        }
    } else {
        assert forall|i: int, j: int| 0 <= i < j < t.len() implies (#[trigger] t[i]).id != (
        #[trigger] t[j]).id by {
            if j == s.len() {
                assert(t[i] == s[i]);
            } else {
                assert(t[i] == s[i]);
                assert(t[j] == s[j]);
            }
        }
        assert forall|id: Seq<char>| has_project(t, id) == (has_project(s, id) || id == p.id) by {
            if has_project(s, id) {
                let i = position(s, id);
                assert(t[i].id == id);
            }
            if id == p.id {
                assert(t[s.len() as int].id == id);
            }
            if has_project(t, id) {
                let i = position(t, id);
                if i < s.len() {
                    assert(s[i].id == id);
                }
            }
        }
        assert forall|id: Seq<char>| has_project(t, id) implies #[trigger] as_map(t)[id]
            == as_map(s).insert(p.id, p)[id] by {
            let i = position(t, id);
            lemma_position(t, i);
            if i < s.len() {
                assert(t[i] == s[i]);
                lemma_position(s, i);
            }
        }
    }
    assert(as_map(t) =~= as_map(s).insert(p.id, p));
}

/// Taking a project out of a listing removes it from the map, and keeps the
/// identifiers distinct.
pub proof fn lemma_without_project(s: Seq<ProjectView>, id: Seq<char>)
    requires
        ids_distinct(s),
    ensures
        ids_distinct(without_project(s, id)),
        as_map(without_project(s, id)) == as_map(s).remove(id),
        !has_project(without_project(s, id), id),
        has_project(s, id) ==> without_project(s, id).len() == s.len() - 1,
{
    let t = without_project(s, id);
    if has_project(s, id) {
        let k = position(s, id);
        assert forall|i: int| 0 <= i < t.len() implies #[trigger] t[i] == s[if i < k {
            i
        } else {
            i + 1
        }] by {}
        assert forall|i: int, j: int| 0 <= i < j < t.len() implies (#[trigger] t[i]).id != (
        #[trigger] t[j]).id by {
            let a = if i < k {
                i
            } else {
                i + 1
            };
            let b = if j < k {
                j
            } else {
                j + 1
            };
            assert(t[i] == s[a]);
            assert(t[j] == s[b]);
            assert(s[a].id != s[b].id);
        }
        assert forall|x: Seq<char>| has_project(t, x) == (has_project(s, x) && x != id) by {
            if has_project(t, x) {
                let i = position(t, x);
                let a = if i < k {
                    i
                } else {
                    i + 1
                };
                assert(t[i] == s[a]);
                assert(s[a].id == x);
                lemma_position(s, a);
                lemma_position(s, k);
            }
            if has_project(s, x) && x != id {
                let a = position(s, x);
                assert(a != k);
                let i = if a < k {
                    a
                } else {
                    a - 1
                };
                assert(t[i] == s[a]);
            }
        }
        assert forall|x: Seq<char>| has_project(t, x) implies #[trigger] as_map(t)[x] == as_map(
            s,
        ).remove(id)[x] by {
            let i = position(t, x);
            lemma_position(t, i);
            let a = if i < k {
                i
            } else {
                i + 1
            };
            assert(t[i] == s[a]);
            lemma_position(s, a);
        }
    }
    assert(as_map(t) =~= as_map(s).remove(id));
}

/// A name that is accepted stays accepted once trimmed.
pub proof fn lemma_trimmed_name_accepted(name: Seq<char>)
    requires
        name_accepted(name),
    ensures
        name_accepted(trimmed(name)),
{
    lemma_trimmed(name);
    lemma_trimmed_empty_iff_blank(name);
    lemma_trimmed_idempotent(name);
    lemma_trimmed_empty_iff_blank(trimmed(name));
}

/// `e` reports that `name` is refused as a project's name.
pub open spec fn is_invalid_project(e: ApiError, name: Seq<char>) -> bool {
    &&& e@ is InvalidProjectData
    &&& name_rejection("Project"@, name) == Some(e@->InvalidProjectData_details)
    &&& e.cause() is None
}

/// `e` reports that `name` is refused as a component's name.
pub open spec fn is_invalid_component(e: ApiError, name: Seq<char>) -> bool {
    &&& e@ is InvalidComponentData
    &&& name_rejection("Component"@, name) == Some(e@->InvalidComponentData_details)
    &&& e.cause() is None
}

/// `e` reports that no project has the identifier `project_id`.
pub open spec fn is_project_not_found(e: ApiError, project_id: Seq<char>) -> bool {
    e@ == (ErrorReport::ProjectNotFound { project_id }) && e.cause() is None
}

/// `e` reports that the project `project_id` has no component
/// `component_id`.
pub open spec fn is_component_not_found(
    e: ApiError,
    component_id: Seq<char>,
    project_id: Seq<char>,
) -> bool {
    e@ == (ErrorReport::ComponentNotFound { component_id, project_id }) && e.cause() is None
}

/// What creating a project does: a refused name is reported and nothing
/// changes; otherwise the new project is listed under `id` and returned.
pub open spec fn create_project_outcome(
    before: Seq<ProjectView>,
    after: Seq<ProjectView>,
    id: Seq<char>,
    name: Seq<char>,
    description: Seq<char>,
    now: Timestamp,
    r: Result<Project, ApiError>,
) -> bool {
    if !name_accepted(name) {
        r matches Err(e) && is_invalid_project(e, name) && after == before
    } else {
        r matches Ok(p) && p@ == ProjectView::created(id, name, description, now) && after
            == upsert(before, p@)
    }
}

/// What reading a project returns: the listed project with that identifier,
/// or nothing.
pub open spec fn get_project_outcome(s: Seq<ProjectView>, id: Seq<char>, r: Option<Project>) -> bool {
    if has_project(s, id) {
        r matches Some(p) && p@ == s[position(s, id)]
    } else {
        r is None
    }
}

/// What updating a project does: an unknown project is an absent result, a
/// refused name is reported, and in both cases nothing changes; otherwise
/// the patched project takes the place of the old one and is returned.
pub open spec fn update_project_outcome(
    before: Seq<ProjectView>,
    after: Seq<ProjectView>,
    id: Seq<char>,
    name: Option<Seq<char>>,
    description: Option<Seq<char>>,
    status: Option<ProjectStatus>,
    now: Timestamp,
    r: Result<Option<Project>, ApiError>,
) -> bool {
    if !has_project(before, id) {
        r matches Ok(None) && after == before
    } else if name is Some && !name_accepted(name->0) {
        r matches Err(e) && is_invalid_project(e, name->0) && after == before
    } else {
        r matches Ok(Some(p)) && p@ == before[position(before, id)].patched(
            name,
            description,
            status,
            now,
        ) && after == before.update(position(before, id), p@)
    }
}

/// What deleting a project does: the project leaves the listing, and the
/// result says whether there was one.
pub open spec fn delete_project_outcome(
    before: Seq<ProjectView>,
    after: Seq<ProjectView>,
    id: Seq<char>,
    r: bool,
) -> bool {
    r == has_project(before, id) && after == without_project(before, id)
}

/// What adding a component does: a refused name is reported, an unknown
/// project is an absent result, and in both cases nothing changes; otherwise
/// the new component is appended to the project and returned, and the
/// project is refreshed.
pub open spec fn add_component_outcome(
    before: Seq<ProjectView>,
    after: Seq<ProjectView>,
    project_id: Seq<char>,
    component_id: Seq<char>,
    name: Seq<char>,
    component_type: ComponentType,
    description: Seq<char>,
    now: Timestamp,
    r: Result<Option<Component>, ApiError>,
) -> bool {
    if !name_accepted(name) {
        r matches Err(e) && is_invalid_component(e, name) && after == before
    } else if !has_project(before, project_id) {
        r matches Ok(None) && after == before
    } else {
        let k = position(before, project_id);
        r matches Ok(Some(c)) && c@ == ComponentView::created(
            component_id,
            name,
            component_type,
            description,
        ) && after == before.update(
            k,
            before[k].with_components(before[k].components.push(c@), now),
        )
    }
}

/// What updating a component does: an unknown project, an unknown component
/// and a refused name are reported, in that order, and nothing changes;
/// otherwise the patched component takes the place of the first one with
/// that identifier and is returned, and the project is refreshed.
pub open spec fn update_component_outcome(
    before: Seq<ProjectView>,
    after: Seq<ProjectView>,
    project_id: Seq<char>,
    component_id: Seq<char>,
    name: Option<Seq<char>>,
    description: Option<Seq<char>>,
    status: Option<ComponentStatus>,
    dependencies: Option<Seq<Seq<char>>>,
    now: Timestamp,
    r: Result<Option<Component>, ApiError>,
) -> bool {
    if !has_project(before, project_id) {
        r matches Err(e) && is_project_not_found(e, project_id) && after == before
    } else {
        let k = position(before, project_id);
        let cs = before[k].components;
        if !has_component(cs, component_id) {
            r matches Err(e) && is_component_not_found(e, component_id, project_id) && after
                == before
        } else if name is Some && !name_accepted(name->0) {
            r matches Err(e) && is_invalid_component(e, name->0) && after == before
        } else {
            let i = first_component(cs, component_id);
            r matches Ok(Some(c)) && c@ == cs[i].patched(name, description, status, dependencies)
                && after == before.update(k, before[k].with_components(cs.update(i, c@), now))
        }
    }
}

/// What removing a component does: an unknown project is reported and
/// nothing changes; otherwise every component with that identifier leaves
/// the project, the project is refreshed, and the result says whether there
/// was one.
pub open spec fn remove_component_outcome(
    before: Seq<ProjectView>,
    after: Seq<ProjectView>,
    project_id: Seq<char>,
    component_id: Seq<char>,
    now: Timestamp,
    r: Result<bool, ApiError>,
) -> bool {
    if !has_project(before, project_id) {
        r matches Err(e) && is_project_not_found(e, project_id) && after == before
    } else {
        let k = position(before, project_id);
        let cs = before[k].components;
        r matches Ok(removed) && removed == has_component(cs, component_id) && after
            == before.update(
            k,
            before[k].with_components(without_component(cs, component_id), now),
        )
    }
}

} // verus!
