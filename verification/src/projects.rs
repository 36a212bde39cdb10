//! The project store: every project of the application, by identifier.
//!
//! The store owns its projects and hands out copies. Each operation comes in
//! two forms: one that takes the identifier to assign and the current time as
//! arguments, and one that draws them itself.

use crate::error::ApiError;
use crate::ident::fresh_id;
use crate::model::{
    clone_components, clone_strings, component_views, opt_text, opt_texts, project_views,
    Component, ComponentStatus, ComponentType, ComponentView, Project, ProjectStatus, ProjectView,
};
use crate::names::{name_accepted, reject_name};
use crate::project_model::{
    add_component_outcome, as_map, create_project_outcome, delete_project_outcome,
    first_component, get_project_outcome, has_component, has_project, is_first_component,
    lemma_position, lemma_trimmed_name_accepted, lemma_upsert, lemma_without_project,
    listing_valid, position, remove_component_outcome, update_component_outcome,
    update_project_outcome, upsert, without_component,
};
use crate::text::trim;
use crate::time::Timestamp;
use vstd::prelude::*;
use vstd::string::*;

verus! {

/// The projects of the application, each under its identifier.
pub struct ProjectStore {
    projects: Vec<Project>,
}

impl View for ProjectStore {
    type V = Map<Seq<char>, ProjectView>;

    /// The stored projects by identifier.
    open spec fn view(&self) -> Map<Seq<char>, ProjectView> {
        as_map(self.listing())
    }
}

/// The position of the first component of `cs` with the identifier `id`.
fn find_component(cs: &Vec<Component>, id: &String) -> (r: Option<usize>)
    ensures
        match r {
            Some(i) => is_first_component(component_views(cs@), id@, i as int),
            None => !has_component(component_views(cs@), id@),
        },
{
    let mut i: usize = 0;
    while i < cs.len()
        invariant
            i <= cs.len(),
            forall|j: int| 0 <= j < i ==> (#[trigger] component_views(cs@)[j]).id != id@,
        decreases cs.len() - i,
    {
        if cs[i].id == *id {
            return Some(i);
        }
        i += 1;
    }
    None
}

/// The components of `cs` whose identifier is not `id`, and whether any was
/// left out.
fn components_without(cs: &Vec<Component>, id: &String) -> (r: (Vec<Component>, bool))
    ensures
        component_views(r.0@) == without_component(component_views(cs@), id@),
        r.1 == has_component(component_views(cs@), id@),
{
    let ghost views = component_views(cs@);
    let ghost keep = |c: ComponentView| c.id != id@;
    let mut kept: Vec<Component> = Vec::new();
    let mut found = false;
    let mut i: usize = 0;
    proof {
        reveal(Seq::filter);
        assert(views.take(0).filter(keep) =~= Seq::<ComponentView>::empty());
    }
    while i < cs.len()
        invariant
            i <= cs.len(),
            views == component_views(cs@),
            keep == (|c: ComponentView| c.id != id@),
            component_views(kept@) == views.take(i as int).filter(keep),
            found == has_component(views.take(i as int), id@),
        decreases cs.len() - i,
    {
        let ghost before = views.take(i as int);
        let ghost next = views.take(i + 1);
        proof {
            reveal(Seq::filter);
            assert(next.drop_last() =~= before);
            assert(next.last() == views[i as int]);
            assert(views[i as int] == cs@[i as int]@);
            if has_component(before, id@) {
                let j = choose|j: int| 0 <= j < before.len() && (#[trigger] before[j]).id == id@;
                assert(next[j].id == id@);
            }
            if has_component(next, id@) && views[i as int].id != id@ {
                let j = choose|j: int| 0 <= j < next.len() && (#[trigger] next[j]).id == id@;
                assert(before[j].id == id@);
            }
        }
        if cs[i].id == *id {
            found = true;
            proof {
                assert(next[i as int].id == id@);
            }
        } else {
            let ghost old_kept = component_views(kept@);
            kept.push(cs[i].clone());
            proof {
                assert(component_views(kept@) =~= old_kept.push(views[i as int]));
            }
        }
        i += 1;
    }
    proof {
        assert(views.take(cs.len() as int) =~= views);
    }
    (kept, found)
}

impl ProjectStore {
    /// The stored projects, in the order in which they were first created.
    pub closed spec fn listing(&self) -> Seq<ProjectView> {
        project_views(self.projects@)
    }

    /// No two projects share an identifier, and every project is valid. The
    /// store keeps this true of itself at all times.
    pub open spec fn wf(&self) -> bool {
        listing_valid(self.listing())
    }

    #[verifier::type_invariant]
    spec fn well_formed(self) -> bool {
        listing_valid(project_views(self.projects@))
    }

    /// An empty store.
    pub fn new() -> (s: Self)
        ensures
            s.wf(),
            s.listing() == Seq::<ProjectView>::empty(),
            s@ == Map::<Seq<char>, ProjectView>::empty(),
    {
        let s = ProjectStore { projects: Vec::new() };
        proof {
            assert(s.listing() =~= Seq::<ProjectView>::empty());
            assert(s@ =~= Map::<Seq<char>, ProjectView>::empty());
        }
        s
    }

    /// The position of the project with the identifier `id`.
    fn find(&self, id: &str) -> (r: Option<usize>)
        ensures
            match r {
                Some(i) => i < self.projects.len() && has_project(self.listing(), id@) && position(
                    self.listing(),
                    id@,
                ) == i && self.projects@[i as int].id@ == id@,
                None => !has_project(self.listing(), id@),
            },
    {
        proof {
            use_type_invariant(self);
        }
        let key = String::from_str(id);
        let mut i: usize = 0;
        while i < self.projects.len()
            invariant
                self.wf(),
                i <= self.projects.len(),
                key@ == id@,
                forall|j: int| 0 <= j < i ==> (#[trigger] self.listing()[j]).id != id@,
            decreases self.projects.len() - i,
        {
            if self.projects[i].id == key {
                proof {
                    assert(self.listing()[i as int].id == id@);
                    lemma_position(self.listing(), i as int);
                }
                return Some(i);
            }
            i += 1;
        }
        None
    }

    /// Replaces the project at position `i` by `project`, which has the same
    /// identifier.
    fn replace(&mut self, i: usize, project: Project)
        requires
            i < old(self).listing().len(),
            old(self).listing()[i as int].id == project@.id,
            project@.valid(),
        ensures
            final(self).wf(),
            final(self).listing() == old(self).listing().update(i as int, project@),
    {
        proof {
            use_type_invariant(&*self);
        }
        let ghost before = self.listing();
        let mut projects: Vec<Project> = Vec::new();
        std::mem::swap(&mut projects, &mut self.projects);
        projects.set(i, project);
        proof {
            let after = project_views(projects@);
            assert(after =~= before.update(i as int, project@));
            lemma_position(before, i as int);
            lemma_upsert(before, project@);
            assert forall|j: int| 0 <= j < after.len() implies (#[trigger] after[j]).valid() by {
                if j != i {
                    assert(after[j] == before[j]);
                }
            }
        }
        self.projects = projects;
    }

    /// Stores `project` under its identifier, in place of the project that
    /// has it, or last where none has.
    pub(crate) fn put(&mut self, project: Project)
        requires
            project@.valid(),
        ensures
            final(self).wf(),
            final(self).listing() == upsert(old(self).listing(), project@),
            final(self)@ == old(self)@.insert(project@.id, project@),
    {
        proof {
            use_type_invariant(&*self);
        }
        let ghost before = self.listing();
        let ghost view = project@;
        proof {
            lemma_upsert(before, view);
        }
        match self.find(project.id.as_str()) {
            Some(i) => {
                self.replace(i, project);
            },
            None => {
                let mut projects: Vec<Project> = Vec::new();
                std::mem::swap(&mut projects, &mut self.projects);
                projects.push(project);
                proof {
                    let after = project_views(projects@);
                    assert(after =~= before.push(view));
                    assert forall|j: int| 0 <= j < after.len() implies (
                    #[trigger] after[j]).valid() by {
                        if j < before.len() {
                            assert(after[j] == before[j]);
                        }
                    }
                }
                self.projects = projects;
            },
        }
    }

    /// Creates a project with the identifier `id` at the time `now`.
    ///
    /// A name that is blank or longer than 255 characters is refused and the
    /// store stays as it is. Otherwise the project is stored with its name
    /// and description trimmed, in the planning state and without
    /// components, and a copy is returned. A project that already has the
    /// identifier `id` is replaced.
    pub fn create_project_with(
        &mut self,
        id: String,
        name: &str,
        description: &str,
        now: Timestamp,
    ) -> (r: Result<Project, ApiError>)
        ensures
            final(self).wf(),
            create_project_outcome(
                old(self).listing(),
                final(self).listing(),
                id@,
                name@,
                description@,
                now,
                r,
            ),
            r matches Ok(p) ==> final(self)@ == old(self)@.insert(id@, p@),
            r is Err ==> final(self)@ == old(self)@,
    {
        proof {
            use_type_invariant(&*self);
        }
        if let Some(details) = reject_name("Project", name) {
            return Err(ApiError::InvalidProjectData { details, source: None });
        }
        let project = Project {
            id,
            name: trim(name),
            description: trim(description),
            created_at: now,
            updated_at: now,
            status: ProjectStatus::Planning,
            components: Vec::new(),
        };
        let copy = project.clone();
        proof {
            assert(project@.components =~= Seq::<ComponentView>::empty());
            lemma_trimmed_name_accepted(name@);
        }
        self.put(project);
        Ok(copy)
    }

    /// Creates a project under a new random identifier, at the current time.
    ///
    /// See [`ProjectStore::create_project_with`], which this calls with what
    /// the generator and the clock returned.
    pub fn create_project(&mut self, name: String, description: String) -> (r: Result<
        Project,
        ApiError,
    >)
        ensures
            final(self).wf(),
            exists|id: Seq<char>, now: Timestamp| #[trigger]
                create_project_outcome(
                    old(self).listing(),
                    final(self).listing(),
                    id,
                    name@,
                    description@,
                    now,
                    r,
                ),
            r matches Ok(p) ==> p@.id.len() == 36 && final(self)@ == old(self)@.insert(
                p@.id,
                p@,
            ),
            r is Err ==> final(self)@ == old(self)@,
    {
        proof {
            use_type_invariant(&*self);
        }
        let id = fresh_id();
        let now = Timestamp::now();
        self.create_project_with(id, name.as_str(), description.as_str(), now)
    }

    /// Copies of all projects, in the order of the listing.
    pub fn get_projects(&self) -> (r: Vec<Project>)
        ensures
            project_views(r@) == self.listing(),
            self.wf(),
    {
        proof {
            use_type_invariant(self);
        }
        let mut r: Vec<Project> = Vec::new();
        let mut i: usize = 0;
        while i < self.projects.len()
            invariant
                i <= self.projects.len(),
                r.len() == i,
                forall|j: int| 0 <= j < i ==> r@[j]@ == self.projects@[j]@,
            decreases self.projects.len() - i,
        {
            r.push(self.projects[i].clone());
            i += 1;
        }
        proof {
            assert(project_views(r@) =~= self.listing());
        }
        r
    }

    /// A copy of the project with the identifier `project_id`, if there is
    /// one.
    pub fn get_project(&self, project_id: &str) -> (r: Option<Project>)
        ensures
            self.wf(),
            get_project_outcome(self.listing(), project_id@, r),
            match r {
                Some(p) => self@.contains_key(project_id@) && p@ == self@[project_id@],
                None => !self@.contains_key(project_id@),
            },
    {
        proof {
            use_type_invariant(&*self);
        }
        match self.find(project_id) {
            Some(i) => {
                proof {
                    lemma_position(self.listing(), i as int);
                }
                Some(self.projects[i].clone())
            },
            None => None,
        }
    }

    /// Applies the given fields to the project `project_id` at the time
    /// `now`.
    ///
    /// An unknown project gives `Ok(None)`. A name that is given and refused
    /// is reported, before anything is changed. Otherwise the given fields
    /// replace the old ones, name and description trimmed, the modification
    /// time is refreshed, and a copy of the project is returned.
    pub fn update_project_with(
        &mut self,
        project_id: &str,
        name: Option<String>,
        description: Option<String>,
        status: Option<ProjectStatus>,
        now: Timestamp,
    ) -> (r: Result<Option<Project>, ApiError>)
        ensures
            final(self).wf(),
            update_project_outcome(
                old(self).listing(),
                final(self).listing(),
                project_id@,
                opt_text(name),
                opt_text(description),
                status,
                now,
                r,
            ),
            r matches Ok(Some(p)) ==> final(self)@ == old(self)@.insert(project_id@, p@),
            !(r matches Ok(Some(p))) ==> final(self)@ == old(self)@,
    {
        proof {
            use_type_invariant(&*self);
        }
        let i = match self.find(project_id) {
            Some(i) => i,
            None => {
                return Ok(None);
            },
        };
        let ghost before = self.listing();
        let new_name = match &name {
            Some(n) => {
                if let Some(details) = reject_name("Project", n.as_str()) {
                    return Err(ApiError::InvalidProjectData { details, source: None });
                }
                proof {
                    lemma_trimmed_name_accepted(n@);
                }
                trim(n.as_str())
            },
            None => self.projects[i].name.clone(),
        };
        let new_description = match &description {
            Some(d) => trim(d.as_str()),
            None => self.projects[i].description.clone(),
        };
        let new_status = match status {
            Some(s) => s,
            None => self.projects[i].status,
        };
        let updated = Project {
            id: self.projects[i].id.clone(),
            name: new_name,
            description: new_description,
            created_at: self.projects[i].created_at,
            updated_at: self.projects[i].updated_at.later(now),
            status: new_status,
            components: clone_components(&self.projects[i].components),
        };
        let copy = updated.clone();
        proof {
            assert(before[i as int] == self.projects@[i as int]@);
            assert(before[i as int].valid());
            assert(updated@ == before[i as int].patched(
                opt_text(name),
                opt_text(description),
                status,
                now,
            ));
            lemma_upsert(before, updated@);
        }
        self.replace(i, updated);
        Ok(Some(copy))
    }

    /// Applies the given fields to the project `project_id` at the current
    /// time.
    ///
    /// See [`ProjectStore::update_project_with`], which this calls with what
    /// the clock returned.
    pub fn update_project(
        &mut self,
        project_id: String,
        name: Option<String>,
        description: Option<String>,
        status: Option<ProjectStatus>,
    ) -> (r: Result<Option<Project>, ApiError>)
        ensures
            final(self).wf(),
            exists|now: Timestamp| #[trigger]
                update_project_outcome(
                    old(self).listing(),
                    final(self).listing(),
                    project_id@,
                    opt_text(name),
                    opt_text(description),
                    status,
                    now,
                    r,
                ),
            r matches Ok(Some(p)) ==> final(self)@ == old(self)@.insert(project_id@, p@),
            !(r matches Ok(Some(p))) ==> final(self)@ == old(self)@,
    {
        proof {
            use_type_invariant(&*self);
        }
        let now = Timestamp::now();
        self.update_project_with(project_id.as_str(), name, description, status, now)
    }

    /// Removes the project `project_id` and says whether there was one.
    pub fn delete_project(&mut self, project_id: &str) -> (r: bool)
        ensures
            final(self).wf(),
            delete_project_outcome(old(self).listing(), final(self).listing(), project_id@, r),
            r == old(self)@.contains_key(project_id@),
            final(self)@ == old(self)@.remove(project_id@),
    {
        proof {
            use_type_invariant(&*self);
        }
        let ghost before = self.listing();
        proof {
            lemma_without_project(before, project_id@);
        }
        match self.find(project_id) {
            Some(i) => {
                let mut projects: Vec<Project> = Vec::new();
                std::mem::swap(&mut projects, &mut self.projects);
                let _ = projects.remove(i);
                proof {
                    let after = project_views(projects@);
                    assert(after =~= before.remove(i as int));
                    assert forall|j: int| 0 <= j < after.len() implies (
                    #[trigger] after[j]).valid() by {
                        if j < i {
                            assert(after[j] == before[j]);
                        } else {
                            assert(after[j] == before[j + 1]);
                        }
                    }
                }
                self.projects = projects;
                true
            },
            None => false,
        }
    }

    /// Adds a component with the identifier `component_id` to the project
    /// `project_id`, at the time `now`.
    ///
    /// A refused name is reported, whether or not the project exists. An
    /// unknown project gives `Ok(None)`. Otherwise the component is appended
    /// to the project's components, with its name and description trimmed,
    /// not started, without dependencies or metadata; the project's
    /// modification time is refreshed, and a copy of the component is
    /// returned.
    pub fn add_component_with(
        &mut self,
        project_id: &str,
        component_id: String,
        name: &str,
        component_type: ComponentType,
        description: &str,
        now: Timestamp,
    ) -> (r: Result<Option<Component>, ApiError>)
        ensures
            final(self).wf(),
            add_component_outcome(
                old(self).listing(),
                final(self).listing(),
                project_id@,
                component_id@,
                name@,
                component_type,
                description@,
                now,
                r,
            ),
    {
        proof {
            use_type_invariant(&*self);
        }
        if let Some(details) = reject_name("Component", name) {
            return Err(ApiError::InvalidComponentData { details, source: None });
        }
        let i = match self.find(project_id) {
            Some(i) => i,
            None => {
                return Ok(None);
            },
        };
        let ghost before = self.listing();
        let component = Component {
            id: component_id,
            name: trim(name),
            component_type,
            description: trim(description),
            dependencies: Vec::new(),
            status: ComponentStatus::NotStarted,
            metadata: std::collections::HashMap::new(),
        };
        let copy = component.clone();
        let mut components = clone_components(&self.projects[i].components);
        let ghost old_components = component_views(components@);
        components.push(component);
        let updated = Project {
            id: self.projects[i].id.clone(),
            name: self.projects[i].name.clone(),
            description: self.projects[i].description.clone(),
            created_at: self.projects[i].created_at,
            updated_at: self.projects[i].updated_at.later(now),
            status: self.projects[i].status,
            components,
        };
        proof {
            lemma_trimmed_name_accepted(name@);
            assert(before[i as int] == self.projects@[i as int]@);
            assert(before[i as int].valid());
            assert(copy@.dependencies =~= Seq::<Seq<char>>::empty());
            assert(copy@ == ComponentView::created(
                component_id@,
                name@,
                component_type,
                description@,
            ));
            assert(updated@.components =~= before[i as int].components.push(copy@));
            assert forall|j: int| 0 <= j < updated@.components.len() implies name_accepted(
                (#[trigger] updated@.components[j]).name,
            ) by {
                if j < before[i as int].components.len() {
                    assert(updated@.components[j] == before[i as int].components[j]);
                }
            }
        }
        self.replace(i, updated);
        Ok(Some(copy))
    }

    /// Adds a component under a new random identifier, at the current time.
    ///
    /// See [`ProjectStore::add_component_with`], which this calls with what
    /// the generator and the clock returned.
    pub fn add_component(
        &mut self,
        project_id: String,
        name: String,
        component_type: ComponentType,
        description: String,
    ) -> (r: Result<Option<Component>, ApiError>)
        ensures
            final(self).wf(),
            exists|component_id: Seq<char>, now: Timestamp| #[trigger]
                add_component_outcome(
                    old(self).listing(),
                    final(self).listing(),
                    project_id@,
                    component_id,
                    name@,
                    component_type,
                    description@,
                    now,
                    r,
                ),
    {
        proof {
            use_type_invariant(&*self);
        }
        let component_id = fresh_id();
        let now = Timestamp::now();
        self.add_component_with(
            project_id.as_str(),
            component_id,
            name.as_str(),
            component_type,
            description.as_str(),
            now,
        )
    }

    /// Applies the given fields to the component `component_id` of the
    /// project `project_id`, at the time `now`.
    ///
    /// An unknown project, an unknown component and a name that is given and
    /// refused are reported, in that order, before anything is changed.
    /// Otherwise the given fields replace those of the first component with
    /// that identifier, name and description trimmed; the project's
    /// modification time is refreshed, and a copy of the component is
    /// returned. The dependencies are taken as they are given.
    pub fn update_component_with(
        &mut self,
        project_id: &str,
        component_id: &str,
        name: Option<String>,
        description: Option<String>,
        status: Option<ComponentStatus>,
        dependencies: Option<Vec<String>>,
        now: Timestamp,
    ) -> (r: Result<Option<Component>, ApiError>)
        ensures
            final(self).wf(),
            update_component_outcome(
                old(self).listing(),
                final(self).listing(),
                project_id@,
                component_id@,
                opt_text(name),
                opt_text(description),
                status,
                opt_texts(dependencies),
                now,
                r,
            ),
    {
        proof {
            use_type_invariant(&*self);
        }
        let i = match self.find(project_id) {
            Some(i) => i,
            None => {
                return Err(
                    ApiError::ProjectNotFound {
                        project_id: String::from_str(project_id),
                        source: None,
                    },
                );
            },
        };
        let ghost before = self.listing();
        let ghost cs = before[i as int].components;
        proof {
            assert(before[i as int] == self.projects@[i as int]@);
            assert(before[i as int].valid());
        }
        let key = String::from_str(component_id);
        let k = match find_component(&self.projects[i].components, &key) {
            Some(k) => k,
            None => {
                return Err(
                    ApiError::ComponentNotFound {
                        component_id: key,
                        project_id: String::from_str(project_id),
                        source: None,
                    },
                );
            },
        };
        proof {
            assert(is_first_component(cs, component_id@, k as int));
            assert(has_component(cs, component_id@));
            let f = first_component(cs, component_id@);
            assert(is_first_component(cs, component_id@, f));
            if f < k {
                assert(cs[f].id != component_id@);
            } else if k < f {
                assert(cs[k as int].id != component_id@);
            }
        }
        let new_name = match &name {
            Some(n) => {
                if let Some(details) = reject_name("Component", n.as_str()) {
                    return Err(ApiError::InvalidComponentData { details, source: None });
                }
                proof {
                    lemma_trimmed_name_accepted(n@);
                }
                trim(n.as_str())
            },
            None => self.projects[i].components[k].name.clone(),
        };
        let new_description = match &description {
            Some(d) => trim(d.as_str()),
            None => self.projects[i].components[k].description.clone(),
        };
        let new_status = match status {
            Some(s) => s,
            None => self.projects[i].components[k].status,
        };
        let new_dependencies = match dependencies {
            Some(d) => d,
            None => clone_strings(&self.projects[i].components[k].dependencies),
        };
        let component = Component {
            id: self.projects[i].components[k].id.clone(),
            name: new_name,
            component_type: self.projects[i].components[k].component_type,
            description: new_description,
            dependencies: new_dependencies,
            status: new_status,
            metadata: self.projects[i].components[k].metadata.clone(),
        };
        let copy = component.clone();
        let mut components = clone_components(&self.projects[i].components);
        components.set(k, component);
        let updated = Project {
            id: self.projects[i].id.clone(),
            name: self.projects[i].name.clone(),
            description: self.projects[i].description.clone(),
            created_at: self.projects[i].created_at,
            updated_at: self.projects[i].updated_at.later(now),
            status: self.projects[i].status,
            components,
        };
        proof {
            assert(cs[k as int] == self.projects@[i as int].components@[k as int]@);
            assert(copy@ == cs[k as int].patched(
                opt_text(name),
                opt_text(description),
                status,
                opt_texts(dependencies),
            ));
            assert(updated@.components =~= cs.update(k as int, copy@));
            assert forall|j: int| 0 <= j < updated@.components.len() implies name_accepted(
                (#[trigger] updated@.components[j]).name,
            ) by {
                if j != k {
                    assert(updated@.components[j] == cs[j]);
                }
            }
        }
        self.replace(i, updated);
        Ok(Some(copy))
    }

    /// Applies the given fields to a component at the current time.
    ///
    /// See [`ProjectStore::update_component_with`], which this calls with
    /// what the clock returned.
    pub fn update_component(
        &mut self,
        project_id: String,
        component_id: String,
        name: Option<String>,
        description: Option<String>,
        status: Option<ComponentStatus>,
        dependencies: Option<Vec<String>>,
    ) -> (r: Result<Option<Component>, ApiError>)
        ensures
            final(self).wf(),
            exists|now: Timestamp| #[trigger]
                update_component_outcome(
                    old(self).listing(),
                    final(self).listing(),
                    project_id@,
                    component_id@,
                    opt_text(name),
                    opt_text(description),
                    status,
                    opt_texts(dependencies),
                    now,
                    r,
                ),
    {
        proof {
            use_type_invariant(&*self);
        }
        let now = Timestamp::now();
        self.update_component_with(
            project_id.as_str(),
            component_id.as_str(),
            name,
            description,
            status,
            dependencies,
            now,
        )
    }

    /// Removes the components with the identifier `component_id` from the
    /// project `project_id`, at the time `now`.
    ///
    /// An unknown project is reported. Otherwise the project's modification
    /// time is refreshed, and the result says whether a component was
    /// removed.
    pub fn remove_component_with(
        &mut self,
        project_id: &str,
        component_id: &str,
        now: Timestamp,
    ) -> (r: Result<bool, ApiError>)
        ensures
            final(self).wf(),
            remove_component_outcome(
                old(self).listing(),
                final(self).listing(),
                project_id@,
                component_id@,
                now,
                r,
            ),
    {
        proof {
            use_type_invariant(&*self);
        }
        let i = match self.find(project_id) {
            Some(i) => i,
            None => {
                return Err(
                    ApiError::ProjectNotFound {
                        project_id: String::from_str(project_id),
                        source: None,
                    },
                );
            },
        };
        let ghost before = self.listing();
        let ghost cs = before[i as int].components;
        let key = String::from_str(component_id);
        let (components, removed) = components_without(&self.projects[i].components, &key);
        let updated = Project {
            id: self.projects[i].id.clone(),
            name: self.projects[i].name.clone(),
            description: self.projects[i].description.clone(),
            created_at: self.projects[i].created_at,
            updated_at: self.projects[i].updated_at.later(now),
            status: self.projects[i].status,
            components,
        };
        proof {
            assert(before[i as int] == self.projects@[i as int]@);
            assert(before[i as int].valid());
            let kept = without_component(cs, component_id@);
            assert(updated@.components == kept);
            assert forall|j: int| 0 <= j < kept.len() implies name_accepted(
                (#[trigger] kept[j]).name,
            ) by {
                let keep = |c: ComponentView| c.id != component_id@;
                cs.lemma_filter_contains_rev(keep, kept[j]);
                let m = choose|m: int| 0 <= m < cs.len() && cs[m] == kept[j];
                assert(name_accepted(cs[m].name));
            }
        }
        self.replace(i, updated);
        Ok(removed)
    }

    /// Removes a component at the current time.
    ///
    /// See [`ProjectStore::remove_component_with`], which this calls with
    /// what the clock returned.
    pub fn remove_component(&mut self, project_id: String, component_id: String) -> (r: Result<
        bool,
        ApiError,
    >)
        ensures
            final(self).wf(),
            exists|now: Timestamp| #[trigger]
                remove_component_outcome(
                    old(self).listing(),
                    final(self).listing(),
                    project_id@,
                    component_id@,
                    now,
                    r,
                ),
    {
        proof {
            use_type_invariant(&*self);
        }
        let now = Timestamp::now();
        self.remove_component_with(project_id.as_str(), component_id.as_str(), now)
    }
}

} // verus!
