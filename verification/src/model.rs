//! The entities that the stores hold, and their mathematical views.

use crate::time::Timestamp;
use std::collections::HashMap;
use vstd::prelude::*;
use vstd::string::*;

verus! {

/// Where a project stands.
#[derive(Debug, Clone, Copy, PartialEq, Eq, Structural)]
pub enum ProjectStatus {
    Planning,
    InProgress,
    Review,
    Complete,
}

/// What kind of building block a component is.
#[derive(Debug, Clone, Copy, PartialEq, Eq, Structural)]
pub enum ComponentType {
    Frontend,
    Backend,
    Database,
    Api,
    Service,
    Integration,
}

/// Where a component stands.
#[derive(Debug, Clone, Copy, PartialEq, Eq, Structural)]
pub enum ComponentStatus {
    NotStarted,
    InProgress,
    Testing,
    Done,
}

/// A named part of a project.
#[derive(Debug)]
pub struct Component {
    pub id: String,
    pub name: String,
    pub component_type: ComponentType,
    pub description: String,
    pub dependencies: Vec<String>,
    pub status: ComponentStatus,
    pub metadata: HashMap<String, String>,
}

/// An architecture project and its components, in display order.
#[derive(Debug)]
pub struct Project {
    pub id: String,
    pub name: String,
    pub description: String,
    pub created_at: Timestamp,
    pub updated_at: Timestamp,
    pub status: ProjectStatus,
    pub components: Vec<Component>,
}

/// A point on the diagram canvas. Each coordinate is kept as the bit pattern
/// of its IEEE 754 double, which the stores carry without reading it.
#[derive(Debug, Clone, Copy, PartialEq, Eq, Structural)]
pub struct Position {
    pub x: u64,
    pub y: u64,
}

/// A visual node of a diagram.
#[derive(Debug)]
pub struct DiagramElement {
    pub id: String,
    pub element_type: String,
    pub position: Position,
    pub properties: HashMap<String, String>,
}

/// A directed edge between two diagram elements.
#[derive(Debug)]
pub struct Connection {
    pub id: String,
    pub source_id: String,
    pub target_id: String,
    pub connection_type: String,
    pub properties: HashMap<String, String>,
}

/// What a [`DiagramElement`] holds.
pub struct DiagramElementView {
    pub id: Seq<char>,
    pub element_type: Seq<char>,
    pub position: Position,
    pub properties: Map<String, String>,
}

/// What a [`Connection`] holds.
pub struct ConnectionView {
    pub id: Seq<char>,
    pub source_id: Seq<char>,
    pub target_id: Seq<char>,
    pub connection_type: Seq<char>,
    pub properties: Map<String, String>,
}

/// What a [`Component`] holds.
pub struct ComponentView {
    pub id: Seq<char>,
    pub name: Seq<char>,
    pub component_type: ComponentType,
    pub description: Seq<char>,
    pub dependencies: Seq<Seq<char>>,
    pub status: ComponentStatus,
    pub metadata: Map<String, String>,
}

/// What a [`Project`] holds.
pub struct ProjectView {
    pub id: Seq<char>,
    pub name: Seq<char>,
    pub description: Seq<char>,
    pub created_at: Timestamp,
    pub updated_at: Timestamp,
    pub status: ProjectStatus,
    pub components: Seq<ComponentView>,
}

/// The texts that a list of strings holds.
pub open spec fn texts(v: Seq<String>) -> Seq<Seq<char>> {
    Seq::new(v.len(), |i: int| v[i]@)
}

/// The text of an optional string.
pub open spec fn opt_text(o: Option<String>) -> Option<Seq<char>> {
    match o {
        Some(s) => Some(s@),
        None => None,
    }
}

/// The texts of an optional list of strings.
pub open spec fn opt_texts(o: Option<Vec<String>>) -> Option<Seq<Seq<char>>> {
    match o {
        Some(v) => Some(texts(v@)),
        None => None,
    }
}

/// The views of a list of projects.
pub open spec fn project_views(v: Seq<Project>) -> Seq<ProjectView> {
    Seq::new(v.len(), |i: int| v[i]@)
}

/// The views of a list of components.
pub open spec fn component_views(v: Seq<Component>) -> Seq<ComponentView> {
    Seq::new(v.len(), |i: int| v[i]@)
}

impl View for Component {
    type V = ComponentView;

    open spec fn view(&self) -> ComponentView {
        ComponentView {
            id: self.id@,
            name: self.name@,
            component_type: self.component_type,
            description: self.description@,
            dependencies: texts(self.dependencies@),
            status: self.status,
            metadata: self.metadata@,
        }
    }
}

impl View for DiagramElement {
    type V = DiagramElementView;

    open spec fn view(&self) -> DiagramElementView {
        DiagramElementView {
            id: self.id@,
            element_type: self.element_type@,
            position: self.position,
            properties: self.properties@,
        }
    }
}

impl View for Connection {
    type V = ConnectionView;

    open spec fn view(&self) -> ConnectionView {
        ConnectionView {
            id: self.id@,
            source_id: self.source_id@,
            target_id: self.target_id@,
            connection_type: self.connection_type@,
            properties: self.properties@,
        }
    }
}

impl View for Project {
    type V = ProjectView;

    open spec fn view(&self) -> ProjectView {
        ProjectView {
            id: self.id@,
            name: self.name@,
            description: self.description@,
            created_at: self.created_at,
            updated_at: self.updated_at,
            status: self.status,
            components: component_views(self.components@),
        }
    }
}

/// A copy of a list of strings.
pub fn clone_strings(v: &Vec<String>) -> (r: Vec<String>)
    ensures
        r@ == v@,
{
    let mut r: Vec<String> = Vec::new();
    let mut i: usize = 0;
    while i < v.len()
        invariant
            i <= v.len(),
            r@ == v@.take(i as int),
        decreases v.len() - i,
    {
        r.push(v[i].clone());
        proof {
            assert(v@.take(i as int).push(v@[i as int]) =~= v@.take(i + 1));
        }
        i += 1;
    }
    proof {
        assert(v@.take(v.len() as int) =~= v@);
    }
    r
}

impl Clone for Component {
    fn clone(&self) -> (r: Self)
        ensures
            r@ == self@,
    {
        Component {
            id: self.id.clone(),
            name: self.name.clone(),
            component_type: self.component_type,
            description: self.description.clone(),
            dependencies: clone_strings(&self.dependencies),
            status: self.status,
            metadata: self.metadata.clone(),
        }
    }
}

/// A copy of a list of components.
pub fn clone_components(v: &Vec<Component>) -> (r: Vec<Component>)
    ensures
        component_views(r@) == component_views(v@),
{
    let mut r: Vec<Component> = Vec::new();
    let mut i: usize = 0;
    while i < v.len()
        invariant
            i <= v.len(),
            r.len() == i,
            forall|j: int| 0 <= j < i ==> r@[j]@ == v@[j]@,
        decreases v.len() - i,
    {
        r.push(v[i].clone());
        i += 1;
    }
    proof {
        assert(component_views(r@) =~= component_views(v@));
    }
    r
}

impl Clone for DiagramElement {
    fn clone(&self) -> (r: Self)
        ensures
            r@ == self@,
    {
        DiagramElement {
            id: self.id.clone(),
            element_type: self.element_type.clone(),
            position: self.position,
            properties: self.properties.clone(),
        }
    }
}

impl Clone for Connection {
    fn clone(&self) -> (r: Self)
        ensures
            r@ == self@,
    {
        Connection {
            id: self.id.clone(),
            source_id: self.source_id.clone(),
            target_id: self.target_id.clone(),
            connection_type: self.connection_type.clone(),
            properties: self.properties.clone(),
        }
    }
}

impl Clone for Project {
    fn clone(&self) -> (r: Self)
        ensures
            r@ == self@,
    {
        Project {
            id: self.id.clone(),
            name: self.name.clone(),
            description: self.description.clone(),
            created_at: self.created_at,
            updated_at: self.updated_at,
            status: self.status,
            components: clone_components(&self.components),
        }
    }
}

} // verus!
