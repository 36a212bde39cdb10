//! Sample projects for development and demonstration.

use crate::ident::fresh_id;
use crate::model::{
    texts, Component, ComponentStatus, ComponentType, ComponentView, Project, ProjectStatus,
    ProjectView,
};
use crate::names::name_accepted;
use crate::projects::ProjectStore;
use crate::text::is_whitespace;
use crate::time::Timestamp;
use std::collections::HashMap;
use vstd::prelude::*;
use vstd::string::*;

verus! {

/// `c` is the sample component with these values. Its identifier and its
/// metadata are left open.
pub open spec fn is_sample_component(
    c: ComponentView,
    name: Seq<char>,
    component_type: ComponentType,
    description: Seq<char>,
    dependencies: Seq<Seq<char>>,
    status: ComponentStatus,
) -> bool {
    &&& c.name == name
    &&& c.component_type == component_type
    &&& c.description == description
    &&& c.dependencies == dependencies
    &&& c.status == status
}

/// `p` is the sample project: a web application of four components, in
/// progress.
pub open spec fn is_sample_project(p: ProjectView) -> bool {
    &&& p.name == "ArchiComm Sample Project"@
    &&& p.description == "A sample architecture project demonstrating the platform capabilities"@
    &&& p.status == ProjectStatus::InProgress
    &&& p.created_at == p.updated_at
    &&& p.components.len() == 4
    &&& is_sample_component(
        p.components[0],
        "User Interface"@,
        ComponentType::Frontend,
        "React-based user interface with Tailwind CSS styling"@,
        seq!["API Gateway"@],
        ComponentStatus::InProgress,
    )
    &&& is_sample_component(
        p.components[1],
        "API Gateway"@,
        ComponentType::Api,
        "RESTful API for handling client requests"@,
        seq!["Database"@],
        ComponentStatus::Done,
    )
    &&& is_sample_component(
        p.components[2],
        "Database"@,
        ComponentType::Database,
        "PostgreSQL database for data persistence"@,
        Seq::empty(),
        ComponentStatus::Done,
    )
    &&& is_sample_component(
        p.components[3],
        "Authentication Service"@,
        ComponentType::Service,
        "JWT-based authentication and authorization service"@,
        seq!["Database"@],
        ComponentStatus::Testing,
    )
    &&& p.components[1].metadata == Map::<String, String>::empty()
    &&& p.components[2].metadata == Map::<String, String>::empty()
    &&& p.components[3].metadata == Map::<String, String>::empty()
}

/// `p` is the second sample project: an e-commerce platform of two
/// components, in planning.
pub open spec fn is_shop_project(p: ProjectView) -> bool {
    &&& p.name == "E-commerce Platform"@
    &&& p.description == "Microservices-based e-commerce platform"@
    &&& p.status == ProjectStatus::Planning
    &&& p.created_at == p.updated_at
    &&& p.components.len() == 2
    &&& is_sample_component(
        p.components[0],
        "Product Catalog"@,
        ComponentType::Service,
        "Service for managing product information"@,
        Seq::empty(),
        ComponentStatus::NotStarted,
    )
    &&& is_sample_component(
        p.components[1],
        "Payment Gateway"@,
        ComponentType::Integration,
        "Integration with external payment providers"@,
        seq!["User Service"@],
        ComponentStatus::NotStarted,
    )
    &&& p.components[0].metadata == Map::<String, String>::empty()
    &&& p.components[1].metadata == Map::<String, String>::empty()
}

fn dependencies_on(name: Option<&str>) -> (r: Vec<String>)
    ensures
        texts(r@) == match name {
            Some(n) => seq![n@],
            None => Seq::<Seq<char>>::empty(),
        },
{
    let mut r: Vec<String> = Vec::new();
    if let Some(n) = name {
        r.push(String::from_str(n));
    }
    proof {
        match name {
            Some(n) => {
                assert(texts(r@) =~= seq![n@]);
            },
            None => {
                assert(texts(r@) =~= Seq::<Seq<char>>::empty());
            },
        }
    }
    r
}

fn sample_component(
    id: String,
    name: &str,
    component_type: ComponentType,
    description: &str,
    dependency: Option<&str>,
    status: ComponentStatus,
    metadata: HashMap<String, String>,
) -> (c: Component)
    ensures
        c@.id == id@,
        c@.metadata == metadata@,
        is_sample_component(
            c@,
            name@,
            component_type,
            description@,
            match dependency {
                Some(n) => seq![n@],
                None => Seq::<Seq<char>>::empty(),
            },
            status,
        ),
{
    Component {
        id,
        name: String::from_str(name),
        component_type,
        description: String::from_str(description),
        dependencies: dependencies_on(dependency),
        status,
        metadata,
    }
}

/// A text that begins with a letter of the alphabet, and is no longer than
/// 255 characters, is an acceptable name.
proof fn lemma_plain_name_accepted(name: Seq<char>)
    requires
        0 < name.len() <= 255,
        'A' <= name[0] <= 'Z',
    ensures
        name_accepted(name),
{
    assert(!is_whitespace(name[0]));
}

/// The sample project, with the given identifiers and made at the time
/// `now`. The first identifier is the project's, the others are those of its
/// components, in order. The user interface is noted as written in
/// TypeScript with React.
pub fn sample_project_with(
    project_id: String,
    interface_id: String,
    gateway_id: String,
    database_id: String,
    authentication_id: String,
    now: Timestamp,
) -> (p: Project)
    ensures
        is_sample_project(p@),
        p@.valid(),
        p@.id == project_id@,
        p@.created_at == now,
        p@.components[0].id == interface_id@,
        p@.components[1].id == gateway_id@,
        p@.components[2].id == database_id@,
        p@.components[3].id == authentication_id@,
{
    let mut metadata: HashMap<String, String> = HashMap::new();
    metadata.insert(String::from_str("framework"), String::from_str("React"));
    metadata.insert(String::from_str("language"), String::from_str("TypeScript"));
    let mut components: Vec<Component> = Vec::new();
    components.push(
        sample_component(
            interface_id,
            "User Interface",
            ComponentType::Frontend,
            "React-based user interface with Tailwind CSS styling",
            Some("API Gateway"),
            ComponentStatus::InProgress,
            metadata,
        ),
    );
    components.push(
        sample_component(
            gateway_id,
            "API Gateway",
            ComponentType::Api,
            "RESTful API for handling client requests",
            Some("Database"),
            ComponentStatus::Done,
            HashMap::new(),
        ),
    );
    components.push(
        sample_component(
            database_id,
            "Database",
            ComponentType::Database,
            "PostgreSQL database for data persistence",
            None,
            ComponentStatus::Done,
            HashMap::new(),
        ),
    );
    components.push(
        sample_component(
            authentication_id,
            "Authentication Service",
            ComponentType::Service,
            "JWT-based authentication and authorization service",
            Some("Database"),
            ComponentStatus::Testing,
            HashMap::new(),
        ),
    );
    let p = Project {
        id: project_id,
        name: String::from_str("ArchiComm Sample Project"),
        description: String::from_str(
            "A sample architecture project demonstrating the platform capabilities",
        ),
        created_at: now,
        updated_at: now,
        status: ProjectStatus::InProgress,
        components,
    };
    proof {
        reveal_strlit("ArchiComm Sample Project");
        reveal_strlit("User Interface");
        reveal_strlit("API Gateway");
        reveal_strlit("Database");
        reveal_strlit("Authentication Service");
        lemma_plain_name_accepted("ArchiComm Sample Project"@);
        lemma_plain_name_accepted("User Interface"@);
        lemma_plain_name_accepted("API Gateway"@);
        lemma_plain_name_accepted("Database"@);
        lemma_plain_name_accepted("Authentication Service"@);
    }
    p
}

/// The second sample project, with the given identifiers and made at the
/// time `now`.
pub fn shop_project_with(
    project_id: String,
    catalog_id: String,
    payment_id: String,
    now: Timestamp,
) -> (p: Project)
    ensures
        is_shop_project(p@),
        p@.valid(),
        p@.id == project_id@,
        p@.created_at == now,
        p@.components[0].id == catalog_id@,
        p@.components[1].id == payment_id@,
{
    let mut components: Vec<Component> = Vec::new();
    components.push(
        sample_component(
            catalog_id,
            "Product Catalog",
            ComponentType::Service,
            "Service for managing product information",
            None,
            ComponentStatus::NotStarted,
            HashMap::new(),
        ),
    );
    components.push(
        sample_component(
            payment_id,
            "Payment Gateway",
            ComponentType::Integration,
            "Integration with external payment providers",
            Some("User Service"),
            ComponentStatus::NotStarted,
            HashMap::new(),
        ),
    );
    let p = Project {
        id: project_id,
        name: String::from_str("E-commerce Platform"),
        description: String::from_str("Microservices-based e-commerce platform"),
        created_at: now,
        updated_at: now,
        status: ProjectStatus::Planning,
        components,
    };
    proof {
        reveal_strlit("E-commerce Platform");
        reveal_strlit("Product Catalog");
        reveal_strlit("Payment Gateway");
        lemma_plain_name_accepted("E-commerce Platform"@);
        lemma_plain_name_accepted("Product Catalog"@);
        lemma_plain_name_accepted("Payment Gateway"@);
    }
    p
}

/// The sample project, under new random identifiers and made now.
pub fn create_sample_project() -> (p: Project)
    ensures
        is_sample_project(p@),
        p@.valid(),
        p@.id.len() == 36,
{
    let project_id = fresh_id();
    let interface_id = fresh_id();
    let gateway_id = fresh_id();
    let database_id = fresh_id();
    let authentication_id = fresh_id();
    let now = Timestamp::now();
    sample_project_with(
        project_id,
        interface_id,
        gateway_id,
        database_id,
        authentication_id,
        now,
    )
}

/// Both sample projects, under new random identifiers and made now.
pub fn create_sample_projects() -> (r: Vec<Project>)
    ensures
        r@.len() == 2,
        is_sample_project(r@[0]@),
        is_shop_project(r@[1]@),
        r@[0]@.valid(),
        r@[1]@.valid(),
        r@[0]@.id.len() == 36,
        r@[1]@.id.len() == 36,
{
    let first = create_sample_project();
    let project_id = fresh_id();
    let catalog_id = fresh_id();
    let payment_id = fresh_id();
    let now = Timestamp::now();
    let second = shop_project_with(project_id, catalog_id, payment_id, now);
    let mut r: Vec<Project> = Vec::new();
    r.push(first);
    r.push(second);
    r
}

/// Stores both sample projects and returns copies of them. A project that
/// has the identifier of a sample is replaced by it.
pub fn populate_sample_data(projects: &mut ProjectStore) -> (r: Vec<Project>)
    ensures
        final(projects).wf(),
        r@.len() == 2,
        is_sample_project(r@[0]@),
        is_shop_project(r@[1]@),
        final(projects)@ == old(projects)@.insert(r@[0]@.id, r@[0]@).insert(r@[1]@.id, r@[1]@),
{
    let mut samples = create_sample_projects();
    let second = samples.pop().unwrap();
    let first = samples.pop().unwrap();
    let mut r: Vec<Project> = Vec::new();
    r.push(first.clone());
    r.push(second.clone());
    projects.put(first);
    projects.put(second);
    r
}

} // verus!
