//! The export of a project: the project with its diagram, gathered from the
//! three stores.
//!
//! The stores are read one after the other, so an export taken while a
//! project is being changed may show the project as it was before the change
//! and its diagram as it was after.

use crate::diagrams::{item_views, saved_or_empty, ConnectionStore, DiagramStore};
use crate::error::{ApiError, ErrorSource};
use crate::model::{Connection, ConnectionView, DiagramElement, DiagramElementView, Project, ProjectView};
use crate::project_model::is_project_not_found;
use crate::projects::ProjectStore;
use crate::time::Timestamp;
use vstd::prelude::*;
use vstd::string::*;

verus! {

/// What an export holds.
#[derive(Debug)]
pub struct ProjectExport {
    pub project: Project,
    pub diagram_elements: Vec<DiagramElement>,
    pub connections: Vec<Connection>,
    pub exported_at: Timestamp,
}

/// What exporting the project `project_id` at the time `now` gives: the
/// project as stored, the elements and connections saved for it, or none
/// where none were saved; an unknown project is reported.
pub open spec fn export_outcome(
    projects: Map<Seq<char>, ProjectView>,
    diagrams: Map<Seq<char>, Seq<DiagramElementView>>,
    connections: Map<Seq<char>, Seq<ConnectionView>>,
    project_id: Seq<char>,
    now: Timestamp,
    r: Result<ProjectExport, ApiError>,
) -> bool {
    if projects.contains_key(project_id) {
        r matches Ok(export) && export.project@ == projects[project_id] && item_views(
            export.diagram_elements@,
        ) == saved_or_empty(diagrams, project_id) && item_views(export.connections@)
            == saved_or_empty(connections, project_id) && export.exported_at == now
    } else {
        r matches Err(e) && is_project_not_found(e, project_id)
    }
}

/// Gathers the export of the project `project_id` at the time `now`.
pub fn export_project_data_at(
    project_id: &str,
    projects: &ProjectStore,
    diagrams: &DiagramStore,
    connections: &ConnectionStore,
    now: Timestamp,
) -> (r: Result<ProjectExport, ApiError>)
    ensures
        export_outcome(projects@, diagrams@, connections@, project_id@, now, r),
{
    let project = match projects.get_project(project_id) {
        Some(project) => project,
        None => {
            return Err(
                ApiError::ProjectNotFound {
                    project_id: String::from_str(project_id),
                    source: None,
                },
            );
        },
    };
    let diagram_elements = diagrams.load(project_id);
    let project_connections = connections.load(project_id);
    Ok(
        ProjectExport {
            project,
            diagram_elements,
            connections: project_connections,
            exported_at: now,
        },
    )
}

/// Gathers the export of the project `project_id` at the current time.
pub fn export_project_data(
    project_id: &str,
    projects: &ProjectStore,
    diagrams: &DiagramStore,
    connections: &ConnectionStore,
) -> (r: Result<ProjectExport, ApiError>)
    ensures
        exists|now: Timestamp| #[trigger]
            export_outcome(projects@, diagrams@, connections@, project_id@, now, r),
{
    let now = Timestamp::now();
    export_project_data_at(project_id, projects, diagrams, connections, now)
}

/// The error for an export that cannot be rendered as JSON: a serialization
/// error whose details are the failure's text, and which keeps the failure.
pub fn export_render_failure(failure: serde_json::Error) -> (e: ApiError)
    ensures
        e@ is SerializationError,
        e@->SerializationError_operation == "export project data"@,
        e.cause() == Some(ErrorSource::Json(failure)),
{
    ApiError::from_json("export project data", "", failure)
}

/// A project without a saved diagram exports with no elements, and one
/// without saved connections with no connections: the export does not fail
/// for want of either.
pub proof fn law_export_without_diagram(
    projects: Map<Seq<char>, ProjectView>,
    diagrams: Map<Seq<char>, Seq<DiagramElementView>>,
    connections: Map<Seq<char>, Seq<ConnectionView>>,
    project_id: Seq<char>,
    now: Timestamp,
    r: Result<ProjectExport, ApiError>,
)
    requires
        projects.contains_key(project_id),
        export_outcome(projects, diagrams, connections, project_id, now, r),
    ensures
        r is Ok,
        !diagrams.contains_key(project_id) ==> r->Ok_0.diagram_elements@.len() == 0,
        !connections.contains_key(project_id) ==> r->Ok_0.connections@.len() == 0,
{
    let export = r->Ok_0;
    assert(item_views(export.diagram_elements@).len() == export.diagram_elements@.len());
    assert(item_views(export.connections@).len() == export.connections@.len());
}

} // verus!
