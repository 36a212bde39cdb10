use archicomm::error::ApiError;
use archicomm::folder::{show_in_folder, Platform};
use archicomm::model::{ComponentStatus, ComponentType, ProjectStatus};
use archicomm::projects::ProjectStore;
use archicomm::samples::{
    create_sample_project, create_sample_projects, populate_sample_data, sample_project_with,
    shop_project_with,
};
use archicomm::time::Timestamp;
use archicomm::version::get_app_version;

#[test]
fn test_sample_project_creation() {
    let project = create_sample_project();
    assert!(!project.id.is_empty());
    assert_eq!(project.name, "ArchiComm Sample Project");
    assert_eq!(project.components.len(), 4);
    assert!(matches!(project.status, ProjectStatus::InProgress));
}

#[test]
fn test_multiple_projects_creation() {
    let projects = create_sample_projects();
    assert_eq!(projects.len(), 2);
    assert!(projects.iter().all(|p| !p.id.is_empty()));
}

#[test]
fn sample_projects_hold_what_they_should() {
    let s = |t: &str| t.to_string();
    let now = Timestamp { seconds: 3, nanos: 4 };
    let p = sample_project_with(s("p"), s("ui"), s("gw"), s("db"), s("auth"), now);
    assert_eq!(p.id, "p");
    assert_eq!(p.description, "A sample architecture project demonstrating the platform capabilities");
    assert_eq!(p.created_at, now);
    assert_eq!(p.updated_at, now);
    let ids: Vec<&str> = p.components.iter().map(|c| c.id.as_str()).collect();
    assert_eq!(ids, vec!["ui", "gw", "db", "auth"]);
    let names: Vec<&str> = p.components.iter().map(|c| c.name.as_str()).collect();
    assert_eq!(names, vec!["User Interface", "API Gateway", "Database", "Authentication Service"]);
    let kinds: Vec<ComponentType> = p.components.iter().map(|c| c.component_type).collect();
    assert_eq!(
        kinds,
        vec![ComponentType::Frontend, ComponentType::Api, ComponentType::Database, ComponentType::Service]
    );
    let states: Vec<ComponentStatus> = p.components.iter().map(|c| c.status).collect();
    assert_eq!(
        states,
        vec![ComponentStatus::InProgress, ComponentStatus::Done, ComponentStatus::Done, ComponentStatus::Testing]
    );
    assert_eq!(p.components[0].dependencies, vec![s("API Gateway")]);
    assert_eq!(p.components[1].dependencies, vec![s("Database")]);
    assert!(p.components[2].dependencies.is_empty());
    assert_eq!(p.components[3].dependencies, vec![s("Database")]);
    assert_eq!(p.components[0].description, "React-based user interface with Tailwind CSS styling");
    assert_eq!(p.components[0].metadata.len(), 2);
    assert_eq!(p.components[0].metadata["framework"], "React");
    assert_eq!(p.components[0].metadata["language"], "TypeScript");
    assert!(p.components[1].metadata.is_empty());

    let shop = shop_project_with(s("shop"), s("cat"), s("pay"), now);
    assert_eq!(shop.name, "E-commerce Platform");
    assert_eq!(shop.description, "Microservices-based e-commerce platform");
    assert_eq!(shop.status, ProjectStatus::Planning);
    assert_eq!(shop.components.len(), 2);
    assert_eq!(shop.components[0].name, "Product Catalog");
    assert_eq!(shop.components[0].component_type, ComponentType::Service);
    assert_eq!(shop.components[1].name, "Payment Gateway");
    assert_eq!(shop.components[1].component_type, ComponentType::Integration);
    assert_eq!(shop.components[1].dependencies, vec![s("User Service")]);
    assert_eq!(shop.components[1].status, ComponentStatus::NotStarted);
}

#[test]
fn sample_data_fills_the_store() {
    let mut store = ProjectStore::new();
    store.create_project("Mine".to_string(), String::new()).unwrap();
    let added = populate_sample_data(&mut store);
    assert_eq!(added.len(), 2);
    assert_eq!(added[0].name, "ArchiComm Sample Project");
    assert_eq!(added[1].name, "E-commerce Platform");
    assert_eq!(store.get_projects().len(), 3);
    assert_eq!(store.get_project(&added[0].id).unwrap().components.len(), 4);
    assert_eq!(store.get_project(&added[1].id).unwrap().components.len(), 2);
}

#[test]
fn the_version_is_reported() {
    assert_eq!(get_app_version(), "0.2.0");
}

#[test]
fn revealing_a_file_starts_the_platforms_file_manager() {
    let s = |t: &str| t.to_string();
    let path = "/home/u/audio/a.wav";
    let command = show_in_folder(Platform::Windows, s(path), true, None).unwrap().unwrap();
    assert_eq!(command.program, "explorer");
    assert_eq!(command.arguments, vec![s("/select,"), s(path)]);
    let command = show_in_folder(Platform::MacOs, s(path), true, Some(s("/home/u/audio"))).unwrap().unwrap();
    assert_eq!(command.program, "open");
    assert_eq!(command.arguments, vec![s("-R"), s(path)]);
    let command = show_in_folder(Platform::Linux, s(path), true, Some(s("/home/u/audio"))).unwrap().unwrap();
    assert_eq!(command.program, "xdg-open");
    assert_eq!(command.arguments, vec![s("/home/u/audio")]);
    let command = show_in_folder(Platform::Linux, s("a.wav"), true, None).unwrap().unwrap();
    assert_eq!(command.arguments, vec![s("/")]);
    assert!(show_in_folder(Platform::Other, s(path), true, None).unwrap().is_none());

    for platform in [Platform::Windows, Platform::MacOs, Platform::Linux, Platform::Other] {
        match show_in_folder(platform, s(path), false, None) {
            Err(ApiError::AudioFileNotFound { path: p, source: None }) => assert_eq!(p, path),
            other => panic!("unexpected {:?}", other),
        }
    }
}

#[test]
fn a_file_manager_that_does_not_start_is_reported() {
    let s = |t: &str| t.to_string();
    let cases = [
        (Platform::Windows, "External process error: explorer failed - Failed to open file explorer: nope"),
        (Platform::MacOs, "External process error: open failed - Failed to open Finder: nope"),
        (Platform::Linux, "External process error: xdg-open failed - Failed to open file manager: nope"),
    ];
    for (platform, expected) in cases {
        let command = show_in_folder(platform, s("/a"), true, None).unwrap().unwrap();
        assert_eq!(command.failure("nope", None).to_string(), expected);
        let failure = std::io::Error::new(std::io::ErrorKind::NotFound, "nope");
        assert_eq!(command.failure_from(failure).to_string(), expected);
    }
}
