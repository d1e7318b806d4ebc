use pibq::models::{ConnectionStatus, DbObject, Project, Reading};
use pibq::pool::SqliteConnectionManager;
use pibq::project_form::{assign_project_fields, ProjectFields};
use pibq::view_models::{ProjectEdit, ProjectIndex, ProjectReadings};

#[test]
fn rows_are_new_until_given_an_id() {
    let mut status = ConnectionStatus::new(1000);
    assert!(status.is_new());
    assert!(!status.is_persistent());
    status.id = 42;
    assert_eq!(42, status.get_id());
    assert!(!status.is_new());
    assert!(status.is_persistent());
}

#[test]
fn fresh_rows_are_blank() {
    let status = ConnectionStatus::new(7);
    assert!(!status.is_connect);
    assert!(!status.is_disconnect);
    assert_eq!(None, status.info);
    assert_eq!(7, status.created_at_ms);

    let reading = Reading::new(9);
    assert_eq!(0, reading.get_id());
    assert_eq!(None, reading.value1);
    assert_eq!(None, reading.value2);
    assert_eq!(9, reading.timestamp_ms);
}

#[test]
fn projects_stamp_their_creation() {
    let p = Project::new("bbq".to_string(), 10, 20, "pit".to_string(), "meat".to_string(), 5);
    assert_eq!(0, p.get_id());
    assert_eq!("bbq", p.name);
    assert_eq!(10, p.start_ms);
    assert_eq!(20, p.end_ms);
    assert_eq!(5, p.created_at_ms);
    assert_eq!(5, p.updated_at_ms);

    let d = Project::default(1000);
    assert_eq!("", d.name);
    assert_eq!(1000, d.start_ms);
    assert_eq!(1000 + 12 * 60 * 60 * 1000, d.end_ms);
}

#[test]
fn project_edit_defaults_and_flags() {
    let edit = ProjectEdit::new("Create Project", None, vec![], 1000);
    assert_eq!("Create Project", edit.title);
    assert!(edit.is_new());
    assert!(!edit.has_errors());

    let mut stored = Project::default(2000);
    stored.id = 3;
    let edit = ProjectEdit::new("Edit Project", Some(stored), vec!["Invalid name".to_string()], 1000);
    assert!(!edit.is_new());
    assert!(edit.has_errors());
}

#[test]
fn project_views_keep_their_contents() {
    let index = ProjectIndex::new("Projects", vec![Project::default(0), Project::default(1)]);
    assert_eq!("Projects", index.title);
    assert_eq!(2, index.projects.len());

    let readings = ProjectReadings::new(Project::default(0), true, vec![Reading::new(1)]);
    assert!(readings.connected);
    assert_eq!(1, readings.readings.len());
}

#[test]
fn valid_form_fields_are_assigned_without_errors() {
    let mut project = Project::default(0);
    let mut errors: Vec<String> = vec![];
    let fields = ProjectFields {
        name: Some("bbq".to_string()),
        sensor1_name: Some("pit".to_string()),
        sensor2_name: Some("meat".to_string()),
        start_ms: Some(100),
        end_ms: Some(200),
    };
    assign_project_fields(&mut project, fields, &mut errors);
    assert!(errors.is_empty());
    assert_eq!("bbq", project.name);
    assert_eq!("pit", project.sensor1_name);
    assert_eq!("meat", project.sensor2_name);
    assert_eq!(100, project.start_ms);
    assert_eq!(200, project.end_ms);
}

#[test]
fn invalid_form_fields_keep_old_values_and_report() {
    let mut project = Project::new(
        "old".to_string(),
        1,
        2,
        "a".to_string(),
        "b".to_string(),
        0,
    );
    let mut errors: Vec<String> = vec![];
    let fields = ProjectFields {
        name: Some("".to_string()),
        sensor1_name: None,
        sensor2_name: Some("meat".to_string()),
        start_ms: None,
        end_ms: Some(9),
    };
    assign_project_fields(&mut project, fields, &mut errors);
    assert_eq!(
        vec![
            "Invalid name".to_string(),
            "Invalid sensor1_name".to_string(),
            "Invalid start".to_string()
        ],
        errors
    );
    assert_eq!("old", project.name);
    assert_eq!("a", project.sensor1_name);
    assert_eq!("meat", project.sensor2_name);
    assert_eq!(1, project.start_ms);
    assert_eq!(9, project.end_ms);
}

#[test]
fn pool_manager_tells_memory_from_files() {
    let mem = SqliteConnectionManager::new(":memory:");
    assert!(mem.in_memory);
    assert_eq!(None, mem.path);

    let file = SqliteConnectionManager::new("data/pibq.sqlite");
    assert!(!file.in_memory);
    assert_eq!(Some("data/pibq.sqlite".to_string()), file.path);
}
