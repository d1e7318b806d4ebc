//! The models the dashboard's pages are built from. Rendering them is the
//! web layer's work, outside the library.

use vstd::prelude::*;
use crate::models::{DbObject, Project, Reading};

verus! {

/// The project list page.
pub struct ProjectIndex {
    pub projects: Vec<Project>,
    pub title: String,
}

impl ProjectIndex {
    /// A titled list of projects.
    pub fn new(title: &str, projects: Vec<Project>) -> (model: ProjectIndex)
        ensures
            model.title@ == title@,
            model.projects == projects,
    {
        ProjectIndex { projects, title: title.to_owned() }
    }
}

/// The project form page: the project under edit and its field errors.
pub struct ProjectEdit {
    pub title: String,
    pub project: Project,
    pub errors: Vec<String>,
}

impl ProjectEdit {
    /// A form for the given project, or for a fresh twelve-hour project
    /// stamped `now_ms` when none is given.
    pub fn new(title: &str, project: Option<Project>, errors: Vec<String>, now_ms: u64) -> (model:
        ProjectEdit)
        requires
            now_ms + 43200000 <= u64::MAX,
        ensures
            model.title@ == title@,
            model.errors == errors,
            project matches Some(p) ==> model.project == p,
            project is None ==> {
                &&& model.project.id == 0
                &&& model.project.name@.len() == 0
                &&& model.project.start_ms == now_ms
                &&& model.project.end_ms == now_ms + 43200000
                &&& model.project.sensor1_name@.len() == 0
                &&& model.project.sensor2_name@.len() == 0
                &&& model.project.created_at_ms == now_ms
                &&& model.project.updated_at_ms == now_ms
            },
    {
        let project = match project {
            Some(p) => p,
            None => Project::default(now_ms),
        };
        ProjectEdit { title: title.to_owned(), project, errors }
    }

    /// The project has not been stored yet.
    pub fn is_new(&self) -> (b: bool)
        ensures
            b == (self.project.id == 0),
    {
        self.project.is_new()
    }

    /// The form carries validation errors.
    pub fn has_errors(&self) -> (b: bool)
        ensures
            b == (self.errors@.len() > 0),
    {
        self.errors.len() > 0
    }
}

/// The readings feed for one project.
pub struct ProjectReadings {
    pub project: Project,
    pub connected: bool,
    pub readings: Vec<Reading>,
}

impl ProjectReadings {
    /// A project's readings and the link's current state.
    pub fn new(project: Project, connected: bool, readings: Vec<Reading>) -> (model:
        ProjectReadings)
        ensures
            model.project == project,
            model.connected == connected,
            model.readings == readings,
    {
        ProjectReadings { project, connected, readings }
    }
}

} // verus!
