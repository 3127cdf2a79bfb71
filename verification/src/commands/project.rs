//! Commands on the project of a session.

use vstd::prelude::*;
use vstd::string::*;
use crate::state::AppState;
use crate::types::Project;
use crate::types::project::{is_hyphenated, new_project_view};

verus! {

/// Starts a new, empty project of the given name with a fresh id, makes it
/// the session's project and returns a copy of it.
pub fn new_project(state: &mut AppState, name: String) -> (project: Project)
    ensures
        project@ == new_project_view(project@.id, name@),
        is_hyphenated(project@.id),
        final(state).project matches Some(p) && p@ == project@,
        final(state).current_cue_index == old(state).current_cue_index,
{
    let project = Project::named(name);
    let copy = project.clone();
    state.project = Some(project);
    copy
}

/// A copy of the session's project, if it has one.
pub fn get_project(state: &AppState) -> (project: Option<Project>)
    ensures
        match state.project {
            Some(p) => project matches Some(q) && q@ == p@,
            None => project is None,
        },
{
    match &state.project {
        Some(p) => Some(p.clone()),
        None => None,
    }
}

/// Replaces the session's project.
pub fn update_project(state: &mut AppState, project: Project)
    ensures
        final(state).project == Some(project),
        final(state).current_cue_index == old(state).current_cue_index,
{
    state.project = Some(project);
}

/// The project that was read from a file becomes the session's project; a
/// copy of it is returned.
pub fn load_project(state: &mut AppState, project: Project) -> (copy: Project)
    ensures
        copy@ == project@,
        final(state).project == Some(project),
{
    let copy = project.clone();
    state.project = Some(project);
    copy
}

/// What is to be saved where: the session's project and the path. Without a
/// project or without a path nothing can be saved.
pub fn save_project(state: &AppState, path: Option<String>) -> (target: Result<
    (Project, String),
    String,
>)
    ensures
        match target {
            Ok((project, to)) => state.project matches Some(p) && project@ == p@ && path == Some(
                to,
            ),
            Err(e) => if state.project is None {
                e@ == "No project to save"@
            } else {
                path is None && e@ == "No path specified"@
            },
        },
{
    let project = match &state.project {
        Some(p) => p,
        None => {
            return Err(String::from_str("No project to save"));
        },
    };
    match path {
        Some(to) => Ok((project.clone(), to)),
        None => Err(String::from_str("No path specified")),
    }
}

} // verus!
