//! The operations that only read the collection of projects.

use crate::error::ContractError;
use crate::state::{
    contains_id, find_project, first_match, lemma_first_match, projects_view, Project,
    ProjectView, State,
};
use vstd::prelude::*;

verus! {

/// What a query answers with.
#[derive(Debug, PartialEq)]
pub enum QueryAnswer {
    /// The project that was asked for.
    Project(Project),
    /// Every live project, in stored order.
    Projects(Vec<Project>),
}

/// What looking a project up returns: the first project with that id, or
/// `ProjectNotFound` where there is none.
pub open spec fn query_project_outcome(
    state: State,
    project_id: String,
    result: Result<Project, ContractError>,
) -> bool {
    match result {
        Ok(project) => {
            &&& contains_id(state@.projects, project_id@)
            &&& project@ == state@.projects[first_match(state@.projects, project_id@)]
        },
        Err(ContractError::ProjectNotFound(id)) => {
            &&& !contains_id(state@.projects, project_id@)
            &&& id == project_id
        },
        Err(_) => false,
    }
}

/// Whether `listing` is what listing the projects of `state` returns: all of
/// them, in stored order, each as it is stored.
pub open spec fn is_listing_of(state: State, listing: Seq<ProjectView>) -> bool {
    listing =~= state@.projects
}

/// Looks up the project `project_id`.
pub fn query_project(state: &State, project_id: String) -> (result: Result<Project, ContractError>)
    ensures
        query_project_outcome(*state, project_id, result),
{
    match find_project(&state.projects, &project_id) {
        Some(i) => {
            proof {
                lemma_first_match(state@.projects, project_id@);
            }
            Ok(state.projects[i].clone())
        },
        None => Err(ContractError::ProjectNotFound(project_id)),
    }
}

/// Lists every live project, in stored order.
pub fn query_list_projects(state: &State) -> (listing: Vec<Project>)
    ensures
        is_listing_of(*state, projects_view(listing@)),
{
    let mut listing: Vec<Project> = Vec::new();
    let mut i: usize = 0;
    while i < state.projects.len()
        invariant
            i <= state.projects.len(),
            listing@.len() == i,
            projects_view(listing@) == state@.projects.subrange(0, i as int),
        decreases state.projects.len() - i,
    {
        let ghost before = listing@;
        listing.push(state.projects[i].clone());
        i = i + 1;
        assert forall|k: int| 0 <= k < i implies projects_view(listing@)[k]
            == state@.projects[k] by {
            if k < i - 1 {
                assert(projects_view(before)[k] == state@.projects.subrange(0, i - 1)[k]);
            }
        }
        assert(projects_view(listing@) =~= state@.projects.subrange(0, i as int));
    }
    assert(projects_view(listing@) =~= state@.projects);
    listing
}

} // verus!
