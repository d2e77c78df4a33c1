//! Verified core of a project-management contract: the data model, the rule
//! that issues project ids, the authorization policy and the operations on
//! the collection of projects.
//!
//! The contract's persisted values are held in a [`state::State`]. The three
//! entry points below take that state and a decoded message, and return what
//! the host is to report. Reading and writing the host's storage, decoding
//! messages and validating addresses are left to the caller.

pub mod error;
pub mod execute;
pub mod laws;
pub mod msg;
pub mod project_id;
pub mod query;
pub mod response;
pub mod state;

use crate::error::ContractError;
use crate::execute::{
    create_project, create_project_outcome, delete_project, delete_project_outcome,
    request_collaboration, request_collaboration_outcome, update_project_status,
    update_project_status_outcome,
};
use crate::msg::{ExecuteMsg, QueryMsg};
use crate::query::{
    is_listing_of, query_list_projects, query_project, query_project_outcome, QueryAnswer,
};
use crate::response::{add_attribute, new_response, response_attributes, response_is_plain};
use crate::state::{
    initialize_project_count, initialize_projects, projects_view, Config, ProjectView, State,
    StateView,
};
use cosmwasm_std::{Empty, Response, StdError};
use vstd::prelude::*;

verus! {

/// What setting the contract up returns. `admin` is what validating the
/// admin named in the message gave, or `None` where the message names none.
/// A failed validation is handed on as it came. Otherwise the state is
/// empty, with the validated admin, or the sender in its place.
pub open spec fn instantiate_outcome(
    sender: String,
    admin: Option<Result<String, StdError>>,
    result: Result<(State, Response<Empty>), ContractError>,
) -> bool {
    match admin {
        Some(Err(error)) => result == Err::<(State, Response<Empty>), ContractError>(
            ContractError::Std(error),
        ),
        _ => {
            let chosen = match admin {
                Some(Ok(validated)) => validated@,
                _ => sender@,
            };
            &&& result matches Ok((state, response))
            &&& state@ =~= StateView {
                projects: Seq::<ProjectView>::empty(),
                admin: chosen,
                project_count: 0,
            }
            &&& state@.wf()
            &&& response_is_plain(response)
            &&& response_attributes(response) =~= seq![("method"@, "instantiate"@)]
        },
    }
}

/// What an operation that may change the state does: what the operation
/// named by the message does.
pub open spec fn execute_outcome(
    pre: State,
    post: State,
    seconds: u64,
    sender: String,
    msg: ExecuteMsg,
    result: Result<Response<Empty>, ContractError>,
) -> bool {
    match msg {
        ExecuteMsg::CreateProject { title, description, skills_required, is_paid } => {
            create_project_outcome(
                pre,
                post,
                seconds,
                sender,
                title,
                description,
                skills_required,
                is_paid,
                result,
            )
        },
        ExecuteMsg::UpdateProjectStatus { project_id, status } => {
            update_project_status_outcome(pre, post, sender, project_id, status, result)
        },
        ExecuteMsg::RequestCollaboration { project_id, collaborator } => {
            &&& request_collaboration_outcome(pre, sender, project_id, collaborator, result)
            &&& post == pre
        },
        ExecuteMsg::DeleteProject { project_id } => {
            delete_project_outcome(pre, post, sender, project_id, result)
        },
    }
}

/// What a query answers: what the lookup named by the message returns.
pub open spec fn query_outcome(
    state: State,
    msg: QueryMsg,
    result: Result<QueryAnswer, ContractError>,
) -> bool {
    match msg {
        QueryMsg::GetProject { project_id } => match result {
            Ok(QueryAnswer::Project(project)) => query_project_outcome(
                state,
                project_id,
                Ok(project),
            ),
            Ok(_) => false,
            Err(error) => query_project_outcome(state, project_id, Err(error)),
        },
        QueryMsg::ListProjects {  } => {
            &&& result matches Ok(QueryAnswer::Projects(listing))
            &&& is_listing_of(state, projects_view(listing@))
        },
    }
}

/// Sets the contract up for `sender`: no projects, a count of zero, and as
/// admin the validated identity that the message named, or `sender` where it
/// named none. `admin` carries what the host's address validation returned
/// for the named identity.
pub fn instantiate(sender: String, admin: Option<Result<String, StdError>>) -> (result: Result<
    (State, Response<Empty>),
    ContractError,
>)
    ensures
        instantiate_outcome(sender, admin, result),
{
    let projects = initialize_projects();
    let project_count = initialize_project_count();
    let admin = match admin {
        None => sender,
        Some(Ok(validated)) => validated,
        Some(Err(error)) => {
            return Err(ContractError::Std(error));
        },
    };
    let state = State { projects, config: Config { admin }, project_count };
    proof {
        assert(state@.projects =~= Seq::<ProjectView>::empty());
        reveal_strlit("method");
    }
    let response = add_attribute(new_response(), "method", "instantiate");
    Ok((state, response))
}

/// Carries out the operation that `msg` names, for the caller `sender`, at
/// the time `seconds`.
pub fn execute(state: &mut State, seconds: u64, sender: String, msg: ExecuteMsg) -> (result: Result<
    Response<Empty>,
    ContractError,
>)
    requires
        msg is CreateProject ==> old(state).project_count < u64::MAX,
    ensures
        execute_outcome(*old(state), *final(state), seconds, sender, msg, result),
{
    match msg {
        ExecuteMsg::CreateProject { title, description, skills_required, is_paid } => {
            create_project(state, seconds, sender, title, description, skills_required, is_paid)
        },
        ExecuteMsg::UpdateProjectStatus { project_id, status } => {
            update_project_status(state, sender, project_id, status)
        },
        ExecuteMsg::RequestCollaboration { project_id, collaborator } => {
            request_collaboration(state, sender, project_id, collaborator)
        },
        ExecuteMsg::DeleteProject { project_id } => delete_project(state, sender, project_id),
    }
}

/// Answers the lookup that `msg` names.
pub fn query(state: &State, msg: QueryMsg) -> (result: Result<QueryAnswer, ContractError>)
    ensures
        query_outcome(*state, msg, result),
{
    match msg {
        QueryMsg::GetProject { project_id } => {
            match query_project(state, project_id) {
                Ok(project) => Ok(QueryAnswer::Project(project)),
                Err(error) => Err(error),
            }
        },
        QueryMsg::ListProjects {  } => Ok(QueryAnswer::Projects(query_list_projects(state))),
    }
}

} // verus!
