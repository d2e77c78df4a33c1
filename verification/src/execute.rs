//! The operations that change the collection of projects, and the one that
//! only asks for a collaboration.
//!
//! Each takes the identity of the caller as the host established it. What an
//! operation guarantees is written once, as a relation between the state
//! before, the state after, the arguments and the result. On failure the
//! state is left exactly as it was.

use crate::error::ContractError;
use crate::laws::{
    lemma_create_keeps_wf, lemma_delete_keeps_wf, lemma_deleted_is_absent, lemma_status_keeps_wf,
};
use crate::project_id::{make_project_id, project_id_text};
use crate::response::{add_attribute, new_response, response_attributes, response_is_plain};
use crate::state::{
    contains_id, find_project, first_match, lemma_first_match, texts_view, Project,
    ProjectStatus, State,
};
use cosmwasm_std::{Empty, Response};
use vstd::prelude::*;

verus! {

/// How a flag is written in an attribute.
pub open spec fn flag_text(flag: bool) -> Seq<char> {
    if flag {
        "true"@
    } else {
        "false"@
    }
}

/// How the path by which a deletion was authorized is written in an
/// attribute. The admin path takes precedence.
pub open spec fn deleter_text(is_admin: bool) -> Seq<char> {
    if is_admin {
        "admin"@
    } else {
        "owner"@
    }
}

/// What creating a project does. It always succeeds: the new project stands
/// last in the collection, the count has grown by one, and the response
/// names the new id and the flag.
pub open spec fn create_project_outcome(
    pre: State,
    post: State,
    seconds: u64,
    sender: String,
    title: String,
    description: String,
    skills_required: Vec<String>,
    is_paid: bool,
    result: Result<Response<Empty>, ContractError>,
) -> bool {
    &&& post@ =~= pre@.created(
        seconds as nat,
        sender@,
        title@,
        description@,
        texts_view(skills_required@),
        is_paid,
    )
    &&& pre@.wf() ==> post@.wf()
    &&& result matches Ok(response)
    &&& response_is_plain(response)
    &&& response_attributes(response) =~= seq![
        ("method"@, "create_project"@),
        ("project_id"@, project_id_text(pre@.project_count + 1, seconds as nat, sender@)),
        ("is_paid"@, flag_text(is_paid)),
    ]
}

/// What updating a status does. It succeeds exactly where the project exists
/// and the sender owns it, and then changes the status and nothing else.
/// Without such a project it fails with `ProjectNotFound`, for any other
/// sender with `Unauthorized`.
pub open spec fn update_project_status_outcome(
    pre: State,
    post: State,
    sender: String,
    project_id: String,
    status: ProjectStatus,
    result: Result<Response<Empty>, ContractError>,
) -> bool {
    let i = first_match(pre@.projects, project_id@);
    &&& pre@.wf() ==> post@.wf()
    &&& match result {
        Ok(response) => {
            &&& contains_id(pre@.projects, project_id@)
            &&& pre@.projects[i].owner == sender@
            &&& post@ =~= pre@.with_status_at(i, status)
            &&& response_is_plain(response)
            &&& response_attributes(response) =~= seq![
                ("method"@, "update_project_status"@),
                ("project_id"@, project_id@),
            ]
        },
        Err(ContractError::ProjectNotFound(id)) => {
            &&& !contains_id(pre@.projects, project_id@)
            &&& id == project_id
            &&& post == pre
        },
        Err(ContractError::Unauthorized {  }) => {
            &&& contains_id(pre@.projects, project_id@)
            &&& pre@.projects[i].owner != sender@
            &&& post == pre
        },
        Err(_) => false,
    }
}

/// What asking for a collaboration does. It succeeds exactly where the
/// project exists, and then reports the request. Nothing is stored.
pub open spec fn request_collaboration_outcome(
    state: State,
    sender: String,
    project_id: String,
    collaborator: String,
    result: Result<Response<Empty>, ContractError>,
) -> bool {
    match result {
        Ok(response) => {
            &&& contains_id(state@.projects, project_id@)
            &&& response_is_plain(response)
            &&& response_attributes(response) =~= seq![
                ("method"@, "request_collaboration"@),
                ("project_id"@, project_id@),
                ("requester"@, sender@),
                ("collaborator"@, collaborator@),
            ]
        },
        Err(ContractError::ProjectNotFound(id)) => {
            &&& !contains_id(state@.projects, project_id@)
            &&& id == project_id
        },
        Err(_) => false,
    }
}

/// What deleting a project does. It succeeds exactly where the project
/// exists and the sender is the admin or the owner, and then removes the
/// project and keeps the others in their order. Without such a project it
/// fails with `ProjectNotFound`, for any other sender with `Unauthorized`.
/// Under the invariant of the state no project with that id remains.
pub open spec fn delete_project_outcome(
    pre: State,
    post: State,
    sender: String,
    project_id: String,
    result: Result<Response<Empty>, ContractError>,
) -> bool {
    let i = first_match(pre@.projects, project_id@);
    let is_admin = sender@ == pre@.admin;
    let is_owner = pre@.projects[i].owner == sender@;
    &&& pre@.wf() ==> post@.wf()
    &&& match result {
        Ok(response) => {
            &&& contains_id(pre@.projects, project_id@)
            &&& is_admin || is_owner
            &&& post@ =~= pre@.without(i)
            &&& pre@.wf() ==> !contains_id(post@.projects, project_id@)
            &&& response_is_plain(response)
            &&& response_attributes(response) =~= seq![
                ("method"@, "delete_project"@),
                ("project_id"@, project_id@),
                ("deleted_by"@, deleter_text(is_admin)),
            ]
        },
        Err(ContractError::ProjectNotFound(id)) => {
            &&& !contains_id(pre@.projects, project_id@)
            &&& id == project_id
            &&& post == pre
        },
        Err(ContractError::Unauthorized {  }) => {
            &&& contains_id(pre@.projects, project_id@)
            &&& !is_admin
            &&& !is_owner
            &&& post == pre
        },
        Err(_) => false,
    }
}

/// Creates a project owned by `sender`, at time `seconds`, and appends it to
/// the collection. The project is open, and its id is made from the new
/// count, the time and the sender.
pub fn create_project(
    state: &mut State,
    seconds: u64,
    sender: String,
    title: String,
    description: String,
    skills_required: Vec<String>,
    is_paid: bool,
) -> (result: Result<Response<Empty>, ContractError>)
    requires
        old(state).project_count < u64::MAX,
    ensures
        create_project_outcome(
            *old(state),
            *final(state),
            seconds,
            sender,
            title,
            description,
            skills_required,
            is_paid,
            result,
        ),
{
    let new_count = state.project_count + 1;
    let project_id = make_project_id(new_count, seconds, sender.as_str());
    let project = Project {
        id: project_id.clone(),
        title,
        description,
        owner: sender,
        skills_required,
        status: ProjectStatus::Open,
        is_paid,
    };
    state.projects.push(project);
    state.project_count = new_count;
    proof {
        assert(state@.projects =~= old(state)@.projects.push(project@));
        if old(state)@.wf() {
            lemma_create_keeps_wf(
                old(state)@,
                seconds as nat,
                sender@,
                title@,
                description@,
                texts_view(skills_required@),
                is_paid,
            );
        }
        reveal_strlit("method");
        reveal_strlit("project_id");
        reveal_strlit("is_paid");
    }
    let response = new_response();
    let response = add_attribute(response, "method", "create_project");
    let response = add_attribute(response, "project_id", project_id.as_str());
    let response = add_attribute(response, "is_paid", if is_paid { "true" } else { "false" });
    Ok(response)
}

/// Gives the project `project_id` the status `status`. Only the owner of the
/// project may do so. Any status may replace any other.
pub fn update_project_status(
    state: &mut State,
    sender: String,
    project_id: String,
    status: ProjectStatus,
) -> (result: Result<Response<Empty>, ContractError>)
    ensures
        update_project_status_outcome(
            *old(state),
            *final(state),
            sender,
            project_id,
            status,
            result,
        ),
{
    let i = match find_project(&state.projects, &project_id) {
        Some(i) => i,
        None => {
            return Err(ContractError::ProjectNotFound(project_id));
        },
    };
    proof {
        lemma_first_match(old(state)@.projects, project_id@);
    }
    if state.projects[i].owner != sender {
        return Err(ContractError::Unauthorized {  });
    }
    state.projects[i].status = status;
    proof {
        assert(state@.projects =~= old(state)@.projects.update(
            i as int,
            old(state)@.projects[i as int].with_status(status),
        ));
        if old(state)@.wf() {
            lemma_status_keeps_wf(old(state)@, i as int, status);
        }
        reveal_strlit("method");
        reveal_strlit("project_id");
    }
    let response = new_response();
    let response = add_attribute(response, "method", "update_project_status");
    let response = add_attribute(response, "project_id", project_id.as_str());
    Ok(response)
}

/// Records that `sender` asks for `collaborator` to work on the project
/// `project_id`. Nothing is stored: the request is only reported in the
/// response, and only for a project that exists.
pub fn request_collaboration(
    state: &State,
    sender: String,
    project_id: String,
    collaborator: String,
) -> (result: Result<Response<Empty>, ContractError>)
    ensures
        request_collaboration_outcome(*state, sender, project_id, collaborator, result),
{
    if find_project(&state.projects, &project_id).is_none() {
        return Err(ContractError::ProjectNotFound(project_id));
    }
    proof {
        reveal_strlit("method");
        reveal_strlit("project_id");
        reveal_strlit("requester");
        reveal_strlit("collaborator");
    }
    let response = new_response();
    let response = add_attribute(response, "method", "request_collaboration");
    let response = add_attribute(response, "project_id", project_id.as_str());
    let response = add_attribute(response, "requester", sender.as_str());
    let response = add_attribute(response, "collaborator", collaborator.as_str());
    Ok(response)
}

/// Deletes the project `project_id`. The admin may delete any project, an
/// owner their own. The projects that remain keep their order.
pub fn delete_project(state: &mut State, sender: String, project_id: String) -> (result: Result<
    Response<Empty>,
    ContractError,
>)
    ensures
        delete_project_outcome(*old(state), *final(state), sender, project_id, result),
{
    let i = match find_project(&state.projects, &project_id) {
        Some(i) => i,
        None => {
            return Err(ContractError::ProjectNotFound(project_id));
        },
    };
    proof {
        lemma_first_match(old(state)@.projects, project_id@);
    }
    let is_admin = sender == state.config.admin;
    let is_owner = state.projects[i].owner == sender;
    if !is_admin && !is_owner {
        return Err(ContractError::Unauthorized {  });
    }
    state.projects.remove(i);
    proof {
        assert(state@.projects =~= old(state)@.projects.remove(i as int));
        if old(state)@.wf() {
            lemma_delete_keeps_wf(old(state)@, i as int);
            lemma_deleted_is_absent(old(state)@, project_id@, i as int);
        }
        reveal_strlit("method");
        reveal_strlit("project_id");
        reveal_strlit("deleted_by");
    }
    let response = new_response();
    let response = add_attribute(response, "method", "delete_project");
    let response = add_attribute(response, "project_id", project_id.as_str());
    let response = add_attribute(response, "deleted_by", if is_admin { "admin" } else { "owner" });
    Ok(response)
}

} // verus!
