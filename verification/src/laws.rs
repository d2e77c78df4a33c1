//! What holds of the operations taken together: the invariant of the state,
//! and what follows from it.

use crate::error::ContractError;
use crate::execute_outcome;
use crate::execute::{
    delete_project_outcome, request_collaboration_outcome, update_project_status_outcome,
};
use crate::msg::ExecuteMsg;
use crate::project_id::{counter_of, is_issued, lemma_project_id_issued, project_id_text};
use crate::query::{is_listing_of, query_project_outcome};
use crate::state::{
    contains_id, first_match, is_first_match, lemma_first_match, Project, ProjectStatus,
    ProjectView, State, StateView,
};
use cosmwasm_std::{Empty, Response};
use vstd::prelude::*;

verus! {

/// A contract that was just set up satisfies the invariant.
pub proof fn lemma_fresh_state_wf(admin: Seq<char>)
    ensures
        (StateView { projects: Seq::<ProjectView>::empty(), admin, project_count: 0 }).wf(),
{
}

/// Creating a project keeps the invariant.
pub proof fn lemma_create_keeps_wf(
    s: StateView,
    seconds: nat,
    sender: Seq<char>,
    title: Seq<char>,
    description: Seq<char>,
    skills_required: Seq<Seq<char>>,
    is_paid: bool,
)
    requires
        s.wf(),
    ensures
        s.created(seconds, sender, title, description, skills_required, is_paid).wf(),
{
    let t = s.created(seconds, sender, title, description, skills_required, is_paid);
    let n = s.projects.len() as int;
    lemma_project_id_issued(s.project_count + 1, seconds, sender);
    assert(t.projects[n].id == project_id_text(s.project_count + 1, seconds, sender));
    assert forall|i: int| 0 <= i < t.projects.len() implies {
        &&& is_issued((#[trigger] t.projects[i]).id)
        &&& 1 <= counter_of(t.projects[i].id) <= t.project_count
    } by {
        if i < n {
            assert(t.projects[i] == s.projects[i]);
        }
    }
    assert forall|i: int, j: int| 0 <= i < j < t.projects.len() implies counter_of(
        (#[trigger] t.projects[i]).id,
    ) < counter_of((#[trigger] t.projects[j]).id) by {
        assert(t.projects[i] == s.projects[i]);
        if j < n {
            assert(t.projects[j] == s.projects[j]);
        }
    }
}

/// Changing a status keeps the invariant.
pub proof fn lemma_status_keeps_wf(s: StateView, i: int, status: ProjectStatus)
    requires
        s.wf(),
        0 <= i < s.projects.len(),
    ensures
        s.with_status_at(i, status).wf(),
{
    let t = s.with_status_at(i, status);
    assert forall|k: int| 0 <= k < t.projects.len() implies (#[trigger] t.projects[k]).id
        == s.projects[k].id by {}
    assert forall|k: int| 0 <= k < t.projects.len() implies {
        &&& is_issued((#[trigger] t.projects[k]).id)
        &&& 1 <= counter_of(t.projects[k].id) <= t.project_count
    } by {
        assert(t.projects[k].id == s.projects[k].id);
    }
    assert forall|k: int, l: int| 0 <= k < l < t.projects.len() implies counter_of(
        (#[trigger] t.projects[k]).id,
    ) < counter_of((#[trigger] t.projects[l]).id) by {
        assert(t.projects[k].id == s.projects[k].id);
        assert(t.projects[l].id == s.projects[l].id);
    }
}

/// Deleting a project keeps the invariant.
pub proof fn lemma_delete_keeps_wf(s: StateView, i: int)
    requires
        s.wf(),
        0 <= i < s.projects.len(),
    ensures
        s.without(i).wf(),
{
    let t = s.without(i);
    assert forall|k: int| 0 <= k < t.projects.len() implies {
        &&& is_issued((#[trigger] t.projects[k]).id)
        &&& 1 <= counter_of(t.projects[k].id) <= t.project_count
    } by {
        if k < i {
            assert(t.projects[k] == s.projects[k]);
        } else {
            assert(t.projects[k] == s.projects[k + 1]);
        }
    }
    assert forall|k: int, l: int| 0 <= k < l < t.projects.len() implies counter_of(
        (#[trigger] t.projects[k]).id,
    ) < counter_of((#[trigger] t.projects[l]).id) by {
        let k0 = if k < i { k } else { k + 1 };
        let l0 = if l < i { l } else { l + 1 };
        assert(t.projects[k] == s.projects[k0]);
        assert(t.projects[l] == s.projects[l0]);
    }
}

/// Under the invariant no two live projects share an id.
pub proof fn lemma_wf_ids_distinct(s: StateView)
    requires
        s.wf(),
    ensures
        s.ids_distinct(),
{
    assert forall|i: int, j: int|
        0 <= i < s.projects.len() && 0 <= j < s.projects.len() && i != j implies (
    #[trigger] s.projects[i]).id != (#[trigger] s.projects[j]).id by {
        if i < j {
            assert(counter_of(s.projects[i].id) < counter_of(s.projects[j].id));
        } else {
            assert(counter_of(s.projects[j].id) < counter_of(s.projects[i].id));
        }
    }
}

/// Under the invariant a deleted project is gone: no project that remains has
/// its id.
pub proof fn lemma_deleted_is_absent(s: StateView, id: Seq<char>, i: int)
    requires
        s.wf(),
        is_first_match(s.projects, id, i),
    ensures
        !contains_id(s.without(i).projects, id),
{
    lemma_wf_ids_distinct(s);
    let t = s.without(i);
    assert forall|k: int| 0 <= k < t.projects.len() implies (#[trigger] t.projects[k]).id
        != id by {
        if k < i {
            assert(t.projects[k] == s.projects[k]);
        } else {
            assert(t.projects[k] == s.projects[k + 1]);
            assert(s.projects[k + 1].id != s.projects[i].id);
        }
    }
}

/// What one creation is asked with.
pub struct CreateRequest {
    pub seconds: nat,
    pub sender: Seq<char>,
    pub title: Seq<char>,
    pub description: Seq<char>,
    pub skills_required: Seq<Seq<char>>,
    pub is_paid: bool,
}

/// The state after the creations `requests`, carried out in their order.
pub open spec fn after_creations(s: StateView, requests: Seq<CreateRequest>) -> StateView
    decreases requests.len(),
{
    if requests.len() == 0 {
        s
    } else {
        let r = requests.last();
        after_creations(s, requests.drop_last()).created(
            r.seconds,
            r.sender,
            r.title,
            r.description,
            r.skills_required,
            r.is_paid,
        )
    }
}

/// However many projects are created one after another, and whatever the
/// times and the senders are, even where they are all the same, no two live
/// projects share an id.
pub proof fn lemma_creations_keep_ids_distinct(s: StateView, requests: Seq<CreateRequest>)
    requires
        s.wf(),
    ensures
        after_creations(s, requests).wf(),
        after_creations(s, requests).ids_distinct(),
        after_creations(s, requests).projects.len() == s.projects.len() + requests.len(),
    decreases requests.len(),
{
    if requests.len() > 0 {
        let r = requests.last();
        lemma_creations_keep_ids_distinct(s, requests.drop_last());
        lemma_create_keeps_wf(
            after_creations(s, requests.drop_last()),
            r.seconds,
            r.sender,
            r.title,
            r.description,
            r.skills_required,
            r.is_paid,
        );
    }
    lemma_wf_ids_distinct(after_creations(s, requests));
}

/// For a project that exists, updating its status succeeds if and only if
/// the sender owns it. For any other sender it fails with `Unauthorized` and
/// the state stays as it was.
pub proof fn lemma_update_succeeds_iff_owner(
    pre: State,
    post: State,
    sender: String,
    project_id: String,
    status: ProjectStatus,
    result: Result<Response<Empty>, ContractError>,
)
    requires
        update_project_status_outcome(pre, post, sender, project_id, status, result),
        contains_id(pre@.projects, project_id@),
    ensures
        result is Ok <==> pre@.projects[first_match(pre@.projects, project_id@)].owner == sender@,
        result is Err ==> result == Err::<Response<Empty>, ContractError>(
            ContractError::Unauthorized {  },
        ) && post == pre,
{
}

/// For a project that exists, deleting it succeeds if and only if the sender
/// is the admin or the owner. After a success on a state that satisfies the
/// invariant, no project that remains has the id, and the others stand as
/// before: those ahead of the deleted one at their positions, those behind it
/// one position earlier.
pub proof fn lemma_delete_succeeds_iff_admin_or_owner(
    pre: State,
    post: State,
    sender: String,
    project_id: String,
    result: Result<Response<Empty>, ContractError>,
)
    requires
        delete_project_outcome(pre, post, sender, project_id, result),
        contains_id(pre@.projects, project_id@),
    ensures
        result is Ok <==> (sender@ == pre@.admin || pre@.projects[first_match(
            pre@.projects,
            project_id@,
        )].owner == sender@),
        result is Err ==> result == Err::<Response<Empty>, ContractError>(
            ContractError::Unauthorized {  },
        ) && post == pre,
        result is Ok && pre@.wf() ==> !contains_id(post@.projects, project_id@),
        result is Ok ==> {
            let i = first_match(pre@.projects, project_id@);
            &&& post@.projects.len() == pre@.projects.len() - 1
            &&& forall|k: int| 0 <= k < i ==> post@.projects[k] == pre@.projects[k]
            &&& forall|k: int|
                i <= k < post@.projects.len() ==> post@.projects[k] == pre@.projects[k + 1]
        },
{
    lemma_first_match(pre@.projects, project_id@);
}

/// Where no project has the id, looking it up, updating its status, deleting
/// it and asking for a collaboration on it all fail with `ProjectNotFound`,
/// and the state stays as it was.
pub proof fn lemma_missing_project_is_reported(
    pre: State,
    sender: String,
    project_id: String,
    status: ProjectStatus,
    collaborator: String,
    after_update: State,
    updated: Result<Response<Empty>, ContractError>,
    after_delete: State,
    deleted: Result<Response<Empty>, ContractError>,
    requested: Result<Response<Empty>, ContractError>,
    looked_up: Result<Project, ContractError>,
)
    requires
        !contains_id(pre@.projects, project_id@),
        update_project_status_outcome(pre, after_update, sender, project_id, status, updated),
        delete_project_outcome(pre, after_delete, sender, project_id, deleted),
        request_collaboration_outcome(pre, sender, project_id, collaborator, requested),
        query_project_outcome(pre, project_id, looked_up),
    ensures
        updated == Err::<Response<Empty>, ContractError>(
            ContractError::ProjectNotFound(project_id),
        ),
        after_update == pre,
        deleted == Err::<Response<Empty>, ContractError>(
            ContractError::ProjectNotFound(project_id),
        ),
        after_delete == pre,
        requested == Err::<Response<Empty>, ContractError>(
            ContractError::ProjectNotFound(project_id),
        ),
        looked_up == Err::<Project, ContractError>(ContractError::ProjectNotFound(project_id)),
{
}

/// Whether `after` is `before` with, at most, another status.
pub open spec fn same_but_status(before: ProjectView, after: ProjectView) -> bool {
    before.with_status(after.status) == after
}

/// Whether `project` stood in `before`, with any status.
pub open spec fn carried_over(before: Seq<ProjectView>, project: ProjectView) -> bool {
    exists|j: int| 0 <= j < before.len() && same_but_status(#[trigger] before[j], project)
}

/// What no operation changes. The admin stays. The count grows by one with
/// every creation and never otherwise. Every project that is live after an
/// operation was either live before it, with the same id, title,
/// description, owner, skills and flag, or is the one just created.
pub proof fn lemma_execute_keeps_what_is_fixed(
    pre: State,
    post: State,
    seconds: u64,
    sender: String,
    msg: ExecuteMsg,
    result: Result<Response<Empty>, ContractError>,
)
    requires
        execute_outcome(pre, post, seconds, sender, msg, result),
    ensures
        post@.admin == pre@.admin,
        msg is CreateProject ==> post@.project_count == pre@.project_count + 1,
        !(msg is CreateProject) ==> post@.project_count == pre@.project_count,
        forall|k: int|
            0 <= k < post@.projects.len() ==> {
                ||| msg is CreateProject && k == post@.projects.len() - 1
                ||| carried_over(pre@.projects, #[trigger] post@.projects[k])
            },
{
    assert forall|k: int| 0 <= k < post@.projects.len() implies {
        ||| msg is CreateProject && k == post@.projects.len() - 1
        ||| carried_over(pre@.projects, #[trigger] post@.projects[k])
    } by {
        match msg {
            ExecuteMsg::CreateProject { .. } => {
                if k < post@.projects.len() - 1 {
                    assert(same_but_status(pre@.projects[k], post@.projects[k]));
                }
            },
            ExecuteMsg::DeleteProject { project_id } => {
                if result is Ok {
                    let i = first_match(pre@.projects, project_id@);
                    lemma_first_match(pre@.projects, project_id@);
                    if k < i {
                        assert(same_but_status(pre@.projects[k], post@.projects[k]));
                    } else {
                        assert(same_but_status(pre@.projects[k + 1], post@.projects[k]));
                    }
                } else {
                    assert(same_but_status(pre@.projects[k], post@.projects[k]));
                }
            },
            ExecuteMsg::UpdateProjectStatus { project_id, status } => {
                if result is Ok {
                    lemma_first_match(pre@.projects, project_id@);
                }
                assert(same_but_status(pre@.projects[k], post@.projects[k]));
            },
            ExecuteMsg::RequestCollaboration { .. } => {
                assert(same_but_status(pre@.projects[k], post@.projects[k]));
            },
        }
    }
}

/// Listing the projects of one state twice gives the same listing.
pub proof fn lemma_listing_is_repeatable(
    state: State,
    first: Seq<ProjectView>,
    second: Seq<ProjectView>,
)
    requires
        is_listing_of(state, first),
        is_listing_of(state, second),
    ensures
        first == second,
{
}

} // verus!
