use cosmwasm_std::Attribute;
use project_management::error::ContractError;
use project_management::msg::{ExecuteMsg, InstantiateMsg, QueryMsg};
use project_management::query::QueryAnswer;
use project_management::state::{
    initialize_project_count, initialize_projects, Config, ProjectStatus, State,
};
use project_management::{execute, query};

fn text(s: &str) -> String {
    s.to_string()
}

fn started() -> State {
    State {
        projects: initialize_projects(),
        config: Config { admin: text("carol") },
        project_count: initialize_project_count(),
    }
}

fn create(state: &mut State, sender: &str, title: &str) -> String {
    let msg = ExecuteMsg::CreateProject {
        title: text(title),
        description: text("d"),
        skills_required: vec![text("go")],
        is_paid: true,
    };
    execute(state, 10, text(sender), msg).unwrap().attributes[1].value.clone()
}

#[test]
fn the_initial_slots_are_empty_and_zero() {
    assert!(initialize_projects().is_empty());
    assert_eq!(initialize_project_count(), 0);
}

#[test]
fn instantiate_msg_carries_an_optional_admin() {
    let with = InstantiateMsg { admin: Some(text("carol")) };
    let without = InstantiateMsg { admin: None };
    assert_ne!(with, without);
    assert_eq!(with.clone().admin, Some(text("carol")));
}

#[test]
fn execute_routes_create() {
    let mut state = started();
    let id = create(&mut state, "alice", "one");
    assert_eq!(id, "proj-1-10-alice");
    assert_eq!(state.project_count, 1);
    assert_eq!(state.projects[0].owner, "alice");
    assert_eq!(state.projects[0].skills_required, vec![text("go")]);
}

#[test]
fn execute_routes_update() {
    let mut state = started();
    let id = create(&mut state, "alice", "one");
    let msg = ExecuteMsg::UpdateProjectStatus {
        project_id: id.clone(),
        status: ProjectStatus::InProgress,
    };
    assert_eq!(
        execute(&mut state, 11, text("bob"), msg.clone()),
        Err(ContractError::Unauthorized {})
    );
    let response = execute(&mut state, 11, text("alice"), msg).unwrap();
    assert_eq!(response.attributes[0], Attribute::new("method", "update_project_status"));
    assert_eq!(state.projects[0].status, ProjectStatus::InProgress);
}

#[test]
fn execute_routes_collaboration() {
    let mut state = started();
    let id = create(&mut state, "alice", "one");
    let msg =
        ExecuteMsg::RequestCollaboration { project_id: id.clone(), collaborator: text("erin") };
    let response = execute(&mut state, 12, text("bob"), msg).unwrap();
    assert_eq!(
        response.attributes,
        vec![
            Attribute::new("method", "request_collaboration"),
            Attribute::new("project_id", id),
            Attribute::new("requester", "bob"),
            Attribute::new("collaborator", "erin"),
        ]
    );
    assert_eq!(state.projects.len(), 1);
    let missing =
        ExecuteMsg::RequestCollaboration { project_id: text("x"), collaborator: text("erin") };
    assert_eq!(
        execute(&mut state, 12, text("bob"), missing),
        Err(ContractError::ProjectNotFound(text("x")))
    );
}

#[test]
fn execute_routes_delete() {
    let mut state = started();
    let id = create(&mut state, "alice", "one");
    let msg = ExecuteMsg::DeleteProject { project_id: id };
    assert_eq!(
        execute(&mut state, 13, text("bob"), msg.clone()),
        Err(ContractError::Unauthorized {})
    );
    let response = execute(&mut state, 13, text("alice"), msg.clone()).unwrap();
    assert_eq!(response.attributes[2], Attribute::new("deleted_by", "owner"));
    assert!(state.projects.is_empty());
    assert!(matches!(
        execute(&mut state, 13, text("alice"), msg),
        Err(ContractError::ProjectNotFound(_))
    ));
}

#[test]
fn query_routes_both_lookups() {
    let mut state = started();
    let first = create(&mut state, "alice", "one");
    let second = create(&mut state, "bob", "two");

    match query(&state, QueryMsg::GetProject { project_id: second.clone() }) {
        Ok(QueryAnswer::Project(project)) => {
            assert_eq!(project.id, second);
            assert_eq!(project.title, "two");
        }
        other => panic!("unexpected answer: {:?}", other),
    }
    match query(&state, QueryMsg::ListProjects {}) {
        Ok(QueryAnswer::Projects(listing)) => {
            let ids: Vec<String> = listing.into_iter().map(|p| p.id).collect();
            assert_eq!(ids, vec![first, second]);
        }
        other => panic!("unexpected answer: {:?}", other),
    }
    assert_eq!(
        query(&state, QueryMsg::GetProject { project_id: text("nope") }),
        Err(ContractError::ProjectNotFound(text("nope")))
    );
}
