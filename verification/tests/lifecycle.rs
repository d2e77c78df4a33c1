use cosmwasm_std::{Attribute, Response, StdError};
use project_management::error::ContractError;
use project_management::execute::{
    create_project, delete_project, request_collaboration, update_project_status,
};
use project_management::instantiate;
use project_management::query::{query_list_projects, query_project};
use project_management::state::{Config, Project, ProjectStatus, State};

fn text(s: &str) -> String {
    s.to_string()
}

fn fresh(admin: &str) -> State {
    State { projects: Vec::new(), config: Config { admin: text(admin) }, project_count: 0 }
}

fn add(state: &mut State, seconds: u64, sender: &str, title: &str) -> String {
    let response = create_project(
        state,
        seconds,
        text(sender),
        text(title),
        text("about ") + title,
        vec![text("rust")],
        false,
    )
    .unwrap();
    response.attributes[1].value.clone()
}

fn titles(state: &State) -> Vec<String> {
    query_list_projects(state).into_iter().map(|p| p.title).collect()
}

#[test]
fn build_api_scenario() {
    let (mut state, _) = instantiate(text("carol"), None).unwrap();

    let created = create_project(
        &mut state,
        1_700_000_000,
        text("alice"),
        text("Build API"),
        text("A public API"),
        vec![text("rust"), text("http")],
        true,
    )
    .unwrap();
    let id = created.attributes[1].value.clone();
    let stored = query_project(&state, id.clone()).unwrap();
    assert_eq!(stored.status, ProjectStatus::Open);
    assert_eq!(stored.owner, "alice");
    assert_eq!(stored.title, "Build API");
    assert!(stored.is_paid);

    let by_bob =
        update_project_status(&mut state, text("bob"), id.clone(), ProjectStatus::InProgress);
    assert_eq!(by_bob, Err(ContractError::Unauthorized {}));
    assert_eq!(query_project(&state, id.clone()).unwrap().status, ProjectStatus::Open);

    let by_alice =
        update_project_status(&mut state, text("alice"), id.clone(), ProjectStatus::InProgress);
    assert!(by_alice.is_ok());
    assert_eq!(query_project(&state, id.clone()).unwrap().status, ProjectStatus::InProgress);

    let deleted = delete_project(&mut state, text("carol"), id.clone()).unwrap();
    assert_eq!(deleted.attributes[2], Attribute::new("deleted_by", "admin"));
    assert_eq!(query_project(&state, id.clone()), Err(ContractError::ProjectNotFound(id)));
}

#[test]
fn instantiate_makes_the_sender_admin_by_default() {
    let (state, response) = instantiate(text("alice"), None).unwrap();
    assert_eq!(state, fresh("alice"));
    assert_eq!(response, Response::new().add_attribute("method", "instantiate"));
}

#[test]
fn instantiate_takes_the_validated_admin() {
    let (state, response) = instantiate(text("alice"), Some(Ok(text("carol")))).unwrap();
    assert_eq!(state.config.admin, "carol");
    assert!(state.projects.is_empty());
    assert_eq!(state.project_count, 0);
    assert_eq!(response.attributes, vec![Attribute::new("method", "instantiate")]);
}

#[test]
fn instantiate_hands_on_a_failed_validation() {
    let result = instantiate(text("alice"), Some(Err(StdError::generic_err("bad address"))));
    assert_eq!(result, Err(ContractError::Std(StdError::generic_err("bad address"))));
}

#[test]
fn std_error_converts_into_contract_error() {
    let converted: ContractError = StdError::not_found("config").into();
    assert_eq!(converted, ContractError::Std(StdError::not_found("config")));
}

#[test]
fn create_appends_an_open_project_and_counts() {
    let mut state = fresh("carol");
    let response = create_project(
        &mut state,
        42,
        text("alice"),
        text("Site"),
        text("A web site"),
        vec![text("css"), text("html"), text("css")],
        false,
    )
    .unwrap();
    assert_eq!(state.project_count, 1);
    assert_eq!(
        state.projects,
        vec![Project {
            id: text("proj-1-42-alice"),
            title: text("Site"),
            description: text("A web site"),
            owner: text("alice"),
            skills_required: vec![text("css"), text("html"), text("css")],
            status: ProjectStatus::Open,
            is_paid: false,
        }]
    );
    assert_eq!(state.config.admin, "carol");
    assert_eq!(
        response,
        Response::new()
            .add_attribute("method", "create_project")
            .add_attribute("project_id", "proj-1-42-alice")
            .add_attribute("is_paid", "false")
    );
}

#[test]
fn create_reports_a_paid_project() {
    let mut state = fresh("carol");
    let response =
        create_project(&mut state, 7, text("bob"), text("t"), text("d"), Vec::new(), true)
            .unwrap();
    assert_eq!(
        response.attributes,
        vec![
            Attribute::new("method", "create_project"),
            Attribute::new("project_id", "proj-1-7-bob"),
            Attribute::new("is_paid", "true"),
        ]
    );
    assert!(response.messages.is_empty());
    assert!(response.events.is_empty());
    assert!(response.data.is_none());
    assert!(state.projects[0].is_paid);
}

#[test]
fn ids_differ_under_the_same_time_and_sender() {
    let mut state = fresh("carol");
    let first = add(&mut state, 100, "alice", "one");
    let second = add(&mut state, 100, "alice", "one");
    let third = add(&mut state, 100, "alice", "one");
    assert_eq!(first, "proj-1-100-alice");
    assert_eq!(second, "proj-2-100-alice");
    assert_eq!(third, "proj-3-100-alice");
    assert_eq!(state.project_count, 3);
    let listed: Vec<String> = query_list_projects(&state).into_iter().map(|p| p.id).collect();
    assert_eq!(listed, vec![first, second, third]);
}

#[test]
fn ids_stay_distinct_after_a_deletion() {
    let mut state = fresh("carol");
    let first = add(&mut state, 5, "alice", "one");
    let second = add(&mut state, 5, "alice", "two");
    delete_project(&mut state, text("alice"), second.clone()).unwrap();
    let third = add(&mut state, 5, "alice", "three");
    assert_eq!(third, "proj-3-5-alice");
    assert_ne!(third, second);
    assert_ne!(third, first);
    assert_eq!(state.project_count, 3);
}

#[test]
fn create_works_just_below_the_largest_count() {
    let mut state = fresh("carol");
    state.project_count = u64::MAX - 1;
    let id = add(&mut state, 0, "alice", "last");
    assert_eq!(id, "proj-18446744073709551615-0-alice");
    assert_eq!(state.project_count, u64::MAX);
}

#[test]
fn update_by_the_owner_changes_only_the_status() {
    let mut state = fresh("carol");
    let first = add(&mut state, 1, "alice", "one");
    let second = add(&mut state, 2, "bob", "two");
    let before = query_list_projects(&state);

    let response =
        update_project_status(&mut state, text("bob"), second.clone(), ProjectStatus::Completed)
            .unwrap();
    assert_eq!(
        response,
        Response::new()
            .add_attribute("method", "update_project_status")
            .add_attribute("project_id", second.clone())
    );
    assert_eq!(state.projects[0], before[0]);
    assert_eq!(state.projects[0].id, first);
    assert_eq!(state.projects[1].status, ProjectStatus::Completed);
    assert_eq!(state.projects[1].id, before[1].id);
    assert_eq!(state.projects[1].title, before[1].title);
    assert_eq!(state.projects[1].description, before[1].description);
    assert_eq!(state.projects[1].owner, before[1].owner);
    assert_eq!(state.projects[1].skills_required, before[1].skills_required);
    assert_eq!(state.projects[1].is_paid, before[1].is_paid);
    assert_eq!(state.project_count, 2);
}

#[test]
fn update_allows_any_transition() {
    let mut state = fresh("carol");
    let id = add(&mut state, 1, "alice", "one");
    for status in [
        ProjectStatus::Completed,
        ProjectStatus::Open,
        ProjectStatus::InProgress,
        ProjectStatus::InProgress,
        ProjectStatus::Open,
    ] {
        update_project_status(&mut state, text("alice"), id.clone(), status).unwrap();
        assert_eq!(state.projects[0].status, status);
    }
}

#[test]
fn update_by_another_caller_is_unauthorized_and_changes_nothing() {
    let mut state = fresh("carol");
    let id = add(&mut state, 1, "alice", "one");
    let before = query_list_projects(&state);
    for caller in ["bob", "carol", "alic", "alice ", ""] {
        let result =
            update_project_status(&mut state, text(caller), id.clone(), ProjectStatus::Completed);
        assert_eq!(result, Err(ContractError::Unauthorized {}));
        assert_eq!(state.projects, before);
        assert_eq!(state.project_count, 1);
    }
}

#[test]
fn delete_by_the_owner_keeps_the_order_of_the_rest() {
    let mut state = fresh("carol");
    let _a = add(&mut state, 1, "alice", "a");
    let b = add(&mut state, 2, "bob", "b");
    let _c = add(&mut state, 3, "alice", "c");
    let _d = add(&mut state, 4, "dave", "d");

    let response = delete_project(&mut state, text("bob"), b.clone()).unwrap();
    assert_eq!(
        response,
        Response::new()
            .add_attribute("method", "delete_project")
            .add_attribute("project_id", b.clone())
            .add_attribute("deleted_by", "owner")
    );
    assert_eq!(titles(&state), vec!["a", "c", "d"]);
    assert!(query_list_projects(&state).iter().all(|p| p.id != b));
    assert_eq!(state.project_count, 4);
    assert_eq!(state.config.admin, "carol");
}

#[test]
fn delete_by_the_admin_who_also_owns_reports_admin() {
    let mut state = fresh("carol");
    let id = add(&mut state, 1, "carol", "mine");
    let response = delete_project(&mut state, text("carol"), id).unwrap();
    assert_eq!(response.attributes[2], Attribute::new("deleted_by", "admin"));
    assert!(state.projects.is_empty());
}

#[test]
fn delete_by_a_stranger_is_unauthorized_and_changes_nothing() {
    let mut state = fresh("carol");
    let id = add(&mut state, 1, "alice", "one");
    let before = query_list_projects(&state);
    let result = delete_project(&mut state, text("bob"), id);
    assert_eq!(result, Err(ContractError::Unauthorized {}));
    assert_eq!(state.projects, before);
}

#[test]
fn request_collaboration_reports_and_stores_nothing() {
    let mut state = fresh("carol");
    let id = add(&mut state, 1, "alice", "one");
    let before = query_list_projects(&state);
    let response =
        request_collaboration(&state, text("bob"), id.clone(), text("erin")).unwrap();
    assert_eq!(
        response,
        Response::new()
            .add_attribute("method", "request_collaboration")
            .add_attribute("project_id", id)
            .add_attribute("requester", "bob")
            .add_attribute("collaborator", "erin")
    );
    assert_eq!(state.projects, before);
    assert_eq!(state.project_count, 1);
}

#[test]
fn a_missing_id_is_not_found_and_changes_nothing() {
    let mut state = fresh("carol");
    add(&mut state, 1, "alice", "one");
    let before = query_list_projects(&state);
    let missing = text("proj-9-1-alice");
    let not_found = || ContractError::ProjectNotFound(text("proj-9-1-alice"));

    assert_eq!(query_project(&state, missing.clone()), Err(not_found()));
    assert_eq!(
        update_project_status(&mut state, text("alice"), missing.clone(), ProjectStatus::Open),
        Err(not_found())
    );
    assert_eq!(delete_project(&mut state, text("carol"), missing.clone()), Err(not_found()));
    assert_eq!(
        request_collaboration(&state, text("alice"), missing, text("bob")),
        Err(not_found())
    );
    assert_eq!(state.projects, before);
    assert_eq!(state.project_count, 1);
    assert_eq!(state.config.admin, "carol");
}

#[test]
fn an_empty_collection_finds_nothing() {
    let mut state = fresh("carol");
    assert_eq!(
        delete_project(&mut state, text("carol"), text("")),
        Err(ContractError::ProjectNotFound(text("")))
    );
    assert_eq!(query_list_projects(&state), Vec::new());
}

#[test]
fn lookups_take_the_first_match() {
    let project = |owner: &str, title: &str| Project {
        id: text("same"),
        title: text(title),
        description: text(""),
        owner: text(owner),
        skills_required: Vec::new(),
        status: ProjectStatus::Open,
        is_paid: false,
    };
    let mut state = fresh("carol");
    state.projects = vec![project("alice", "first"), project("bob", "second")];

    assert_eq!(query_project(&state, text("same")).unwrap().title, "first");
    assert_eq!(
        update_project_status(&mut state, text("bob"), text("same"), ProjectStatus::Completed),
        Err(ContractError::Unauthorized {})
    );
    update_project_status(&mut state, text("alice"), text("same"), ProjectStatus::Completed)
        .unwrap();
    assert_eq!(state.projects[0].status, ProjectStatus::Completed);
    assert_eq!(state.projects[1].status, ProjectStatus::Open);
    delete_project(&mut state, text("alice"), text("same")).unwrap();
    assert_eq!(titles(&state), vec!["second"]);
}

#[test]
fn listing_twice_gives_the_same() {
    let mut state = fresh("carol");
    add(&mut state, 1, "alice", "one");
    add(&mut state, 2, "bob", "two");
    let first = query_list_projects(&state);
    let second = query_list_projects(&state);
    assert_eq!(first, second);
    assert_eq!(first, state.projects);
    assert_eq!(first.len(), 2);
}

#[test]
fn query_project_returns_the_stored_record() {
    let mut state = fresh("carol");
    add(&mut state, 1, "alice", "one");
    let id = add(&mut state, 2, "bob", "two");
    let found = query_project(&state, id).unwrap();
    assert_eq!(found, state.projects[1]);
    assert_eq!(found.skills_required, vec![text("rust")]);
    assert_eq!(found.clone(), found);
}
