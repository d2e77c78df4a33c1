use project_management::project_id::{decimal_string, make_project_id};
use project_management::state::{clone_texts, find_project, Project, ProjectStatus};

fn text(s: &str) -> String {
    s.to_string()
}

fn named(id: &str) -> Project {
    Project {
        id: text(id),
        title: text("t"),
        description: text("d"),
        owner: text("o"),
        skills_required: Vec::new(),
        status: ProjectStatus::Open,
        is_paid: false,
    }
}

#[test]
fn decimal_string_writes_numbers_as_std_does() {
    for n in [0u64, 1, 9, 10, 11, 99, 100, 101, 1_700_000_000, u64::MAX - 1, u64::MAX] {
        assert_eq!(decimal_string(n), n.to_string());
    }
    assert_eq!(decimal_string(0), "0");
    assert_eq!(decimal_string(1_000), "1000");
    assert_eq!(decimal_string(u64::MAX), "18446744073709551615");
}

#[test]
fn project_id_takes_six_characters_of_the_sender() {
    assert_eq!(
        make_project_id(1, 1_700_000_000, "cosmos1qyp8x"),
        "proj-1-1700000000-cosmos"
    );
    assert_eq!(make_project_id(12, 0, "sixsix"), "proj-12-0-sixsix");
    assert_eq!(make_project_id(12, 0, "sevenxx"), "proj-12-0-sevenx");
}

#[test]
fn project_id_takes_a_short_sender_whole() {
    assert_eq!(make_project_id(3, 4, "bob"), "proj-3-4-bob");
    assert_eq!(make_project_id(3, 4, ""), "proj-3-4-");
}

#[test]
fn project_id_counts_characters_not_bytes() {
    assert_eq!(make_project_id(2, 9, "äöüßéèñç"), "proj-2-9-äöüßéè");
}

#[test]
fn project_id_matches_the_formatted_text() {
    for (count, seconds, sender) in
        [(1u64, 0u64, "alice"), (u64::MAX, u64::MAX, "wasm1abcdefgh"), (10, 10, "-10-")]
    {
        let tag: String = sender.chars().take(6).collect();
        assert_eq!(
            make_project_id(count, seconds, sender),
            format!("proj-{}-{}-{}", count, seconds, tag)
        );
    }
}

#[test]
fn project_ids_differ_where_only_the_count_differs() {
    assert_ne!(make_project_id(1, 11, "alice"), make_project_id(11, 1, "alice"));
    assert_ne!(make_project_id(1, 5, "alice"), make_project_id(2, 5, "alice"));
    assert_ne!(make_project_id(1, 1, "-1-1"), make_project_id(1, 1, "1-1"));
}

#[test]
fn find_project_gives_the_first_position() {
    let projects = vec![named("a"), named("b"), named("a"), named("c")];
    assert_eq!(find_project(&projects, &text("a")), Some(0));
    assert_eq!(find_project(&projects, &text("b")), Some(1));
    assert_eq!(find_project(&projects, &text("c")), Some(3));
    assert_eq!(find_project(&projects, &text("d")), None);
    assert_eq!(find_project(&Vec::new(), &text("a")), None);
}

#[test]
fn clone_texts_copies_in_order() {
    let texts = vec![text("b"), text("a"), text("b"), text("")];
    assert_eq!(clone_texts(&texts), texts);
    assert_eq!(clone_texts(&Vec::new()), Vec::<String>::new());
}
