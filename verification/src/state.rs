//! The data model: projects, the admin configuration, the creation counter,
//! and the state that holds the three together.

use crate::project_id::{counter_of, is_issued, project_id_text};
use vstd::prelude::*;

verus! {

/// Where a project stands. Any status may follow any other.
#[derive(Clone, Copy, Debug, PartialEq, Eq, Structural)]
pub enum ProjectStatus {
    Open,
    InProgress,
    Completed,
}

/// One project record.
#[derive(Debug, PartialEq)]
pub struct Project {
    /// Issued by the contract at creation, never supplied by a caller.
    pub id: String,
    pub title: String,
    pub description: String,
    /// The identity that created the project.
    pub owner: String,
    /// In the order in which the creator gave them.
    pub skills_required: Vec<String>,
    pub status: ProjectStatus,
    pub is_paid: bool,
}

/// A project as a mathematical value.
pub struct ProjectView {
    pub id: Seq<char>,
    pub title: Seq<char>,
    pub description: Seq<char>,
    pub owner: Seq<char>,
    pub skills_required: Seq<Seq<char>>,
    pub status: ProjectStatus,
    pub is_paid: bool,
}

/// A list of texts as a sequence of character sequences.
pub open spec fn texts_view(texts: Seq<String>) -> Seq<Seq<char>> {
    texts.map_values(|t: String| t@)
}

impl View for Project {
    type V = ProjectView;

    open spec fn view(&self) -> ProjectView {
        ProjectView {
            id: self.id@,
            title: self.title@,
            description: self.description@,
            owner: self.owner@,
            skills_required: texts_view(self.skills_required@),
            status: self.status,
            is_paid: self.is_paid,
        }
    }
}

impl ProjectView {
    /// This project with another status and nothing else changed.
    pub open spec fn with_status(self, status: ProjectStatus) -> ProjectView {
        ProjectView { status, ..self }
    }
}

/// Copies a list of texts.
pub fn clone_texts(texts: &Vec<String>) -> (copy: Vec<String>)
    ensures
        copy@ == texts@,
{
    let mut copy: Vec<String> = Vec::new();
    let mut i: usize = 0;
    while i < texts.len()
        invariant
            i <= texts.len(),
            copy@ == texts@.subrange(0, i as int),
        decreases texts.len() - i,
    {
        copy.push(texts[i].clone());
        i = i + 1;
        assert(copy@ =~= texts@.subrange(0, i as int));
    }
    assert(copy@ =~= texts@);
    copy
}

impl Clone for Project {
    fn clone(&self) -> (copy: Self)
        ensures
            copy@ == self@,
    {
        Project {
            id: self.id.clone(),
            title: self.title.clone(),
            description: self.description.clone(),
            owner: self.owner.clone(),
            skills_required: clone_texts(&self.skills_required),
            status: self.status,
            is_paid: self.is_paid,
        }
    }
}

/// The contract's configuration, fixed when the contract is set up.
#[derive(Debug, PartialEq)]
pub struct Config {
    /// The identity that may delete any project.
    pub admin: String,
}

impl Clone for Config {
    fn clone(&self) -> (copy: Self)
        ensures
            copy.admin@ == self.admin@,
    {
        Config { admin: self.admin.clone() }
    }
}

/// The three persisted values, held in memory: the collection of live
/// projects in creation order, the configuration, and the number of projects
/// created so far.
#[derive(Debug, PartialEq)]
pub struct State {
    pub projects: Vec<Project>,
    pub config: Config,
    pub project_count: u64,
}

/// A collection of projects as a sequence of mathematical values.
pub open spec fn projects_view(projects: Seq<Project>) -> Seq<ProjectView> {
    projects.map_values(|p: Project| p@)
}

/// The state as a mathematical value.
pub struct StateView {
    pub projects: Seq<ProjectView>,
    pub admin: Seq<char>,
    pub project_count: nat,
}

impl View for State {
    type V = StateView;

    open spec fn view(&self) -> StateView {
        StateView {
            projects: projects_view(self.projects@),
            admin: self.config.admin@,
            project_count: self.project_count as nat,
        }
    }
}

impl StateView {
    /// Every live project carries an id that was issued under a counter value
    /// between one and the current count.
    pub open spec fn ids_issued(self) -> bool {
        forall|i: int|
            0 <= i < self.projects.len() ==> {
                &&& is_issued((#[trigger] self.projects[i]).id)
                &&& 1 <= counter_of(self.projects[i].id) <= self.project_count
            }
    }

    /// The collection is in creation order: a project that stands earlier was
    /// issued under a smaller counter value.
    pub open spec fn in_creation_order(self) -> bool {
        forall|i: int, j: int|
            0 <= i < j < self.projects.len() ==> counter_of((#[trigger] self.projects[i]).id)
                < counter_of((#[trigger] self.projects[j]).id)
    }

    /// The invariant that setting up the contract establishes and every
    /// operation keeps.
    pub open spec fn wf(self) -> bool {
        self.ids_issued() && self.in_creation_order()
    }

    /// The state after a project was created at time `seconds` by `sender`:
    /// the count has grown by one, and the new project, open and owned by
    /// `sender`, stands last, under the id made for the new count.
    pub open spec fn created(
        self,
        seconds: nat,
        sender: Seq<char>,
        title: Seq<char>,
        description: Seq<char>,
        skills_required: Seq<Seq<char>>,
        is_paid: bool,
    ) -> StateView {
        let count = self.project_count + 1;
        let project = ProjectView {
            id: project_id_text(count as nat, seconds, sender),
            title,
            description,
            owner: sender,
            skills_required,
            status: ProjectStatus::Open,
            is_paid,
        };
        StateView { projects: self.projects.push(project), project_count: count as nat, ..self }
    }

    /// The state after the project at position `i` was given the status
    /// `status`.
    pub open spec fn with_status_at(self, i: int, status: ProjectStatus) -> StateView {
        StateView { projects: self.projects.update(i, self.projects[i].with_status(status)), ..self }
    }

    /// The state after the project at position `i` was deleted: the others
    /// keep their order.
    pub open spec fn without(self, i: int) -> StateView {
        StateView { projects: self.projects.remove(i), ..self }
    }

    /// No two live projects share an id.
    pub open spec fn ids_distinct(self) -> bool {
        forall|i: int, j: int|
            0 <= i < self.projects.len() && 0 <= j < self.projects.len() && i != j ==> (
            #[trigger] self.projects[i]).id != (#[trigger] self.projects[j]).id
    }
}

/// Whether some project of the collection has the id `id`.
pub open spec fn contains_id(projects: Seq<ProjectView>, id: Seq<char>) -> bool {
    exists|i: int| 0 <= i < projects.len() && (#[trigger] projects[i]).id == id
}

/// Whether `i` is the position of the first project with the id `id`.
pub open spec fn is_first_match(projects: Seq<ProjectView>, id: Seq<char>, i: int) -> bool {
    &&& 0 <= i < projects.len()
    &&& projects[i].id == id
    &&& forall|j: int| 0 <= j < i ==> (#[trigger] projects[j]).id != id
}

/// The position of the first project with the id `id`, where there is one.
pub open spec fn first_match(projects: Seq<ProjectView>, id: Seq<char>) -> int {
    choose|i: int| is_first_match(projects, id, i)
}

/// Where a collection contains an id, `first_match` is the position of its
/// first occurrence, and no other position is.
pub proof fn lemma_first_match(projects: Seq<ProjectView>, id: Seq<char>)
    requires
        contains_id(projects, id),
    ensures
        is_first_match(projects, id, first_match(projects, id)),
        forall|i: int| is_first_match(projects, id, i) ==> i == first_match(projects, id),
{
    let k = choose|i: int| 0 <= i < projects.len() && (#[trigger] projects[i]).id == id;
    lemma_least_match(projects, id, k);
    let f = first_match(projects, id);
    assert forall|i: int| is_first_match(projects, id, i) implies i == f by {
        if i < f {
            assert(projects[i].id != id);
        } else if f < i {
            assert(projects[f].id != id);
        }
    }
}

/// Below any position that matches there is a first position that matches.
proof fn lemma_least_match(projects: Seq<ProjectView>, id: Seq<char>, k: int)
    requires
        0 <= k < projects.len(),
        projects[k].id == id,
    ensures
        exists|i: int| is_first_match(projects, id, i),
    decreases k,
{
    if exists|j: int| 0 <= j < k && (#[trigger] projects[j]).id == id {
        let j = choose|j: int| 0 <= j < k && (#[trigger] projects[j]).id == id;
        lemma_least_match(projects, id, j);
    } else {
        assert(is_first_match(projects, id, k));
    }
}

/// Finds the first project with the id `id`.
pub fn find_project(projects: &Vec<Project>, id: &String) -> (found: Option<usize>)
    ensures
        match found {
            Some(i) => is_first_match(projects_view(projects@), id@, i as int),
            None => !contains_id(projects_view(projects@), id@),
        },
{
    let mut i: usize = 0;
    while i < projects.len()
        invariant
            i <= projects.len(),
            forall|j: int| 0 <= j < i ==> (#[trigger] projects_view(projects@)[j]).id != id@,
        decreases projects.len() - i,
    {
        if projects[i].id == *id {
            return Some(i);
        }
        i = i + 1;
    }
    None
}

/// The collection that a contract starts with: empty.
pub fn initialize_projects() -> (projects: Vec<Project>)
    ensures
        projects@.len() == 0,
{
    Vec::new()
}

/// The count that a contract starts with: zero.
pub fn initialize_project_count() -> (count: u64)
    ensures
        count == 0,
{
    0
}

} // verus!
