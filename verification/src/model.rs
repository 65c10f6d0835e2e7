//! The entities of the issue tracker, as fetched: read-only snapshots.

use vstd::prelude::*;

verus! {

/// The views of a run of values, one for one.
pub open spec fn views<T: View>(items: Seq<T>) -> Seq<T::V> {
    Seq::new(items.len(), |i: int| items[i]@)
}

/// A team. Its id is unique; its name need not be.
#[derive(Debug, Clone, PartialEq, Eq)]
pub struct Team {
    pub id: String,
    pub name: String,
}

pub struct TeamView {
    pub id: Seq<char>,
    pub name: Seq<char>,
}

impl View for Team {
    type V = TeamView;

    open spec fn view(&self) -> TeamView {
        TeamView { id: self.id@, name: self.name@ }
    }
}

/// A workflow state, which belongs to the team that `team_id` names.
#[derive(Debug, Clone, PartialEq, Eq)]
pub struct WorkflowState {
    pub name: String,
    pub id: String,
    pub team_id: String,
}

pub struct WorkflowStateView {
    pub name: Seq<char>,
    pub id: Seq<char>,
    pub team_id: Seq<char>,
}

impl View for WorkflowState {
    type V = WorkflowStateView;

    open spec fn view(&self) -> WorkflowStateView {
        WorkflowStateView { name: self.name@, id: self.id@, team_id: self.team_id@ }
    }
}

/// A user; `is_me` marks the one the credential belongs to.
#[derive(Debug, Clone, PartialEq, Eq)]
pub struct User {
    pub id: String,
    pub name: String,
    pub is_me: bool,
}

pub struct UserView {
    pub id: Seq<char>,
    pub name: Seq<char>,
    pub is_me: bool,
}

impl View for User {
    type V = UserView;

    open spec fn view(&self) -> UserView {
        UserView { id: self.id@, name: self.name@, is_me: self.is_me }
    }
}

/// An issue with its team and, where it has them, its state and assignee.
#[derive(Debug, Clone, PartialEq, Eq)]
pub struct Issue {
    pub id: String,
    pub title: String,
    /// The canonical address of the issue, as the server gives it.
    pub url: String,
    pub team: Team,
    pub state: Option<WorkflowState>,
    pub assignee: Option<User>,
}

pub struct IssueView {
    pub id: Seq<char>,
    pub title: Seq<char>,
    pub url: Seq<char>,
    pub team: TeamView,
    pub state: Option<WorkflowStateView>,
    pub assignee: Option<UserView>,
}

impl View for Issue {
    type V = IssueView;

    open spec fn view(&self) -> IssueView {
        IssueView {
            id: self.id@,
            title: self.title@,
            url: self.url@,
            team: self.team@,
            state: match self.state {
                Some(state) => Some(state@),
                None => None,
            },
            assignee: match self.assignee {
                Some(user) => Some(user@),
                None => None,
            },
        }
    }
}

/// The API key, set once when the client is made and only read afterwards.
#[derive(Debug, Clone, PartialEq, Eq)]
pub struct Credential {
    pub api_key: String,
}

impl View for Credential {
    type V = Seq<char>;

    open spec fn view(&self) -> Seq<char> {
        self.api_key@
    }
}

} // verus!
