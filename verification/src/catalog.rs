//! The fixed set of GraphQL operations, each with the request body it sends.

use vstd::prelude::*;

verus! {

pub const TEAMS_DOCUMENT: &'static str = "query Teams { teams { nodes { id name } } }";

pub const WORKFLOW_STATES_DOCUMENT: &'static str =
    "query WorkflowStates { workflowStates { nodes { id name team { id } } } }";

pub const CURRENT_USER_DOCUMENT: &'static str = "query CurrentUser { viewer { id name isMe } }";

pub const ASSIGNED_ISSUES_DOCUMENT: &'static str =
    "query AssignedIssues { viewer { assignedIssues { nodes { id title url team { id name } state { id name team { id } } assignee { id name isMe } } } } }";

pub const ISSUE_CREATE_DOCUMENT: &'static str =
    "mutation IssueCreate($title: String!, $points: Int!, $teamId: String!) { issueCreate(input: { title: $title, estimate: $points, teamId: $teamId }) { success issue { url } } }";

/// The variables of an operation.
#[derive(Debug, Clone, PartialEq, Eq)]
pub enum Variables {
    /// The operation takes none.
    Empty,
    IssueCreate { title: String, points: i64, team_id: String },
}

pub enum VariablesView {
    Empty,
    IssueCreate { title: Seq<char>, points: int, team_id: Seq<char> },
}

impl View for Variables {
    type V = VariablesView;

    open spec fn view(&self) -> VariablesView {
        match self {
            Variables::Empty => VariablesView::Empty,
            Variables::IssueCreate { title, points, team_id } => VariablesView::IssueCreate {
                title: title@,
                points: *points as int,
                team_id: team_id@,
            },
        }
    }
}

/// A request body, ready to send: the operation's document, its name and its
/// variables.
#[derive(Debug, Clone, PartialEq, Eq)]
pub struct QueryBody {
    pub variables: Variables,
    pub query: &'static str,
    pub operation_name: &'static str,
}

pub struct QueryBodyView {
    pub variables: VariablesView,
    pub query: Seq<char>,
    pub operation_name: Seq<char>,
}

impl View for QueryBody {
    type V = QueryBodyView;

    open spec fn view(&self) -> QueryBodyView {
        QueryBodyView {
            variables: self.variables@,
            query: self.query@,
            operation_name: self.operation_name@,
        }
    }
}

/// Lists the teams.
pub struct Teams;

/// Creates an issue.
pub struct IssueCreate;

/// Lists the workflow states of all teams.
pub struct WorkflowStates;

/// Asks who the credential belongs to.
pub struct CurrentUser;

/// Lists the issues assigned to the credential's user.
pub struct AssignedIssues;

impl Teams {
    /// The body of the operation: its document, its name, no variables.
    pub open spec fn body() -> QueryBodyView {
        QueryBodyView {
            variables: VariablesView::Empty,
            query: TEAMS_DOCUMENT@,
            operation_name: "Teams"@,
        }
    }

    pub fn build_query() -> (body: QueryBody)
        ensures
            body@ == Self::body(),
    {
        QueryBody { variables: Variables::Empty, query: TEAMS_DOCUMENT, operation_name: "Teams" }
    }
}

impl WorkflowStates {
    /// The body of the operation: its document, its name, no variables.
    pub open spec fn body() -> QueryBodyView {
        QueryBodyView {
            variables: VariablesView::Empty,
            query: WORKFLOW_STATES_DOCUMENT@,
            operation_name: "WorkflowStates"@,
        }
    }

    /// The query takes no team: the states of all teams are fetched, and
    /// narrowed afterwards.
    pub fn build_query() -> (body: QueryBody)
        ensures
            body@ == Self::body(),
    {
        QueryBody {
            variables: Variables::Empty,
            query: WORKFLOW_STATES_DOCUMENT,
            operation_name: "WorkflowStates",
        }
    }
}

impl CurrentUser {
    /// The body of the operation: its document, its name, no variables.
    pub open spec fn body() -> QueryBodyView {
        QueryBodyView {
            variables: VariablesView::Empty,
            query: CURRENT_USER_DOCUMENT@,
            operation_name: "CurrentUser"@,
        }
    }

    pub fn build_query() -> (body: QueryBody)
        ensures
            body@ == Self::body(),
    {
        QueryBody {
            variables: Variables::Empty,
            query: CURRENT_USER_DOCUMENT,
            operation_name: "CurrentUser",
        }
    }
}

impl AssignedIssues {
    /// The body of the operation: its document, its name, no variables.
    pub open spec fn body() -> QueryBodyView {
        QueryBodyView {
            variables: VariablesView::Empty,
            query: ASSIGNED_ISSUES_DOCUMENT@,
            operation_name: "AssignedIssues"@,
        }
    }

    pub fn build_query() -> (body: QueryBody)
        ensures
            body@ == Self::body(),
    {
        QueryBody {
            variables: Variables::Empty,
            query: ASSIGNED_ISSUES_DOCUMENT,
            operation_name: "AssignedIssues",
        }
    }
}

impl IssueCreate {
    /// The body of the operation: its document, its name, and the three
    /// variables as they were given.
    pub open spec fn body(title: Seq<char>, points: int, team_id: Seq<char>) -> QueryBodyView {
        QueryBodyView {
            variables: VariablesView::IssueCreate { title, points, team_id },
            query: ISSUE_CREATE_DOCUMENT@,
            operation_name: "IssueCreate"@,
        }
    }

    /// The title has to be non-empty and the points non-negative: the client
    /// tests both before it builds the body.
    pub fn build_query(title: String, points: i64, team_id: String) -> (body: QueryBody)
        requires
            title@.len() > 0,
            points >= 0,
        ensures
            body@ == Self::body(title@, points as int, team_id@),
    {
        QueryBody {
            variables: Variables::IssueCreate { title, points, team_id },
            query: ISSUE_CREATE_DOCUMENT,
            operation_name: "IssueCreate",
        }
    }
}

} // verus!
