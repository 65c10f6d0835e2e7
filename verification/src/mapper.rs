//! From the envelope of an answer to entities: the shape each operation
//! expects, and the error for each way an answer can miss it.

use vstd::prelude::*;
use crate::catalog::{AssignedIssues, CurrentUser, IssueCreate, Teams, WorkflowStates};
use crate::error::{ApiError, ApiErrorView};
use crate::json::{Json, JsonValue, values_of};
use crate::model::{
    views, Issue, IssueView, Team, TeamView, User, UserView, WorkflowState, WorkflowStateView,
};

verus! {

/// The outcome of decoding one value, over views.
pub open spec fn decoded<T: View>(r: Result<T, ApiError>) -> Result<T::V, ApiErrorView> {
    match r {
        Ok(value) => Ok(value@),
        Err(e) => Err(e@),
    }
}

/// The outcome of decoding a list, over views.
pub open spec fn decoded_all<T: View>(r: Result<Vec<T>, ApiError>) -> Result<
    Seq<T::V>,
    ApiErrorView,
> {
    match r {
        Ok(items) => Ok(views(items@)),
        Err(e) => Err(e@),
    }
}

/// The string member `key` of `parent`.
pub open spec fn string_member(parent: JsonValue, key: Seq<char>) -> Result<
    Seq<char>,
    ApiErrorView,
> {
    match parent.member(key) {
        Some(JsonValue::Str(text)) => Ok(text),
        _ => Err(ApiErrorView::MalformedPayload { field: key }),
    }
}

/// The boolean member `key` of `parent`.
pub open spec fn bool_member(parent: JsonValue, key: Seq<char>) -> Result<bool, ApiErrorView> {
    match parent.member(key) {
        Some(JsonValue::Bool(b)) => Ok(b),
        _ => Err(ApiErrorView::MalformedPayload { field: key }),
    }
}

/// The member `key` of `parent`, which has to be an object.
pub open spec fn object_member(parent: JsonValue, key: Seq<char>) -> Result<
    JsonValue,
    ApiErrorView,
> {
    match parent.member(key) {
        Some(JsonValue::Object(members)) => Ok(JsonValue::Object(members)),
        _ => Err(ApiErrorView::MalformedPayload { field: key }),
    }
}

/// The elements of the array member `key` of `parent`.
pub open spec fn array_member(parent: JsonValue, key: Seq<char>) -> Result<
    Seq<JsonValue>,
    ApiErrorView,
> {
    match parent.member(key) {
        Some(JsonValue::Array(items)) => Ok(items),
        _ => Err(ApiErrorView::MalformedPayload { field: key }),
    }
}

/// The member `key` of `parent` where it is there and not `null`.
pub open spec fn optional_member(parent: JsonValue, key: Seq<char>) -> Option<JsonValue> {
    match parent.member(key) {
        Some(value) => if value is Null {
            None
        } else {
            Some(value)
        },
        None => None,
    }
}

/// The `message` of each entry that has one, in order, word for word.
pub open spec fn error_messages(entries: Seq<JsonValue>) -> Seq<Seq<char>>
    decreases entries.len(),
{
    if entries.len() == 0 {
        Seq::empty()
    } else {
        let before = error_messages(entries.drop_last());
        match entries.last().member("message"@) {
            Some(JsonValue::Str(message)) => before.push(message),
            _ => before,
        }
    }
}

/// The messages that an envelope carries under `errors`; none where that is
/// no array.
pub open spec fn envelope_messages(envelope: JsonValue) -> Seq<Seq<char>> {
    match envelope.member("errors"@) {
        Some(JsonValue::Array(entries)) => error_messages(entries),
        _ => Seq::empty(),
    }
}

/// The payload under `data`; where it is absent or `null`, `NoData` with the
/// envelope's messages.
pub open spec fn envelope_data(envelope: JsonValue) -> Result<JsonValue, ApiErrorView> {
    match optional_member(envelope, "data"@) {
        Some(data) => Ok(data),
        None => Err(ApiErrorView::NoData { messages: envelope_messages(envelope) }),
    }
}

fn malformed(key: &str) -> (e: ApiError)
    ensures
        e@ == (ApiErrorView::MalformedPayload { field: key@ }),
{
    ApiError::MalformedPayload { field: key.to_owned() }
}

pub fn read_string(parent: &Json, key: &str) -> (r: Result<String, ApiError>)
    ensures
        decoded(r) == string_member(parent@, key@),
{
    match parent.get(key) {
        Some(value) => match value.as_str() {
            Some(text) => Ok(text.clone()),
            None => Err(malformed(key)),
        },
        None => Err(malformed(key)),
    }
}

pub fn read_bool(parent: &Json, key: &str) -> (r: Result<bool, ApiError>)
    ensures
        decoded(r) == bool_member(parent@, key@),
{
    match parent.get(key) {
        Some(value) => match value.as_bool() {
            Some(b) => Ok(b),
            None => Err(malformed(key)),
        },
        None => Err(malformed(key)),
    }
}

pub fn read_object<'a>(parent: &'a Json, key: &str) -> (r: Result<&'a Json, ApiError>)
    ensures
        decoded(r) == object_member(parent@, key@),
{
    match parent.get(key) {
        Some(value) => if value.is_object() {
            Ok(value)
        } else {
            Err(malformed(key))
        },
        None => Err(malformed(key)),
    }
}

pub fn read_array<'a>(parent: &'a Json, key: &str) -> (r: Result<&'a Vec<Json>, ApiError>)
    ensures
        match r {
            Ok(items) => array_member(parent@, key@) == Ok::<_, ApiErrorView>(values_of(items@)),
            Err(e) => array_member(parent@, key@) == Err::<Seq<JsonValue>, _>(e@),
        },
{
    match parent.get(key) {
        Some(value) => match value.as_array() {
            Some(items) => Ok(items),
            None => Err(malformed(key)),
        },
        None => Err(malformed(key)),
    }
}

pub fn read_optional<'a>(parent: &'a Json, key: &str) -> (r: Option<&'a Json>)
    ensures
        match r {
            Some(value) => optional_member(parent@, key@) == Some(value@),
            None => optional_member(parent@, key@) is None,
        },
{
    match parent.get(key) {
        Some(value) => if value.is_null() {
            None
        } else {
            Some(value)
        },
        None => None,
    }
}

/// Collects the `message` of each entry of `errors` that has one.
fn read_messages(envelope: &Json) -> (messages: Vec<String>)
    ensures
        views(messages@) == envelope_messages(envelope@),
{
    let mut messages: Vec<String> = Vec::new();
    let entries = match envelope.get("errors") {
        Some(errors) => match errors.as_array() {
            Some(entries) => entries,
            None => {
                assert(views(messages@) =~= Seq::<Seq<char>>::empty());
                return messages;
            },
        },
        None => {
            assert(views(messages@) =~= Seq::<Seq<char>>::empty());
            return messages;
        },
    };
    let ghost all = values_of(entries@);
    let mut i: usize = 0;
    while i < entries.len()
        invariant
            i <= entries.len(),
            all == values_of(entries@),
            views(messages@) == error_messages(all.take(i as int)),
        decreases entries.len() - i,
    {
        proof {
            assert(all.take(i + 1).drop_last() =~= all.take(i as int));
            assert(all.take(i + 1).last() == entries@[i as int]@);
        }
        let ghost before = messages@;
        match entries[i].get("message") {
            Some(value) => match value.as_str() {
                Some(text) => {
                    messages.push(text.clone());
                    assert(views(messages@) =~= views(before).push(text@));
                },
                None => {},
            },
            None => {},
        }
        i += 1;
    }
    assert(all.take(i as int) =~= all);
    messages
}

/// Unwraps an envelope: the payload under `data`, or `NoData` with the
/// server's messages where there is none.
pub fn read_data(envelope: &Json) -> (r: Result<&Json, ApiError>)
    ensures
        decoded(r) == envelope_data(envelope@),
{
    match read_optional(envelope, "data") {
        Some(data) => Ok(data),
        None => Err(ApiError::NoData { messages: read_messages(envelope) }),
    }
}

/// An entity that is read from one node of a payload.
pub trait FromNode: View + Sized {
    /// What a node decodes to: the entity, or the first member found wrong.
    spec fn node_value(node: JsonValue) -> Result<Self::V, ApiErrorView>;

    fn from_node(node: &Json) -> (r: Result<Self, ApiError>)
        ensures
            decoded(r) == Self::node_value(node@),
    ;
}

impl FromNode for Team {
    /// `{id: string, name: string}`
    open spec fn node_value(node: JsonValue) -> Result<TeamView, ApiErrorView> {
        match string_member(node, "id"@) {
            Err(e) => Err(e),
            Ok(id) => match string_member(node, "name"@) {
                Err(e) => Err(e),
                Ok(name) => Ok(TeamView { id, name }),
            },
        }
    }

    fn from_node(node: &Json) -> (r: Result<Team, ApiError>) {
        let id = match read_string(node, "id") {
            Ok(id) => id,
            Err(e) => { return Err(e); },
        };
        let name = match read_string(node, "name") {
            Ok(name) => name,
            Err(e) => { return Err(e); },
        };
        Ok(Team { id, name })
    }
}

impl FromNode for WorkflowState {
    /// `{id: string, name: string, team: {id: string}}`
    open spec fn node_value(node: JsonValue) -> Result<WorkflowStateView, ApiErrorView> {
        match string_member(node, "id"@) {
            Err(e) => Err(e),
            Ok(id) => match string_member(node, "name"@) {
                Err(e) => Err(e),
                Ok(name) => match object_member(node, "team"@) {
                    Err(e) => Err(e),
                    Ok(team) => match string_member(team, "id"@) {
                        Err(e) => Err(e),
                        Ok(team_id) => Ok(WorkflowStateView { name, id, team_id }),
                    },
                },
            },
        }
    }

    fn from_node(node: &Json) -> (r: Result<WorkflowState, ApiError>) {
        let id = match read_string(node, "id") {
            Ok(id) => id,
            Err(e) => { return Err(e); },
        };
        let name = match read_string(node, "name") {
            Ok(name) => name,
            Err(e) => { return Err(e); },
        };
        let team = match read_object(node, "team") {
            Ok(team) => team,
            Err(e) => { return Err(e); },
        };
        let team_id = match read_string(team, "id") {
            Ok(team_id) => team_id,
            Err(e) => { return Err(e); },
        };
        Ok(WorkflowState { name, id, team_id })
    }
}

impl FromNode for User {
    /// `{id: string, name: string, isMe: bool}`
    open spec fn node_value(node: JsonValue) -> Result<UserView, ApiErrorView> {
        match string_member(node, "id"@) {
            Err(e) => Err(e),
            Ok(id) => match string_member(node, "name"@) {
                Err(e) => Err(e),
                Ok(name) => match bool_member(node, "isMe"@) {
                    Err(e) => Err(e),
                    Ok(is_me) => Ok(UserView { id, name, is_me }),
                },
            },
        }
    }

    fn from_node(node: &Json) -> (r: Result<User, ApiError>) {
        let id = match read_string(node, "id") {
            Ok(id) => id,
            Err(e) => { return Err(e); },
        };
        let name = match read_string(node, "name") {
            Ok(name) => name,
            Err(e) => { return Err(e); },
        };
        let is_me = match read_bool(node, "isMe") {
            Ok(is_me) => is_me,
            Err(e) => { return Err(e); },
        };
        Ok(User { id, name, is_me })
    }
}

/// The entity under the member `key` where that is there and not `null`.
pub open spec fn optional_value<T: FromNode>(parent: JsonValue, key: Seq<char>) -> Result<
    Option<T::V>,
    ApiErrorView,
> {
    match optional_member(parent, key) {
        None => Ok(None),
        Some(node) => match T::node_value(node) {
            Err(e) => Err(e),
            Ok(value) => Ok(Some(value)),
        },
    }
}

fn read_optional_value<T: FromNode>(parent: &Json, key: &str) -> (r: Result<Option<T>, ApiError>)
    ensures
        match r {
            Ok(Some(value)) => optional_value::<T>(parent@, key@) == Ok::<_, ApiErrorView>(
                Some(value@),
            ),
            Ok(None) => optional_value::<T>(parent@, key@) == Ok::<Option<T::V>, ApiErrorView>(
                None,
            ),
            Err(e) => optional_value::<T>(parent@, key@) == Err::<Option<T::V>, _>(e@),
        },
{
    match read_optional(parent, key) {
        None => Ok(None),
        Some(node) => match T::from_node(node) {
            Err(e) => Err(e),
            Ok(value) => Ok(Some(value)),
        },
    }
}

impl FromNode for Issue {
    /// `{id, title, url: string, team: Team, state?: WorkflowState,
    /// assignee?: User}`; the team is read from the node itself.
    open spec fn node_value(node: JsonValue) -> Result<IssueView, ApiErrorView> {
        match string_member(node, "id"@) {
            Err(e) => Err(e),
            Ok(id) => match string_member(node, "title"@) {
                Err(e) => Err(e),
                Ok(title) => match string_member(node, "url"@) {
                    Err(e) => Err(e),
                    Ok(url) => match object_member(node, "team"@) {
                        Err(e) => Err(e),
                        Ok(team_node) => match Team::node_value(team_node) {
                            Err(e) => Err(e),
                            Ok(team) => match optional_value::<WorkflowState>(node, "state"@) {
                                Err(e) => Err(e),
                                Ok(state) => match optional_value::<User>(node, "assignee"@) {
                                    Err(e) => Err(e),
                                    Ok(assignee) => Ok(
                                        IssueView { id, title, url, team, state, assignee },
                                    ),
                                },
                            },
                        },
                    },
                },
            },
        }
    }

    fn from_node(node: &Json) -> (r: Result<Issue, ApiError>) {
        let id = match read_string(node, "id") {
            Ok(id) => id,
            Err(e) => { return Err(e); },
        };
        let title = match read_string(node, "title") {
            Ok(title) => title,
            Err(e) => { return Err(e); },
        };
        let url = match read_string(node, "url") {
            Ok(url) => url,
            Err(e) => { return Err(e); },
        };
        let team_node = match read_object(node, "team") {
            Ok(team_node) => team_node,
            Err(e) => { return Err(e); },
        };
        let team = match Team::from_node(team_node) {
            Ok(team) => team,
            Err(e) => { return Err(e); },
        };
        let state = match read_optional_value::<WorkflowState>(node, "state") {
            Ok(state) => state,
            Err(e) => { return Err(e); },
        };
        let assignee = match read_optional_value::<User>(node, "assignee") {
            Ok(assignee) => assignee,
            Err(e) => { return Err(e); },
        };
        Ok(Issue { id, title, url, team, state, assignee })
    }
}

/// Every node decoded, in order; where one fails, the error of the first
/// that does, and no entity at all.
pub open spec fn all_values<T: FromNode>(nodes: Seq<JsonValue>) -> Result<Seq<T::V>, ApiErrorView>
    decreases nodes.len(),
{
    if nodes.len() == 0 {
        Ok(Seq::empty())
    } else {
        match all_values::<T>(nodes.drop_last()) {
            Err(e) => Err(e),
            Ok(before) => match T::node_value(nodes.last()) {
                Err(e) => Err(e),
                Ok(value) => Ok(before.push(value)),
            },
        }
    }
}

/// A failure among the first nodes is the failure of the whole list.
pub proof fn lemma_failure_stands<T: FromNode>(nodes: Seq<JsonValue>, n: int)
    requires
        0 <= n <= nodes.len(),
        all_values::<T>(nodes.take(n)) is Err,
    ensures
        all_values::<T>(nodes) == all_values::<T>(nodes.take(n)),
    decreases nodes.len() - n,
{
    if n < nodes.len() {
        assert(nodes.take(n + 1).drop_last() =~= nodes.take(n));
        lemma_failure_stands::<T>(nodes, n + 1);
    } else {
        assert(nodes.take(n) =~= nodes);
    }
}

/// Decodes each node; one malformed node fails the whole list.
pub fn read_nodes<T: FromNode>(nodes: &Vec<Json>) -> (r: Result<Vec<T>, ApiError>)
    ensures
        decoded_all(r) == all_values::<T>(values_of(nodes@)),
{
    let ghost all = values_of(nodes@);
    let mut out: Vec<T> = Vec::new();
    let mut i: usize = 0;
    assert(views(out@) =~= Seq::<T::V>::empty());
    while i < nodes.len()
        invariant
            i <= nodes.len(),
            all == values_of(nodes@),
            all_values::<T>(all.take(i as int)) == Ok::<_, ApiErrorView>(views(out@)),
        decreases nodes.len() - i,
    {
        proof {
            assert(all.take(i + 1).drop_last() =~= all.take(i as int));
            assert(all.take(i + 1).last() == nodes@[i as int]@);
        }
        let ghost before = out@;
        match T::from_node(&nodes[i]) {
            Ok(value) => {
                out.push(value);
                assert(views(out@) =~= views(before).push(value@));
            },
            Err(e) => {
                proof {
                    lemma_failure_stands::<T>(all, i + 1);
                }
                return Err(e);
            },
        }
        i += 1;
    }
    assert(all.take(i as int) =~= all);
    Ok(out)
}

/// The entities under `parent.key.nodes`.
pub open spec fn connection_in<T: FromNode>(parent: JsonValue, key: Seq<char>) -> Result<
    Seq<T::V>,
    ApiErrorView,
> {
    match object_member(parent, key) {
        Err(e) => Err(e),
        Ok(connection) => match array_member(connection, "nodes"@) {
            Err(e) => Err(e),
            Ok(nodes) => all_values::<T>(nodes),
        },
    }
}

fn read_connection<T: FromNode>(parent: &Json, key: &str) -> (r: Result<Vec<T>, ApiError>)
    ensures
        decoded_all(r) == connection_in::<T>(parent@, key@),
{
    let connection = match read_object(parent, key) {
        Ok(connection) => connection,
        Err(e) => { return Err(e); },
    };
    let nodes = match read_array(connection, "nodes") {
        Ok(nodes) => nodes,
        Err(e) => { return Err(e); },
    };
    read_nodes::<T>(nodes)
}

/// The teams of an answer: `data.teams.nodes`, in the server's order.
pub open spec fn teams_in(envelope: JsonValue) -> Result<Seq<TeamView>, ApiErrorView> {
    match envelope_data(envelope) {
        Err(e) => Err(e),
        Ok(data) => connection_in::<Team>(data, "teams"@),
    }
}

/// The workflow states of an answer: `data.workflowStates.nodes`.
pub open spec fn workflow_states_in(envelope: JsonValue) -> Result<
    Seq<WorkflowStateView>,
    ApiErrorView,
> {
    match envelope_data(envelope) {
        Err(e) => Err(e),
        Ok(data) => connection_in::<WorkflowState>(data, "workflowStates"@),
    }
}

/// The user of an answer: `data.viewer`.
pub open spec fn current_user_in(envelope: JsonValue) -> Result<UserView, ApiErrorView> {
    match envelope_data(envelope) {
        Err(e) => Err(e),
        Ok(data) => match object_member(data, "viewer"@) {
            Err(e) => Err(e),
            Ok(viewer) => User::node_value(viewer),
        },
    }
}

/// The issues of an answer: `data.viewer.assignedIssues.nodes`.
pub open spec fn assigned_issues_in(envelope: JsonValue) -> Result<Seq<IssueView>, ApiErrorView> {
    match envelope_data(envelope) {
        Err(e) => Err(e),
        Ok(data) => match object_member(data, "viewer"@) {
            Err(e) => Err(e),
            Ok(viewer) => connection_in::<Issue>(viewer, "assignedIssues"@),
        },
    }
}

/// The address of the issue that an answer reports as created:
/// `data.issueCreate.issue.url`.
pub open spec fn created_url_in(envelope: JsonValue) -> Result<Seq<char>, ApiErrorView> {
    match envelope_data(envelope) {
        Err(e) => Err(e),
        Ok(data) => match object_member(data, "issueCreate"@) {
            Err(e) => Err(e),
            Ok(payload) => match object_member(payload, "issue"@) {
                Err(e) => Err(e),
                Ok(issue) => string_member(issue, "url"@),
            },
        },
    }
}

impl Teams {
    pub fn read_response(envelope: &Json) -> (r: Result<Vec<Team>, ApiError>)
        ensures
            decoded_all(r) == teams_in(envelope@),
    {
        match read_data(envelope) {
            Err(e) => Err(e),
            Ok(data) => read_connection::<Team>(data, "teams"),
        }
    }
}

impl WorkflowStates {
    pub fn read_response(envelope: &Json) -> (r: Result<Vec<WorkflowState>, ApiError>)
        ensures
            decoded_all(r) == workflow_states_in(envelope@),
    {
        match read_data(envelope) {
            Err(e) => Err(e),
            Ok(data) => read_connection::<WorkflowState>(data, "workflowStates"),
        }
    }
}

impl CurrentUser {
    pub fn read_response(envelope: &Json) -> (r: Result<User, ApiError>)
        ensures
            decoded(r) == current_user_in(envelope@),
    {
        let data = match read_data(envelope) {
            Ok(data) => data,
            Err(e) => { return Err(e); },
        };
        match read_object(data, "viewer") {
            Err(e) => Err(e),
            Ok(viewer) => User::from_node(viewer),
        }
    }
}

impl AssignedIssues {
    pub fn read_response(envelope: &Json) -> (r: Result<Vec<Issue>, ApiError>)
        ensures
            decoded_all(r) == assigned_issues_in(envelope@),
    {
        let data = match read_data(envelope) {
            Ok(data) => data,
            Err(e) => { return Err(e); },
        };
        match read_object(data, "viewer") {
            Err(e) => Err(e),
            Ok(viewer) => read_connection::<Issue>(viewer, "assignedIssues"),
        }
    }
}

impl IssueCreate {
    pub fn read_response(envelope: &Json) -> (r: Result<String, ApiError>)
        ensures
            decoded(r) == created_url_in(envelope@),
    {
        let data = match read_data(envelope) {
            Ok(data) => data,
            Err(e) => { return Err(e); },
        };
        let payload = match read_object(data, "issueCreate") {
            Ok(payload) => payload,
            Err(e) => { return Err(e); },
        };
        match read_object(payload, "issue") {
            Err(e) => Err(e),
            Ok(issue) => read_string(issue, "url"),
        }
    }
}

/// A list decodes exactly where each of its nodes does, and then to as many
/// entities as there are nodes, each the value of its node, in the order of
/// the nodes: there are no partial results.
pub proof fn lemma_all_or_nothing<T: FromNode>(nodes: Seq<JsonValue>)
    ensures
        all_values::<T>(nodes) is Ok <==> forall|i: int|
            0 <= i < nodes.len() ==> (#[trigger] T::node_value(nodes[i])) is Ok,
        all_values::<T>(nodes) matches Ok(values) ==> {
            &&& values.len() == nodes.len()
            &&& forall|i: int|
                0 <= i < nodes.len() ==> T::node_value(nodes[i]) == Ok::<T::V, ApiErrorView>(
                    #[trigger] values[i],
                )
        },
    decreases nodes.len(),
{
    if nodes.len() > 0 {
        let front = nodes.drop_last();
        lemma_all_or_nothing::<T>(front);
        assert forall|i: int| 0 <= i < front.len() implies front[i] == nodes[i] by {}
        if all_values::<T>(nodes) is Ok {
            assert forall|i: int| 0 <= i < nodes.len() implies (#[trigger] T::node_value(
                nodes[i],
            )) is Ok by {
                if i < front.len() {
                    assert(T::node_value(front[i]) is Ok);
                }
            }
        }
        if forall|i: int| 0 <= i < nodes.len() ==> (#[trigger] T::node_value(nodes[i])) is Ok {
            assert forall|i: int| 0 <= i < front.len() implies (#[trigger] T::node_value(
                front[i],
            )) is Ok by {
                assert(T::node_value(nodes[i]) is Ok);
            }
            assert(T::node_value(nodes[nodes.len() - 1]) is Ok);
        }
    }
}

/// A node decodes to a team exactly where its `id` and `name` are strings,
/// and the team then has those very strings: nothing is trimmed, cut or
/// coerced.
pub proof fn lemma_team_fields_kept(node: JsonValue, team: TeamView)
    ensures
        Team::node_value(node) == Ok::<TeamView, ApiErrorView>(team) <==> {
            &&& node.member("id"@) == Some(JsonValue::Str(team.id))
            &&& node.member("name"@) == Some(JsonValue::Str(team.name))
        },
{
}

/// A node decodes to a workflow state exactly where its `id` and `name` are
/// strings and its `team` is an object with a string `id`, and the state
/// then has those very strings.
pub proof fn lemma_workflow_state_fields_kept(node: JsonValue, state: WorkflowStateView)
    ensures
        WorkflowState::node_value(node) == Ok::<WorkflowStateView, ApiErrorView>(state) <==> {
            &&& node.member("id"@) == Some(JsonValue::Str(state.id))
            &&& node.member("name"@) == Some(JsonValue::Str(state.name))
            &&& node.member("team"@) matches Some(JsonValue::Object(team))
            &&& JsonValue::Object(team).member("id"@) == Some(JsonValue::Str(state.team_id))
        },
{
}

/// A node decodes to a user exactly where its `id` and `name` are strings and
/// its `isMe` is a boolean, and the user then has those very values.
pub proof fn lemma_user_fields_kept(node: JsonValue, user: UserView)
    ensures
        User::node_value(node) == Ok::<UserView, ApiErrorView>(user) <==> {
            &&& node.member("id"@) == Some(JsonValue::Str(user.id))
            &&& node.member("name"@) == Some(JsonValue::Str(user.name))
            &&& node.member("isMe"@) == Some(JsonValue::Bool(user.is_me))
        },
{
}

/// A node decodes to an issue exactly where its `id`, `title` and `url` are
/// strings, its `team` is an object that decodes to a team, and its `state`
/// and `assignee` are absent, `null`, or decode; the issue then has those
/// very values, the team its own id and name.
pub proof fn lemma_issue_fields_kept(node: JsonValue, issue: IssueView)
    ensures
        Issue::node_value(node) == Ok::<IssueView, ApiErrorView>(issue) <==> {
            &&& node.member("id"@) == Some(JsonValue::Str(issue.id))
            &&& node.member("title"@) == Some(JsonValue::Str(issue.title))
            &&& node.member("url"@) == Some(JsonValue::Str(issue.url))
            &&& node.member("team"@) matches Some(JsonValue::Object(team))
            &&& Team::node_value(JsonValue::Object(team)) == Ok::<TeamView, ApiErrorView>(
                issue.team,
            )
            &&& optional_value::<WorkflowState>(node, "state"@) == Ok::<
                Option<WorkflowStateView>,
                ApiErrorView,
            >(issue.state)
            &&& optional_value::<User>(node, "assignee"@) == Ok::<Option<UserView>, ApiErrorView>(
                issue.assignee,
            )
        },
{
}

} // verus!
