use linear_client::catalog::{
    AssignedIssues, CurrentUser, IssueCreate, QueryBody, Teams, Variables, WorkflowStates,
    ASSIGNED_ISSUES_DOCUMENT, CURRENT_USER_DOCUMENT, ISSUE_CREATE_DOCUMENT, TEAMS_DOCUMENT,
    WORKFLOW_STATES_DOCUMENT,
};
use linear_client::client::{states_of_team, wanted_issues, LinearClient};
use linear_client::error::{
    ApiError, ClientError, ResolutionError, TransportError, ValidationError,
};
use linear_client::json::Json;
use linear_client::model::{Credential, Issue, Team, User, WorkflowState};
use linear_client::transport::{Exchange, HttpRequest, API_ROOT};

fn s(text: &str) -> Json {
    Json::Str(text.to_string())
}

fn obj(members: Vec<(&str, Json)>) -> Json {
    Json::Object(members.into_iter().map(|(key, value)| (key.to_string(), value)).collect())
}

fn arr(items: Vec<Json>) -> Json {
    Json::Array(items)
}

fn client() -> LinearClient {
    LinearClient::new(Credential { api_key: "lin_api_example".to_string() })
}

fn team(id: &str, name: &str) -> Team {
    Team { id: id.to_string(), name: name.to_string() }
}

fn state(id: &str, name: &str, team_id: &str) -> WorkflowState {
    WorkflowState { name: name.to_string(), id: id.to_string(), team_id: team_id.to_string() }
}

fn issue(id: &str, team_id: &str, state_id: Option<&str>) -> Issue {
    Issue {
        id: id.to_string(),
        title: format!("Issue {}", id),
        url: format!("https://tracker.example/issue/{}", id),
        team: team(team_id, "Team"),
        state: state_id.map(|state_id| state(state_id, "State", team_id)),
        assignee: None,
    }
}

fn ids(issues: &[Issue]) -> Vec<&str> {
    issues.iter().map(|issue| issue.id.as_str()).collect()
}

fn answered(body: Json) -> Exchange {
    Exchange::Answered { status: 200, body: Some(body) }
}

fn state_node(id: &str, name: &str, team_id: &str) -> Json {
    obj(vec![("id", s(id)), ("name", s(name)), ("team", obj(vec![("id", s(team_id))]))])
}

fn states_envelope() -> Json {
    obj(vec![(
        "data",
        obj(vec![(
            "workflowStates",
            obj(vec![(
                "nodes",
                arr(vec![
                    state_node("S1", "Todo", "T1"),
                    state_node("S2", "Todo", "T2"),
                    state_node("S3", "Done", "T1"),
                    state_node("S4", "Done", "T2"),
                    state_node("S5", "Review", "T1"),
                ]),
            )]),
        )]),
    )])
}

fn issue_node(id: &str, team_id: &str, state_id: Option<&str>) -> Json {
    let mut members = vec![
        ("id", s(id)),
        ("title", s("Fix bug")),
        ("url", s("https://tracker.example/issue")),
        ("team", obj(vec![("id", s(team_id)), ("name", s("Team"))])),
    ];
    if let Some(state_id) = state_id {
        members.push(("state", state_node(state_id, "State", team_id)));
    }
    obj(members)
}

fn issues_envelope() -> Json {
    obj(vec![(
        "data",
        obj(vec![(
            "viewer",
            obj(vec![(
                "assignedIssues",
                obj(vec![(
                    "nodes",
                    arr(vec![
                        issue_node("I1", "T1", Some("S1")),
                        issue_node("I2", "T2", Some("S2")),
                        issue_node("I3", "T1", Some("S3")),
                        issue_node("I4", "T1", None),
                    ]),
                )]),
            )]),
        )]),
    )])
}

#[test]
fn empty_title_is_refused_and_nothing_is_built() {
    let result = client().create_issue("".to_string(), 3, &team("T1", "Core"));
    assert_eq!(result, Err(ValidationError::EmptyTitle));
}

#[test]
fn nothing_is_sent_for_an_empty_title() {
    let mut sent = 0;
    let mut send = |_request: HttpRequest| {
        sent += 1;
        Exchange::Refused
    };
    let client = client();
    let result = match client.create_issue("".to_string(), 3, &team("T1", "Core")) {
        Ok(request) => client.created_issue_url(send(request)),
        Err(error) => Err(ClientError::Validation(error)),
    };
    assert_eq!(result, Err(ClientError::Validation(ValidationError::EmptyTitle)));
    assert_eq!(sent, 0);
}

#[test]
fn a_valid_issue_is_sent_once() {
    let mut sent = 0;
    let mut send = |request: HttpRequest| {
        sent += 1;
        assert_eq!(request.body.operation_name, "IssueCreate");
        Exchange::Answered {
            status: 200,
            body: Some(obj(vec![(
                "data",
                obj(vec![("issueCreate", obj(vec![("issue", obj(vec![("url", s("u"))]))]))]),
            )])),
        }
    };
    let client = client();
    let result = match client.create_issue("Fix bug".to_string(), 3, &team("T1", "Core")) {
        Ok(request) => client.created_issue_url(send(request)),
        Err(error) => Err(ClientError::Validation(error)),
    };
    assert_eq!(result, Ok("u".to_string()));
    assert_eq!(sent, 1);
}

#[test]
fn negative_points_are_refused() {
    let result = client().create_issue("Fix bug".to_string(), -1, &team("T1", "Core"));
    assert_eq!(result, Err(ValidationError::NegativePoints));
    let result = client().create_issue("Fix bug".to_string(), i64::MIN, &team("T1", "Core"));
    assert_eq!(result, Err(ValidationError::NegativePoints));
}

#[test]
fn empty_title_is_reported_before_negative_points() {
    let result = client().create_issue("".to_string(), -1, &team("T1", "Core"));
    assert_eq!(result, Err(ValidationError::EmptyTitle));
}

#[test]
fn a_title_of_blanks_is_not_empty() {
    assert!(client().create_issue(" ".to_string(), 0, &team("T1", "Core")).is_ok());
}

#[test]
fn zero_points_are_accepted() {
    let request = client().create_issue("Fix bug".to_string(), 0, &team("T1", "Core")).unwrap();
    assert_eq!(
        request.body.variables,
        Variables::IssueCreate {
            title: "Fix bug".to_string(),
            points: 0,
            team_id: "T1".to_string()
        }
    );
}

#[test]
fn create_issue_builds_the_whole_request() {
    let request = client().create_issue("Fix bug".to_string(), 3, &team("T1", "Core")).unwrap();
    assert_eq!(
        request,
        HttpRequest {
            url: "https://api.linear.app/graphql",
            authorization: "lin_api_example".to_string(),
            body: QueryBody {
                variables: Variables::IssueCreate {
                    title: "Fix bug".to_string(),
                    points: 3,
                    team_id: "T1".to_string()
                },
                query: ISSUE_CREATE_DOCUMENT,
                operation_name: "IssueCreate",
            },
        }
    );
    let most = client().create_issue("x".to_string(), i64::MAX, &team("T1", "Core")).unwrap();
    assert_eq!(
        most.body.variables,
        Variables::IssueCreate { title: "x".to_string(), points: i64::MAX, team_id: "T1".to_string() }
    );
}

#[test]
fn make_request_signs_with_the_raw_key_and_keeps_the_body() {
    let body = Teams::build_query();
    let request = client().make_request(body.clone());
    assert_eq!(request.url, API_ROOT);
    assert_eq!(request.authorization, "lin_api_example");
    assert_eq!(request.body, body);
}

#[test]
fn each_use_case_sends_its_own_operation() {
    let client = client();
    assert_eq!(client.teams_request().body, Teams::build_query());
    assert_eq!(client.workflow_states_request().body, WorkflowStates::build_query());
    assert_eq!(client.assigned_issues_request().body, AssignedIssues::build_query());
    assert_eq!(client.current_user_request().body, CurrentUser::build_query());
    assert_eq!(client.teams_request().authorization, "lin_api_example");
}

#[test]
fn the_catalog_has_one_document_per_operation() {
    let teams = Teams::build_query();
    assert_eq!(teams.query, TEAMS_DOCUMENT);
    assert_eq!(teams.operation_name, "Teams");
    assert_eq!(teams.variables, Variables::Empty);
    let states = WorkflowStates::build_query();
    assert_eq!(states.query, WORKFLOW_STATES_DOCUMENT);
    assert_eq!(states.operation_name, "WorkflowStates");
    assert_eq!(states.variables, Variables::Empty);
    let user = CurrentUser::build_query();
    assert_eq!(user.query, CURRENT_USER_DOCUMENT);
    assert_eq!(user.operation_name, "CurrentUser");
    let issues = AssignedIssues::build_query();
    assert_eq!(issues.query, ASSIGNED_ISSUES_DOCUMENT);
    assert_eq!(issues.operation_name, "AssignedIssues");
    let create = IssueCreate::build_query("Fix bug".to_string(), 5, "T1".to_string());
    assert_eq!(create.query, ISSUE_CREATE_DOCUMENT);
    assert_eq!(create.operation_name, "IssueCreate");
    assert_eq!(
        create.variables,
        Variables::IssueCreate {
            title: "Fix bug".to_string(),
            points: 5,
            team_id: "T1".to_string()
        }
    );
}

#[test]
fn the_documents_ask_for_what_the_decoders_read() {
    assert!(TEAMS_DOCUMENT.starts_with("query Teams "));
    assert!(TEAMS_DOCUMENT.contains("teams { nodes { id name } }"));
    assert!(WORKFLOW_STATES_DOCUMENT.contains("workflowStates { nodes { id name team { id } } }"));
    assert!(!WORKFLOW_STATES_DOCUMENT.contains('$'));
    assert!(CURRENT_USER_DOCUMENT.contains("viewer { id name isMe }"));
    assert!(ASSIGNED_ISSUES_DOCUMENT.contains("viewer { assignedIssues { nodes {"));
    assert!(ISSUE_CREATE_DOCUMENT.starts_with("mutation IssueCreate("));
    assert!(ISSUE_CREATE_DOCUMENT.contains("issue { url }"));
}

#[test]
fn get_teams_returns_what_the_server_listed() {
    let envelope = obj(vec![(
        "data",
        obj(vec![(
            "teams",
            obj(vec![(
                "nodes",
                arr(vec![
                    obj(vec![("id", s("T2")), ("name", s("Web"))]),
                    obj(vec![("id", s("T1")), ("name", s("Core"))]),
                ]),
            )]),
        )]),
    )]);
    assert_eq!(
        client().get_teams(answered(envelope)),
        Ok(vec![team("T2", "Web"), team("T1", "Core")])
    );
}

#[test]
fn a_timeout_is_passed_on() {
    assert_eq!(
        client().get_teams(Exchange::TimedOut),
        Err(ClientError::Transport(TransportError::Timeout))
    );
}

#[test]
fn a_refused_connection_is_passed_on() {
    assert_eq!(
        client().get_workflows_states(Exchange::Refused, None),
        Err(ClientError::Transport(TransportError::ConnectionRefused))
    );
}

#[test]
fn a_status_outside_the_two_hundreds_is_passed_on() {
    for status in [0u16, 100, 199, 300, 301, 401, 404, 500, u16::MAX] {
        let exchange = Exchange::Answered { status, body: Some(states_envelope()) };
        assert_eq!(
            client().get_assigned_issues(exchange, None, None),
            Err(ClientError::Transport(TransportError::NonSuccessStatus(status)))
        );
    }
}

#[test]
fn every_status_in_the_two_hundreds_is_read() {
    for status in [200u16, 201, 204, 299] {
        let exchange = Exchange::Answered { status, body: Some(states_envelope()) };
        assert_eq!(client().get_workflows_states(exchange, None).unwrap().len(), 5);
    }
}

#[test]
fn a_body_that_is_no_document_is_passed_on() {
    let exchange = Exchange::Answered { status: 200, body: None };
    assert_eq!(
        client().created_issue_url(exchange),
        Err(ClientError::Transport(TransportError::MalformedBody))
    );
}

#[test]
fn the_status_is_looked_at_before_the_body() {
    let exchange = Exchange::Answered { status: 502, body: None };
    assert_eq!(
        client().get_current_user(exchange),
        Err(ClientError::Transport(TransportError::NonSuccessStatus(502)))
    );
}

#[test]
fn an_envelope_without_data_is_an_api_error() {
    let envelope = obj(vec![
        ("data", Json::Null),
        ("errors", arr(vec![obj(vec![("message", s("unauthorized"))])])),
    ]);
    assert_eq!(
        client().get_teams(answered(envelope)),
        Err(ClientError::Api(ApiError::NoData { messages: vec!["unauthorized".to_string()] }))
    );
}

#[test]
fn a_payload_of_the_wrong_shape_is_an_api_error() {
    let envelope = obj(vec![("data", obj(vec![]))]);
    assert_eq!(
        client().get_workflows_states(answered(envelope), Some("T1".to_string())),
        Err(ClientError::Api(ApiError::MalformedPayload { field: "workflowStates".to_string() }))
    );
}

#[test]
fn into_answer_hands_out_the_envelope() {
    assert_eq!(answered(Json::Null).into_answer(), Ok(Json::Null));
    assert_eq!(Exchange::TimedOut.into_answer(), Err(TransportError::Timeout));
    assert_eq!(Exchange::Refused.into_answer(), Err(TransportError::ConnectionRefused));
}

#[test]
fn workflow_states_without_a_team_are_all_that_was_fetched() {
    let states = client().get_workflows_states(answered(states_envelope()), None).unwrap();
    let ids: Vec<&str> = states.iter().map(|state| state.id.as_str()).collect();
    assert_eq!(ids, vec!["S1", "S2", "S3", "S4", "S5"]);
}

#[test]
fn workflow_states_of_a_team_all_belong_to_it() {
    let all = client().get_workflows_states(answered(states_envelope()), None).unwrap();
    let kept = client()
        .get_workflows_states(answered(states_envelope()), Some("T1".to_string()))
        .unwrap();
    assert!(kept.iter().all(|state| state.team_id == "T1"));
    assert!(kept.len() <= all.len());
    assert_eq!(kept, vec![state("S1", "Todo", "T1"), state("S3", "Done", "T1"), state("S5", "Review", "T1")]);
}

#[test]
fn workflow_states_of_an_unknown_team_are_none() {
    let kept = client()
        .get_workflows_states(answered(states_envelope()), Some("T9".to_string()))
        .unwrap();
    assert_eq!(kept, vec![]);
}

#[test]
fn a_malformed_state_fails_even_where_it_would_be_left_out() {
    let envelope = obj(vec![(
        "data",
        obj(vec![(
            "workflowStates",
            obj(vec![(
                "nodes",
                arr(vec![
                    state_node("S1", "Todo", "T1"),
                    obj(vec![("id", s("S2")), ("team", obj(vec![("id", s("T2"))]))]),
                ]),
            )]),
        )]),
    )]);
    assert_eq!(
        client().get_workflows_states(answered(envelope), Some("T1".to_string())),
        Err(ClientError::Api(ApiError::MalformedPayload { field: "name".to_string() }))
    );
}

#[test]
fn states_of_team_keeps_order_and_compares_ids_exactly() {
    let states = vec![
        state("S1", "Todo", "T1"),
        state("S2", "Todo", "t1"),
        state("S3", "Todo", "T1 "),
        state("S4", "Done", "T1"),
        state("S5", "Done", "T"),
    ];
    assert_eq!(
        states_of_team(states, "T1"),
        vec![state("S1", "Todo", "T1"), state("S4", "Done", "T1")]
    );
    assert_eq!(states_of_team(vec![], "T1"), vec![]);
}

#[test]
fn states_are_narrowed_by_team_id_and_never_by_name() {
    let states = vec![state("S1", "T1", "T2"), state("T1", "Todo", "T3")];
    assert_eq!(states_of_team(states, "T1"), vec![]);
}

#[test]
fn assigned_issues_without_filters_are_all_that_was_fetched() {
    let issues = client().get_assigned_issues(answered(issues_envelope()), None, None).unwrap();
    assert_eq!(ids(&issues), vec!["I1", "I2", "I3", "I4"]);
}

#[test]
fn assigned_issues_of_a_team() {
    let issues = client()
        .get_assigned_issues(answered(issues_envelope()), Some("T1".to_string()), None)
        .unwrap();
    assert_eq!(ids(&issues), vec!["I1", "I3", "I4"]);
}

#[test]
fn assigned_issues_in_given_states() {
    let states = Some(vec!["S3".to_string(), "S2".to_string()]);
    let issues = client().get_assigned_issues(answered(issues_envelope()), None, states).unwrap();
    assert_eq!(ids(&issues), vec!["I2", "I3"]);
}

#[test]
fn assigned_issues_of_a_team_in_given_states() {
    let states = Some(vec!["S3".to_string(), "S2".to_string()]);
    let issues = client()
        .get_assigned_issues(answered(issues_envelope()), Some("T1".to_string()), states)
        .unwrap();
    assert_eq!(ids(&issues), vec!["I3"]);
}

#[test]
fn no_states_given_is_like_none_asked_for() {
    let issues = client()
        .get_assigned_issues(answered(issues_envelope()), Some("T1".to_string()), Some(vec![]))
        .unwrap();
    assert_eq!(ids(&issues), vec!["I1", "I3", "I4"]);
}

#[test]
fn an_issue_without_a_state_is_in_none_of_the_given_states() {
    let issues = vec![issue("I1", "T1", None), issue("I2", "T1", Some("S1"))];
    let kept = wanted_issues(issues, &None, &Some(vec!["S1".to_string()]));
    assert_eq!(ids(&kept), vec!["I2"]);
}

#[test]
fn wanted_issues_compares_ids_exactly() {
    let issues = vec![
        issue("I1", "T1", Some("S1")),
        issue("I2", "t1", Some("S1")),
        issue("I3", "T1", Some("s1")),
        issue("I4", "T1", Some("S10")),
    ];
    let kept = wanted_issues(issues, &Some("T1".to_string()), &Some(vec!["S1".to_string()]));
    assert_eq!(ids(&kept), vec!["I1"]);
    assert_eq!(wanted_issues(vec![], &Some("T1".to_string()), &None), vec![]);
}

#[test]
fn the_url_of_the_created_issue_is_returned_as_given() {
    let envelope = obj(vec![(
        "data",
        obj(vec![(
            "issueCreate",
            obj(vec![("issue", obj(vec![("url", s("https://tracker.example/issue/I7 "))]))]),
        )]),
    )]);
    assert_eq!(
        client().created_issue_url(answered(envelope)),
        Ok("https://tracker.example/issue/I7 ".to_string())
    );
}

#[test]
fn the_current_user_is_read() {
    let envelope = obj(vec![(
        "data",
        obj(vec![(
            "viewer",
            obj(vec![("id", s("U1")), ("name", s("Ada")), ("isMe", Json::Bool(true))]),
        )]),
    )]);
    assert_eq!(
        client().get_current_user(answered(envelope)),
        Ok(User { id: "U1".to_string(), name: "Ada".to_string(), is_me: true })
    );
}

#[test]
fn an_issue_for_a_named_team_goes_to_that_team() {
    let teams = vec![team("T1", "Core"), team("T2", "Web")];
    let request = client()
        .create_issue_in_named_team("Fix bug".to_string(), 2, "Web", &teams)
        .unwrap();
    assert_eq!(
        request.body.variables,
        Variables::IssueCreate {
            title: "Fix bug".to_string(),
            points: 2,
            team_id: "T2".to_string()
        }
    );
}

#[test]
fn an_issue_for_a_shared_name_is_not_filed_under_the_first() {
    let teams = vec![team("T1", "Core"), team("T2", "Core")];
    assert_eq!(
        client().create_issue_in_named_team("Fix bug".to_string(), 2, "Core", &teams),
        Err(ClientError::Resolution(ResolutionError::Ambiguous("Core".to_string(), 2)))
    );
}

#[test]
fn an_issue_for_an_unknown_team_is_not_built() {
    let teams = vec![team("T1", "Core")];
    assert_eq!(
        client().create_issue_in_named_team("".to_string(), -1, "Web", &teams),
        Err(ClientError::Resolution(ResolutionError::NotFound("Web".to_string())))
    );
}

#[test]
fn an_issue_for_a_named_team_is_validated_too() {
    let teams = vec![team("T1", "Core")];
    assert_eq!(
        client().create_issue_in_named_team("".to_string(), 3, "Core", &teams),
        Err(ClientError::Validation(ValidationError::EmptyTitle))
    );
    assert_eq!(
        client().create_issue_in_named_team("Fix bug".to_string(), -1, "Core", &teams),
        Err(ClientError::Validation(ValidationError::NegativePoints))
    );
}
