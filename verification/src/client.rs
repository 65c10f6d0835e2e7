//! The client: one request and one reading of the answer per use case, with
//! the narrowing that the server does not do.

use vstd::prelude::*;
use crate::catalog::{
    AssignedIssues, CurrentUser, IssueCreate, QueryBody, QueryBodyView, Teams, WorkflowStates,
};
use crate::error::{ApiErrorView, ClientError, ClientErrorView, ValidationError};
use crate::json::JsonValue;
use crate::mapper::{
    assigned_issues_in, created_url_in, current_user_in, teams_in, workflow_states_in,
};
use crate::model::{
    views, Credential, Issue, IssueView, Team, TeamView, User, UserView, WorkflowState,
    WorkflowStateView,
};
use crate::resolve::{resolution, resolve_team};
use crate::transport::{answer_of, Exchange, HttpRequest, HttpRequestView, API_ROOT};

verus! {

/// Whether a workflow state belongs to the team of this id.
pub open spec fn in_team(team_id: Seq<char>) -> spec_fn(WorkflowStateView) -> bool {
    |state: WorkflowStateView| state.team_id == team_id
}

/// Whether an issue passes the filters: it is of the team, where one is
/// given, and its state is among the given ones, where any are given. An
/// issue without a state passes only where no states are given.
pub open spec fn is_wanted(team_id: Option<Seq<char>>, state_ids: Option<Seq<Seq<char>>>) -> spec_fn(
    IssueView,
) -> bool {
    |issue: IssueView|
        {
            &&& team_id matches Some(id) ==> issue.team.id == id
            &&& state_ids matches Some(ids) ==> ids.len() == 0 || (issue.state matches Some(state)
                && ids.contains(state.id))
        }
}

/// An optional text, by its characters.
pub open spec fn text_of(text: Option<String>) -> Option<Seq<char>> {
    match text {
        Some(text) => Some(text@),
        None => None,
    }
}

/// An optional list of texts, by their characters.
pub open spec fn texts_of(texts: Option<Vec<String>>) -> Option<Seq<Seq<char>>> {
    match texts {
        Some(texts) => Some(views(texts@)),
        None => None,
    }
}

/// The workflow states of one team, in the order they came in.
pub fn states_of_team(states: Vec<WorkflowState>, team_id: &str) -> (kept: Vec<WorkflowState>)
    ensures
        views(kept@) == views(states@).filter(in_team(team_id@)),
        forall|i: int| 0 <= i < kept@.len() ==> (#[trigger] kept@[i]).team_id@ == team_id@,
        kept@.len() <= states@.len(),
{
    let wanted = team_id.to_owned();
    let ghost all = views(states@);
    let mut kept: Vec<WorkflowState> = Vec::new();
    proof {
        reveal(Seq::filter);
        assert(all.take(0) =~= Seq::<WorkflowStateView>::empty());
        assert(views(kept@) =~= all.take(0).filter(in_team(team_id@)));
    }
    for state in it: states
        invariant
            it.seq() == states@,
            all == views(states@),
            wanted@ == team_id@,
            views(kept@) == all.take(it.index() as int).filter(in_team(team_id@)),
    {
        let ghost i = it.index() as int;
        let ghost before = kept@;
        proof {
            assert(all.take(i + 1) =~= all.take(i).push(all[i]));
            all.take(i).lemma_filter_push(all[i], in_team(team_id@));
        }
        if state.team_id == wanted {
            kept.push(state);
            assert(views(kept@) =~= views(before).push(state@));
        }
    }
    proof {
        assert(all.take(states@.len() as int) =~= all);
        all.lemma_filter_len(in_team(team_id@));
        assert forall|i: int| 0 <= i < kept@.len() implies (#[trigger] kept@[i]).team_id@
            == team_id@ by {
            all.lemma_filter_pred(in_team(team_id@), i);
            assert(views(kept@)[i] == kept@[i]@);
        }
    }
    kept
}

/// Whether `id` is one of `ids`.
fn is_among(ids: &Vec<String>, id: &String) -> (found: bool)
    ensures
        found == views(ids@).contains(id@),
{
    let mut i: usize = 0;
    while i < ids.len()
        invariant
            i <= ids.len(),
            forall|k: int| 0 <= k < i ==> ids@[k]@ != id@,
        decreases ids.len() - i,
    {
        if ids[i] == *id {
            assert(views(ids@)[i as int] == id@);
            return true;
        }
        i += 1;
    }
    assert forall|k: int| 0 <= k < views(ids@).len() implies views(ids@)[k] != id@ by {
        assert(views(ids@)[k] == ids@[k]@);
    }
    false
}

/// Whether `issue` passes the filters.
fn passes(issue: &Issue, team_id: &Option<String>, state_ids: &Option<Vec<String>>) -> (kept: bool)
    ensures
        kept == is_wanted(text_of(*team_id), texts_of(*state_ids))(issue@),
{
    let of_team = match team_id {
        Some(id) => issue.team.id == *id,
        None => true,
    };
    let in_state = match state_ids {
        Some(ids) => {
            if ids.len() == 0 {
                true
            } else {
                match &issue.state {
                    Some(state) => is_among(ids, &state.id),
                    None => false,
                }
            }
        },
        None => true,
    };
    of_team && in_state
}

/// The issues that pass the filters, in the order they came in.
pub fn wanted_issues(
    issues: Vec<Issue>,
    team_id: &Option<String>,
    state_ids: &Option<Vec<String>>,
) -> (kept: Vec<Issue>)
    ensures
        views(kept@) == views(issues@).filter(is_wanted(text_of(*team_id), texts_of(*state_ids))),
        kept@.len() <= issues@.len(),
{
    let ghost all = views(issues@);
    let ghost wanted = is_wanted(text_of(*team_id), texts_of(*state_ids));
    let mut kept: Vec<Issue> = Vec::new();
    proof {
        reveal(Seq::filter);
        assert(all.take(0) =~= Seq::<IssueView>::empty());
        assert(views(kept@) =~= all.take(0).filter(wanted));
    }
    for issue in it: issues
        invariant
            it.seq() == issues@,
            all == views(issues@),
            wanted == is_wanted(text_of(*team_id), texts_of(*state_ids)),
            views(kept@) == all.take(it.index() as int).filter(wanted),
    {
        let ghost i = it.index() as int;
        let ghost before = kept@;
        proof {
            assert(all.take(i + 1) =~= all.take(i).push(all[i]));
            all.take(i).lemma_filter_push(all[i], wanted);
        }
        if passes(&issue, team_id, state_ids) {
            kept.push(issue);
            assert(views(kept@) =~= views(before).push(issue@));
        }
    }
    proof {
        assert(all.take(issues@.len() as int) =~= all);
        all.lemma_filter_len(wanted);
    }
    kept
}

/// What an exchange comes to, once the envelope it delivered is read: a
/// failure of the exchange stands as it is, and so does one of the reading.
pub open spec fn outcome<T>(
    exchange: Exchange,
    read: spec_fn(JsonValue) -> Result<T, ApiErrorView>,
) -> Result<T, ClientErrorView> {
    match answer_of(exchange) {
        Err(e) => Err(ClientErrorView::Transport(e)),
        Ok(envelope) => match read(envelope) {
            Err(e) => Err(ClientErrorView::Api(e)),
            Ok(value) => Ok(value),
        },
    }
}

/// The teams that an exchange delivered.
pub open spec fn teams_outcome(exchange: Exchange) -> Result<Seq<TeamView>, ClientErrorView> {
    outcome(exchange, |envelope: JsonValue| teams_in(envelope))
}

/// The workflow states that an exchange delivered: all of them, or those of
/// one team.
pub open spec fn workflow_states_outcome(exchange: Exchange, team_id: Option<Seq<char>>) -> Result<
    Seq<WorkflowStateView>,
    ClientErrorView,
> {
    match outcome(exchange, |envelope: JsonValue| workflow_states_in(envelope)) {
        Err(e) => Err(e),
        Ok(states) => Ok(
            match team_id {
                Some(id) => states.filter(in_team(id)),
                None => states,
            },
        ),
    }
}

/// The assigned issues that an exchange delivered and that pass the filters.
pub open spec fn assigned_issues_outcome(
    exchange: Exchange,
    team_id: Option<Seq<char>>,
    state_ids: Option<Seq<Seq<char>>>,
) -> Result<Seq<IssueView>, ClientErrorView> {
    match outcome(exchange, |envelope: JsonValue| assigned_issues_in(envelope)) {
        Err(e) => Err(e),
        Ok(issues) => Ok(issues.filter(is_wanted(team_id, state_ids))),
    }
}

/// The user that an exchange delivered.
pub open spec fn current_user_outcome(exchange: Exchange) -> Result<UserView, ClientErrorView> {
    outcome(exchange, |envelope: JsonValue| current_user_in(envelope))
}

/// The address of the created issue that an exchange delivered.
pub open spec fn created_url_outcome(exchange: Exchange) -> Result<Seq<char>, ClientErrorView> {
    outcome(exchange, |envelope: JsonValue| created_url_in(envelope))
}

/// The result of a client operation that yields one value, over views.
pub open spec fn yielded<T: View>(r: Result<T, ClientError>) -> Result<T::V, ClientErrorView> {
    match r {
        Ok(value) => Ok(value@),
        Err(e) => Err(e@),
    }
}

/// The result of a client operation that yields a list, over views.
pub open spec fn listed<T: View>(r: Result<Vec<T>, ClientError>) -> Result<
    Seq<T::V>,
    ClientErrorView,
> {
    match r {
        Ok(items) => Ok(views(items@)),
        Err(e) => Err(e@),
    }
}

/// The client of the issue tracker. It holds the credential and performs no
/// I/O: for each use case it gives the request to send and reads what came
/// of sending it.
pub struct LinearClient {
    credential: Credential,
}

impl LinearClient {
    /// The API key that the client signs its requests with.
    pub closed spec fn api_key(&self) -> Seq<char> {
        self.credential.api_key@
    }

    /// The request that carries `body`: a POST to the endpoint, authorized
    /// by the API key as it is, without a prefix.
    pub open spec fn request_for(&self, body: QueryBodyView) -> HttpRequestView {
        HttpRequestView { url: API_ROOT@, authorization: self.api_key(), body }
    }

    /// The request that creates an issue, or the reason why none is made: an
    /// empty title is refused first, then negative points.
    pub open spec fn issue_request(&self, title: Seq<char>, points: int, team_id: Seq<char>) -> Result<
        HttpRequestView,
        ValidationError,
    > {
        if title.len() == 0 {
            Err(ValidationError::EmptyTitle)
        } else if points < 0 {
            Err(ValidationError::NegativePoints)
        } else {
            Ok(self.request_for(IssueCreate::body(title, points, team_id)))
        }
    }

    /// The request that creates an issue in the team called `team_name`: the
    /// name is resolved first, then the title and the points are tested.
    pub open spec fn named_issue_request(
        &self,
        title: Seq<char>,
        points: int,
        team_name: Seq<char>,
        teams: Seq<TeamView>,
    ) -> Result<HttpRequestView, ClientErrorView> {
        match resolution(teams, team_name) {
            Err(e) => Err(ClientErrorView::Resolution(e)),
            Ok(team) => match self.issue_request(title, points, team.id) {
                Err(e) => Err(ClientErrorView::Validation(e)),
                Ok(request) => Ok(request),
            },
        }
    }

    pub fn new(credential: Credential) -> (client: LinearClient)
        ensures
            client.api_key() == credential@,
    {
        LinearClient { credential }
    }

    /// Wraps a request body for sending; the body goes out as it is.
    pub fn make_request(&self, query: QueryBody) -> (request: HttpRequest)
        ensures
            request@ == self.request_for(query@),
    {
        HttpRequest { url: API_ROOT, authorization: self.credential.api_key.clone(), body: query }
    }

    /// The request that lists the teams.
    pub fn teams_request(&self) -> (request: HttpRequest)
        ensures
            request@ == self.request_for(Teams::body()),
    {
        self.make_request(Teams::build_query())
    }

    /// The request that lists the workflow states, of all teams.
    pub fn workflow_states_request(&self) -> (request: HttpRequest)
        ensures
            request@ == self.request_for(WorkflowStates::body()),
    {
        self.make_request(WorkflowStates::build_query())
    }

    /// The request that lists the issues assigned to the credential's user.
    pub fn assigned_issues_request(&self) -> (request: HttpRequest)
        ensures
            request@ == self.request_for(AssignedIssues::body()),
    {
        self.make_request(AssignedIssues::build_query())
    }

    /// The request that asks for the credential's user.
    pub fn current_user_request(&self) -> (request: HttpRequest)
        ensures
            request@ == self.request_for(CurrentUser::body()),
    {
        self.make_request(CurrentUser::build_query())
    }

    /// The teams, exactly as the server listed them and in its order.
    pub fn get_teams(&self, exchange: Exchange) -> (r: Result<Vec<Team>, ClientError>)
        ensures
            listed(r) == teams_outcome(exchange),
    {
        let envelope = match exchange.into_answer() {
            Ok(envelope) => envelope,
            Err(e) => { return Err(ClientError::Transport(e)); },
        };
        match Teams::read_response(&envelope) {
            Ok(teams) => Ok(teams),
            Err(e) => Err(ClientError::Api(e)),
        }
    }

    /// The request that creates an issue for the given team. An empty title
    /// or negative points are refused here, so that nothing is sent for
    /// them.
    pub fn create_issue(&self, name: String, points: i64, team: &Team) -> (r: Result<
        HttpRequest,
        ValidationError,
    >)
        ensures
            match r {
                Ok(request) => self.issue_request(name@, points as int, team.id@) == Ok::<
                    _,
                    ValidationError,
                >(request@),
                Err(e) => self.issue_request(name@, points as int, team.id@) == Err::<
                    HttpRequestView,
                    _,
                >(e),
            },
    {
        if name.as_str().is_empty() {
            return Err(ValidationError::EmptyTitle);
        }
        if points < 0 {
            return Err(ValidationError::NegativePoints);
        }
        Ok(self.make_request(IssueCreate::build_query(name, points, team.id.clone())))
    }

    /// The request that creates an issue in the team called `team_name`,
    /// which is looked up among `teams`, the teams as fetched.
    pub fn create_issue_in_named_team(
        &self,
        name: String,
        points: i64,
        team_name: &str,
        teams: &Vec<Team>,
    ) -> (r: Result<HttpRequest, ClientError>)
        ensures
            yielded(r) == self.named_issue_request(
                name@,
                points as int,
                team_name@,
                views(teams@),
            ),
    {
        let team = match resolve_team(teams, team_name) {
            Ok(team) => team,
            Err(e) => { return Err(ClientError::Resolution(e)); },
        };
        match self.create_issue(name, points, team) {
            Ok(request) => Ok(request),
            Err(e) => Err(ClientError::Validation(e)),
        }
    }

    /// The address of the issue that was created, as the server gave it.
    pub fn created_issue_url(&self, exchange: Exchange) -> (r: Result<String, ClientError>)
        ensures
            yielded(r) == created_url_outcome(exchange),
    {
        let envelope = match exchange.into_answer() {
            Ok(envelope) => envelope,
            Err(e) => { return Err(ClientError::Transport(e)); },
        };
        match IssueCreate::read_response(&envelope) {
            Ok(url) => Ok(url),
            Err(e) => Err(ClientError::Api(e)),
        }
    }

    /// All workflow states, or those of one team where `team_id` is given.
    /// The states of all teams are fetched in either case; the narrowing is
    /// done here.
    pub fn get_workflows_states(&self, exchange: Exchange, team_id: Option<String>) -> (r: Result<
        Vec<WorkflowState>,
        ClientError,
    >)
        ensures
            listed(r) == workflow_states_outcome(exchange, text_of(team_id)),
            r matches Ok(kept) ==> {
                &&& team_id matches Some(id) ==> forall|i: int|
                    0 <= i < kept@.len() ==> (#[trigger] kept@[i]).team_id@ == id@
                &&& workflow_states_outcome(exchange, None) matches Ok(all) && kept@.len()
                    <= all.len()
            },
    {
        let envelope = match exchange.into_answer() {
            Ok(envelope) => envelope,
            Err(e) => { return Err(ClientError::Transport(e)); },
        };
        let states = match WorkflowStates::read_response(&envelope) {
            Ok(states) => states,
            Err(e) => { return Err(ClientError::Api(e)); },
        };
        match team_id {
            Some(id) => Ok(states_of_team(states, id.as_str())),
            None => Ok(states),
        }
    }

    /// The issues assigned to the credential's user that pass the filters:
    /// of the team `team_id`, where given, and in one of the states
    /// `state_ids`, where any are given.
    pub fn get_assigned_issues(
        &self,
        exchange: Exchange,
        team_id: Option<String>,
        state_ids: Option<Vec<String>>,
    ) -> (r: Result<Vec<Issue>, ClientError>)
        ensures
            listed(r) == assigned_issues_outcome(exchange, text_of(team_id), texts_of(state_ids)),
    {
        let envelope = match exchange.into_answer() {
            Ok(envelope) => envelope,
            Err(e) => { return Err(ClientError::Transport(e)); },
        };
        let issues = match AssignedIssues::read_response(&envelope) {
            Ok(issues) => issues,
            Err(e) => { return Err(ClientError::Api(e)); },
        };
        Ok(wanted_issues(issues, &team_id, &state_ids))
    }

    /// The user that the credential belongs to.
    pub fn get_current_user(&self, exchange: Exchange) -> (r: Result<User, ClientError>)
        ensures
            yielded(r) == current_user_outcome(exchange),
    {
        let envelope = match exchange.into_answer() {
            Ok(envelope) => envelope,
            Err(e) => { return Err(ClientError::Transport(e)); },
        };
        match CurrentUser::read_response(&envelope) {
            Ok(user) => Ok(user),
            Err(e) => Err(ClientError::Api(e)),
        }
    }
}

/// The workflow states of one team are a part of those that were fetched:
/// each of them belongs to that team and is among the fetched ones, and
/// there are no more of them than were fetched.
pub proof fn lemma_states_of_team_are_fetched(exchange: Exchange, team_id: Seq<char>)
    ensures
        workflow_states_outcome(exchange, Some(team_id)) matches Ok(kept) ==> {
            &&& workflow_states_outcome(exchange, None) matches Ok(all) && {
                &&& kept.len() <= all.len()
                &&& forall|i: int| 0 <= i < kept.len() ==> all.contains(#[trigger] kept[i])
            }
            &&& forall|i: int| 0 <= i < kept.len() ==> (#[trigger] kept[i]).team_id == team_id
        },
{
    if workflow_states_outcome(exchange, Some(team_id)) is Ok {
        let kept = workflow_states_outcome(exchange, Some(team_id))->Ok_0;
        let all = workflow_states_outcome(exchange, None)->Ok_0;
        all.lemma_filter_len(in_team(team_id));
        assert forall|i: int| 0 <= i < kept.len() implies all.contains(#[trigger] kept[i])
            && kept[i].team_id == team_id by {
            all.lemma_filter_pred(in_team(team_id), i);
            assert(kept.contains(kept[i]));
            all.lemma_filter_contains_rev(in_team(team_id), kept[i]);
        }
    }
}

/// The issues that pass the filters are a part of those that were fetched,
/// and each of them is of the team and in one of the states asked for.
pub proof fn lemma_wanted_issues_are_fetched(
    exchange: Exchange,
    team_id: Option<Seq<char>>,
    state_ids: Option<Seq<Seq<char>>>,
)
    ensures
        assigned_issues_outcome(exchange, team_id, state_ids) matches Ok(kept) ==> {
            &&& assigned_issues_outcome(exchange, None, None) matches Ok(all) && {
                &&& kept.len() <= all.len()
                &&& forall|i: int| 0 <= i < kept.len() ==> all.contains(#[trigger] kept[i])
            }
            &&& forall|i: int|
                0 <= i < kept.len() ==> is_wanted(team_id, state_ids)(#[trigger] kept[i])
        },
{
    if assigned_issues_outcome(exchange, team_id, state_ids) is Ok {
        let kept = assigned_issues_outcome(exchange, team_id, state_ids)->Ok_0;
        let fetched = outcome(exchange, |envelope: JsonValue| assigned_issues_in(envelope))->Ok_0;
        let all = assigned_issues_outcome(exchange, None, None)->Ok_0;
        assert(all =~= fetched) by {
            lemma_everything_kept(fetched);
        }
        fetched.lemma_filter_len(is_wanted(team_id, state_ids));
        assert forall|i: int| 0 <= i < kept.len() implies all.contains(#[trigger] kept[i])
            && is_wanted(team_id, state_ids)(kept[i]) by {
            fetched.lemma_filter_pred(is_wanted(team_id, state_ids), i);
            assert(kept.contains(kept[i]));
            fetched.lemma_filter_contains_rev(is_wanted(team_id, state_ids), kept[i]);
        }
    }
}

/// Without a team and without states, every issue passes.
pub proof fn lemma_everything_kept(issues: Seq<IssueView>)
    ensures
        issues.filter(is_wanted(None, None)) == issues,
    decreases issues.len(),
{
    reveal(Seq::filter);
    if issues.len() > 0 {
        lemma_everything_kept(issues.drop_last());
        assert(issues.drop_last().push(issues.last()) =~= issues);
    }
}

} // verus!
