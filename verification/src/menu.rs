//! The interactive dialogue as a state machine: from the screen the person
//! is on and the answer that came back, to the next screen and the thing to
//! do. Prompting and fetching are done by whoever runs the machine.

use vstd::prelude::*;
use crate::error::ResolutionError;
use crate::model::{views, Team, TeamView, WorkflowState, WorkflowStateView};

verus! {

/// The option that starts the dialogue for creating an issue.
pub const CREATE_LABEL: &'static str = "Create an Issue";

/// The option that starts the dialogue for viewing issues.
pub const VIEW_LABEL: &'static str = "View Your Issues";

/// Why a dialogue ended without doing what it was started for.
#[derive(Debug, Clone, Copy, PartialEq, Eq)]
pub enum Notice {
    OptionFailed,
    UnknownOption,
    TeamsUnavailable,
    TeamFailed,
    PointsFailed,
    NameFailed,
    StatesUnavailable,
    StatesFailed,
}

/// Where the dialogue stands, with what it has to remember.
#[derive(Debug, Clone, PartialEq, Eq)]
pub enum Screen {
    /// The person is choosing what to do.
    Options,
    /// Creating: the teams are being fetched.
    CreateTeams,
    /// Creating: the person is entering the issue's name.
    IssueName { teams: Vec<Team> },
    /// Creating: the person is choosing the team. A name that could not be
    /// had is remembered as `None` and reported last.
    IssueTeam { name: Option<String> },
    /// Creating: the person is choosing the points.
    IssuePoints { name: Option<String>, team: Team },
    /// Viewing: the teams are being fetched.
    ViewTeams,
    /// Viewing: the person is choosing the team.
    ViewTeam,
    /// Viewing: the workflow states of the team are being fetched.
    ViewStates { team_id: String },
    /// Viewing: the person is choosing among the team's workflow states.
    ViewChoice { team_id: String },
    /// The dialogue is over.
    Done,
}

/// What came back from the last thing that was done.
#[derive(Debug, Clone, PartialEq, Eq)]
pub enum Answer {
    /// The prompt or the fetch failed, or the person gave up.
    Failed,
    /// The label of the option that was chosen.
    Chosen(String),
    /// The teams that were fetched.
    Teams(Vec<Team>),
    /// The name that was entered.
    Name(String),
    /// The team that was chosen.
    Team(Team),
    /// The points that were chosen.
    Points(i64),
    /// The workflow states that were fetched.
    States(Vec<WorkflowState>),
    /// The workflow states that were chosen.
    StatesChosen(Vec<WorkflowState>),
}

/// The thing to do next.
#[derive(Debug, Clone, PartialEq, Eq)]
pub enum Action {
    /// Let the person choose among the options.
    AskOption,
    /// Fetch the teams.
    FetchTeams,
    /// Let the person enter the issue's name.
    AskName,
    /// Let the person choose one of these teams.
    AskTeam { teams: Vec<Team> },
    /// Let the person choose among the point values.
    AskPoints,
    /// Fetch the workflow states of this team.
    FetchStates { team_id: String },
    /// Let the person choose any of these workflow states.
    AskStates { states: Vec<WorkflowState> },
    /// Create the issue.
    CreateIssue { name: String, points: i64, team: Team },
    /// Show the assigned issues of this team in these states.
    ShowIssues { team_id: String, state_ids: Vec<String> },
    /// Tell the person why the dialogue ended.
    Say(Notice),
    /// Nothing: the dialogue was over already.
    Stop,
}

pub enum ScreenView {
    Options,
    CreateTeams,
    IssueName { teams: Seq<TeamView> },
    IssueTeam { name: Option<Seq<char>> },
    IssuePoints { name: Option<Seq<char>>, team: TeamView },
    ViewTeams,
    ViewTeam,
    ViewStates { team_id: Seq<char> },
    ViewChoice { team_id: Seq<char> },
    Done,
}

pub enum AnswerView {
    Failed,
    Chosen(Seq<char>),
    Teams(Seq<TeamView>),
    Name(Seq<char>),
    Team(TeamView),
    Points(i64),
    States(Seq<WorkflowStateView>),
    StatesChosen(Seq<WorkflowStateView>),
}

pub enum ActionView {
    AskOption,
    FetchTeams,
    AskName,
    AskTeam { teams: Seq<TeamView> },
    AskPoints,
    FetchStates { team_id: Seq<char> },
    AskStates { states: Seq<WorkflowStateView> },
    CreateIssue { name: Seq<char>, points: i64, team: TeamView },
    ShowIssues { team_id: Seq<char>, state_ids: Seq<Seq<char>> },
    Say(Notice),
    Stop,
}

/// An optional name, by its characters.
pub open spec fn name_of(name: Option<String>) -> Option<Seq<char>> {
    match name {
        Some(name) => Some(name@),
        None => None,
    }
}

impl View for Screen {
    type V = ScreenView;

    open spec fn view(&self) -> ScreenView {
        match self {
            Screen::Options => ScreenView::Options,
            Screen::CreateTeams => ScreenView::CreateTeams,
            Screen::IssueName { teams } => ScreenView::IssueName { teams: views(teams@) },
            Screen::IssueTeam { name } => ScreenView::IssueTeam { name: name_of(*name) },
            Screen::IssuePoints { name, team } => ScreenView::IssuePoints {
                name: name_of(*name),
                team: team@,
            },
            Screen::ViewTeams => ScreenView::ViewTeams,
            Screen::ViewTeam => ScreenView::ViewTeam,
            Screen::ViewStates { team_id } => ScreenView::ViewStates { team_id: team_id@ },
            Screen::ViewChoice { team_id } => ScreenView::ViewChoice { team_id: team_id@ },
            Screen::Done => ScreenView::Done,
        }
    }
}

impl View for Answer {
    type V = AnswerView;

    open spec fn view(&self) -> AnswerView {
        match self {
            Answer::Failed => AnswerView::Failed,
            Answer::Chosen(label) => AnswerView::Chosen(label@),
            Answer::Teams(teams) => AnswerView::Teams(views(teams@)),
            Answer::Name(name) => AnswerView::Name(name@),
            Answer::Team(team) => AnswerView::Team(team@),
            Answer::Points(points) => AnswerView::Points(*points),
            Answer::States(states) => AnswerView::States(views(states@)),
            Answer::StatesChosen(states) => AnswerView::StatesChosen(views(states@)),
        }
    }
}

impl View for Action {
    type V = ActionView;

    open spec fn view(&self) -> ActionView {
        match self {
            Action::AskOption => ActionView::AskOption,
            Action::FetchTeams => ActionView::FetchTeams,
            Action::AskName => ActionView::AskName,
            Action::AskTeam { teams } => ActionView::AskTeam { teams: views(teams@) },
            Action::AskPoints => ActionView::AskPoints,
            Action::FetchStates { team_id } => ActionView::FetchStates { team_id: team_id@ },
            Action::AskStates { states } => ActionView::AskStates { states: views(states@) },
            Action::CreateIssue { name, points, team } => ActionView::CreateIssue {
                name: name@,
                points: *points,
                team: team@,
            },
            Action::ShowIssues { team_id, state_ids } => ActionView::ShowIssues {
                team_id: team_id@,
                state_ids: views(state_ids@),
            },
            Action::Say(notice) => ActionView::Say(*notice),
            Action::Stop => ActionView::Stop,
        }
    }
}

/// The ids of workflow states, one for one.
pub open spec fn ids_of(states: Seq<WorkflowStateView>) -> Seq<Seq<char>> {
    Seq::new(states.len(), |i: int| states[i].id)
}

/// The dialogue's one rule. An answer that the screen does not wait for
/// counts as a failure of what the screen was doing. When creating, the
/// failures are reported in the order team, points, name, whichever came
/// first.
pub open spec fn next(screen: ScreenView, answer: AnswerView) -> (ScreenView, ActionView) {
    match screen {
        ScreenView::Options => match answer {
            AnswerView::Chosen(label) => if label == CREATE_LABEL@ {
                (ScreenView::CreateTeams, ActionView::FetchTeams)
            } else if label == VIEW_LABEL@ {
                (ScreenView::ViewTeams, ActionView::FetchTeams)
            } else {
                (ScreenView::Done, ActionView::Say(Notice::UnknownOption))
            },
            _ => (ScreenView::Done, ActionView::Say(Notice::OptionFailed)),
        },
        ScreenView::CreateTeams => match answer {
            AnswerView::Teams(teams) => (ScreenView::IssueName { teams }, ActionView::AskName),
            _ => (ScreenView::Done, ActionView::Say(Notice::TeamsUnavailable)),
        },
        ScreenView::IssueName { teams } => match answer {
            AnswerView::Name(name) => (
                ScreenView::IssueTeam { name: Some(name) },
                ActionView::AskTeam { teams },
            ),
            _ => (ScreenView::IssueTeam { name: None }, ActionView::AskTeam { teams }),
        },
        ScreenView::IssueTeam { name } => match answer {
            AnswerView::Team(team) => (
                ScreenView::IssuePoints { name, team },
                ActionView::AskPoints,
            ),
            _ => (ScreenView::Done, ActionView::Say(Notice::TeamFailed)),
        },
        ScreenView::IssuePoints { name, team } => match answer {
            AnswerView::Points(points) => match name {
                Some(name) => (ScreenView::Done, ActionView::CreateIssue { name, points, team }),
                None => (ScreenView::Done, ActionView::Say(Notice::NameFailed)),
            },
            _ => (ScreenView::Done, ActionView::Say(Notice::PointsFailed)),
        },
        ScreenView::ViewTeams => match answer {
            AnswerView::Teams(teams) => (ScreenView::ViewTeam, ActionView::AskTeam { teams }),
            _ => (ScreenView::Done, ActionView::Say(Notice::TeamsUnavailable)),
        },
        ScreenView::ViewTeam => match answer {
            AnswerView::Team(team) => (
                ScreenView::ViewStates { team_id: team.id },
                ActionView::FetchStates { team_id: team.id },
            ),
            _ => (ScreenView::Done, ActionView::Say(Notice::TeamFailed)),
        },
        ScreenView::ViewStates { team_id } => match answer {
            AnswerView::States(states) => (
                ScreenView::ViewChoice { team_id },
                ActionView::AskStates { states },
            ),
            _ => (ScreenView::Done, ActionView::Say(Notice::StatesUnavailable)),
        },
        ScreenView::ViewChoice { team_id } => match answer {
            AnswerView::StatesChosen(states) => (
                ScreenView::Done,
                ActionView::ShowIssues { team_id, state_ids: ids_of(states) },
            ),
            _ => (ScreenView::Done, ActionView::Say(Notice::StatesFailed)),
        },
        ScreenView::Done => (ScreenView::Done, ActionView::Stop),
    }
}

/// The ids of the chosen workflow states, for narrowing the issues by.
pub fn state_ids(states: &Vec<WorkflowState>) -> (ids: Vec<String>)
    ensures
        views(ids@) == ids_of(views(states@)),
{
    let mut ids: Vec<String> = Vec::new();
    let mut i: usize = 0;
    while i < states.len()
        invariant
            i <= states.len(),
            ids@.len() == i,
            forall|k: int| 0 <= k < i ==> (#[trigger] ids@[k])@ == states@[k].id@,
        decreases states.len() - i,
    {
        ids.push(states[i].id.clone());
        i += 1;
    }
    assert(views(ids@) =~= ids_of(views(states@)));
    ids
}

/// Where a dialogue begins: at the options, with the person to be asked.
pub fn start() -> (r: (Screen, Action))
    ensures
        r.0@ == ScreenView::Options,
        r.1@ == ActionView::AskOption,
{
    (Screen::Options, Action::AskOption)
}

/// Where the dialogue for viewing issues begins when it is asked for
/// directly: with the teams to be fetched.
pub fn start_viewing() -> (r: (Screen, Action))
    ensures
        r.0@ == ScreenView::ViewTeams,
        r.1@ == ActionView::FetchTeams,
{
    (Screen::ViewTeams, Action::FetchTeams)
}

/// One step of the dialogue.
pub fn step(screen: Screen, answer: Answer) -> (r: (Screen, Action))
    ensures
        (r.0@, r.1@) == next(screen@, answer@),
{
    match screen {
        Screen::Options => match answer {
            Answer::Chosen(label) => {
                if label == String::from_str(CREATE_LABEL) {
                    (Screen::CreateTeams, Action::FetchTeams)
                } else if label == String::from_str(VIEW_LABEL) {
                    (Screen::ViewTeams, Action::FetchTeams)
                } else {
                    (Screen::Done, Action::Say(Notice::UnknownOption))
                }
            },
            _ => (Screen::Done, Action::Say(Notice::OptionFailed)),
        },
        Screen::CreateTeams => match answer {
            Answer::Teams(teams) => (Screen::IssueName { teams }, Action::AskName),
            _ => (Screen::Done, Action::Say(Notice::TeamsUnavailable)),
        },
        Screen::IssueName { teams } => match answer {
            Answer::Name(name) => (Screen::IssueTeam { name: Some(name) }, Action::AskTeam { teams }),
            _ => (Screen::IssueTeam { name: None }, Action::AskTeam { teams }),
        },
        Screen::IssueTeam { name } => match answer {
            Answer::Team(team) => (Screen::IssuePoints { name, team }, Action::AskPoints),
            _ => (Screen::Done, Action::Say(Notice::TeamFailed)),
        },
        Screen::IssuePoints { name, team } => match answer {
            Answer::Points(points) => match name {
                Some(name) => (Screen::Done, Action::CreateIssue { name, points, team }),
                None => (Screen::Done, Action::Say(Notice::NameFailed)),
            },
            _ => (Screen::Done, Action::Say(Notice::PointsFailed)),
        },
        Screen::ViewTeams => match answer {
            Answer::Teams(teams) => (Screen::ViewTeam, Action::AskTeam { teams }),
            _ => (Screen::Done, Action::Say(Notice::TeamsUnavailable)),
        },
        Screen::ViewTeam => match answer {
            Answer::Team(team) => {
                let team_id = team.id.clone();
                (Screen::ViewStates { team_id: team.id }, Action::FetchStates { team_id })
            },
            _ => (Screen::Done, Action::Say(Notice::TeamFailed)),
        },
        Screen::ViewStates { team_id } => match answer {
            Answer::States(states) => (Screen::ViewChoice { team_id }, Action::AskStates { states }),
            _ => (Screen::Done, Action::Say(Notice::StatesUnavailable)),
        },
        Screen::ViewChoice { team_id } => match answer {
            Answer::StatesChosen(states) => {
                let state_ids = state_ids(&states);
                (Screen::Done, Action::ShowIssues { team_id, state_ids })
            },
            _ => (Screen::Done, Action::Say(Notice::StatesFailed)),
        },
        Screen::Done => (Screen::Done, Action::Stop),
    }
}

/// The options of the first screen, in the order they are offered.
pub fn option_labels() -> (labels: Vec<&'static str>)
    ensures
        labels@.len() == 2,
        labels@[0]@ == CREATE_LABEL@,
        labels@[1]@ == VIEW_LABEL@,
{
    let mut labels: Vec<&'static str> = Vec::new();
    labels.push(CREATE_LABEL);
    labels.push(VIEW_LABEL);
    labels
}

/// The point values that an issue can be given in the dialogue.
pub fn point_choices() -> (points: Vec<i64>)
    ensures
        points@ == seq![1i64, 2i64, 3i64, 5i64, 8i64],
{
    let mut points: Vec<i64> = Vec::new();
    points.push(1);
    points.push(2);
    points.push(3);
    points.push(5);
    points.push(8);
    assert(points@ =~= seq![1i64, 2i64, 3i64, 5i64, 8i64]);
    points
}

/// The words of each notice.
pub open spec fn notice_text(notice: Notice) -> Seq<char> {
    match notice {
        Notice::OptionFailed => "An error occurred while selecting an option."@,
        Notice::UnknownOption => "Unknown option selected."@,
        Notice::TeamsUnavailable => "Failed to get teams."@,
        Notice::TeamFailed => "An error occurred while selecting a team."@,
        Notice::PointsFailed => "An error occurred while selecting a point value."@,
        Notice::NameFailed => "An error occurred while getting the issue name."@,
        Notice::StatesUnavailable => "Failed to get workflow states."@,
        Notice::StatesFailed => "An error occurred while selecting a workflow state."@,
    }
}

impl Notice {
    /// What the person is told.
    pub fn message(&self) -> (text: &'static str)
        ensures
            text@ == notice_text(*self),
    {
        match self {
            Notice::OptionFailed => "An error occurred while selecting an option.",
            Notice::UnknownOption => "Unknown option selected.",
            Notice::TeamsUnavailable => "Failed to get teams.",
            Notice::TeamFailed => "An error occurred while selecting a team.",
            Notice::PointsFailed => "An error occurred while selecting a point value.",
            Notice::NameFailed => "An error occurred while getting the issue name.",
            Notice::StatesUnavailable => "Failed to get workflow states.",
            Notice::StatesFailed => "An error occurred while selecting a workflow state.",
        }
    }
}

/// The question or the announcement that goes with an action, where it has
/// one.
pub open spec fn action_text(action: ActionView) -> Option<Seq<char>> {
    match action {
        ActionView::AskOption => Some("Choose an option"@),
        ActionView::AskName => Some("What is the name of the issue?"@),
        ActionView::AskTeam { .. } => Some("Choose a team"@),
        ActionView::AskPoints => Some("Choose a point value"@),
        ActionView::AskStates { .. } => Some("Choose a workflow state"@),
        ActionView::CreateIssue { .. } => Some("Creating issue..."@),
        ActionView::ShowIssues { .. } => Some("Viewing issues..."@),
        ActionView::Say(notice) => Some(notice_text(notice)),
        ActionView::FetchTeams => None,
        ActionView::FetchStates { .. } => None,
        ActionView::Stop => None,
    }
}

impl Action {
    /// The words to show with the action: the question of a prompt, the
    /// announcement of a request, the text of a notice.
    pub fn text(&self) -> (text: Option<&'static str>)
        ensures
            match text {
                Some(text) => action_text(self@) == Some(text@),
                None => action_text(self@) is None,
            },
    {
        match self {
            Action::AskOption => Some("Choose an option"),
            Action::AskName => Some("What is the name of the issue?"),
            Action::AskTeam { .. } => Some("Choose a team"),
            Action::AskPoints => Some("Choose a point value"),
            Action::AskStates { .. } => Some("Choose a workflow state"),
            Action::CreateIssue { .. } => Some("Creating issue..."),
            Action::ShowIssues { .. } => Some("Viewing issues..."),
            Action::Say(notice) => Some(notice.message()),
            Action::FetchTeams => None,
            Action::FetchStates { .. } => None,
            Action::Stop => None,
        }
    }
}

/// What the person is told when a team's name did not resolve.
pub fn resolution_message(error: &ResolutionError) -> (text: &'static str)
    ensures
        text@ == match error {
            ResolutionError::NotFound(_) => "No team with the given name found."@,
            ResolutionError::Ambiguous(_, _) => "Multiple teams with the same name found"@,
        },
{
    match error {
        ResolutionError::NotFound(_) => "No team with the given name found.",
        ResolutionError::Ambiguous(_, _) => "Multiple teams with the same name found",
    }
}

/// Once over, a dialogue stays over and asks for nothing more.
pub proof fn lemma_done_is_final(answer: AnswerView)
    ensures
        next(ScreenView::Done, answer) == (ScreenView::Done, ActionView::Stop),
{
}

/// An issue is created only on the last screen of that dialogue, and then
/// with the name that was entered, the team that was chosen and the points
/// just chosen.
pub proof fn lemma_create_needs_all_three(screen: ScreenView, answer: AnswerView)
    ensures
        next(screen, answer).1 matches ActionView::CreateIssue { name, points, team } ==> {
            &&& screen == (ScreenView::IssuePoints { name: Some(name), team })
            &&& answer == AnswerView::Points(points)
            &&& next(screen, answer).0 == ScreenView::Done
        },
{
}

/// A failed answer never leads to a request: the dialogue either goes on
/// asking (a name that could not be had is reported after the team and the
/// points) or ends with a notice.
pub proof fn lemma_failure_sends_nothing(screen: ScreenView)
    ensures
        !(next(screen, AnswerView::Failed).1 is CreateIssue),
        !(next(screen, AnswerView::Failed).1 is ShowIssues),
        !(next(screen, AnswerView::Failed).1 is FetchTeams),
        !(next(screen, AnswerView::Failed).1 is FetchStates),
{
}

} // verus!
