use linear_client::error::ResolutionError;
use linear_client::menu::{
    option_labels, point_choices, resolution_message, start, start_viewing, state_ids, step,
    Action, Answer, Notice, Screen, CREATE_LABEL, VIEW_LABEL,
};
use linear_client::model::{Team, WorkflowState};

fn team(id: &str, name: &str) -> Team {
    Team { id: id.to_string(), name: name.to_string() }
}

fn state(id: &str, name: &str, team_id: &str) -> WorkflowState {
    WorkflowState { name: name.to_string(), id: id.to_string(), team_id: team_id.to_string() }
}

fn every_answer() -> Vec<Answer> {
    vec![
        Answer::Failed,
        Answer::Chosen(CREATE_LABEL.to_string()),
        Answer::Teams(vec![team("T1", "Core")]),
        Answer::Name("Fix bug".to_string()),
        Answer::Team(team("T1", "Core")),
        Answer::Points(3),
        Answer::States(vec![state("S1", "Todo", "T1")]),
        Answer::StatesChosen(vec![state("S1", "Todo", "T1")]),
    ]
}

#[test]
fn the_dialogue_begins_at_the_options() {
    assert_eq!(start(), (Screen::Options, Action::AskOption));
    assert_eq!(start_viewing(), (Screen::ViewTeams, Action::FetchTeams));
}

#[test]
fn the_options_are_offered_in_order() {
    assert_eq!(option_labels(), vec!["Create an Issue", "View Your Issues"]);
    assert_eq!(CREATE_LABEL, "Create an Issue");
    assert_eq!(VIEW_LABEL, "View Your Issues");
}

#[test]
fn the_point_values() {
    assert_eq!(point_choices(), vec![1, 2, 3, 5, 8]);
}

#[test]
fn choosing_an_option_starts_its_dialogue() {
    assert_eq!(
        step(Screen::Options, Answer::Chosen("Create an Issue".to_string())),
        (Screen::CreateTeams, Action::FetchTeams)
    );
    assert_eq!(
        step(Screen::Options, Answer::Chosen("View Your Issues".to_string())),
        (Screen::ViewTeams, Action::FetchTeams)
    );
}

#[test]
fn an_unknown_option_ends_the_dialogue() {
    for label in ["", "create an issue", "Create an Issue ", "Quit"] {
        assert_eq!(
            step(Screen::Options, Answer::Chosen(label.to_string())),
            (Screen::Done, Action::Say(Notice::UnknownOption))
        );
    }
}

#[test]
fn a_failed_choice_of_option_ends_the_dialogue() {
    assert_eq!(
        step(Screen::Options, Answer::Failed),
        (Screen::Done, Action::Say(Notice::OptionFailed))
    );
    assert_eq!(
        step(Screen::Options, Answer::Points(1)),
        (Screen::Done, Action::Say(Notice::OptionFailed))
    );
}

#[test]
fn creating_an_issue_step_by_step() {
    let teams = vec![team("T1", "Core"), team("T2", "Web")];
    let (screen, action) = step(Screen::CreateTeams, Answer::Teams(teams.clone()));
    assert_eq!(screen, Screen::IssueName { teams: teams.clone() });
    assert_eq!(action, Action::AskName);
    let (screen, action) = step(screen, Answer::Name("Fix bug".to_string()));
    assert_eq!(screen, Screen::IssueTeam { name: Some("Fix bug".to_string()) });
    assert_eq!(action, Action::AskTeam { teams });
    let (screen, action) = step(screen, Answer::Team(team("T2", "Web")));
    assert_eq!(
        screen,
        Screen::IssuePoints { name: Some("Fix bug".to_string()), team: team("T2", "Web") }
    );
    assert_eq!(action, Action::AskPoints);
    let (screen, action) = step(screen, Answer::Points(5));
    assert_eq!(screen, Screen::Done);
    assert_eq!(
        action,
        Action::CreateIssue { name: "Fix bug".to_string(), points: 5, team: team("T2", "Web") }
    );
}

#[test]
fn a_name_that_could_not_be_had_is_reported_last() {
    let (screen, action) =
        step(Screen::IssueName { teams: vec![team("T1", "Core")] }, Answer::Failed);
    assert_eq!(screen, Screen::IssueTeam { name: None });
    assert_eq!(action, Action::AskTeam { teams: vec![team("T1", "Core")] });
    let (screen, action) = step(screen, Answer::Team(team("T1", "Core")));
    assert_eq!(action, Action::AskPoints);
    assert_eq!(step(screen, Answer::Points(1)), (Screen::Done, Action::Say(Notice::NameFailed)));
}

#[test]
fn a_failed_team_is_reported_before_the_name() {
    assert_eq!(
        step(Screen::IssueTeam { name: None }, Answer::Failed),
        (Screen::Done, Action::Say(Notice::TeamFailed))
    );
    assert_eq!(
        step(Screen::IssueTeam { name: Some("Fix bug".to_string()) }, Answer::Failed),
        (Screen::Done, Action::Say(Notice::TeamFailed))
    );
}

#[test]
fn failed_points_are_reported_before_the_name() {
    assert_eq!(
        step(Screen::IssuePoints { name: None, team: team("T1", "Core") }, Answer::Failed),
        (Screen::Done, Action::Say(Notice::PointsFailed))
    );
}

#[test]
fn teams_that_could_not_be_fetched_end_the_dialogue() {
    assert_eq!(
        step(Screen::CreateTeams, Answer::Failed),
        (Screen::Done, Action::Say(Notice::TeamsUnavailable))
    );
    assert_eq!(
        step(Screen::ViewTeams, Answer::Failed),
        (Screen::Done, Action::Say(Notice::TeamsUnavailable))
    );
}

#[test]
fn viewing_issues_step_by_step() {
    let teams = vec![team("T1", "Core"), team("T2", "Web")];
    let (screen, action) = step(Screen::ViewTeams, Answer::Teams(teams.clone()));
    assert_eq!(screen, Screen::ViewTeam);
    assert_eq!(action, Action::AskTeam { teams });
    let (screen, action) = step(screen, Answer::Team(team("T1", "Core")));
    assert_eq!(screen, Screen::ViewStates { team_id: "T1".to_string() });
    assert_eq!(action, Action::FetchStates { team_id: "T1".to_string() });
    let states = vec![state("S1", "Todo", "T1"), state("S2", "Done", "T1")];
    let (screen, action) = step(screen, Answer::States(states.clone()));
    assert_eq!(screen, Screen::ViewChoice { team_id: "T1".to_string() });
    assert_eq!(action, Action::AskStates { states });
    let (screen, action) = step(screen, Answer::StatesChosen(vec![state("S2", "Done", "T1")]));
    assert_eq!(screen, Screen::Done);
    assert_eq!(
        action,
        Action::ShowIssues { team_id: "T1".to_string(), state_ids: vec!["S2".to_string()] }
    );
}

#[test]
fn choosing_no_state_shows_the_issues_of_the_team() {
    assert_eq!(
        step(Screen::ViewChoice { team_id: "T1".to_string() }, Answer::StatesChosen(vec![])),
        (Screen::Done, Action::ShowIssues { team_id: "T1".to_string(), state_ids: vec![] })
    );
}

#[test]
fn failures_while_viewing() {
    assert_eq!(
        step(Screen::ViewTeam, Answer::Failed),
        (Screen::Done, Action::Say(Notice::TeamFailed))
    );
    assert_eq!(
        step(Screen::ViewStates { team_id: "T1".to_string() }, Answer::Failed),
        (Screen::Done, Action::Say(Notice::StatesUnavailable))
    );
    assert_eq!(
        step(Screen::ViewChoice { team_id: "T1".to_string() }, Answer::Failed),
        (Screen::Done, Action::Say(Notice::StatesFailed))
    );
    assert_eq!(
        step(
            Screen::ViewChoice { team_id: "T1".to_string() },
            Answer::States(vec![state("S1", "Todo", "T1")])
        ),
        (Screen::Done, Action::Say(Notice::StatesFailed))
    );
}

#[test]
fn a_dialogue_that_is_over_stays_over() {
    for answer in every_answer() {
        assert_eq!(step(Screen::Done, answer), (Screen::Done, Action::Stop));
    }
}

#[test]
fn state_ids_are_taken_one_for_one() {
    let states = vec![state("S2", "Done", "T1"), state("S1", "Todo", "T1"), state("S2", "Done", "T1")];
    assert_eq!(state_ids(&states), vec!["S2", "S1", "S2"]);
    assert_eq!(state_ids(&vec![]), Vec::<String>::new());
}

#[test]
fn the_words_of_each_notice() {
    assert_eq!(Notice::OptionFailed.message(), "An error occurred while selecting an option.");
    assert_eq!(Notice::UnknownOption.message(), "Unknown option selected.");
    assert_eq!(Notice::TeamsUnavailable.message(), "Failed to get teams.");
    assert_eq!(Notice::TeamFailed.message(), "An error occurred while selecting a team.");
    assert_eq!(Notice::PointsFailed.message(), "An error occurred while selecting a point value.");
    assert_eq!(Notice::NameFailed.message(), "An error occurred while getting the issue name.");
    assert_eq!(Notice::StatesUnavailable.message(), "Failed to get workflow states.");
    assert_eq!(
        Notice::StatesFailed.message(),
        "An error occurred while selecting a workflow state."
    );
}

#[test]
fn the_words_of_each_action() {
    assert_eq!(Action::AskOption.text(), Some("Choose an option"));
    assert_eq!(Action::AskName.text(), Some("What is the name of the issue?"));
    assert_eq!(Action::AskTeam { teams: vec![] }.text(), Some("Choose a team"));
    assert_eq!(Action::AskPoints.text(), Some("Choose a point value"));
    assert_eq!(Action::AskStates { states: vec![] }.text(), Some("Choose a workflow state"));
    assert_eq!(
        Action::CreateIssue { name: "n".to_string(), points: 1, team: team("T1", "Core") }.text(),
        Some("Creating issue...")
    );
    assert_eq!(
        Action::ShowIssues { team_id: "T1".to_string(), state_ids: vec![] }.text(),
        Some("Viewing issues...")
    );
    assert_eq!(Action::Say(Notice::UnknownOption).text(), Some("Unknown option selected."));
    assert_eq!(Action::FetchTeams.text(), None);
    assert_eq!(Action::FetchStates { team_id: "T1".to_string() }.text(), None);
    assert_eq!(Action::Stop.text(), None);
}

#[test]
fn the_words_for_a_name_that_did_not_resolve() {
    assert_eq!(
        resolution_message(&ResolutionError::NotFound("Core".to_string())),
        "No team with the given name found."
    );
    assert_eq!(
        resolution_message(&ResolutionError::Ambiguous("Core".to_string(), 2)),
        "Multiple teams with the same name found"
    );
}
