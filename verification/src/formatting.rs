//! How issues are shown: a terminal hyperlink per issue, and a table of them.

use vstd::prelude::*;
use crate::model::{views, Issue, IssueView};

verus! {

/// A terminal hyperlink: `text`, shown as a link to `url`.
pub open spec fn hyperlink(url: Seq<char>, text: Seq<char>) -> Seq<char> {
    "\x1B]8;;"@ + url + "\x1B\\"@ + text + "\x1B]8;;\x1B\\"@
}

/// Formats `text` as a terminal hyperlink to `url`.
pub fn format_as_hyperlink(url: &str, text: &str) -> (link: String)
    ensures
        link@ == hyperlink(url@, text@),
{
    let mut link = String::from_str("\x1B]8;;");
    link.append(url);
    link.append("\x1B\\");
    link.append(text);
    link.append("\x1B]8;;\x1B\\");
    link
}

/// One row of the table of issues.
#[derive(Debug, Clone, PartialEq, Eq)]
pub struct IssueDisplay {
    pub link: String,
    pub team_name: String,
    pub state_name: String,
}

pub struct IssueDisplayView {
    pub link: Seq<char>,
    pub team_name: Seq<char>,
    pub state_name: Seq<char>,
}

impl View for IssueDisplay {
    type V = IssueDisplayView;

    open spec fn view(&self) -> IssueDisplayView {
        IssueDisplayView {
            link: self.link@,
            team_name: self.team_name@,
            state_name: self.state_name@,
        }
    }
}

/// The row of an issue: its title as a link to it, the name of its team, and
/// the name of its state, empty where it has none.
pub open spec fn display_of(issue: IssueView) -> IssueDisplayView {
    IssueDisplayView {
        link: hyperlink(issue.url, issue.title),
        team_name: issue.team.name,
        state_name: match issue.state {
            Some(state) => state.name,
            None => Seq::empty(),
        },
    }
}

impl IssueDisplay {
    /// The row that shows `issue`.
    pub fn from_issue(issue: Issue) -> (row: IssueDisplay)
        ensures
            row@ == display_of(issue@),
    {
        let state_name = match issue.state {
            Some(state) => state.name,
            None => String::new(),
        };
        IssueDisplay {
            link: format_as_hyperlink(issue.url.as_str(), issue.title.as_str()),
            team_name: issue.team.name,
            state_name,
        }
    }
}

/// The cells of a table of issues: the headings, then a row for each issue
/// in order.
pub open spec fn issue_grid(issues: Seq<IssueView>) -> Seq<Seq<Seq<char>>> {
    Seq::new(
        issues.len() + 1,
        |i: int|
            if i == 0 {
                seq!["Issue"@, "Team"@, "State"@]
            } else {
                let row = display_of(issues[i - 1]);
                seq![row.link, row.team_name, row.state_name]
            },
    )
}

/// The cells of a table held in memory, by their text.
pub open spec fn grid_view(rows: Seq<Vec<String>>) -> Seq<Seq<Seq<char>>> {
    Seq::new(rows.len(), |i: int| views(rows[i]@))
}

/// The cells of the table of `issues`.
pub fn issue_rows(issues: Vec<Issue>) -> (rows: Vec<Vec<String>>)
    ensures
        grid_view(rows@) == issue_grid(views(issues@)),
{
    let ghost shown = views(issues@);
    let mut rows: Vec<Vec<String>> = Vec::new();
    let mut headings: Vec<String> = Vec::new();
    headings.push(String::from_str("Issue"));
    headings.push(String::from_str("Team"));
    headings.push(String::from_str("State"));
    assert(views(headings@) =~= seq!["Issue"@, "Team"@, "State"@]);
    rows.push(headings);
    for issue in it: issues
        invariant
            it.seq() == issues@,
            shown == views(issues@),
            rows@.len() == it.index() + 1,
            forall|k: int|
                0 <= k < rows@.len() ==> views(#[trigger] rows@[k]@) == issue_grid(shown)[k],
    {
        let row = IssueDisplay::from_issue(issue);
        let mut cells: Vec<String> = Vec::new();
        cells.push(row.link);
        cells.push(row.team_name);
        cells.push(row.state_name);
        assert(views(cells@) =~= issue_grid(shown)[it.index() + 1]);
        rows.push(cells);
    }
    assert(grid_view(rows@) =~= issue_grid(shown));
    rows
}

/// The text of a table in the ASCII style, as the table crate lays it out.
pub uninterp spec fn ascii_table(cells: Seq<Seq<Seq<char>>>) -> Seq<char>;

/// Lays out a table in the ASCII style. This is `tabled`'s
/// `Builder::from(rows).build()`, then `Table::with(Style::ascii())` and
/// `to_string()`; the contract only names what they return, which depends on
/// the cells alone. There must be a row, and every row must have the same
/// number of cells, at least one.
#[verifier::external_body]
fn lay_out(rows: Vec<Vec<String>>) -> (text: String)
    requires
        rows@.len() > 0,
        rows@[0]@.len() > 0,
        forall|i: int| 0 <= i < rows@.len() ==> (#[trigger] rows@[i])@.len() == rows@[0]@.len(),
    ensures
        text@ == ascii_table(grid_view(rows@)),
{
    let mut table = tabled::builder::Builder::from(rows).build();
    table.with(tabled::settings::Style::ascii());
    table.to_string()
}

/// The table of `issues` as text: a row of headings, then one row per issue.
pub fn render_issues(issues: Vec<Issue>) -> (text: String)
    ensures
        text@ == ascii_table(issue_grid(views(issues@))),
{
    let rows = issue_rows(issues);
    proof {
        let grid = issue_grid(views(issues@));
        assert(grid_view(rows@).len() == grid.len());
        assert forall|i: int| 0 <= i < rows@.len() implies (#[trigger] rows@[i])@.len() == 3 by {
            assert(grid_view(rows@)[i] == grid[i]);
            assert(views(rows@[i]@).len() == 3);
        }
    }
    lay_out(rows)
}

} // verus!
