//! From a team's name, as a person typed it, to exactly one team, or to the
//! reason why there is none to pick.

use vstd::prelude::*;
use crate::error::{ResolutionError, ResolutionErrorView};
use crate::model::{views, Team, TeamView};

verus! {

/// Whether a team has exactly this name: no trimming, no folding of case.
pub open spec fn has_name(name: Seq<char>) -> spec_fn(TeamView) -> bool {
    |team: TeamView| team.name == name
}

/// The teams of that name, in the order of the list.
pub open spec fn named(teams: Seq<TeamView>, name: Seq<char>) -> Seq<TeamView> {
    teams.filter(has_name(name))
}

/// What a name resolves to: the one team that has it; `NotFound` where none
/// has it; `Ambiguous`, with their number, where several have it.
pub open spec fn resolution(teams: Seq<TeamView>, name: Seq<char>) -> Result<
    TeamView,
    ResolutionErrorView,
> {
    let found = named(teams, name);
    if found.len() == 0 {
        Err(ResolutionErrorView::NotFound(name))
    } else if found.len() == 1 {
        Ok(found[0])
    } else {
        Err(ResolutionErrorView::Ambiguous(name, found.len()))
    }
}

/// Resolves `name` against the fetched teams. A name that several teams have
/// is refused: the first of them is never picked.
pub fn resolve_team<'a>(teams: &'a Vec<Team>, name: &str) -> (r: Result<&'a Team, ResolutionError>)
    ensures
        match r {
            Ok(team) => {
                &&& resolution(views(teams@), name@) == Ok::<TeamView, ResolutionErrorView>(team@)
                &&& exists|i: int| 0 <= i < teams@.len() && teams@[i] == *team
            },
            Err(e) => resolution(views(teams@), name@) == Err::<TeamView, _>(e@),
        },
{
    let wanted = name.to_owned();
    let ghost all = views(teams@);
    let mut count: usize = 0;
    let mut first: usize = 0;
    let mut i: usize = 0;
    proof {
        reveal(Seq::filter);
        assert(all.take(0) =~= Seq::<TeamView>::empty());
    }
    while i < teams.len()
        invariant
            i <= teams.len(),
            wanted@ == name@,
            all == views(teams@),
            count <= i,
            count == named(all.take(i as int), name@).len(),
            count > 0 ==> first < i && named(all.take(i as int), name@)[0] == all[first as int],
        decreases teams.len() - i,
    {
        proof {
            assert(all.take(i + 1) =~= all.take(i as int).push(all[i as int]));
            all.take(i as int).lemma_filter_push(all[i as int], has_name(name@));
        }
        if teams[i].name == wanted {
            if count == 0 {
                first = i;
            }
            count += 1;
        }
        i += 1;
    }
    assert(all.take(i as int) =~= all);
    if count == 0 {
        Err(ResolutionError::NotFound(wanted))
    } else if count == 1 {
        Ok(&teams[first])
    } else {
        Err(ResolutionError::Ambiguous(wanted, count))
    }
}

/// Where no team has the name, none is among those of that name.
pub proof fn lemma_none_named(teams: Seq<TeamView>, name: Seq<char>)
    requires
        forall|k: int| 0 <= k < teams.len() ==> teams[k].name != name,
    ensures
        named(teams, name) == Seq::<TeamView>::empty(),
    decreases teams.len(),
{
    reveal(Seq::filter);
    if teams.len() > 0 {
        lemma_none_named(teams.drop_last(), name);
    }
}

/// Where the team at `i` has the name and no other has, it alone is among
/// those of that name.
pub proof fn lemma_one_named(teams: Seq<TeamView>, name: Seq<char>, i: int)
    requires
        0 <= i < teams.len(),
        teams[i].name == name,
        forall|k: int| 0 <= k < teams.len() && k != i ==> teams[k].name != name,
    ensures
        named(teams, name) == seq![teams[i]],
{
    let before = teams.take(i);
    let after = teams.skip(i + 1);
    lemma_none_named(before, name);
    lemma_none_named(after, name);
    before.lemma_filter_push(teams[i], has_name(name));
    Seq::filter_distributes_over_add(before.push(teams[i]), after, has_name(name));
    assert(teams =~= before.push(teams[i]) + after);
    assert(named(teams, name) =~= seq![teams[i]]);
}

/// A name that exactly one team has resolves to that team, its id and name as
/// they stand in the list.
pub proof fn lemma_single_match_resolves(teams: Seq<TeamView>, name: Seq<char>, i: int)
    requires
        0 <= i < teams.len(),
        teams[i].name == name,
        forall|k: int| 0 <= k < teams.len() && k != i ==> teams[k].name != name,
    ensures
        resolution(teams, name) == Ok::<TeamView, ResolutionErrorView>(teams[i]),
{
    lemma_one_named(teams, name, i);
}

/// A name that exactly two teams of the list share resolves to no team: it is
/// `Ambiguous`, with the count 2.
pub proof fn lemma_shared_name_is_ambiguous(teams: Seq<TeamView>, name: Seq<char>, i: int, j: int)
    requires
        0 <= i < j < teams.len(),
        teams[i].name == name,
        teams[j].name == name,
        forall|k: int| 0 <= k < teams.len() && k != i && k != j ==> teams[k].name != name,
    ensures
        resolution(teams, name) == Err::<TeamView, _>(ResolutionErrorView::Ambiguous(name, 2)),
{
    let before = teams.take(j);
    let after = teams.skip(j + 1);
    lemma_one_named(before, name, i);
    lemma_none_named(after, name);
    before.lemma_filter_push(teams[j], has_name(name));
    Seq::filter_distributes_over_add(before.push(teams[j]), after, has_name(name));
    assert(teams =~= before.push(teams[j]) + after);
    assert(named(teams, name) =~= seq![teams[i], teams[j]]);
}

/// A name that no team of the list has resolves to `NotFound`, with that very
/// name.
pub proof fn lemma_missing_name_not_found(teams: Seq<TeamView>, name: Seq<char>)
    requires
        forall|k: int| 0 <= k < teams.len() ==> teams[k].name != name,
    ensures
        resolution(teams, name) == Err::<TeamView, _>(ResolutionErrorView::NotFound(name)),
{
    lemma_none_named(teams, name);
}

/// Whatever the list, a name resolves to a team only where exactly one team
/// has it, and then to one of the list.
pub proof fn lemma_resolution_is_a_member(teams: Seq<TeamView>, name: Seq<char>)
    ensures
        resolution(teams, name) matches Ok(team) ==> {
            &&& named(teams, name).len() == 1
            &&& team.name == name
            &&& teams.contains(team)
        },
{
    let found = named(teams, name);
    if found.len() == 1 {
        teams.lemma_filter_pred(has_name(name), 0);
        assert(found.contains(found[0]));
        teams.lemma_filter_contains_rev(has_name(name), found[0]);
    }
}

} // verus!
