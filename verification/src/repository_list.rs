//! The list of repositories with its highlight, which moves in a circle.

use crate::dependabot::DependabotSeverity;
use crate::repository::{Repository, RepositoryView};
use crate::widget_state::{list_offset, list_selected, list_state_default};
use ratatui::widgets::ListState;
use vstd::prelude::*;

verus! {

/// A highlight fits a list of `len` items: none on an empty list, else an index into it.
pub open spec fn cursor_valid(cursor: Option<nat>, len: nat) -> bool {
    match cursor {
        Some(i) => i < len,
        None => len == 0,
    }
}

/// The highlight of a list that was just filled: the first item, if there is one.
pub open spec fn first_cursor(len: nat) -> Option<nat> {
    if len == 0 {
        None
    } else {
        Some(0)
    }
}

/// The highlight one step down: after the last item comes the first.
pub open spec fn next_cursor(cursor: Option<nat>, len: nat) -> Option<nat> {
    match cursor {
        Some(i) => Some(
            if i + 1 >= len {
                0
            } else {
                i + 1
            },
        ),
        None => None,
    }
}

/// The highlight one step up: before the first item comes the last.
pub open spec fn previous_cursor(cursor: Option<nat>, len: nat) -> Option<nat> {
    match cursor {
        Some(i) => Some(
            if i == 0 {
                (len - 1) as nat
            } else {
                (i - 1) as nat
            },
        ),
        None => None,
    }
}

/// The highlight after `steps` steps down.
pub open spec fn next_cursor_times(cursor: Option<nat>, len: nat, steps: nat) -> Option<nat>
    decreases steps,
{
    if steps == 0 {
        cursor
    } else {
        next_cursor(next_cursor_times(cursor, len, (steps - 1) as nat), len)
    }
}

/// A step in either direction keeps a highlight that fits the list fitting.
pub proof fn lemma_steps_keep_validity(cursor: Option<nat>, len: nat)
    requires
        cursor_valid(cursor, len),
    ensures
        cursor_valid(next_cursor(cursor, len), len),
        cursor_valid(previous_cursor(cursor, len), len),
{
}

/// Steps down from index `i` go around the list: after `steps` of them the
/// highlight is on `(i + steps) % len`.
pub proof fn lemma_next_times_is_modular(i: nat, len: nat, steps: nat)
    requires
        i < len,
    ensures
        next_cursor_times(Some(i), len, steps) == Some((i + steps) % len),
    decreases steps,
{
    if steps == 0 {
        assert((i + 0) % len == i) by (nonlinear_arith)
            requires
                i < len,
        ;
    } else {
        let before = (steps - 1) as nat;
        lemma_next_times_is_modular(i, len, before);
        let at = (i + before) % len;
        assert(0 <= (i + before) % len < len) by (nonlinear_arith)
            requires
                len > 0,
        ;
        assert((i + steps) % len == if at + 1 >= len {
            0
        } else {
            at + 1
        }) by (nonlinear_arith)
            requires
                len > 0,
                at == (i + before) % len,
                steps == before + 1,
        ;
    }
}

/// On a list of `len` items, `len` steps down from any highlight lead back to it.
pub proof fn lemma_full_circle(cursor: Option<nat>, len: nat)
    requires
        len > 0,
        cursor_valid(cursor, len),
    ensures
        next_cursor_times(cursor, len, len) == cursor,
{
    let i = cursor->Some_0;
    lemma_next_times_is_modular(i, len, len);
    assert((i + len) % len == i) by (nonlinear_arith)
        requires
            i < len,
    ;
}

/// A step down and a step up undo each other, in either order and also where
/// the step goes from the last item to the first or back.
pub proof fn lemma_step_there_and_back(cursor: Option<nat>, len: nat)
    requires
        cursor_valid(cursor, len),
    ensures
        previous_cursor(next_cursor(cursor, len), len) == cursor,
        next_cursor(previous_cursor(cursor, len), len) == cursor,
{
}

/// What a list of repositories holds: the repositories in their order, and the highlight.
pub struct RepositoryListView {
    pub repos: Seq<RepositoryView>,
    pub cursor: Option<nat>,
}

impl RepositoryListView {
    /// The highlight fits the repositories.
    pub open spec fn valid(self) -> bool {
        cursor_valid(self.cursor, self.repos.len())
    }

    /// The repository under the highlight.
    pub open spec fn current(self) -> Option<RepositoryView> {
        match self.cursor {
            Some(i) => Some(self.repos[i as int]),
            None => None,
        }
    }
}

/// The views of repositories, in their order.
pub open spec fn repository_views(repos: Seq<Repository>) -> Seq<RepositoryView> {
    repos.map_values(|repository: Repository| repository@)
}

/// The highlight as an index of the machine.
pub open spec fn cursor_index(cursor: Option<nat>) -> Option<usize> {
    match cursor {
        Some(i) => Some(i as usize),
        None => None,
    }
}

/// The count that a repository keeps for one severity.
pub open spec fn severity_count(repository: RepositoryView, severity: DependabotSeverity) -> nat {
    match severity {
        DependabotSeverity::Low => repository.low_alerts as nat,
        DependabotSeverity::Medium => repository.medium_alerts as nat,
        DependabotSeverity::High => repository.high_alerts as nat,
        DependabotSeverity::Critical => repository.critical_alerts as nat,
    }
}

/// The sum, over all repositories, of the counts that they keep for one severity.
pub open spec fn severity_total(repos: Seq<RepositoryView>, severity: DependabotSeverity) -> nat
    decreases repos.len(),
{
    if repos.len() == 0 {
        0
    } else {
        severity_total(repos.drop_last(), severity) + severity_count(repos.last(), severity)
    }
}

/// The alert levels over all repositories.
#[derive(Debug, Clone, Copy, PartialEq, Eq, Structural)]
pub struct AlertTotals {
    pub low: u128,
    pub medium: u128,
    pub high: u128,
    pub critical: u128,
}

/// A sum of `count` counts stays below `count` times the largest count.
proof fn lemma_total_bounded(repos: Seq<RepositoryView>, severity: DependabotSeverity)
    ensures
        severity_total(repos, severity) <= repos.len() * usize::MAX,
    decreases repos.len(),
{
    if repos.len() > 0 {
        lemma_total_bounded(repos.drop_last(), severity);
        assert((repos.len() - 1) * usize::MAX + usize::MAX == repos.len() * usize::MAX)
            by (nonlinear_arith);
    }
}

/// As many counts as a machine can hold add up to less than 2^128.
proof fn lemma_total_fits(repos: Seq<RepositoryView>, severity: DependabotSeverity)
    requires
        repos.len() <= usize::MAX,
    ensures
        severity_total(repos, severity) <= u128::MAX,
{
    lemma_total_bounded(repos, severity);
    assert(repos.len() * usize::MAX <= 0xffff_ffff_ffff_ffff * 0xffff_ffff_ffff_ffff)
        by (nonlinear_arith)
        requires
            repos.len() <= 0xffff_ffff_ffff_ffff,
            usize::MAX <= 0xffff_ffff_ffff_ffff,
    ;
}

/// Repositories and a highlight that fits them.
struct Selection {
    repos: Vec<Repository>,
    cursor: Option<usize>,
}

impl Selection {
    #[verifier::type_invariant]
    spec fn fits(&self) -> bool {
        match self.cursor {
            Some(i) => i < self.repos.len(),
            None => self.repos.len() == 0,
        }
    }

    spec fn cursor_model(&self) -> Option<nat> {
        match self.cursor {
            Some(i) => Some(i as nat),
            None => None,
        }
    }
}

/// The repositories of the dashboard, one of them highlighted unless there are none.
pub struct RepositoryList {
    state: ListState,
    items: Selection,
}

impl View for RepositoryList {
    type V = RepositoryListView;

    closed spec fn view(&self) -> RepositoryListView {
        RepositoryListView {
            repos: repository_views(self.items.repos@),
            cursor: self.items.cursor_model(),
        }
    }
}

impl RepositoryList {
    /// The repositories themselves.
    pub closed spec fn spec_repos(&self) -> Seq<Repository> {
        self.items.repos@
    }

    /// The state that the list widget is drawn with.
    pub closed spec fn widget_state(&self) -> ListState {
        self.state
    }

    /// The widget highlights the highlighted repository. It shows the list
    /// from `offset` on, or from its first item where nothing is highlighted.
    pub open spec fn widget_follows(&self, offset: usize) -> bool {
        &&& list_selected(self.widget_state()) == cursor_index(self@.cursor)
        &&& list_offset(self.widget_state()) == if self@.cursor is None {
            0
        } else {
            offset
        }
    }

    /// The view holds the views of the repositories.
    pub proof fn lemma_view_of_repos(&self)
        ensures
            self@.repos == repository_views(self.spec_repos()),
    {
    }

    /// A list of the given repositories, with the first one highlighted.
    pub fn with_respositories(repos: Vec<Repository>) -> (list: RepositoryList)
        ensures
            list.spec_repos() == repos@,
            list@.repos == repository_views(repos@),
            list@.cursor == first_cursor(repos@.len()),
            list@.valid(),
            list.widget_follows(0),
    {
        let mut state = list_state_default();
        let cursor = if repos.len() == 0 {
            None
        } else {
            Some(0)
        };
        state.select(cursor);
        RepositoryList { state, items: Selection { repos, cursor } }
    }

    /// Moves the highlight one step down; after the last item comes the first.
    /// Nothing moves on an empty list.
    pub fn next(&mut self)
        ensures
            final(self).spec_repos() == old(self).spec_repos(),
            final(self)@.repos == old(self)@.repos,
            final(self)@.cursor == next_cursor(old(self)@.cursor, old(self)@.repos.len()),
            final(self)@.valid(),
            final(self).widget_follows(list_offset(old(self).widget_state())),
    {
        proof {
            use_type_invariant(&self.items);
        }
        let cursor = match self.items.cursor {
            Some(index) => {
                if index >= self.items.repos.len() - 1 {
                    Some(0)
                } else {
                    Some(index + 1)
                }
            },
            None => None,
        };
        self.items.cursor = cursor;
        self.state.select(cursor);
    }

    /// Moves the highlight one step up; before the first item comes the last.
    /// Nothing moves on an empty list.
    pub fn previous(&mut self)
        ensures
            final(self).spec_repos() == old(self).spec_repos(),
            final(self)@.repos == old(self)@.repos,
            final(self)@.cursor == previous_cursor(old(self)@.cursor, old(self)@.repos.len()),
            final(self)@.valid(),
            final(self).widget_follows(list_offset(old(self).widget_state())),
    {
        proof {
            use_type_invariant(&self.items);
        }
        let cursor = match self.items.cursor {
            Some(index) => {
                if index == 0 {
                    Some(self.items.repos.len() - 1)
                } else {
                    Some(index - 1)
                }
            },
            None => None,
        };
        self.items.cursor = cursor;
        self.state.select(cursor);
    }

    /// Puts the highlight back on the first item, as on a list that was just filled.
    pub fn select_first(&mut self)
        ensures
            final(self).spec_repos() == old(self).spec_repos(),
            final(self)@.repos == old(self)@.repos,
            final(self)@.cursor == first_cursor(old(self)@.repos.len()),
            final(self)@.valid(),
            final(self).widget_follows(list_offset(old(self).widget_state())),
    {
        let cursor = if self.items.repos.len() == 0 {
            None
        } else {
            Some(0)
        };
        self.items.cursor = cursor;
        self.state.select(cursor);
    }

    /// The index of the highlighted repository.
    pub fn selected(&self) -> (cursor: Option<usize>)
        ensures
            cursor == cursor_index(self@.cursor),
            self@.valid(),
    {
        proof {
            use_type_invariant(&self.items);
        }
        self.items.cursor
    }

    /// The highlighted repository, or nothing on an empty list.
    pub fn get_selected_repository(&self) -> (current: Option<&Repository>)
        ensures
            self@.valid(),
            match current {
                Some(repository) => self@.cursor matches Some(i) && *repository
                    == self.spec_repos()[i as int] && self@.current() == Some(repository@),
                None => self@.cursor is None && self@.repos.len() == 0,
            },
    {
        proof {
            use_type_invariant(&self.items);
        }
        match self.items.cursor {
            Some(index) => Some(&self.items.repos[index]),
            None => None,
        }
    }

    /// The repositories in their order.
    pub fn repos(&self) -> (repos: &Vec<Repository>)
        ensures
            repos@ == self.spec_repos(),
            self@.valid(),
    {
        proof {
            use_type_invariant(&self.items);
        }
        &self.items.repos
    }

    /// The alert levels over all repositories: for each severity, the sum of
    /// the counts that the repositories keep.
    pub fn alert_totals(&self) -> (totals: AlertTotals)
        ensures
            totals.low == severity_total(self@.repos, DependabotSeverity::Low),
            totals.medium == severity_total(self@.repos, DependabotSeverity::Medium),
            totals.high == severity_total(self@.repos, DependabotSeverity::High),
            totals.critical == severity_total(self@.repos, DependabotSeverity::Critical),
    {
        let repos = &self.items.repos;
        let ghost views = repository_views(repos@);
        let mut totals = AlertTotals { low: 0, medium: 0, high: 0, critical: 0 };
        let mut i: usize = 0;
        while i < repos.len()
            invariant
                i <= repos.len(),
                views == repository_views(repos@),
                totals.low == severity_total(views.take(i as int), DependabotSeverity::Low),
                totals.medium == severity_total(views.take(i as int), DependabotSeverity::Medium),
                totals.high == severity_total(views.take(i as int), DependabotSeverity::High),
                totals.critical == severity_total(
                    views.take(i as int),
                    DependabotSeverity::Critical,
                ),
            decreases repos.len() - i,
        {
            proof {
                let upto = views.take(i + 1);
                assert(upto.drop_last() =~= views.take(i as int));
                assert(upto.last() == repos@[i as int]@);
                lemma_total_fits(upto, DependabotSeverity::Low);
                lemma_total_fits(upto, DependabotSeverity::Medium);
                lemma_total_fits(upto, DependabotSeverity::High);
                lemma_total_fits(upto, DependabotSeverity::Critical);
            }
            let repository = &repos[i];
            totals.low = totals.low + repository.low_alerts as u128;
            totals.medium = totals.medium + repository.medium_alerts as u128;
            totals.high = totals.high + repository.high_alerts as u128;
            totals.critical = totals.critical + repository.critical_alerts as u128;
            i += 1;
        }
        proof {
            assert(views.take(i as int) =~= views);
        }
        totals
    }

    /// The state that the list widget is drawn with. What the renderer does to
    /// it changes neither the repositories nor the highlight.
    pub fn get_mut_state(&mut self) -> (state: &mut ListState)
        ensures
            *state == old(self).widget_state(),
            final(self).widget_state() == *final(state),
            final(self).spec_repos() == old(self).spec_repos(),
            final(self)@ == old(self)@,
    {
        &mut self.state
    }
}

} // verus!
