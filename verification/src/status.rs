//! What the status of a project tells the user: a sign and a few words
//! per file, and what to do next.

use vstd::prelude::*;
use crate::sync::SyncState;

verus! {

/// What the states of a project's files call for.
#[derive(Debug, Clone, Copy, PartialEq, Eq, Structural)]
pub struct StatusSummary {
    /// Some file changed on both sides.
    pub has_conflicts: bool,
    /// Some file changed locally only.
    pub needs_push: bool,
    /// Some file is newer, or only to be found, in the shared repository.
    pub needs_pull: bool,
}

/// A piece of advice.
#[derive(Debug, Clone, Copy, PartialEq, Eq, Structural)]
pub enum Hint {
    ResolveConflicts,
    Pull,
    Push,
}

/// The sign shown for a state.
pub open spec fn symbol_text(state: SyncState) -> Seq<char> {
    match state {
        SyncState::InSync => "✓"@,
        SyncState::LocalAhead => "↑"@,
        SyncState::RemoteAhead => "↓"@,
        SyncState::Conflict => "⚠"@,
        SyncState::LocalOnly => "?"@,
        SyncState::RemoteOnly => "←"@,
    }
}

/// The words shown for a state.
pub open spec fn description_text(state: SyncState) -> Seq<char> {
    match state {
        SyncState::InSync => "in sync"@,
        SyncState::LocalAhead => "local ahead - modified locally, ready to push"@,
        SyncState::RemoteAhead => "remote ahead - modified in shade, safe to pull"@,
        SyncState::Conflict => "conflict - modified both locally and remotely"@,
        SyncState::LocalOnly => "local only, not in shade"@,
        SyncState::RemoteOnly => "remote only, deleted locally"@,
    }
}

/// The advice for a summary: conflicts come before anything that could be
/// pulled, and local changes are always worth a push.
pub open spec fn advice(summary: StatusSummary) -> Seq<Hint> {
    let first = if summary.has_conflicts {
        seq![Hint::ResolveConflicts]
    } else if summary.needs_pull {
        seq![Hint::Pull]
    } else {
        Seq::empty()
    };
    if summary.needs_push {
        first.push(Hint::Push)
    } else {
        first
    }
}

/// The sign shown for `state`.
pub fn state_symbol(state: SyncState) -> (symbol: &'static str)
    ensures
        symbol@ == symbol_text(state),
{
    match state {
        SyncState::InSync => "✓",
        SyncState::LocalAhead => "↑",
        SyncState::RemoteAhead => "↓",
        SyncState::Conflict => "⚠",
        SyncState::LocalOnly => "?",
        SyncState::RemoteOnly => "←",
    }
}

/// The words shown for `state`.
pub fn state_description(state: SyncState) -> (words: &'static str)
    ensures
        words@ == description_text(state),
{
    match state {
        SyncState::InSync => "in sync",
        SyncState::LocalAhead => "local ahead - modified locally, ready to push",
        SyncState::RemoteAhead => "remote ahead - modified in shade, safe to pull",
        SyncState::Conflict => "conflict - modified both locally and remotely",
        SyncState::LocalOnly => "local only, not in shade",
        SyncState::RemoteOnly => "remote only, deleted locally",
    }
}

/// What the states of all files call for.
pub fn summarize(states: &Vec<SyncState>) -> (summary: StatusSummary)
    ensures
        summary.has_conflicts == states@.contains(SyncState::Conflict),
        summary.needs_push == states@.contains(SyncState::LocalAhead),
        summary.needs_pull == (states@.contains(SyncState::RemoteAhead) || states@.contains(
            SyncState::RemoteOnly,
        )),
{
    let mut summary = StatusSummary { has_conflicts: false, needs_push: false, needs_pull: false };
    let mut i: usize = 0;
    while i < states.len()
        invariant
            i <= states@.len(),
            summary.has_conflicts == states@.take(i as int).contains(SyncState::Conflict),
            summary.needs_push == states@.take(i as int).contains(SyncState::LocalAhead),
            summary.needs_pull == (states@.take(i as int).contains(SyncState::RemoteAhead)
                || states@.take(i as int).contains(SyncState::RemoteOnly)),
        decreases states@.len() - i,
    {
        proof {
            let seen = states@.take(i as int);
            let more = states@.take(i + 1);
            assert(more =~= seen.push(states@[i as int]));
            assert forall|wanted: SyncState| #[trigger]
                more.contains(wanted) == (seen.contains(wanted) || states@[i as int] == wanted) by {
                if seen.contains(wanted) {
                    let at = choose|at: int| 0 <= at < seen.len() && seen[at] == wanted;
                    assert(more[at] == wanted);
                }
                if states@[i as int] == wanted {
                    assert(more[i as int] == wanted);
                }
            }
        }
        match states[i] {
            SyncState::Conflict => {
                summary.has_conflicts = true;
            },
            SyncState::LocalAhead => {
                summary.needs_push = true;
            },
            SyncState::RemoteAhead | SyncState::RemoteOnly => {
                summary.needs_pull = true;
            },
            _ => {},
        }
        i += 1;
    }
    proof {
        assert(states@.take(i as int) =~= states@);
    }
    summary
}

/// The advice to give for `summary`, in the order to give it.
pub fn hints(summary: StatusSummary) -> (given: Vec<Hint>)
    ensures
        given@ == advice(summary),
{
    let mut given: Vec<Hint> = Vec::new();
    if summary.has_conflicts {
        given.push(Hint::ResolveConflicts);
    } else if summary.needs_pull {
        given.push(Hint::Pull);
    }
    if summary.needs_push {
        given.push(Hint::Push);
    }
    given
}

} // verus!
