//! The decisions of a run over the providers: which step to take next, given
//! how the last one went.

use crate::http::ProviderError;
use crate::subtitle::Subtitle;
use vstd::prelude::*;

verus! {

/// Why a whole run found nothing.
#[derive(Clone, Copy, Debug, PartialEq, Eq, Structural)]
pub enum ChainError {
    /// No provider could be set up.
    NoProvider,
    /// Every provider was tried and none wrote a subtitle.
    AllProvidersFailed,
}

/// Where a run stands.
#[derive(Clone, Copy, Debug, PartialEq, Eq, Structural)]
pub enum ChainState {
    /// Waiting for the search of this provider.
    Searching(usize),
    /// Waiting for the download of this provider.
    Downloading(usize),
    /// Waiting for this provider's subtitle to be written.
    Persisting(usize),
    /// This provider's subtitle was written.
    Succeeded(usize),
    /// Every provider failed.
    Exhausted,
}

/// How the last step asked for went.
pub enum ChainEvent {
    Searched(Result<Subtitle, ProviderError>),
    Downloaded(Result<String, ProviderError>),
    Persisted(Result<(), ProviderError>),
}

/// What the caller is to do next.
pub enum ChainAction {
    /// Search with this provider.
    Search { provider: usize },
    /// Download this candidate with this provider.
    Download { provider: usize, subtitle: Subtitle },
    /// Write `contents` to `path`, whole or not at all.
    Persist { provider: usize, path: String, contents: String },
    /// The run is over: the provider whose subtitle was written, or why none was.
    Finished(Result<usize, ChainError>),
    /// The event does not answer the step asked for; nothing changed.
    Refused,
}

/// Moving on to provider `j` of `n`: search with it, or give up if none is left.
pub open spec fn moves_to(n: nat, j: int, state: ChainState, action: ChainAction) -> bool {
    if j < n {
        state == ChainState::Searching(j as usize) && action == (ChainAction::Search {
            provider: j as usize,
        })
    } else {
        state == ChainState::Exhausted && action == ChainAction::Finished(
            Err(ChainError::AllProvidersFailed),
        )
    }
}

/// Whether the last step asked for succeeded, and which step it was.
#[derive(Clone, Copy, Debug, PartialEq, Eq, Structural)]
pub enum StepOutcome {
    Searched(bool),
    Downloaded(bool),
    Persisted(bool),
}

/// Which step an event answers, and whether it succeeded.
pub open spec fn outcome_of(event: ChainEvent) -> StepOutcome {
    match event {
        ChainEvent::Searched(r) => StepOutcome::Searched(r is Ok),
        ChainEvent::Downloaded(r) => StepOutcome::Downloaded(r is Ok),
        ChainEvent::Persisted(r) => StepOutcome::Persisted(r is Ok),
    }
}

/// The state once provider `i` of `n` has failed.
pub open spec fn after_failure(n: nat, i: usize) -> ChainState {
    if i + 1 < n {
        ChainState::Searching((i + 1) as usize)
    } else {
        ChainState::Exhausted
    }
}

/// The state a run over `n` providers moves to on an outcome.
pub open spec fn next_state(n: nat, state: ChainState, outcome: StepOutcome) -> ChainState {
    match (state, outcome) {
        (ChainState::Searching(i), StepOutcome::Searched(true)) => ChainState::Downloading(i),
        (ChainState::Searching(i), StepOutcome::Searched(false)) => after_failure(n, i),
        (ChainState::Downloading(i), StepOutcome::Downloaded(true)) => if i < n {
            ChainState::Persisting(i)
        } else {
            state
        },
        (ChainState::Downloading(i), StepOutcome::Downloaded(false)) => after_failure(n, i),
        (ChainState::Persisting(i), StepOutcome::Persisted(true)) => ChainState::Succeeded(i),
        (ChainState::Persisting(i), StepOutcome::Persisted(false)) => after_failure(n, i),
        _ => state,
    }
}

/// The state after a sequence of outcomes.
pub open spec fn run_all(n: nat, state: ChainState, outcomes: Seq<StepOutcome>) -> ChainState
    decreases outcomes.len(),
{
    if outcomes.len() == 0 {
        state
    } else {
        run_all(n, next_state(n, state, outcomes[0]), outcomes.drop_first())
    }
}

/// How far one provider gets.
#[derive(Clone, Copy, Debug, PartialEq, Eq, Structural)]
pub enum Attempt {
    SearchFails,
    DownloadFails,
    PersistFails,
    Succeeds,
}

/// The outcomes one provider's attempt reports, in order.
pub open spec fn attempt_outcomes(a: Attempt) -> Seq<StepOutcome> {
    match a {
        Attempt::SearchFails => seq![StepOutcome::Searched(false)],
        Attempt::DownloadFails => seq![
            StepOutcome::Searched(true),
            StepOutcome::Downloaded(false),
        ],
        Attempt::PersistFails => seq![
            StepOutcome::Searched(true),
            StepOutcome::Downloaded(true),
            StepOutcome::Persisted(false),
        ],
        Attempt::Succeeds => seq![
            StepOutcome::Searched(true),
            StepOutcome::Downloaded(true),
            StepOutcome::Persisted(true),
        ],
    }
}

/// The outcomes of the providers' attempts, one provider after another.
pub open spec fn script(attempts: Seq<Attempt>) -> Seq<StepOutcome>
    decreases attempts.len(),
{
    if attempts.len() == 0 {
        Seq::empty()
    } else {
        attempt_outcomes(attempts[0]) + script(attempts.drop_first())
    }
}

/// The first provider at or after `k` whose attempt succeeds.
pub open spec fn first_success_from(attempts: Seq<Attempt>, k: int) -> Option<int>
    decreases attempts.len() - k,
{
    if k < 0 || k >= attempts.len() {
        None
    } else if attempts[k] == Attempt::Succeeds {
        Some(k)
    } else {
        first_success_from(attempts, k + 1)
    }
}

/// The state a run over `n` providers starts in.
pub open spec fn initial_state(n: nat) -> ChainState {
    if 0 < n {
        ChainState::Searching(0)
    } else {
        ChainState::Exhausted
    }
}

/// How a run ends: with the first provider whose attempt succeeds, else
/// with every provider failed.
pub open spec fn run_result(attempts: Seq<Attempt>) -> ChainState {
    match first_success_from(attempts, 0) {
        Some(i) => ChainState::Succeeded(i as usize),
        None => ChainState::Exhausted,
    }
}

proof fn lemma_run_all_concat(n: nat, state: ChainState, a: Seq<StepOutcome>, b: Seq<StepOutcome>)
    ensures
        run_all(n, state, a + b) == run_all(n, run_all(n, state, a), b),
    decreases a.len(),
{
    if a.len() > 0 {
        assert((a + b).drop_first() =~= a.drop_first() + b);
        lemma_run_all_concat(n, next_state(n, state, a[0]), a.drop_first(), b);
    } else {
        assert(a + b =~= b);
    }
}

proof fn lemma_run_all_final(n: nat, state: ChainState, outcomes: Seq<StepOutcome>)
    requires
        state is Succeeded || state is Exhausted,
    ensures
        run_all(n, state, outcomes) == state,
    decreases outcomes.len(),
{
    if outcomes.len() > 0 {
        lemma_run_all_final(n, state, outcomes.drop_first());
    }
}

proof fn lemma_run_from(attempts: Seq<Attempt>, k: int)
    requires
        0 <= k < attempts.len() <= usize::MAX,
    ensures
        run_all(
            attempts.len(),
            ChainState::Searching(k as usize),
            script(attempts.subrange(k, attempts.len() as int)),
        ) == match first_success_from(attempts, k) {
            Some(i) => ChainState::Succeeded(i as usize),
            None => ChainState::Exhausted,
        },
    decreases attempts.len() - k,
{
    let n = attempts.len();
    let rest = attempts.subrange(k, n as int);
    let tail = attempts.subrange(k + 1, n as int);
    assert(rest.drop_first() =~= tail);
    let here = ChainState::Searching(k as usize);
    lemma_run_all_concat(n, here, attempt_outcomes(attempts[k]), script(tail));
    let reached = run_all(n, here, attempt_outcomes(attempts[k]));
    reveal_with_fuel(run_all, 4);
    if attempts[k] == Attempt::Succeeds {
        assert(reached == ChainState::Succeeded(k as usize));
        lemma_run_all_final(n, reached, script(tail));
    } else {
        assert(reached == after_failure(n, k as usize));
        if k + 1 < n {
            lemma_run_from(attempts, k + 1);
        } else {
            assert(tail.len() == 0);
            assert(first_success_from(attempts, k + 1) is None);
        }
    }
}

/// A whole run, fed each provider's attempt in turn, ends with the first
/// provider whose search, download and write all succeed, and with every
/// provider failed if there is none: a failed step of one provider moves the
/// run to the next, and a success ends it.
pub proof fn lemma_run_outcome(attempts: Seq<Attempt>)
    requires
        attempts.len() <= usize::MAX,
    ensures
        run_all(attempts.len(), initial_state(attempts.len()), script(attempts)) == run_result(
            attempts,
        ),
{
    if attempts.len() > 0 {
        assert(attempts.subrange(0, attempts.len() as int) =~= attempts);
        lemma_run_from(attempts, 0);
    }
}

} // verus!
