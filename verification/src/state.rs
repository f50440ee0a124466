//! The state that the workers of one search share, and the rules by which
//! it changes.

use vstd::prelude::*;
use crate::account::Account;
use crate::account::AccountView;
use crate::matcher::pattern_matches;
use crate::matcher::Matcher;

verus! {

/// The shared state of one search.
pub ghost struct SearchModel {
    /// Workers go on while this holds.
    pub running: bool,
    /// The candidates counted so far.
    pub attempts: nat,
    /// The account that was found, once one was.
    pub result: Option<AccountView>,
}

/// What a worker, or an outside caller, may do to the shared state.
pub ghost enum Event {
    /// A worker presents a candidate.
    Attempt(AccountView),
    /// The search is called off.
    Cancel,
}

/// An event and the worker it came from.
pub ghost struct Turn {
    pub worker: nat,
    pub event: Event,
}

/// How the shared state answered a candidate.
#[derive(Debug, Clone, Copy, PartialEq, Eq, Structural)]
pub enum Verdict {
    /// The search had stopped: the candidate was neither counted nor tested.
    Stopped,
    /// The candidate was counted and does not satisfy the pattern.
    Missed,
    /// The candidate was counted, satisfies the pattern and is now the
    /// result of the search.
    Won,
}

impl SearchModel {
    /// Running, nothing counted, nothing found.
    pub open spec fn initial() -> SearchModel {
        SearchModel { running: true, attempts: 0, result: None }
    }

    /// A result is present only in a stopped search that counted at least
    /// one attempt, and it satisfies the pattern.
    pub open spec fn wf(self, pattern: Seq<char>) -> bool {
        self.result matches Some(account) ==> !self.running && self.attempts >= 1
            && pattern_matches(pattern, account.address_hex())
    }

    /// A candidate is looked at while the search runs and the counter has
    /// room.
    pub open spec fn grants(self) -> bool {
        self.running && self.attempts < u64::MAX
    }

    /// The answer to a candidate.
    pub open spec fn verdict(self, pattern: Seq<char>, candidate: AccountView) -> Verdict {
        if !self.grants() {
            Verdict::Stopped
        } else if pattern_matches(pattern, candidate.address_hex()) {
            Verdict::Won
        } else {
            Verdict::Missed
        }
    }

    /// The state after a candidate was presented. A candidate that is
    /// looked at is counted. One that satisfies the pattern is stored, and
    /// the search stops in the same step. One that is not looked at leaves a
    /// stopped search and nothing else changed.
    pub open spec fn attempt(self, pattern: Seq<char>, candidate: AccountView) -> SearchModel {
        match self.verdict(pattern, candidate) {
            Verdict::Stopped => SearchModel { running: false, ..self },
            Verdict::Missed => SearchModel { attempts: self.attempts + 1, ..self },
            Verdict::Won => SearchModel {
                running: false,
                attempts: self.attempts + 1,
                result: Some(candidate),
            },
        }
    }

    /// Calling the search off stops it and touches nothing else.
    pub open spec fn cancel(self) -> SearchModel {
        SearchModel { running: false, ..self }
    }

    /// The state after one event.
    pub open spec fn step(self, pattern: Seq<char>, event: Event) -> SearchModel {
        match event {
            Event::Attempt(candidate) => self.attempt(pattern, candidate),
            Event::Cancel => self.cancel(),
        }
    }

    /// The state after a sequence of turns, in order.
    pub open spec fn replay(self, pattern: Seq<char>, turns: Seq<Turn>) -> SearchModel
        decreases turns.len(),
    {
        if turns.len() == 0 {
            self
        } else {
            self.replay(pattern, turns.drop_last()).step(pattern, turns.last().event)
        }
    }

    /// Whether the last of `turns` is a candidate that was counted.
    pub open spec fn last_counted(self, pattern: Seq<char>, turns: Seq<Turn>) -> bool
        recommends
            turns.len() > 0,
    {
        turns.last().event is Attempt && self.replay(pattern, turns.drop_last()).grants()
    }

    /// Whether the last of `turns` is a candidate that won.
    pub open spec fn last_won(self, pattern: Seq<char>, turns: Seq<Turn>) -> bool
        recommends
            turns.len() > 0,
    {
        turns.last().event matches Event::Attempt(candidate) && self.replay(
            pattern,
            turns.drop_last(),
        ).verdict(pattern, candidate) == Verdict::Won
    }

    /// How many candidates of `worker` were counted along `turns`.
    pub open spec fn counted_for(self, pattern: Seq<char>, turns: Seq<Turn>, worker: nat) -> nat
        decreases turns.len(),
    {
        if turns.len() == 0 {
            0
        } else {
            let before = self.counted_for(pattern, turns.drop_last(), worker);
            if turns.last().worker == worker && self.last_counted(pattern, turns) {
                before + 1
            } else {
                before
            }
        }
    }

    /// The candidates counted along `turns` for the workers numbered below
    /// `workers`, added up.
    pub open spec fn counted_sum(self, pattern: Seq<char>, turns: Seq<Turn>, workers: nat) -> nat
        decreases workers,
    {
        if workers == 0 {
            0
        } else {
            self.counted_sum(pattern, turns, (workers - 1) as nat) + self.counted_for(
                pattern,
                turns,
                (workers - 1) as nat,
            )
        }
    }

    /// How many candidates won along `turns`.
    pub open spec fn wins(self, pattern: Seq<char>, turns: Seq<Turn>) -> nat
        decreases turns.len(),
    {
        if turns.len() == 0 {
            0
        } else {
            let before = self.wins(pattern, turns.drop_last());
            if self.last_won(pattern, turns) {
                before + 1
            } else {
                before
            }
        }
    }
}

/// Every sequence of turns keeps the state well formed: a result is never
/// present in a running search, nor before an attempt was counted, and it
/// satisfies the pattern.
pub proof fn law_replay_keeps_wf(start: SearchModel, pattern: Seq<char>, turns: Seq<Turn>)
    requires
        start.wf(pattern),
    ensures
        start.replay(pattern, turns).wf(pattern),
    decreases turns.len(),
{
    if turns.len() > 0 {
        law_replay_keeps_wf(start, pattern, turns.drop_last());
    }
}

/// A stopped search stays as it is: no turn restarts it, counts a candidate
/// or touches the result.
pub proof fn law_stopped_is_final(
    start: SearchModel,
    pattern: Seq<char>,
    turns: Seq<Turn>,
    worker: nat,
)
    requires
        !start.running,
    ensures
        start.replay(pattern, turns) == start,
        start.counted_for(pattern, turns, worker) == 0,
        start.wins(pattern, turns) == 0,
    decreases turns.len(),
{
    if turns.len() > 0 {
        law_stopped_is_final(start, pattern, turns.drop_last(), worker);
    }
}

/// Calling a search off stops it and keeps the counter and the result slot
/// as they were (empty, if nothing had been found). From then on every
/// worker is turned away with its next candidate.
pub proof fn law_cancel_stops(
    start: SearchModel,
    pattern: Seq<char>,
    turns: Seq<Turn>,
    worker: nat,
    candidate: AccountView,
)
    ensures
        !start.cancel().running,
        start.cancel().attempts == start.attempts,
        start.cancel().result == start.result,
        start.cancel().verdict(pattern, candidate) == Verdict::Stopped,
        start.cancel().replay(pattern, turns) == start.cancel(),
        start.cancel().counted_for(pattern, turns, worker) == 0,
{
    law_stopped_is_final(start.cancel(), pattern, turns, worker);
}

proof fn lemma_counted_sum_empty(
    start: SearchModel,
    pattern: Seq<char>,
    turns: Seq<Turn>,
    workers: nat,
)
    requires
        turns.len() == 0,
    ensures
        start.counted_sum(pattern, turns, workers) == 0,
    decreases workers,
{
    if workers > 0 {
        lemma_counted_sum_empty(start, pattern, turns, (workers - 1) as nat);
    }
}

proof fn lemma_counted_sum_grows(
    start: SearchModel,
    pattern: Seq<char>,
    turns: Seq<Turn>,
    workers: nat,
)
    requires
        turns.len() > 0,
    ensures
        start.counted_sum(pattern, turns, workers) == start.counted_sum(
            pattern,
            turns.drop_last(),
            workers,
        ) + (if turns.last().worker < workers && start.last_counted(pattern, turns) {
            1nat
        } else {
            0nat
        }),
    decreases workers,
{
    if workers > 0 {
        lemma_counted_sum_grows(start, pattern, turns, (workers - 1) as nat);
    }
}

/// The counter is exact: after any sequence of turns it has grown by the
/// candidates that were counted for the workers, added up over the workers.
/// Nothing is counted twice and nothing is lost.
pub proof fn law_attempts_are_counted(
    start: SearchModel,
    pattern: Seq<char>,
    turns: Seq<Turn>,
    workers: nat,
)
    requires
        forall|i: int| 0 <= i < turns.len() ==> (#[trigger] turns[i]).worker < workers,
    ensures
        start.replay(pattern, turns).attempts == start.attempts + start.counted_sum(
            pattern,
            turns,
            workers,
        ),
    decreases turns.len(),
{
    if turns.len() == 0 {
        lemma_counted_sum_empty(start, pattern, turns, workers);
    } else {
        let earlier = turns.drop_last();
        assert forall|i: int| 0 <= i < earlier.len() implies (#[trigger] earlier[i]).worker
            < workers by {
            assert(earlier[i] == turns[i]);
        }
        law_attempts_are_counted(start, pattern, earlier, workers);
        lemma_counted_sum_grows(start, pattern, turns, workers);
        assert(turns.last() == turns[turns.len() - 1]);
    }
}

/// A search that ends with a result has counted at least one attempt, its
/// counter is the sum of what was counted for its workers, and the result
/// satisfies the pattern.
pub proof fn law_found_after_counted_attempts(pattern: Seq<char>, turns: Seq<Turn>, workers: nat)
    requires
        forall|i: int| 0 <= i < turns.len() ==> (#[trigger] turns[i]).worker < workers,
    ensures
        SearchModel::initial().replay(pattern, turns).attempts
            == SearchModel::initial().counted_sum(pattern, turns, workers),
        SearchModel::initial().replay(pattern, turns).result matches Some(account) ==> {
            &&& SearchModel::initial().replay(pattern, turns).attempts >= 1
            &&& pattern_matches(pattern, account.address_hex())
        },
{
    law_attempts_are_counted(SearchModel::initial(), pattern, turns, workers);
    law_replay_keeps_wf(SearchModel::initial(), pattern, turns);
}

/// At most one candidate ever wins, however many workers present a match:
/// a search that starts without a result ends with one exactly when one
/// candidate won.
pub proof fn law_single_winner(start: SearchModel, pattern: Seq<char>, turns: Seq<Turn>)
    requires
        start.wf(pattern),
        start.result is None,
    ensures
        start.wins(pattern, turns) <= 1,
        start.wins(pattern, turns) == 1 <==> start.replay(pattern, turns).result is Some,
        start.wins(pattern, turns) == 1 ==> !start.replay(pattern, turns).running,
    decreases turns.len(),
{
    if turns.len() > 0 {
        law_single_winner(start, pattern, turns.drop_last());
        law_replay_keeps_wf(start, pattern, turns.drop_last());
    }
}

/// The result is written once: what a sequence of turns has stored, no later
/// turn replaces.
pub proof fn law_result_is_written_once(
    start: SearchModel,
    pattern: Seq<char>,
    turns: Seq<Turn>,
    later: Seq<Turn>,
)
    requires
        start.wf(pattern),
        start.replay(pattern, turns).result is Some,
    ensures
        start.replay(pattern, turns + later) == start.replay(pattern, turns),
    decreases later.len(),
{
    law_replay_keeps_wf(start, pattern, turns);
    if later.len() == 0 {
        assert(turns + later =~= turns);
    } else {
        law_result_is_written_once(start, pattern, turns, later.drop_last());
        assert((turns + later).drop_last() =~= turns + later.drop_last());
        assert((turns + later).last() == later.last());
    }
}

/// The first candidate that satisfies the pattern and is looked at becomes
/// the result, whatever comes after it.
pub proof fn law_first_match_is_the_result(
    start: SearchModel,
    pattern: Seq<char>,
    turns: Seq<Turn>,
    i: int,
    candidate: AccountView,
)
    requires
        start.wf(pattern),
        0 <= i < turns.len(),
        turns[i].event == Event::Attempt(candidate),
        pattern_matches(pattern, candidate.address_hex()),
        start.replay(pattern, turns.take(i)).grants(),
    ensures
        start.replay(pattern, turns).result == Some(candidate),
        !start.replay(pattern, turns).running,
{
    let upto = turns.take(i + 1);
    assert(upto.drop_last() =~= turns.take(i));
    assert(upto.last() == turns[i]);
    assert(start.replay(pattern, upto).result == Some(candidate));
    assert(upto + turns.skip(i + 1) =~= turns);
    law_result_is_written_once(start, pattern, upto, turns.skip(i + 1));
}

/// A result does not come from nowhere: an account that a search from the
/// initial state ends with was presented in one of the turns.
pub proof fn law_result_was_presented(pattern: Seq<char>, turns: Seq<Turn>)
    ensures
        SearchModel::initial().replay(pattern, turns).result matches Some(account) ==> exists|
            i: int,
        |
            0 <= i < turns.len() && (#[trigger] turns[i]).event == Event::Attempt(account),
    decreases turns.len(),
{
    let start = SearchModel::initial();
    if turns.len() > 0 {
        let earlier = turns.drop_last();
        law_result_was_presented(pattern, earlier);
        if let Some(account) = start.replay(pattern, turns).result {
            if start.replay(pattern, earlier).result == Some(account) {
                let i = choose|i: int|
                    0 <= i < earlier.len() && (#[trigger] earlier[i]).event == Event::Attempt(
                        account,
                    );
                assert(turns[i] == earlier[i]);
            } else {
                assert(turns[turns.len() - 1].event == Event::Attempt(account));
            }
        }
    }
}

/// The shared state of one search: the flag, the counter and the slot for
/// the result.
pub struct SearchState {
    running: bool,
    attempts: u64,
    result: Option<Account>,
}

impl View for SearchState {
    type V = SearchModel;

    closed spec fn view(&self) -> SearchModel {
        SearchModel {
            running: self.running,
            attempts: self.attempts as nat,
            result: match self.result {
                Some(account) => Some(account@),
                None => None,
            },
        }
    }
}

impl SearchState {
    #[verifier::type_invariant]
    spec fn inv(self) -> bool {
        self.result is Some ==> !self.running && self.attempts >= 1
    }

    /// The state in which a search starts.
    pub fn new() -> (state: SearchState)
        ensures
            state@ == SearchModel::initial(),
    {
        SearchState { running: true, attempts: 0, result: None }
    }

    /// Presents a candidate. While the search runs the candidate is counted
    /// and tested; one that satisfies the pattern becomes the result, and
    /// the search stops in the same step.
    pub fn examine(&mut self, matcher: &Matcher, candidate: &Account) -> (verdict: Verdict)
        ensures
            verdict == old(self)@.verdict(matcher@, candidate@),
            final(self)@ == old(self)@.attempt(matcher@, candidate@),
    {
        proof {
            use_type_invariant(&*self);
        }
        if !(self.running && self.attempts < u64::MAX) {
            self.running = false;
            return Verdict::Stopped;
        }
        self.attempts = self.attempts + 1;
        let address = candidate.address_as_hex();
        if matcher.test(address.as_str()) {
            self.running = false;
            self.result = Some(candidate.clone());
            Verdict::Won
        } else {
            Verdict::Missed
        }
    }

    /// Calls the search off.
    pub fn cancel(&mut self)
        ensures
            final(self)@ == old(self)@.cancel(),
    {
        proof {
            use_type_invariant(&*self);
        }
        self.running = false;
    }

    /// Whether the search still runs.
    pub fn is_running(&self) -> (running: bool)
        ensures
            running == self@.running,
    {
        self.running
    }

    /// The attempts counted so far.
    pub fn attempts(&self) -> (attempts: u64)
        ensures
            attempts == self@.attempts,
    {
        self.attempts
    }

    /// The account that was found, if one was.
    pub fn result(&self) -> (result: Option<&Account>)
        ensures
            result is Some <==> self@.result is Some,
            result matches Some(account) ==> self@.result == Some(account@) && account.wf(),
            result is Some ==> !self@.running && self@.attempts >= 1,
    {
        proof {
            use_type_invariant(self);
        }
        match &self.result {
            Some(account) => {
                proof {
                    use_type_invariant(account);
                }
                Some(account)
            },
            None => None,
        }
    }

    /// Gives the state up for the account that was found, if one was.
    pub fn into_result(self) -> (result: Option<Account>)
        ensures
            result is Some <==> self@.result is Some,
            result matches Some(account) ==> self@.result == Some(account@) && account.wf(),
            result is Some ==> !self@.running && self@.attempts >= 1,
    {
        proof {
            use_type_invariant(&self);
        }
        match self.result {
            Some(account) => {
                proof {
                    use_type_invariant(&account);
                }
                Some(account)
            },
            None => None,
        }
    }
}

} // verus!
