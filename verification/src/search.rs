//! One search: the state its workers share, and the loop each worker runs.

use vstd::prelude::*;
use vstd::rwlock::RwLock;
use vstd::rwlock::RwLockPredicate;
use crate::account::Account;
use crate::account::AccountView;
use crate::account::IdentityFactory;
use crate::entropy::EntropyError;
use crate::entropy::EntropySource;
use crate::matcher::pattern_is_valid;
use crate::matcher::pattern_matches;
use crate::matcher::InvalidPatternError;
use crate::matcher::Matcher;
use crate::seed::seed_valid;
use crate::state::SearchState;
use crate::state::Verdict;

verus! {

/// What holds of the shared state whenever no worker is changing it: it is
/// well formed for the pattern of the search.
pub ghost struct Accepted {
    pub pattern: Seq<char>,
}

impl RwLockPredicate<SearchState> for Accepted {
    open spec fn inv(self, state: SearchState) -> bool {
        state@.wf(self.pattern)
    }
}

/// The pattern of one search and the state that its workers share. The
/// state is behind a lock, and every change to it is one step of
/// `SearchState`, taken with the lock held.
pub struct SharedSearch {
    matcher: Matcher,
    state: RwLock<SearchState, Accepted>,
}

impl SharedSearch {
    #[verifier::type_invariant]
    spec fn inv(self) -> bool {
        self.state.pred().pattern == self.matcher@
    }

    /// The pattern that is searched for.
    pub closed spec fn pattern(&self) -> Seq<char> {
        self.matcher@
    }

    /// A search for `pattern` in its initial state, or the error when the
    /// pattern is not well formed.
    pub fn new(pattern: &str) -> (r: Result<SharedSearch, InvalidPatternError>)
        ensures
            r is Ok <==> pattern_is_valid(pattern@),
            r matches Ok(search) ==> search.pattern() == pattern@,
    {
        match Matcher::compile(pattern) {
            Ok(matcher) => {
                let ghost accepted = Accepted { pattern: matcher@ };
                let state = RwLock::new(SearchState::new(), Ghost(accepted));
                Ok(SharedSearch { matcher, state })
            },
            Err(error) => Err(error),
        }
    }

    /// The compiled pattern.
    pub fn matcher(&self) -> (matcher: &Matcher)
        ensures
            matcher@ == self.pattern(),
    {
        &self.matcher
    }

    /// Presents a candidate to the shared state, with the lock held. A
    /// candidate that won satisfies the pattern and is now the result; one
    /// that missed does not satisfy it.
    pub fn examine(&self, candidate: &Account) -> (verdict: Verdict)
        ensures
            verdict == Verdict::Won ==> pattern_matches(self.pattern(), candidate@.address_hex()),
            verdict == Verdict::Missed ==> !pattern_matches(
                self.pattern(),
                candidate@.address_hex(),
            ),
    {
        proof {
            use_type_invariant(self);
        }
        let (mut state, handle) = self.state.acquire_write();
        let verdict = state.examine(&self.matcher, candidate);
        handle.release_write(state);
        verdict
    }

    /// Calls the search off. Every worker stops at its next attempt.
    pub fn cancel(&self) {
        proof {
            use_type_invariant(self);
        }
        let (mut state, handle) = self.state.acquire_write();
        state.cancel();
        handle.release_write(state);
    }

    /// Whether the search was still running when the lock was held.
    pub fn is_running(&self) -> bool {
        let handle = self.state.acquire_read();
        let running = handle.borrow().is_running();
        handle.release_read();
        running
    }

    /// The attempts that were counted when the lock was held.
    pub fn attempts(&self) -> u64 {
        let handle = self.state.acquire_read();
        let attempts = handle.borrow().attempts();
        handle.release_read();
        attempts
    }

    /// The account that was found, if one was when the lock was held. It
    /// satisfies the pattern.
    pub fn result(&self) -> (found: Option<Account>)
        ensures
            found matches Some(account) ==> account.wf() && pattern_matches(
                self.pattern(),
                account@.address_hex(),
            ),
    {
        proof {
            use_type_invariant(self);
        }
        let handle = self.state.acquire_read();
        let found = match handle.borrow().result() {
            Some(account) => Some(account.clone()),
            None => None,
        };
        handle.release_read();
        found
    }

    /// Ends the search and hands out what it found. An account that comes
    /// out satisfies the pattern, and at least one attempt was counted.
    pub fn finish(self) -> (outcome: (Option<Account>, u64))
        ensures
            outcome.0 matches Some(account) ==> account.wf() && pattern_matches(
                self.pattern(),
                account@.address_hex(),
            ) && outcome.1 >= 1,
    {
        proof {
            use_type_invariant(&self);
        }
        let state = self.state.into_inner();
        let attempts = state.attempts();
        (state.into_result(), attempts)
    }
}

/// How one attempt of a worker ended.
pub enum Step {
    /// The worker has drawn `u64::MAX` seeds; nothing more was drawn.
    Exhausted,
    /// The seed was no secret key; nothing was counted.
    Skipped,
    /// The search has stopped; nothing was counted or tested.
    Stopped,
    /// The candidate was counted and does not satisfy the pattern.
    Missed(Account),
    /// The candidate was counted and satisfies the pattern: the account is
    /// the result of the search.
    Won(Account),
}

impl Step {
    /// The steps in which the candidate was counted.
    pub open spec fn counted(self) -> bool {
        self is Missed || self is Won
    }

    /// The steps after which a worker goes on.
    pub open spec fn goes_on(self) -> bool {
        self is Skipped || self is Missed
    }

    /// The candidate of the step, where an account was derived and counted.
    pub open spec fn candidate(self) -> Option<Account> {
        match self {
            Step::Missed(account) => Some(account),
            Step::Won(account) => Some(account),
            _ => None,
        }
    }

    /// The answer of the shared state, for the steps that reached it.
    pub open spec fn verdict(self) -> Option<Verdict> {
        match self {
            Step::Stopped => Some(Verdict::Stopped),
            Step::Missed(_) => Some(Verdict::Missed),
            Step::Won(_) => Some(Verdict::Won),
            _ => None,
        }
    }

    /// Whether the worker goes on after this step.
    pub fn continues(&self) -> (goes_on: bool)
        ensures
            goes_on == self.goes_on(),
    {
        match self {
            Step::Skipped => true,
            Step::Missed(_) => true,
            _ => false,
        }
    }

    /// The candidate of the step, where an account was derived and counted.
    pub fn account(&self) -> (account: Option<&Account>)
        ensures
            account is Some <==> self.counted(),
            account matches Some(found) ==> self.candidate() == Some(*found),
    {
        match self {
            Step::Missed(account) => Some(account),
            Step::Won(account) => Some(account),
            _ => None,
        }
    }
}

/// What one worker has done so far: the seeds it drew and the attempts that
/// the shared state counted for it. Every attempt follows a draw.
struct Tally {
    draws: u64,
    attempts: u64,
}

impl Tally {
    #[verifier::type_invariant]
    spec fn inv(self) -> bool {
        self.attempts <= self.draws
    }

    /// The seeds drawn.
    closed spec fn draws(&self) -> nat {
        self.draws as nat
    }

    /// The attempts counted.
    closed spec fn attempts(&self) -> nat {
        self.attempts as nat
    }

    /// Nothing drawn, nothing counted.
    fn new() -> (tally: Tally)
        ensures
            tally.draws() == 0,
            tally.attempts() == 0,
    {
        Tally { draws: 0, attempts: 0 }
    }

    /// The seeds drawn.
    fn drawn(&self) -> (count: u64)
        ensures
            count == self.draws(),
    {
        self.draws
    }

    /// The attempts counted, never more than the seeds drawn.
    fn counted(&self) -> (count: u64)
        ensures
            count == self.attempts(),
            count <= self.draws(),
    {
        proof {
            use_type_invariant(self);
        }
        self.attempts
    }

    /// Records one draw, unless `u64::MAX` were recorded already.
    fn record_draw(&mut self) -> (recorded: bool)
        ensures
            recorded == (old(self).draws() < u64::MAX),
            final(self).draws() == old(self).draws() + if recorded {
                1nat
            } else {
                0nat
            },
            final(self).attempts() == old(self).attempts(),
    {
        proof {
            use_type_invariant(&*self);
        }
        if self.draws < u64::MAX {
            self.draws = self.draws + 1;
            true
        } else {
            false
        }
    }

    /// Records that the last draw led to a counted attempt.
    fn record_attempt(&mut self)
        requires
            old(self).attempts() < old(self).draws(),
        ensures
            final(self).attempts() == old(self).attempts() + 1,
            final(self).draws() == old(self).draws(),
    {
        self.attempts = self.attempts + 1;
    }
}

/// One unit of the search: a private entropy source, an identity factory,
/// and the tally of what it has done.
pub struct Worker {
    entropy: EntropySource,
    factory: IdentityFactory,
    tally: Tally,
}

impl Worker {
    /// The seeds this worker has drawn.
    pub closed spec fn draws(&self) -> nat {
        self.tally.draws()
    }

    /// The attempts that were counted for this worker.
    pub closed spec fn attempts(&self) -> nat {
        self.tally.attempts()
    }

    /// A worker with a freshly seeded entropy source, which has drawn and
    /// counted nothing yet. Seeding does not fail.
    pub fn new() -> (r: Result<Worker, EntropyError>)
        ensures
            r matches Ok(worker) && worker.draws() == 0 && worker.attempts() == 0,
    {
        match EntropySource::new() {
            Ok(entropy) => Ok(Worker::with_entropy(entropy)),
            Err(error) => Err(error),
        }
    }

    /// A worker that draws from `entropy`.
    pub fn with_entropy(entropy: EntropySource) -> (worker: Worker)
        ensures
            worker.draws() == 0,
            worker.attempts() == 0,
    {
        Worker { entropy, factory: IdentityFactory::new(), tally: Tally::new() }
    }

    /// The seeds this worker has drawn.
    pub fn drawn(&self) -> (count: u64)
        ensures
            count == self.draws(),
    {
        self.tally.drawn()
    }

    /// The attempts that were counted for this worker.
    pub fn counted(&self) -> (count: u64)
        ensures
            count == self.attempts(),
            count <= self.draws(),
    {
        self.tally.counted()
    }

    /// One turn of the worker's loop: draws a seed and presents it.
    pub fn attempt(&mut self, search: &SharedSearch) -> (step: Step)
        ensures
            step is Exhausted <==> old(self).draws() == u64::MAX,
            final(self).draws() == old(self).draws() + if step is Exhausted {
                0nat
            } else {
                1nat
            },
            final(self).attempts() == old(self).attempts() + if step.counted() {
                1nat
            } else {
                0nat
            },
            step.candidate() matches Some(account) ==> account.wf() && (step is Won
                <==> pattern_matches(search.pattern(), account@.address_hex())),
    {
        if self.tally.drawn() == u64::MAX {
            return Step::Exhausted;
        }
        let seed = self.entropy.draw();
        self.present(search, seed.as_slice())
    }

    /// The turn for a given seed: records the draw, derives the account of
    /// the seed and presents it to the shared state. A seed that is no
    /// secret key is skipped. Which of the other steps comes back depends on
    /// the shared state alone: a candidate that satisfies the pattern wins
    /// unless the search has stopped, and one that does not is missed unless
    /// the search has stopped.
    pub fn present(&mut self, search: &SharedSearch, seed: &[u8]) -> (step: Step)
        ensures
            step is Exhausted <==> old(self).draws() == u64::MAX,
            step is Skipped <==> old(self).draws() < u64::MAX && !seed_valid(seed@),
            final(self).draws() == old(self).draws() + if step is Exhausted {
                0nat
            } else {
                1nat
            },
            final(self).attempts() == old(self).attempts() + if step.counted() {
                1nat
            } else {
                0nat
            },
            step.candidate() matches Some(account) ==> {
                &&& account@ == AccountView::derived(seed@)
                &&& account.wf()
                &&& step is Won <==> pattern_matches(search.pattern(), account@.address_hex())
            },
    {
        proof {
            use_type_invariant(&self.tally);
        }
        if !self.tally.record_draw() {
            return Step::Exhausted;
        }
        match self.factory.derive(seed) {
            Ok(account) => {
                let verdict = search.examine(&account);
                self.conclude(verdict, account)
            },
            Err(_) => Step::Skipped,
        }
    }

    /// The turn for a given seed on a state that this worker has to itself.
    /// The step is then determined: a seed that is no secret key is skipped
    /// and leaves the state as it was; the account of any other seed is
    /// presented, and the state answers as its rules say.
    pub fn present_to(&mut self, matcher: &Matcher, state: &mut SearchState, seed: &[u8]) -> (step:
        Step)
        ensures
            step is Exhausted <==> old(self).draws() == u64::MAX,
            step is Skipped <==> old(self).draws() < u64::MAX && !seed_valid(seed@),
            final(self).draws() == old(self).draws() + if step is Exhausted {
                0nat
            } else {
                1nat
            },
            final(self).attempts() == old(self).attempts() + if step.counted() {
                1nat
            } else {
                0nat
            },
            step is Exhausted || step is Skipped ==> final(state)@ == old(state)@,
            !(step is Exhausted || step is Skipped) ==> {
                &&& final(state)@ == old(state)@.attempt(matcher@, AccountView::derived(seed@))
                &&& step.verdict() == Some(
                    old(state)@.verdict(matcher@, AccountView::derived(seed@)),
                )
            },
            step.candidate() matches Some(account) ==> account@ == AccountView::derived(seed@)
                && account.wf(),
    {
        proof {
            use_type_invariant(&self.tally);
        }
        if !self.tally.record_draw() {
            return Step::Exhausted;
        }
        match self.factory.derive(seed) {
            Ok(account) => {
                let verdict = state.examine(matcher, &account);
                self.conclude(verdict, account)
            },
            Err(_) => Step::Skipped,
        }
    }

    /// The step for a verdict on `account`, with the attempt recorded where
    /// the candidate was counted.
    fn conclude(&mut self, verdict: Verdict, account: Account) -> (step: Step)
        requires
            old(self).attempts() < old(self).draws(),
        ensures
            step.verdict() == Some(verdict),
            step.candidate() matches Some(found) ==> found == account,
            final(self).draws() == old(self).draws(),
            final(self).attempts() == old(self).attempts() + if step.counted() {
                1nat
            } else {
                0nat
            },
    {
        match verdict {
            Verdict::Stopped => Step::Stopped,
            Verdict::Missed => {
                self.tally.record_attempt();
                Step::Missed(account)
            },
            Verdict::Won => {
                self.tally.record_attempt();
                Step::Won(account)
            },
        }
    }
}

/// Runs `worker` until it wins, the search stops, or it has drawn `u64::MAX`
/// seeds. The worker takes at least one turn, and so draws at least one
/// seed, unless it had drawn them all before. The account comes back when
/// this worker won: it satisfies the pattern, and the last seed drawn was
/// counted for it. Nothing comes back when the worker was turned away or
/// has no seeds left: the last seed drawn, if any was, was not counted.
pub fn try_generate_wallet(search: &SharedSearch, worker: &mut Worker) -> (found: Option<Account>)
    ensures
        found matches Some(account) ==> account.wf() && pattern_matches(
            search.pattern(),
            account@.address_hex(),
        ) && final(worker).attempts() > old(worker).attempts(),
        found is None ==> final(worker).draws() == u64::MAX || final(worker).attempts() - old(
            worker,
        ).attempts() < final(worker).draws() - old(worker).draws(),
        old(worker).draws() < u64::MAX ==> final(worker).draws() > old(worker).draws(),
        final(worker).draws() >= old(worker).draws(),
        final(worker).attempts() >= old(worker).attempts(),
        final(worker).attempts() - old(worker).attempts() <= final(worker).draws() - old(
            worker,
        ).draws(),
{
    loop
        invariant
            worker.attempts() >= old(worker).attempts(),
            worker.draws() >= old(worker).draws(),
            worker.attempts() - old(worker).attempts() <= worker.draws() - old(worker).draws(),
        decreases u64::MAX - worker.draws(),
    {
        let step = worker.attempt(search);
        if !step.continues() {
            return match step {
                Step::Won(account) => Some(account),
                _ => None,
            };
        }
    }
}

/// Searches with one worker and a state that it has to itself. The worker
/// goes on until a candidate satisfies the pattern; it gives up only after
/// it has drawn `u64::MAX` seeds.
pub fn search_alone(matcher: &Matcher, worker: &mut Worker) -> (found: Option<Account>)
    ensures
        found matches Some(account) ==> account.wf() && pattern_matches(
            matcher@,
            account@.address_hex(),
        ) && final(worker).attempts() > old(worker).attempts(),
        found is None ==> final(worker).draws() == u64::MAX,
        final(worker).attempts() >= old(worker).attempts(),
        final(worker).draws() >= old(worker).draws(),
{
    let mut state = SearchState::new();
    let ghost start = worker.attempts();
    proof {
        use_type_invariant(&worker.tally);
    }
    loop
        invariant
            state@.running,
            state@.result is None,
            state@.attempts == worker.attempts() - start,
            worker.attempts() >= old(worker).attempts(),
            worker.attempts() <= worker.draws(),
            worker.draws() >= old(worker).draws(),
            start == old(worker).attempts(),
        decreases u64::MAX - worker.draws(),
    {
        let seed = worker.entropy.draw();
        let step = worker.present_to(matcher, &mut state, seed.as_slice());
        match step {
            Step::Won(account) => {
                return Some(account);
            },
            Step::Exhausted => {
                return None;
            },
            _ => {},
        }
    }
}

} // verus!
