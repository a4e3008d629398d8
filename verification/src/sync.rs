use vstd::prelude::*;
use vstd::rwlock::RwLock;
use vstd::rwlock::RwLockPredicate;
use vstd::string::*;

use crate::FPDetail;
use crate::FPError;
use crate::encode::decimal_string;
use crate::encode::spec_decimal;
use crate::repo::Repository;
use crate::repo::RepositoryCache;
use crate::value::FPValue;
use std::sync::Arc;
use url::Url;
use vstd::hash_map::StringHashMap;

verus! {

/// What triggered one synchronization attempt: the periodic poll loop, or a
/// push signal from the realtime channel.
pub enum SyncType {
    Realtime,
    Polling,
}

/// The invariant on the shared stop flag.
pub struct FlagPred {}

impl RwLockPredicate<bool> for FlagPred {
    open spec fn inv(self, b: bool) -> bool {
        true
    }
}

/// The shared stop flag: set once by `close`, observed cooperatively at the
/// top of each background loop iteration.
pub struct StopFlag {
    flag: RwLock<bool, FlagPred>,
}

impl StopFlag {
    /// A flag that is not yet set.
    pub fn new() -> StopFlag {
        StopFlag { flag: RwLock::new(false, Ghost(FlagPred {  })) }
    }

    /// Requests that the background loops stop at their next iteration.
    pub fn set(&self) {
        let (_old, write_handle) = self.flag.acquire_write();
        write_handle.release_write(true);
    }

    /// Whether a stop has been requested.
    pub fn is_set(&self) -> bool {
        let read_handle = self.flag.acquire_read();
        let v = *read_handle.borrow();
        read_handle.release_read();
        v
    }
}

/// What one fetch of the toggles endpoint came to, as the transport reports
/// it: a transport-level failure, a response with a non-success status, or a
/// success status with the body's parse result.
pub enum FetchOutcome {
    /// The request failed before a success status arrived (a connection
    /// error, a timeout, an unreadable body), with the transport's message.
    Transport(String),
    /// A response arrived whose status was not 200.
    Status(u16),
    /// An HTTP 200 response: the entries its body parsed to, or the parse
    /// error's message.
    Body(Result<Vec<(String, FPDetail<FPValue>)>, String>),
}

/// The repository a list of parsed entries builds: a later entry overrides
/// an earlier one with the same key.
pub open spec fn entries_as_map(entries: Seq<(String, FPDetail<FPValue>)>) -> Map<
    Seq<char>,
    FPDetail<FPValue>,
>
    decreases entries.len(),
{
    if entries.len() == 0 {
        Map::empty()
    } else {
        entries_as_map(entries.drop_last()).insert(entries.last().0@, entries.last().1)
    }
}

/// Builds the repository a sync response delivers, fully off to the side:
/// no cache is touched here.
pub fn build_repository(entries: Vec<(String, FPDetail<FPValue>)>) -> (r: Repository)
    ensures
        r@ == entries_as_map(entries@),
{
    let ghost orig = entries@;
    let mut rest = entries;
    let mut stack: Vec<(String, FPDetail<FPValue>)> = Vec::new();
    while rest.len() > 0
        invariant
            rest@ == orig.take(rest@.len() as int),
            stack@.len() + rest@.len() == orig.len(),
            forall|j: int| 0 <= j < stack@.len() ==> stack@[j] == orig[orig.len() - 1 - j],
        decreases rest.len(),
    {
        let e = rest.pop().unwrap();
        stack.push(e);
        proof {
            assert(rest@ =~~= orig.take(rest@.len() as int));
        }
    }
    let mut repo: Repository = StringHashMap::new();
    proof {
        assert(orig.take(orig.len() - stack@.len()) =~~= Seq::empty());
    }
    while stack.len() > 0
        invariant
            stack@.len() <= orig.len(),
            forall|j: int| 0 <= j < stack@.len() ==> stack@[j] == orig[orig.len() - 1 - j],
            repo@ == entries_as_map(orig.take(orig.len() - stack@.len())),
        decreases stack.len(),
    {
        let ghost k = stack@.len() as int;
        let ghost n = orig.len() as int;
        let e = stack.pop().unwrap();
        proof {
            assert(e == orig[n - k]);
        }
        let (key, detail) = e;
        repo.insert(key, detail);
        proof {
            assert(orig.take(n - k + 1).drop_last() =~~= orig.take(n - k));
            assert(orig.take(n - k + 1).last() == orig[n - k]);
            assert(repo@ =~~= entries_as_map(orig.take(n - k + 1)));
        }
    }
    proof {
        assert(orig.take(orig.len() as int) =~~= orig);
    }
    repo
}

/// The synchronizer's state: where to fetch, how often, with which
/// credential, and the cache and stop flag it shares with the facade.
pub struct Synchronizer {
    pub remote_url: Url,
    pub refresh_interval_millis: u64,
    pub auth: String,
    pub repo: Arc<RepositoryCache>,
    pub should_stop: Arc<StopFlag>,
}

/// Resolves one synchronization attempt from what the transport returned:
/// on a parsed 200 response, the fully built repository, ready to swap in;
/// on any failure, the error saying why — if and only if the outcome was a
/// failure.
pub fn resolve_fetch(outcome: FetchOutcome) -> (r: Result<Repository, FPError>)
    ensures
        (match outcome {
            FetchOutcome::Transport(m) => r matches Err(FPError::HttpError(e)) && e@ == m@,
            FetchOutcome::Status(code) => r matches Err(FPError::HttpError(e)) && e@
                == "sync http failed: status code "@ + spec_decimal(code as nat),
            FetchOutcome::Body(Err(m)) => r matches Err(FPError::JsonError(e)) && e@ == m@,
            FetchOutcome::Body(Ok(entries)) => r matches Ok(repo) && repo@ == entries_as_map(
                entries@,
            ),
        }),
{
    match outcome {
        FetchOutcome::Transport(m) => Err(FPError::HttpError(m)),
        FetchOutcome::Status(code) => {
            let mut msg = String::new();
            msg.append("sync http failed: status code ");
            let digits = decimal_string(code as u128);
            msg.append(digits.as_str());
            proof {
                assert(msg@ =~= "sync http failed: status code "@ + spec_decimal(code as nat));
            }
            Err(FPError::HttpError(msg))
        },
        FetchOutcome::Body(Err(m)) => Err(FPError::JsonError(m)),
        FetchOutcome::Body(Ok(entries)) => Ok(build_repository(entries)),
    }
}

impl Synchronizer {
    /// True of every synchronizer this library builds: the shared cache is
    /// replaceable, so synchronization may install new snapshots into it.
    pub open spec fn wf(&self) -> bool {
        self.repo.pinned() is None
    }

    /// A synchronizer over the given endpoint, credential and shared state:
    /// it holds exactly these, and aliases the caller's cache and stop-flag
    /// handles, so later swaps and stop requests are visible through them.
    pub fn new(
        remote_url: Url,
        refresh_interval_millis: u64,
        auth: String,
        repo: Arc<RepositoryCache>,
        should_stop: Arc<StopFlag>,
    ) -> (r: Synchronizer)
        requires
            repo.pinned() is None,
        ensures
            r.remote_url == remote_url,
            r.refresh_interval_millis == refresh_interval_millis,
            r.auth == auth,
            r.repo == repo,
            r.should_stop == should_stop,
            r.wf(),
    {
        Synchronizer { remote_url, refresh_interval_millis, auth, repo, should_stop }
    }

    /// Finishes one synchronization attempt from what the transport
    /// returned, as [`resolve_fetch`] decides it: on a parsed 200 response
    /// the fully built repository is swapped into the shared cache; on any
    /// failure the cache is left untouched and the error says why — if and
    /// only if the outcome was a failure.
    pub fn apply_fetch(&self, _trigger: SyncType, outcome: FetchOutcome) -> (r: Result<
        (),
        FPError,
    >)
        requires
            self.wf(),
        ensures
            (match outcome {
                FetchOutcome::Transport(m) => r matches Err(FPError::HttpError(e)) && e@ == m@,
                FetchOutcome::Status(code) => r matches Err(FPError::HttpError(e)) && e@
                    == "sync http failed: status code "@ + spec_decimal(code as nat),
                FetchOutcome::Body(Err(m)) => r matches Err(FPError::JsonError(e)) && e@ == m@,
                FetchOutcome::Body(Ok(entries)) => r is Ok,
            }),
    {
        match resolve_fetch(outcome) {
            Ok(repo) => {
                self.repo.replace(repo);
                Ok(())
            },
            Err(e) => Err(e),
        }
    }
}

// ---------------------------------------------------------------------------
// The bounded startup wait
// ---------------------------------------------------------------------------
/// True when the startup deadline is considered exceeded at the time a sync
/// attempt completes: even waiting one more poll interval would overrun the
/// configured bound.
pub fn start_wait_timed_out(elapsed_millis: u64, interval_millis: u64, start_wait_millis: u64) -> (r:
    bool)
    ensures
        r == (elapsed_millis + interval_millis > start_wait_millis),
{
    (elapsed_millis as u128) + (interval_millis as u128) > (start_wait_millis as u128)
}

/// Whether one finished sync attempt fires the single startup unblock signal.
pub open spec fn spec_should_send(ok: bool, has_start_wait: bool, timed_out: bool, is_send: bool) -> bool {
    has_start_wait && !is_send && (ok || timed_out)
}

/// Decides whether one finished sync attempt sends the startup
/// unblock signal, and with which outcome: the first success always does;
/// the first failure does only once the deadline is exceeded; nothing is
/// ever sent twice, and nothing is sent when no bounded wait was asked for.
pub fn should_send(
    result: Result<(), FPError>,
    has_start_wait: bool,
    timed_out: bool,
    is_send: bool,
) -> (r: Option<Result<(), FPError>>)
    ensures
        (r is Some) == spec_should_send(result is Ok, has_start_wait, timed_out, is_send),
        r matches Some(x) ==> x == result,
{
    if !has_start_wait {
        return None;
    }
    let fire = match &result {
        Ok(_) => !is_send,
        Err(_) => !is_send && timed_out,
    };
    if fire {
        Some(result)
    } else {
        None
    }
}

/// The single-slot startup gate: whether the unblock signal has been sent.
pub struct StartGate {
    pub sent: bool,
}

impl StartGate {
    /// A gate that has not fired.
    pub fn new() -> (r: StartGate)
        ensures
            !r.sent,
    {
        StartGate { sent: false }
    }

    /// Advances the state by one finished sync attempt: it fires at most once, ever.
    pub fn step(&mut self, result: Result<(), FPError>, has_start_wait: bool, timed_out: bool) -> (r:
        Option<Result<(), FPError>>)
        ensures
            (r is Some) == spec_should_send(result is Ok, has_start_wait, timed_out, old(
                self,
            ).sent),
            r matches Some(x) ==> x == result,
            final(self).sent == (old(self).sent || r is Some),
    {
        let r = should_send(result, has_start_wait, timed_out, self.sent);
        if r.is_some() {
            self.sent = true;
        }
        r
    }
}

/// Which iterations of the poll loop fire the startup signal, given each
/// attempt's (success, deadline-exceeded) pair, starting from a gate that
/// has not fired.
pub open spec fn spec_signals(outcomes: Seq<(bool, bool)>, is_send: bool) -> Seq<bool>
    decreases outcomes.len(),
{
    if outcomes.len() == 0 {
        Seq::empty()
    } else {
        let fire = !is_send && (outcomes[0].0 || outcomes[0].1);
        seq![fire] + spec_signals(outcomes.drop_first(), is_send || fire)
    }
}

/// The head of the signal sequence is exactly what [`should_send`] decides
/// for that attempt, under a configured bounded wait.
pub proof fn lemma_signals_head_matches_should_send(outcomes: Seq<(bool, bool)>, is_send: bool)
    requires
        outcomes.len() > 0,
    ensures
        spec_signals(outcomes, is_send)[0] == spec_should_send(
            outcomes[0].0,
            true,
            outcomes[0].1,
            is_send,
        ),
{
}

/// The startup gate is single-slot: over any run of the poll loop, at most
/// one iteration ever fires the unblock signal.
pub proof fn lemma_at_most_one_signal(outcomes: Seq<(bool, bool)>, is_send: bool, i: int, j: int)
    requires
        0 <= i < outcomes.len(),
        0 <= j < outcomes.len(),
        spec_signals(outcomes, is_send)[i],
        spec_signals(outcomes, is_send)[j],
    ensures
        i == j,
    decreases outcomes.len(),
{
    assert(spec_signals(outcomes, is_send).len() == outcomes.len()) by {
        lemma_signals_len(outcomes, is_send);
    }
    if i > 0 && j > 0 {
        let fire = !is_send && (outcomes[0].0 || outcomes[0].1);
        lemma_at_most_one_signal(outcomes.drop_first(), is_send || fire, i - 1, j - 1);
    } else if i == 0 && j > 0 {
        lemma_signal_needs_unsent(outcomes.drop_first(), true, j - 1);
    } else if j == 0 && i > 0 {
        lemma_signal_needs_unsent(outcomes.drop_first(), true, i - 1);
    }
}

/// The signal fires exactly at the first attempt that ends in a success or
/// a deadline-exceeded failure — never at a later one.
pub proof fn lemma_signal_fires_at_first_eligible(outcomes: Seq<(bool, bool)>, i: int)
    requires
        0 <= i < outcomes.len(),
    ensures
        spec_signals(outcomes, false)[i] <==> ((outcomes[i].0 || outcomes[i].1) && (forall|j: int|
            0 <= j < i ==> !(outcomes[j].0 || outcomes[j].1))),
    decreases outcomes.len(),
{
    lemma_signals_len(outcomes, false);
    if i > 0 {
        let fire = outcomes[0].0 || outcomes[0].1;
        if fire {
            lemma_signal_needs_unsent(outcomes.drop_first(), true, i - 1);
        } else {
            lemma_signal_fires_at_first_eligible(outcomes.drop_first(), i - 1);
            assert(forall|j: int|
                1 <= j < i ==> outcomes[j] == outcomes.drop_first()[j - 1]);
        }
    }
}

proof fn lemma_signals_len(outcomes: Seq<(bool, bool)>, is_send: bool)
    ensures
        spec_signals(outcomes, is_send).len() == outcomes.len(),
    decreases outcomes.len(),
{
    if outcomes.len() > 0 {
        let fire = !is_send && (outcomes[0].0 || outcomes[0].1);
        lemma_signals_len(outcomes.drop_first(), is_send || fire);
    }
}

proof fn lemma_signal_needs_unsent(outcomes: Seq<(bool, bool)>, is_send: bool, i: int)
    requires
        0 <= i < outcomes.len(),
        is_send,
    ensures
        !spec_signals(outcomes, is_send)[i],
    decreases outcomes.len(),
{
    lemma_signals_len(outcomes, is_send);
    if i > 0 {
        lemma_signal_needs_unsent(outcomes.drop_first(), true, i - 1);
    }
}

} // verus!
