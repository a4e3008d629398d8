use vstd::prelude::*;
use vstd::rwlock::RwLock;
use vstd::rwlock::RwLockPredicate;

use crate::FPDetail;
use crate::FPDetailModel;
use crate::user::FPUser;
use crate::value::FPValue;
use crate::value::FPValueModel;
use url::Url;

verus! {

/// One telemetry record of a lookup that found its toggle.
pub struct AccessEvent {
    pub kind: String,
    pub time: u128,
    pub key: String,
    pub user: String,
    pub value: FPValue,
    pub variation_index: usize,
    pub rule_index: Option<usize>,
    pub version: Option<u64>,
    pub track_access_events: Option<bool>,
}

/// The debugging companion of an access record, carrying the full user and
/// the stored reason. Emitted only while the detail's debug window is open.
pub struct DebugEvent {
    pub kind: String,
    pub time: u128,
    pub key: String,
    pub user: String,
    pub user_detail: FPUser,
    pub value: FPValue,
    pub variation_index: usize,
    pub version: Option<u64>,
    pub rule_index: Option<usize>,
    pub reason: Option<String>,
}

/// An application-triggered telemetry record; the optional value is the bit
/// pattern of an IEEE-754 double.
pub struct CustomEvent {
    pub kind: String,
    pub time: u128,
    pub user: String,
    pub name: String,
    pub value: Option<u64>,
}

/// One telemetry record, tagged by kind.
pub enum Event {
    AccessEvent(AccessEvent),
    DebugEvent(DebugEvent),
    CustomEvent(CustomEvent),
}

/// The variation index an access event reports: the stored one, or zero.
pub open spec fn variation_index_or_zero(d: FPDetailModel<FPValueModel>) -> usize {
    match d.variation_index {
        Some(i) => i,
        None => 0,
    }
}

/// True when a lookup of `d` at time `ts` emits a debug event: the detail
/// carries a debug deadline that has not yet passed.
pub open spec fn debug_emitted(d: FPDetailModel<FPValueModel>, ts: u128) -> bool {
    &&& d.debug_until_time is Some
    &&& d.debug_until_time->Some_0 >= ts
}

/// The telemetry of one lookup that found `detail` under `toggle` at `ts`:
/// exactly one access event, and a debug event exactly when the debug window
/// is open — both carrying the same timestamp `ts`.
pub fn events_for_lookup(user: &FPUser, toggle: &str, detail: &FPDetail<FPValue>, ts: u128) -> (r:
    (AccessEvent, Option<DebugEvent>))
    ensures
        r.0.kind@ == "access"@,
        r.0.time == ts,
        r.0.key@ == toggle@,
        r.0.user@ == user@.key,
        r.0.value@ == detail@.value,
        r.0.variation_index == variation_index_or_zero(detail@),
        r.0.rule_index == detail@.rule_index,
        r.0.version == detail@.version,
        r.0.track_access_events == detail@.track_access_events,
        (r.1 is Some) == debug_emitted(detail@, ts),
        (match r.1 {
            Some(dbg) => {
                &&& dbg.kind@ == "debug"@
                &&& dbg.time == ts
                &&& dbg.key@ == toggle@
                &&& dbg.user@ == user@.key
                &&& dbg.user_detail@ == user@
                &&& dbg.value@ == detail@.value
                &&& dbg.variation_index == variation_index_or_zero(detail@)
                &&& dbg.version == detail@.version
                &&& dbg.rule_index == detail@.rule_index
                &&& dbg.reason matches Some(re) && re@ == detail@.reason
            },
            None => true,
        }),
{
    let access = AccessEvent {
        kind: "access".to_owned(),
        time: ts,
        key: toggle.to_owned(),
        user: user.key().clone(),
        value: detail.value.clone(),
        variation_index: (match detail.variation_index {
            Some(i) => i,
            None => 0,
        }),
        rule_index: detail.rule_index,
        version: detail.version,
        track_access_events: detail.track_access_events,
    };
    let debug = match detail.debug_until_time {
        Some(deadline) => {
            if deadline >= ts {
                Some(
                    DebugEvent {
                        kind: "debug".to_owned(),
                        time: ts,
                        key: toggle.to_owned(),
                        user: user.key().clone(),
                        user_detail: user.clone(),
                        value: detail.value.clone(),
                        variation_index: (match detail.variation_index {
                            Some(i) => i,
                            None => 0,
                        }),
                        version: detail.version,
                        rule_index: detail.rule_index,
                        reason: Some(detail.reason.clone()),
                    },
                )
            } else {
                None
            }
        },
        None => None,
    };
    (access, debug)
}

/// One application-triggered telemetry record for `user` at `ts`, carrying
/// the given name and optional numeric value (an IEEE-754 bit pattern).
pub fn custom_event(user: &FPUser, name: &str, value: Option<u64>, ts: u128) -> (r: CustomEvent)
    ensures
        r.kind@ == "custom"@,
        r.time == ts,
        r.user@ == user@.key,
        r.name@ == name@,
        r.value == value,
{
    CustomEvent {
        kind: "custom".to_owned(),
        time: ts,
        user: user.key().clone(),
        name: name.to_owned(),
        value,
    }
}

/// The in-memory telemetry batch: events in arrival order, and the count at
/// which a flush becomes due.
pub struct EventBatch {
    events: Vec<Event>,
    capacity: usize,
}

impl View for EventBatch {
    type V = Seq<Event>;

    closed spec fn view(&self) -> Seq<Event> {
        self.events@
    }
}

impl EventBatch {
    /// The count at which a flush becomes due.
    pub closed spec fn spec_capacity(&self) -> usize {
        self.capacity
    }

    /// An empty batch that asks for a flush at `capacity` events.
    pub fn new(capacity: usize) -> (r: EventBatch)
        ensures
            r@.len() == 0,
            r.spec_capacity() == capacity,
    {
        EventBatch { events: Vec::new(), capacity }
    }

    /// Appends one event; nothing else changes, and nothing is dropped.
    pub fn record(&mut self, event: Event)
        ensures
            final(self)@ == old(self)@.push(event),
            final(self).spec_capacity() == old(self).spec_capacity(),
    {
        self.events.push(event);
    }

    /// True when the batch has reached its flush threshold.
    pub fn is_full(&self) -> (r: bool)
        ensures
            r == (self@.len() >= self.spec_capacity()),
    {
        self.events.len() >= self.capacity
    }

    /// Hands the whole accumulated batch to the caller, leaving the batch
    /// empty: ownership transfers to the upload path in one step.
    pub fn drain(&mut self) -> (r: Vec<Event>)
        ensures
            r@ == old(self)@,
            final(self)@.len() == 0,
            final(self).spec_capacity() == old(self).spec_capacity(),
    {
        let mut out: Vec<Event> = Vec::new();
        core::mem::swap(&mut self.events, &mut out);
        out
    }
}

/// The invariant on the recorder's shared batch: it keeps the capacity the
/// recorder was configured with.
pub struct BatchPred {
    pub capacity: usize,
}

impl RwLockPredicate<EventBatch> for BatchPred {
    open spec fn inv(self, b: EventBatch) -> bool {
        b.spec_capacity() == self.capacity
    }
}

/// The telemetry recorder: a shared in-memory batch fed by the evaluation
/// path, drained by the background flush loop. Enqueueing never performs
/// network work; an in-flight upload never blocks an enqueue, since the
/// batch lock is held only to push or to swap the batch out.
pub struct EventRecorder {
    batch: RwLock<EventBatch, BatchPred>,
    pub events_url: Url,
    pub auth: String,
    pub flush_interval_millis: u64,
}

impl EventRecorder {
    /// The flush threshold this recorder's batch was configured with.
    pub closed spec fn spec_capacity(&self) -> usize {
        self.batch.pred().capacity
    }

    /// The endpoint this recorder uploads to.
    pub closed spec fn spec_events_url(&self) -> Url {
        self.events_url
    }

    /// The credential sent with each upload.
    pub closed spec fn spec_auth(&self) -> String {
        self.auth
    }

    /// The flush period, in milliseconds.
    pub closed spec fn spec_flush_interval_millis(&self) -> u64 {
        self.flush_interval_millis
    }

    /// A recorder that uploads to `events_url` with the given credential,
    /// flushing every `flush_interval_millis` or at `capacity` events: it
    /// holds exactly these.
    pub fn new(events_url: Url, auth: String, flush_interval_millis: u64, capacity: usize) -> (r:
        EventRecorder)
        ensures
            r.spec_events_url() == events_url,
            r.spec_auth() == auth,
            r.spec_flush_interval_millis() == flush_interval_millis,
            r.spec_capacity() == capacity,
    {
        EventRecorder {
            batch: RwLock::new(EventBatch::new(capacity), Ghost(BatchPred { capacity })),
            events_url,
            auth,
            flush_interval_millis,
        }
    }

    /// Enqueues one event into the shared batch. The only effect is the
    /// queue insertion; the caller never waits on network work.
    pub fn record_event(&self, event: Event) {
        let (mut batch, write_handle) = self.batch.acquire_write();
        batch.record(event);
        write_handle.release_write(batch);
    }

    /// True when the shared batch has reached its flush threshold.
    pub fn should_flush(&self) -> bool {
        let read_handle = self.batch.acquire_read();
        let full = read_handle.borrow().is_full();
        read_handle.release_read();
        full
    }

    /// Takes the whole accumulated batch for upload, leaving an empty one:
    /// telemetry is best-effort, so the batch is cleared whatever the
    /// upload's outcome will be.
    pub fn flush(&self) -> Vec<Event> {
        let (mut batch, write_handle) = self.batch.acquire_write();
        let out = batch.drain();
        write_handle.release_write(batch);
        out
    }
}

/// Relies on std::time::SystemTime: the machine clock's milliseconds since
/// the Unix epoch, or zero when the clock reads earlier than the epoch. Two
/// calls may return anything; nothing is assumed of the result.
#[verifier::external_body]
pub fn unix_timestamp() -> u128 {
    std::time::SystemTime::now().duration_since(std::time::UNIX_EPOCH).map(
        |d| d.as_millis(),
    ).unwrap_or(0)
}

} // verus!
