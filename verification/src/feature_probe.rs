use vstd::prelude::*;
use vstd::string::*;

use crate::FPDetail;
use crate::encode::escape_json;
use crate::encode::append_escaped;
use crate::encode::spec_base64;
use crate::eval::bool_detail_from;
use crate::eval::bool_detail_spec;
use crate::eval::json_detail_from;
use crate::eval::json_detail_spec;
use crate::eval::number_detail_from;
use crate::eval::number_detail_spec;
use crate::eval::string_detail_from;
use crate::eval::string_detail_spec;
use crate::events::Event;
use crate::events::EventRecorder;
use crate::events::custom_event;
use crate::events::events_for_lookup;
use crate::events::unix_timestamp;
use crate::repo::Repository;
use crate::repo::RepositoryCache;
use crate::repo::opt_detail_model;
use crate::repo::spec_lookup;
use crate::sync::StopFlag;
use crate::sync::SyncType;
use crate::sync::Synchronizer;
use crate::urls::url_with_query;
use crate::user::FPUser;
use crate::user::spec_user_json;
use crate::value::FPValue;
use std::sync::Arc;
use url::Url;
use vstd::hash_map::StringHashMap;

verus! {

/// The construction-time option set: the three remote endpoints, the client
/// credential, the shared poll-and-flush period, and the optional bounded
/// startup wait.
pub struct FPConfig {
    pub toggles_url: Url,
    pub events_url: Url,
    pub realtime_url: Url,
    pub client_sdk_key: String,
    pub refresh_interval_millis: u64,
    pub start_wait_millis: Option<u64>,
}

/// The number of events at which the recorder's batch asks for a flush.
pub const EVENT_BATCH_CAPACITY: usize = 100;

/// The evaluation entry point: composes the repository cache, the
/// synchronizer, and the event recorder behind typed lookups. The background
/// loops that feed these components run outside the library and drive them
/// through [`Synchronizer::apply_fetch`] and [`EventRecorder::flush`].
pub struct FeatureProbe {
    repo: Arc<RepositoryCache>,
    syncer: Option<Synchronizer>,
    event_recorder: Option<Arc<EventRecorder>>,
    config: Option<FPConfig>,
    user: FPUser,
    should_stop: Arc<StopFlag>,
}

/// The `user` query parameter of a sync request: the user's stable base64
/// encoding under its name.
pub open spec fn spec_sync_query(u: crate::user::FPUserModel) -> Seq<char> {
    "user="@ + spec_base64(vstd::utf8::encode_utf8(spec_user_json(u)))
}

/// Builds the sync request's query string identifying `user`.
pub fn sync_query(user: &FPUser) -> (r: String)
    ensures
        r@ == spec_sync_query(user@),
{
    let mut q = String::new();
    q.append("user=");
    let encoded = user.as_base64();
    q.append(encoded.as_str());
    proof {
        assert(q@ =~= spec_sync_query(user@));
    }
    q
}

/// The payload of the realtime channel's `register` message: a JSON object
/// carrying the client credential under `key`.
pub open spec fn spec_register_payload(key: Seq<char>) -> Seq<char> {
    "{\"key\":\""@ + escape_json(key) + "\"}"@
}

/// Builds the `register` payload announcing `sdk_key` on the realtime
/// channel.
pub fn register_payload(sdk_key: &str) -> (r: String)
    ensures
        r@ == spec_register_payload(sdk_key@),
{
    let mut out = String::new();
    out.append("{\"key\":\"");
    append_escaped(&mut out, sdk_key);
    out.append("\"}");
    proof {
        assert(out@ =~= spec_register_payload(sdk_key@));
    }
    out
}

impl FeatureProbe {
    /// The shared repository cache behind the lookups.
    pub closed spec fn spec_repo(&self) -> Arc<RepositoryCache> {
        self.repo
    }

    /// The fixed map of a pinned instance (one built over a given
    /// repository); `None` when a synchronizer may replace the snapshot.
    pub closed spec fn spec_pinned(&self) -> Option<Map<Seq<char>, FPDetail<FPValue>>> {
        self.repo.pinned()
    }

    /// The synchronizer this instance carries, if any.
    pub closed spec fn spec_syncer(&self) -> Option<Synchronizer> {
        self.syncer
    }

    /// Whether this instance carries a synchronizer to resync through.
    pub open spec fn spec_has_syncer(&self) -> bool {
        self.spec_syncer() is Some
    }

    /// The event recorder this instance carries, if any.
    pub closed spec fn spec_recorder(&self) -> Option<Arc<EventRecorder>> {
        self.event_recorder
    }

    /// Whether this instance carries an event recorder.
    pub open spec fn spec_has_recorder(&self) -> bool {
        self.spec_recorder() is Some
    }

    /// The configuration this instance was built over, if any.
    pub closed spec fn spec_config(&self) -> Option<FPConfig> {
        self.config
    }

    /// The stop flag shared with the background loops.
    pub closed spec fn spec_stop_flag(&self) -> Arc<StopFlag> {
        self.should_stop
    }

    /// The user behind this instance.
    pub closed spec fn spec_user(&self) -> FPUser {
        self.user
    }

    /// A client over the given configuration and user: an empty, replaceable
    /// cache; a synchronizer aimed at the toggles endpoint with the user
    /// encoded in its query, sharing the cache and the stop flag; and an
    /// event recorder aimed at the events endpoint with the configured
    /// credential, period and batch capacity. The caller starts the poll,
    /// push and flush loops and drives them through the returned handles.
    pub fn new(config: FPConfig, user: FPUser) -> (r: FeatureProbe)
        ensures
            r.spec_pinned() is None,
            r.spec_user() == user,
            (match r.spec_syncer() {
                Some(s) => {
                    &&& s.auth@ == config.client_sdk_key@
                    &&& s.refresh_interval_millis == config.refresh_interval_millis
                    &&& s.repo == r.spec_repo()
                    &&& s.should_stop == r.spec_stop_flag()
                    &&& s.wf()
                },
                None => false,
            }),
            (match r.spec_recorder() {
                Some(rec) => {
                    &&& rec.spec_events_url() == config.events_url
                    &&& rec.spec_auth()@ == config.client_sdk_key@
                    &&& rec.spec_flush_interval_millis() == config.refresh_interval_millis
                    &&& rec.spec_capacity() == EVENT_BATCH_CAPACITY
                },
                None => false,
            }),
            r.spec_config() == Some(config),
    {
        let repo = Arc::new(RepositoryCache::new(StringHashMap::new()));
        let should_stop = Arc::new(StopFlag::new());

        let query = sync_query(&user);
        let remote_url = url_with_query(config.toggles_url.clone(), query.as_str());
        let syncer = Synchronizer::new(
            remote_url,
            config.refresh_interval_millis,
            config.client_sdk_key.clone(),
            arc_clone(&repo),
            arc_clone(&should_stop),
        );

        let event_recorder = EventRecorder::new(
            config.events_url.clone(),
            config.client_sdk_key.clone(),
            config.refresh_interval_millis,
            EVENT_BATCH_CAPACITY,
        );

        FeatureProbe {
            repo,
            syncer: Some(syncer),
            event_recorder: Some(Arc::new(event_recorder)),
            config: Some(config),
            user,
            should_stop,
        }
    }

    /// A client pinned to a given repository, with no synchronizer and no
    /// recorder: every lookup resolves against exactly the given map, and no
    /// events are recorded.
    pub fn new_with(repo: Repository) -> (r: FeatureProbe)
        ensures
            r.spec_pinned() == Some(repo@),
            !r.spec_has_syncer(),
            !r.spec_has_recorder(),
    {
        FeatureProbe {
            repo: Arc::new(RepositoryCache::new_pinned(repo)),
            syncer: None,
            event_recorder: None,
            config: None,
            user: FPUser::default(),
            should_stop: Arc::new(StopFlag::new()),
        }
    }

    /// Stops the background work and hands back whatever telemetry is still
    /// queued, for one final upload: the stop flag is set for the loops to
    /// observe, and the batch is drained. Lookups keep serving from the last
    /// cached snapshot. Without a recorder there is nothing to hand back.
    pub fn close(&self) -> (pending: Vec<Event>)
        ensures
            !self.spec_has_recorder() ==> pending@.len() == 0,
    {
        let pending = match &self.event_recorder {
            Some(recorder) => recorder.flush(),
            None => Vec::new(),
        };
        self.should_stop.set();
        pending
    }

    /// The boolean `value` lookup: the stored value when the key is present
    /// and carries a boolean, the default otherwise. The result is the
    /// lookup's outcome in one single complete sync response — on a pinned
    /// instance, in exactly the pinned map.
    pub fn bool_value(&self, toggle: &str, default: bool) -> (r: bool)
        ensures
            exists|m: Map<Seq<char>, FPDetail<FPValue>>| r == #[trigger] bool_detail_spec(
                m,
                toggle@,
                default,
            ).value,
            self.spec_pinned() matches Some(m) ==> r == bool_detail_spec(m, toggle@, default).value,
    {
        let d = self.bool_detail(toggle, default);
        let ghost m = choose|m: Map<Seq<char>, FPDetail<FPValue>>|
            d@ == #[trigger] bool_detail_spec(m, toggle@, default);
        proof {
            assert(d.value == bool_detail_spec(m, toggle@, default).value);
        }
        d.value
    }

    /// The string `value` lookup.
    pub fn string_value(&self, toggle: &str, default: String) -> (r: String)
        ensures
            exists|m: Map<Seq<char>, FPDetail<FPValue>>| r@ == #[trigger] string_detail_spec(
                m,
                toggle@,
                default@,
            ).value,
            self.spec_pinned() matches Some(m) ==> r@ == string_detail_spec(
                m,
                toggle@,
                default@,
            ).value,
    {
        let ghost default0 = default@;
        let d = self.string_detail(toggle, default);
        let ghost m = choose|m: Map<Seq<char>, FPDetail<FPValue>>|
            d@ == #[trigger] string_detail_spec(m, toggle@, default0);
        proof {
            assert(d.value@ == string_detail_spec(m, toggle@, default0).value);
        }
        d.value
    }

    /// The numeric `value` lookup; values travel as the bit pattern of an
    /// IEEE-754 double.
    pub fn number_value(&self, toggle: &str, default: u64) -> (r: u64)
        ensures
            exists|m: Map<Seq<char>, FPDetail<FPValue>>| r == #[trigger] number_detail_spec(
                m,
                toggle@,
                default,
            ).value,
            self.spec_pinned() matches Some(m) ==> r == number_detail_spec(
                m,
                toggle@,
                default,
            ).value,
    {
        let d = self.number_detail(toggle, default);
        let ghost m = choose|m: Map<Seq<char>, FPDetail<FPValue>>|
            d@ == #[trigger] number_detail_spec(m, toggle@, default);
        proof {
            assert(d.value == number_detail_spec(m, toggle@, default).value);
        }
        d.value
    }

    /// The document `value` lookup: any stored value serves, whatever its
    /// tag.
    pub fn json_value(&self, toggle: &str, default: FPValue) -> (r: FPValue)
        ensures
            exists|m: Map<Seq<char>, FPDetail<FPValue>>| r@ == #[trigger] json_detail_spec(
                m,
                toggle@,
                default@,
            ).value,
            self.spec_pinned() matches Some(m) ==> r@ == json_detail_spec(
                m,
                toggle@,
                default@,
            ).value,
    {
        let ghost default0 = default@;
        let d = self.json_detail(toggle, default);
        let ghost m = choose|m: Map<Seq<char>, FPDetail<FPValue>>|
            d@ == #[trigger] json_detail_spec(m, toggle@, default0);
        proof {
            assert(d.value@ == json_detail_spec(m, toggle@, default0).value);
        }
        d.value
    }

    /// The boolean `detail` lookup: the full record — reason, rule index,
    /// variation index, version — for the lookup's outcome in one single
    /// complete sync response; on a pinned instance, in exactly the pinned
    /// map.
    pub fn bool_detail(&self, toggle: &str, default: bool) -> (r: FPDetail<bool>)
        ensures
            exists|m: Map<Seq<char>, FPDetail<FPValue>>| r@ == #[trigger] bool_detail_spec(
                m,
                toggle@,
                default,
            ),
            self.spec_pinned() matches Some(m) ==> r@ == bool_detail_spec(m, toggle@, default),
    {
        let found = self.repo.get_cloned(toggle);
        self.record_lookup(toggle, &found);
        let r = bool_detail_from(found, toggle, default);
        proof {
            let m = choose|m: Map<Seq<char>, FPDetail<FPValue>>|
                opt_detail_model(found) == #[trigger] spec_lookup(m, toggle@);
            assert(r@ == bool_detail_spec(m, toggle@, default));
        }
        r
    }

    /// The string `detail` lookup.
    pub fn string_detail(&self, toggle: &str, default: String) -> (r: FPDetail<String>)
        ensures
            exists|m: Map<Seq<char>, FPDetail<FPValue>>| r@ == #[trigger] string_detail_spec(
                m,
                toggle@,
                default@,
            ),
            self.spec_pinned() matches Some(m) ==> r@ == string_detail_spec(m, toggle@, default@),
    {
        let ghost default0 = default@;
        let found = self.repo.get_cloned(toggle);
        self.record_lookup(toggle, &found);
        let r = string_detail_from(found, toggle, default);
        proof {
            let m = choose|m: Map<Seq<char>, FPDetail<FPValue>>|
                opt_detail_model(found) == #[trigger] spec_lookup(m, toggle@);
            assert(r@ == string_detail_spec(m, toggle@, default0));
        }
        r
    }

    /// The numeric `detail` lookup; the value is the bit pattern of an
    /// IEEE-754 double.
    pub fn number_detail(&self, toggle: &str, default: u64) -> (r: FPDetail<u64>)
        ensures
            exists|m: Map<Seq<char>, FPDetail<FPValue>>| r@ == #[trigger] number_detail_spec(
                m,
                toggle@,
                default,
            ),
            self.spec_pinned() matches Some(m) ==> r@ == number_detail_spec(m, toggle@, default),
    {
        let found = self.repo.get_cloned(toggle);
        self.record_lookup(toggle, &found);
        let r = number_detail_from(found, toggle, default);
        proof {
            let m = choose|m: Map<Seq<char>, FPDetail<FPValue>>|
                opt_detail_model(found) == #[trigger] spec_lookup(m, toggle@);
            assert(r@ == number_detail_spec(m, toggle@, default));
        }
        r
    }

    /// The document `detail` lookup.
    pub fn json_detail(&self, toggle: &str, default: FPValue) -> (r: FPDetail<FPValue>)
        ensures
            exists|m: Map<Seq<char>, FPDetail<FPValue>>| r@ == #[trigger] json_detail_spec(
                m,
                toggle@,
                default@,
            ),
            self.spec_pinned() matches Some(m) ==> r@ == json_detail_spec(m, toggle@, default@),
    {
        let ghost default0 = default@;
        let found = self.repo.get_cloned(toggle);
        self.record_lookup(toggle, &found);
        let r = json_detail_from(found, toggle, default);
        proof {
            let m = choose|m: Map<Seq<char>, FPDetail<FPValue>>|
                opt_detail_model(found) == #[trigger] spec_lookup(m, toggle@);
            assert(r@ == json_detail_spec(m, toggle@, default0));
        }
        r
    }

    /// Enqueues one application-triggered telemetry record, built by
    /// [`custom_event`]; independent of the repository cache. The optional
    /// value is the bit pattern of an IEEE-754 double.
    pub fn track_event(&self, name: &str, value: Option<u64>) {
        if let Some(recorder) = &self.event_recorder {
            let ts = unix_timestamp();
            let event = custom_event(&self.user, name, value, ts);
            recorder.record_event(Event::CustomEvent(event));
        }
    }

    /// The decision taken on an `update` signal from the realtime channel:
    /// resync now, out of band, marked as realtime-triggered — without
    /// touching the poll loop's own timer. Nothing happens without a
    /// synchronizer.
    pub fn on_socket_update(&self) -> (r: Option<SyncType>)
        ensures
            (r is Some) <==> self.spec_has_syncer(),
            (match r {
                Some(t) => t is Realtime,
                None => true,
            }),
    {
        if self.syncer.is_some() {
            Some(SyncType::Realtime)
        } else {
            None
        }
    }

    /// The synchronizer handle the background poll loop drives.
    pub fn syncer(&self) -> (r: &Option<Synchronizer>)
        ensures
            *r == self.spec_syncer(),
    {
        &self.syncer
    }

    /// The recorder handle the background flush loop drains.
    pub fn recorder(&self) -> (r: &Option<Arc<EventRecorder>>)
        ensures
            *r == self.spec_recorder(),
    {
        &self.event_recorder
    }

    /// The stop flag the background loops observe.
    pub fn stop_flag(&self) -> (r: &Arc<StopFlag>)
        ensures
            *r == self.spec_stop_flag(),
    {
        &self.should_stop
    }

    /// The configuration this instance was built over, when it was built
    /// over one.
    pub fn config(&self) -> (r: &Option<FPConfig>)
        ensures
            *r == self.spec_config(),
    {
        &self.config
    }

    /// The user this instance evaluates for.
    pub fn user(&self) -> (r: &FPUser)
        ensures
            *r == self.spec_user(),
    {
        &self.user
    }

    /// Records the telemetry of one lookup: exactly one access event when
    /// the key was found — plus its debug companion while the debug window
    /// is open — and none when the key was absent.
    fn record_lookup(&self, toggle: &str, found: &Option<FPDetail<FPValue>>) {
        if let Some(recorder) = &self.event_recorder {
            if let Some(detail) = found {
                let ts = unix_timestamp();
                let (access, debug) = events_for_lookup(&self.user, toggle, detail, ts);
                recorder.record_event(Event::AccessEvent(access));
                if let Some(dbg) = debug {
                    recorder.record_event(Event::DebugEvent(dbg));
                }
            }
        }
    }
}

/// Relies on the Clone of std::sync::Arc: another handle to the same
/// allocation, so the same value.
#[verifier::external_body]
pub fn arc_clone<T>(a: &Arc<T>) -> (r: Arc<T>)
    ensures
        r == *a,
{
    Arc::clone(a)
}

} // verus!
