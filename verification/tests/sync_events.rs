use std::sync::Arc;

use feature_probe::Event;
use feature_probe::FPConfig;
use feature_probe::FPDetail;
use feature_probe::FPUser;
use feature_probe::FPValue;
use feature_probe::FeatureProbe;
use feature_probe::FetchOutcome;
use feature_probe::RepositoryCache;
use feature_probe::StopFlag;
use feature_probe::SyncType;
use feature_probe::Synchronizer;
use feature_probe::events::EventBatch;
use feature_probe::events::events_for_lookup;
use feature_probe::repo::new_repository;
use feature_probe::sync::StartGate;
use feature_probe::sync::build_repository;
use feature_probe::sync::should_send;
use feature_probe::sync::start_wait_timed_out;

fn bool_detail(value: bool) -> FPDetail<FPValue> {
    FPDetail {
        value: FPValue::Bool(value),
        rule_index: Some(0),
        variation_index: Some(1),
        version: Some(1),
        reason: "rule match".to_owned(),
        track_access_events: None,
        debug_until_time: None,
    }
}

fn config(port: u16) -> FPConfig {
    let base = format!("http://127.0.0.1:{}", port);
    FPConfig {
        toggles_url: url::Url::parse(&format!("{}/api/client-sdk/toggles", base)).unwrap(),
        events_url: url::Url::parse(&format!("{}/api/events", base)).unwrap(),
        realtime_url: url::Url::parse(&format!("{}/realtime", base)).unwrap(),
        client_sdk_key: "client-sdk-key".to_owned(),
        refresh_interval_millis: 1000,
        start_wait_millis: Some(3000),
    }
}

fn fresh_syncer() -> Synchronizer {
    let repo = Arc::new(RepositoryCache::new(new_repository()));
    let stop = Arc::new(StopFlag::new());
    let url = url::Url::parse("http://127.0.0.1:4007/api/client-sdk/toggles").unwrap();
    Synchronizer::new(url, 1000, "client-sdk-key".to_owned(), repo, stop)
}

#[test]
fn apply_fetch_classifies_failures() {
    let syncer = fresh_syncer();
    match syncer.apply_fetch(SyncType::Polling, FetchOutcome::Transport("boom".to_owned())) {
        Err(e) => assert_eq!(e.message(), "invalid http: boom"),
        Ok(_) => panic!("a transport failure must fail the sync"),
    }
    match syncer.apply_fetch(SyncType::Polling, FetchOutcome::Status(500)) {
        Err(e) => assert_eq!(e.message(), "invalid http: sync http failed: status code 500"),
        Ok(_) => panic!("a non-200 status must fail the sync"),
    }
    match syncer.apply_fetch(
        SyncType::Polling,
        FetchOutcome::Body(Err("expected a map".to_owned())),
    ) {
        Err(e) => assert_eq!(e.message(), "invalid json: expected a map"),
        Ok(_) => panic!("an unparsable body must fail the sync"),
    }
}

#[test]
fn apply_fetch_installs_the_parsed_repository() {
    let syncer = fresh_syncer();
    let entries = vec![("bool_toggle".to_owned(), bool_detail(true))];
    let r = syncer.apply_fetch(SyncType::Polling, FetchOutcome::Body(Ok(entries)));
    assert!(r.is_ok());
    let found = syncer.repo.get_cloned("bool_toggle").expect("key must be installed");
    assert_eq!(found.value, FPValue::Bool(true));
    assert!(syncer.repo.get_cloned("other").is_none());
}

#[test]
fn failed_sync_keeps_the_previous_snapshot() {
    let syncer = fresh_syncer();
    let entries = vec![("bool_toggle".to_owned(), bool_detail(true))];
    syncer
        .apply_fetch(SyncType::Polling, FetchOutcome::Body(Ok(entries)))
        .unwrap();
    let _ = syncer.apply_fetch(SyncType::Polling, FetchOutcome::Status(503));
    let _ = syncer.apply_fetch(
        SyncType::Polling,
        FetchOutcome::Body(Err("parse failed".to_owned())),
    );
    let found = syncer.repo.get_cloned("bool_toggle").expect("stale snapshot must survive");
    assert_eq!(found.value, FPValue::Bool(true));
}

#[test]
fn duplicate_keys_last_entry_wins() {
    let entries = vec![
        ("k".to_owned(), bool_detail(false)),
        ("k".to_owned(), bool_detail(true)),
    ];
    let repo = build_repository(entries);
    assert_eq!(repo.get("k").unwrap().value, FPValue::Bool(true));
    assert_eq!(repo.len(), 1);
}

#[test]
fn realtime_update_resyncs_out_of_band() {
    let fp = FeatureProbe::new(config(4010), FPUser::new("u".to_owned()));
    let action = fp.on_socket_update();
    assert!(matches!(action, Some(SyncType::Realtime)));

    let syncer = fp.syncer().as_ref().expect("a started client has a synchronizer");
    syncer
        .apply_fetch(
            SyncType::Polling,
            FetchOutcome::Body(Ok(vec![("t".to_owned(), bool_detail(false))])),
        )
        .unwrap();
    assert!(!fp.bool_value("t", true));

    syncer
        .apply_fetch(
            SyncType::Realtime,
            FetchOutcome::Body(Ok(vec![("t".to_owned(), bool_detail(true))])),
        )
        .unwrap();
    assert!(fp.bool_value("t", false));
}

#[test]
fn syncer_url_carries_the_user_query() {
    let fp = FeatureProbe::new(config(4013), FPUser::new("u1".to_owned()));
    let syncer = fp.syncer().as_ref().unwrap();
    assert_eq!(
        syncer.remote_url.as_str(),
        "http://127.0.0.1:4013/api/client-sdk/toggles?user=eyJrZXkiOiJ1MSIsImF0dHJzIjp7fX0="
    );
    assert_eq!(syncer.auth, "client-sdk-key");
    assert_eq!(syncer.refresh_interval_millis, 1000);
}

#[test]
fn no_syncer_means_no_realtime_action() {
    let fp = FeatureProbe::new_with(new_repository());
    assert!(fp.on_socket_update().is_none());
}

#[test]
fn lookup_telemetry_pairing() {
    let user = FPUser::new("u".to_owned());
    let mut d = bool_detail(true);

    let (access, debug) = events_for_lookup(&user, "t", &d, 7);
    assert_eq!(access.kind, "access");
    assert_eq!(access.time, 7);
    assert_eq!(access.key, "t");
    assert!(debug.is_none());

    d.debug_until_time = Some(1_000_000);
    let (access, debug) = events_for_lookup(&user, "t", &d, 7);
    let dbg = debug.expect("an open debug window must emit a debug event");
    assert_eq!(access.time, dbg.time);
    assert_eq!(dbg.kind, "debug");
    assert_eq!(dbg.reason, Some("rule match".to_owned()));

    let (_, expired) = events_for_lookup(&user, "t", &d, 2_000_000);
    assert!(expired.is_none());

    // The debug window alone decides: a missing variation index does not
    // suppress the debug event, it is reported as zero.
    d.variation_index = None;
    let (_, no_variation) = events_for_lookup(&user, "t", &d, 7);
    let dbg = no_variation.expect("the open window owes a debug event");
    assert_eq!(dbg.variation_index, 0);
    assert_eq!(dbg.time, 7);
}

#[test]
fn facade_records_one_access_per_found_lookup() {
    let fp = FeatureProbe::new(config(4011), FPUser::new("u".to_owned()));
    let syncer = fp.syncer().as_ref().unwrap();
    syncer
        .apply_fetch(
            SyncType::Polling,
            FetchOutcome::Body(Ok(vec![("t".to_owned(), bool_detail(true))])),
        )
        .unwrap();

    assert!(!fp.bool_value("absent", false));
    assert!(fp.bool_value("t", false));
    fp.track_event("signup", None);

    let recorder = fp.recorder().as_ref().unwrap();
    let events = recorder.flush();
    assert_eq!(events.len(), 2);
    assert!(matches!(events[0], Event::AccessEvent(ref a) if a.key == "t"));
    assert!(matches!(events[1], Event::CustomEvent(ref c) if c.name == "signup"));
    assert!(recorder.flush().is_empty());
}

#[test]
fn close_stops_loops_and_drains_telemetry() {
    let fp = FeatureProbe::new(config(4012), FPUser::new("u".to_owned()));
    let syncer = fp.syncer().as_ref().unwrap();
    syncer
        .apply_fetch(
            SyncType::Polling,
            FetchOutcome::Body(Ok(vec![("t".to_owned(), bool_detail(true))])),
        )
        .unwrap();
    assert!(fp.bool_value("t", false));

    let pending = fp.close();
    assert_eq!(pending.len(), 1);
    assert!(fp.stop_flag().is_set());

    // The cache is not torn down: lookups keep serving the last snapshot.
    assert!(fp.bool_value("t", false));
}

#[test]
fn startup_gate_fires_exactly_once() {
    let mut gate = StartGate::new();
    // A failure before the deadline does not unblock the caller.
    assert!(gate
        .step(Err(feature_probe::FPError::HttpError("down".to_owned())), true, false)
        .is_none());
    // The first success unblocks.
    let fired = gate.step(Ok(()), true, false);
    assert!(matches!(fired, Some(Ok(()))));
    // Nothing ever fires again.
    assert!(gate.step(Ok(()), true, false).is_none());
    assert!(gate
        .step(Err(feature_probe::FPError::HttpError("down".to_owned())), true, true)
        .is_none());
}

#[test]
fn startup_gate_reports_the_terminal_failure_on_timeout() {
    let mut gate = StartGate::new();
    let fired = gate.step(Err(feature_probe::FPError::HttpError("down".to_owned())), true, true);
    match fired {
        Some(Err(e)) => assert_eq!(e.message(), "invalid http: down"),
        _ => panic!("a timed-out failure must unblock with the error"),
    }
}

#[test]
fn should_send_table() {
    assert!(should_send(Ok(()), false, true, false).is_none());
    assert!(matches!(should_send(Ok(()), true, false, false), Some(Ok(()))));
    assert!(should_send(Ok(()), true, false, true).is_none());
    assert!(should_send(
        Err(feature_probe::FPError::HttpError("x".to_owned())),
        true,
        false,
        false
    )
    .is_none());
    assert!(should_send(
        Err(feature_probe::FPError::HttpError("x".to_owned())),
        true,
        true,
        true
    )
    .is_none());
}

#[test]
fn timeout_check_counts_the_next_interval() {
    assert!(!start_wait_timed_out(200, 1000, 3000));
    assert!(start_wait_timed_out(2500, 1000, 3000));
    assert!(start_wait_timed_out(u64::MAX, u64::MAX, u64::MAX));
}

#[test]
fn event_batch_semantics() {
    let mut batch = EventBatch::new(2);
    assert!(!batch.is_full());
    let user = FPUser::new("u".to_owned());
    let d = bool_detail(true);
    let (a1, _) = events_for_lookup(&user, "t", &d, 1);
    let (a2, _) = events_for_lookup(&user, "t", &d, 2);
    batch.record(Event::AccessEvent(a1));
    assert!(!batch.is_full());
    batch.record(Event::AccessEvent(a2));
    assert!(batch.is_full());
    let drained = batch.drain();
    assert_eq!(drained.len(), 2);
    assert!(!batch.is_full());
    assert!(batch.drain().is_empty());
}

#[test]
fn cache_swap_is_wholesale() {
    let cache = RepositoryCache::new(new_repository());
    let first = build_repository(vec![
        ("a".to_owned(), bool_detail(true)),
        ("b".to_owned(), bool_detail(true)),
    ]);
    cache.replace(first);
    assert!(cache.get_cloned("a").is_some());
    assert!(cache.get_cloned("b").is_some());

    let second = build_repository(vec![("c".to_owned(), bool_detail(true))]);
    cache.replace(second);
    // Nothing of the old snapshot survives the swap.
    assert!(cache.get_cloned("a").is_none());
    assert!(cache.get_cloned("b").is_none());
    assert!(cache.get_cloned("c").is_some());
}
