use r53_ddns::{
    Action, ChangeRequest, ChangeStatus, Event, IpAddress, Phase, PollReply, RecordSet, RecordType,
    Reconciler, ReconcilerConfig, Route53UpdateError,
};

fn v4(a: u8, b: u8, c: u8, d: u8) -> IpAddress {
    IpAddress::V4(u32::from_be_bytes([a, b, c, d]))
}

fn config() -> ReconcilerConfig {
    ReconcilerConfig {
        dns_zone_id: "Z1".to_string(),
        domain_name: "example.com".to_string(),
        record_type: RecordType::A,
        interval_secs: 180,
        poll_secs: 60,
    }
}

fn listing(addr: IpAddress) -> Vec<RecordSet> {
    vec![RecordSet {
        name: "example.com".to_string(),
        record_type: "A".to_string(),
        ttl: Some(300),
        values: vec![Some(addr)],
    }]
}

/// Drives one cycle up to the listing, answering with `observed` and `sets`.
fn start_cycle(r: &mut Reconciler, observed: IpAddress, sets: Vec<RecordSet>) -> Action {
    assert!(matches!(r.step(Event::Elapsed), Action::ObserveAddress));
    match r.step(Event::Address(Some(observed))) {
        Action::ListRecordSets { zone_id, start_name } => {
            assert_eq!(zone_id, "Z1");
            assert_eq!(start_name, "example.com");
        }
        other => panic!("unexpected action {:?}", other),
    }
    r.step(Event::RecordSets(Some(sets)))
}

/// The listing as the provider holds it once `c` is applied.
fn applied(c: &ChangeRequest) -> Vec<RecordSet> {
    vec![RecordSet {
        name: c.name.clone(),
        record_type: c.record_type.clone(),
        ttl: Some(c.ttl),
        values: c.values.iter().map(|a| Some(*a)).collect(),
    }]
}

#[test]
fn scenario_a_current_record_is_left_alone() {
    let mut r = Reconciler::new(config());
    let act = start_cycle(&mut r, v4(1, 2, 3, 4), listing(v4(1, 2, 3, 4)));
    assert!(matches!(act, Action::Sleep(180)));
    assert!(matches!(r.phase, Phase::Idle));
    assert_eq!(r.submissions, 0);
}

#[test]
fn scenario_b_drift_is_corrected_and_tracked() {
    let mut r = Reconciler::new(config());
    let act = start_cycle(&mut r, v4(5, 6, 7, 8), listing(v4(1, 2, 3, 4)));
    match act {
        Action::Submit(c) => {
            assert_eq!(c.values, vec![v4(5, 6, 7, 8)]);
            assert_eq!(c.name, "example.com");
            assert_eq!(c.ttl, 300);
        }
        other => panic!("unexpected action {:?}", other),
    }
    assert_eq!(r.submissions, 1);
    let mut queries = 0;
    let mut act = r.step(Event::Submitted(Some("C42".to_string())));
    for status in [ChangeStatus::Pending, ChangeStatus::Pending, ChangeStatus::InSync] {
        match act {
            Action::QueryStatus(id) => assert_eq!(id, "C42"),
            other => panic!("unexpected action {:?}", other),
        }
        queries += 1;
        act = r.step(Event::Polled(PollReply::Status(status)));
        if status == ChangeStatus::Pending {
            assert!(matches!(act, Action::Sleep(60)));
            act = r.step(Event::Elapsed);
        }
    }
    assert_eq!(queries, 3);
    assert!(matches!(act, Action::Sleep(180)));
    assert!(matches!(r.phase, Phase::Idle));
    assert_eq!(r.submissions, 1);
}

#[test]
fn scenario_c_missing_record_is_fatal() {
    let mut r = Reconciler::new(config());
    let other = vec![RecordSet {
        name: "www.example.com".to_string(),
        record_type: "A".to_string(),
        ttl: Some(300),
        values: vec![Some(v4(1, 2, 3, 4))],
    }];
    let act = start_cycle(&mut r, v4(1, 2, 3, 4), other);
    assert!(matches!(act, Action::Exit(Route53UpdateError::NoRecordAvailable)));
    assert!(matches!(r.step(Event::Elapsed), Action::Exit(Route53UpdateError::NoRecordAvailable)));
}

#[test]
fn second_cycle_submits_nothing() {
    let mut r = Reconciler::new(config());
    let change = match start_cycle(&mut r, v4(5, 6, 7, 8), listing(v4(1, 2, 3, 4))) {
        Action::Submit(c) => c,
        other => panic!("unexpected action {:?}", other),
    };
    assert!(matches!(r.step(Event::Submitted(Some("C1".to_string()))), Action::QueryStatus(_)));
    assert!(matches!(r.step(Event::Polled(PollReply::Status(ChangeStatus::InSync))), Action::Sleep(180)));
    let act = start_cycle(&mut r, v4(5, 6, 7, 8), applied(&change));
    assert!(matches!(act, Action::Sleep(180)));
    assert_eq!(r.submissions, 1);
}

#[test]
fn unavailable_address_retries_next_cycle() {
    let mut r = Reconciler::new(config());
    assert!(matches!(r.step(Event::Elapsed), Action::ObserveAddress));
    let act = r.step(Event::Address(None));
    assert!(matches!(
        act,
        Action::RetryLater { error: Route53UpdateError::AddressUnavailable, secs: 180 }
    ));
    assert!(matches!(r.step(Event::Elapsed), Action::ObserveAddress));
    let act = r.step(Event::Address(Some(IpAddress::V6(1))));
    assert!(matches!(
        act,
        Action::RetryLater { error: Route53UpdateError::AddressUnavailable, secs: 180 }
    ));
}

#[test]
fn provider_failures_abort_the_cycle() {
    let mut r = Reconciler::new(config());
    r.step(Event::Elapsed);
    r.step(Event::Address(Some(v4(5, 6, 7, 8))));
    let act = r.step(Event::RecordSets(None));
    assert!(matches!(act, Action::RetryLater { error: Route53UpdateError::ProviderError, .. }));
    let act = start_cycle(&mut r, v4(5, 6, 7, 8), listing(v4(1, 2, 3, 4)));
    assert!(matches!(act, Action::Submit(_)));
    let act = r.step(Event::Submitted(None));
    assert!(matches!(act, Action::RetryLater { error: Route53UpdateError::ProviderError, .. }));
    assert_eq!(r.submissions, 1);
}

#[test]
fn polling_errors() {
    let mut r = Reconciler::new(config());
    start_cycle(&mut r, v4(5, 6, 7, 8), listing(v4(1, 2, 3, 4)));
    r.step(Event::Submitted(Some("C7".to_string())));
    assert!(matches!(r.step(Event::Polled(PollReply::Transient)), Action::Sleep(60)));
    assert!(matches!(r.step(Event::Elapsed), Action::QueryStatus(_)));
    let act = r.step(Event::Polled(PollReply::UnknownChange));
    assert!(matches!(act, Action::RetryLater { error: Route53UpdateError::ProviderError, secs: 180 }));
    assert!(matches!(r.phase, Phase::Idle));
}

#[test]
fn unexpected_events_are_ignored() {
    let mut r = Reconciler::new(config());
    assert!(matches!(r.step(Event::Polled(PollReply::Transient)), Action::Wait));
    assert!(matches!(r.phase, Phase::Idle));
    r.step(Event::Elapsed);
    assert!(matches!(r.step(Event::Submitted(Some("C".to_string()))), Action::Wait));
    assert!(matches!(r.phase, Phase::Observing));
}

#[test]
fn malformed_record_is_fatal() {
    let mut r = Reconciler::new(config());
    let sets = vec![RecordSet {
        name: "example.com".to_string(),
        record_type: "A".to_string(),
        ttl: Some(300),
        values: vec![None],
    }];
    let act = start_cycle(&mut r, v4(5, 6, 7, 8), sets);
    assert!(matches!(act, Action::Exit(Route53UpdateError::MalformedRecord)));
    assert!(matches!(r.phase, Phase::Stopped(Route53UpdateError::MalformedRecord)));
}
