use vstd::prelude::*;
use crate::change::{drift_comment, update_record, ChangeRequest, ChangeRequestView};
use crate::drift::{drift_of, first_match, is_addr_current, is_first_match, lemma_first_match_unique, set_matches};
use crate::model::{
    family_of, listing_view, ChangeStatus, IpAddress, RecordSet, RecordSetView, RecordType,
    Route53UpdateError,
};
use crate::propagation::PropagationTracker;

verus! {

/// The change, if any, that one cycle submits for a listing and an observed
/// address: `Ok(None)` where the record is current, `Ok(Some(c))` where it
/// has drifted, and the drift check's error, or `MalformedRecord` for a
/// record without a time to live, where the cycle cannot go on.
pub open spec fn cycle_outcome(
    sets: Seq<RecordSetView>,
    zone_id: Seq<char>,
    name: Seq<char>,
    observed: IpAddress,
) -> Result<Option<ChangeRequestView>, Route53UpdateError> {
    let t = family_of(observed);
    match drift_of(sets, name, t, observed) {
        Err(e) => Err(e),
        Ok(d) => if d.is_current {
            Ok(None)
        } else {
            let s = sets[first_match(sets, name, t).unwrap()];
            match s.ttl {
                None => Err(Route53UpdateError::MalformedRecord),
                Some(ttl) => Ok(
                    Some(
                        ChangeRequestView {
                            zone_id,
                            name: s.name,
                            record_type: s.record_type,
                            ttl,
                            values: seq![observed],
                            comment: drift_comment(),
                        },
                    ),
                ),
            }
        },
    }
}

/// The listing after the provider applied the upsert `c`: each record set
/// with the change's name and type takes its time to live and its values.
pub open spec fn apply_upsert(sets: Seq<RecordSetView>, c: ChangeRequestView) -> Seq<
    RecordSetView,
> {
    sets.map_values(
        |s: RecordSetView|
            if s.name == c.name && s.record_type == c.record_type {
                RecordSetView {
                    name: s.name,
                    record_type: s.record_type,
                    ttl: Some(c.ttl),
                    values: c.values.map_values(|a: IpAddress| Some(a)),
                }
            } else {
                s
            },
    )
}

/// The listing that a second cycle sees when the address has not changed
/// since the first: the first cycle's change applied, where it made one.
pub open spec fn listing_after_cycle(
    sets: Seq<RecordSetView>,
    zone_id: Seq<char>,
    name: Seq<char>,
    observed: IpAddress,
) -> Seq<RecordSetView> {
    match cycle_outcome(sets, zone_id, name, observed) {
        Ok(Some(c)) => apply_upsert(sets, c),
        _ => sets,
    }
}

/// Reconciling twice with no change of address in between submits nothing
/// the second time: after a cycle that went through, whether it found the
/// record current or corrected it, the next cycle finds it current.
pub proof fn second_cycle_submits_nothing(
    sets: Seq<RecordSetView>,
    zone_id: Seq<char>,
    name: Seq<char>,
    observed: IpAddress,
)
    requires
        cycle_outcome(sets, zone_id, name, observed) is Ok,
    ensures
        cycle_outcome(listing_after_cycle(sets, zone_id, name, observed), zone_id, name, observed)
            == Ok::<Option<ChangeRequestView>, Route53UpdateError>(None),
{
    let t = family_of(observed);
    if let Ok(Some(c)) = cycle_outcome(sets, zone_id, name, observed) {
        let i = first_match(sets, name, t).unwrap();
        let k = choose|k: int| is_first_match(sets, name, t, k);
        assert(is_first_match(sets, name, t, k));
        assert(i == k);
        let after = apply_upsert(sets, c);
        assert(after.len() == sets.len());
        assert forall|j: int| 0 <= j < after.len() implies after[j].name == sets[j].name
            && after[j].record_type == sets[j].record_type by {}
        assert forall|j: int| 0 <= j < i implies !set_matches(#[trigger] after[j], name, t) by {
            assert(!set_matches(sets[j], name, t));
        }
        assert(set_matches(after[i], name, t));
        lemma_first_match_unique(after, name, t, i);
        assert(after[i].values =~= seq![Some(observed)]);
    }
}

/// What the reconciler is waiting for.
#[derive(Debug, Clone)]
pub enum Phase {
    /// A cycle is due once the wait asked for has elapsed.
    Idle,
    /// Waiting for the observed public address.
    Observing,
    /// Waiting for the zone listing; the observed address is kept.
    Listing(IpAddress),
    /// Waiting for the provider to accept the submitted change.
    Submitting,
    /// Waiting for the answer to a status query.
    Polling(PropagationTracker),
    /// Waiting for the poll interval to elapse before the next query.
    PollWait(PropagationTracker),
    /// Reconciliation cannot go on.
    Stopped(Route53UpdateError),
}

/// The answer to one status query.
#[derive(Debug, Clone, Copy, PartialEq, Eq, Structural)]
pub enum PollReply {
    Status(ChangeStatus),
    /// The query failed in a way that may pass; it is asked again.
    Transient,
    /// The provider does not know the change.
    UnknownChange,
}

/// What the caller learned by carrying out the last action.
#[derive(Debug, Clone)]
pub enum Event {
    /// The wait asked for is over.
    Elapsed,
    /// The observed public address, or `None` where the oracle could not be
    /// reached or its answer is no address.
    Address(Option<IpAddress>),
    /// The zone's record sets, or `None` where the listing failed.
    RecordSets(Option<Vec<RecordSet>>),
    /// The provider's identifier for the accepted change, or `None` where the
    /// submission failed.
    Submitted(Option<String>),
    Polled(PollReply),
}

/// What the caller is to do next.
#[derive(Debug, Clone)]
pub enum Action {
    ObserveAddress,
    ListRecordSets { zone_id: String, start_name: String },
    Submit(ChangeRequest),
    QueryStatus(String),
    Sleep(u64),
    /// The cycle failed; wait `secs`, then start the next one.
    RetryLater { error: Route53UpdateError, secs: u64 },
    /// Stop the process with a failure.
    Exit(Route53UpdateError),
    /// The event did not answer what the reconciler waits for: keep waiting.
    Wait,
}

/// How to reach the record and how often to look at it.
#[derive(Debug, Clone)]
pub struct ReconcilerConfig {
    pub dns_zone_id: String,
    pub domain_name: String,
    pub record_type: RecordType,
    pub interval_secs: u64,
    pub poll_secs: u64,
}

/// The reconciliation loop as a state machine: each call of `step` takes what
/// the caller learned and says what to do next.
#[derive(Debug, Clone)]
pub struct Reconciler {
    pub config: ReconcilerConfig,
    pub phase: Phase,
    /// How many changes have been submitted, saturating.
    pub submissions: u64,
}

/// The phase that follows a status query's answer.
pub open spec fn after_poll(cfg: ReconcilerConfig, t: PropagationTracker, reply: PollReply, after: Phase, act: Action) -> bool {
    match reply {
        PollReply::Status(ChangeStatus::InSync) => after is Idle && act == Action::Sleep(cfg.interval_secs),
        PollReply::Status(ChangeStatus::Pending) => match after {
            Phase::PollWait(t2) => t2.change_id == t.change_id && t2.status == ChangeStatus::Pending
                && act == Action::Sleep(cfg.poll_secs),
            _ => false,
        },
        PollReply::Transient => after == Phase::PollWait(t) && act == Action::Sleep(cfg.poll_secs),
        PollReply::UnknownChange => after is Idle && act == (Action::RetryLater {
            error: Route53UpdateError::ProviderError,
            secs: cfg.interval_secs,
        }),
    }
}

/// One transition of the reconciler: from phase `before`, on event `ev`, to
/// phase `after` with action `act`, the count of submissions going from
/// `subs` to `subs2`.
pub open spec fn is_step(
    cfg: ReconcilerConfig,
    before: Phase,
    ev: Event,
    after: Phase,
    act: Action,
    subs: u64,
    subs2: u64,
) -> bool {
    let waits = after == before && act == Action::Wait && subs2 == subs;
    let retry = |e: Route53UpdateError|
        after is Idle && act == (Action::RetryLater { error: e, secs: cfg.interval_secs }) && subs2
            == subs;
    match before {
        Phase::Stopped(e) => after == before && act == Action::Exit(e) && subs2 == subs,
        Phase::Idle => match ev {
            Event::Elapsed => after is Observing && act == Action::ObserveAddress && subs2 == subs,
            _ => waits,
        },
        Phase::Observing => match ev {
            Event::Address(Some(a)) => if family_of(a) == cfg.record_type {
                after == Phase::Listing(a) && subs2 == subs && act == (Action::ListRecordSets {
                    zone_id: cfg.dns_zone_id,
                    start_name: cfg.domain_name,
                })
            } else {
                retry(Route53UpdateError::AddressUnavailable)
            },
            Event::Address(None) => retry(Route53UpdateError::AddressUnavailable),
            _ => waits,
        },
        Phase::Listing(a) => match ev {
            Event::RecordSets(Some(sets)) => match cycle_outcome(
                listing_view(sets@),
                cfg.dns_zone_id@,
                cfg.domain_name@,
                a,
            ) {
                Err(e) => after == Phase::Stopped(e) && act == Action::Exit(e) && subs2 == subs,
                Ok(None) => after is Idle && act == Action::Sleep(cfg.interval_secs) && subs2 == subs,
                Ok(Some(cv)) => after is Submitting && subs2 == (if subs < u64::MAX {
                    subs + 1
                } else {
                    subs as int
                }) && match act {
                    Action::Submit(c) => c@ == cv,
                    _ => false,
                },
            },
            Event::RecordSets(None) => retry(Route53UpdateError::ProviderError),
            _ => waits,
        },
        Phase::Submitting => match ev {
            Event::Submitted(Some(id)) => after == Phase::Polling(
                PropagationTracker { change_id: id, queries: 0, status: ChangeStatus::Pending },
            ) && act == Action::QueryStatus(id) && subs2 == subs,
            Event::Submitted(None) => retry(Route53UpdateError::ProviderError),
            _ => waits,
        },
        Phase::Polling(t) => match ev {
            Event::Polled(reply) => after_poll(cfg, t, reply, after, act) && subs2 == subs,
            _ => waits,
        },
        Phase::PollWait(t) => match ev {
            Event::Elapsed => after == Phase::Polling(t) && act == Action::QueryStatus(t.change_id)
                && subs2 == subs,
            _ => waits,
        },
    }
}

/// Runs the decision of one cycle: `Ok(None)` where the record is current,
/// `Ok(Some(c))` with the upsert `c` where it has drifted from `observed`.
pub fn plan_cycle(
    dns_zone_id: &String,
    domain_name: &String,
    observed: IpAddress,
    sets: &Vec<RecordSet>,
) -> (r: Result<Option<ChangeRequest>, Route53UpdateError>)
    ensures
        match r {
            Err(e) => cycle_outcome(listing_view(sets@), dns_zone_id@, domain_name@, observed)
                == Err::<Option<ChangeRequestView>, Route53UpdateError>(e),
            Ok(None) => cycle_outcome(listing_view(sets@), dns_zone_id@, domain_name@, observed)
                == Ok::<Option<ChangeRequestView>, Route53UpdateError>(None),
            Ok(Some(c)) => cycle_outcome(listing_view(sets@), dns_zone_id@, domain_name@, observed)
                == Ok::<Option<ChangeRequestView>, Route53UpdateError>(Some(c@)),
        },
{
    let record_type = RecordType::for_address(observed);
    match is_addr_current(sets, domain_name, record_type, observed) {
        Err(e) => Err(e),
        Ok(d) => {
            if d.is_current {
                Ok(None)
            } else {
                match update_record(dns_zone_id, domain_name, observed, sets) {
                    Err(e) => Err(e),
                    Ok(c) => Ok(Some(c)),
                }
            }
        },
    }
}

impl Reconciler {
    /// The reconciler's invariant: a kept address is of the configured
    /// family, and a tracked change is not yet in sync.
    pub open spec fn wf(&self) -> bool {
        match self.phase {
            Phase::Listing(a) => family_of(a) == self.config.record_type,
            Phase::Polling(t) => t.status == ChangeStatus::Pending,
            Phase::PollWait(t) => t.status == ChangeStatus::Pending,
            _ => true,
        }
    }

    /// A reconciler that starts its first cycle on the first `Elapsed`.
    pub fn new(config: ReconcilerConfig) -> (r: Reconciler)
        ensures
            r.wf(),
            r.config == config,
            r.phase is Idle,
            r.submissions == 0,
    {
        Reconciler { config, phase: Phase::Idle, submissions: 0 }
    }

    fn retry_later(&mut self, error: Route53UpdateError) -> (act: Action)
        ensures
            final(self).config == old(self).config,
            final(self).submissions == old(self).submissions,
            final(self).phase is Idle,
            act == (Action::RetryLater { error, secs: old(self).config.interval_secs }),
    {
        self.phase = Phase::Idle;
        Action::RetryLater { error, secs: self.config.interval_secs }
    }

    /// Takes what the caller learned by carrying out the last action, and
    /// says what to do next.
    pub fn step(&mut self, ev: Event) -> (act: Action)
        requires
            old(self).wf(),
        ensures
            final(self).wf(),
            final(self).config == old(self).config,
            is_step(
                old(self).config,
                old(self).phase,
                ev,
                final(self).phase,
                act,
                old(self).submissions,
                final(self).submissions,
            ),
    {
        let mut before = Phase::Idle;
        std::mem::swap(&mut self.phase, &mut before);
        match before {
            Phase::Stopped(e) => {
                self.phase = Phase::Stopped(e);
                Action::Exit(e)
            },
            Phase::Idle => match ev {
                Event::Elapsed => {
                    self.phase = Phase::Observing;
                    Action::ObserveAddress
                },
                _ => {
                    self.phase = Phase::Idle;
                    Action::Wait
                },
            },
            Phase::Observing => match ev {
                Event::Address(Some(a)) => {
                    if RecordType::for_address(a) == self.config.record_type {
                        self.phase = Phase::Listing(a);
                        Action::ListRecordSets {
                            zone_id: self.config.dns_zone_id.clone(),
                            start_name: self.config.domain_name.clone(),
                        }
                    } else {
                        self.retry_later(Route53UpdateError::AddressUnavailable)
                    }
                },
                Event::Address(None) => self.retry_later(Route53UpdateError::AddressUnavailable),
                _ => {
                    self.phase = Phase::Observing;
                    Action::Wait
                },
            },
            Phase::Listing(a) => match ev {
                Event::RecordSets(Some(sets)) => {
                    match plan_cycle(&self.config.dns_zone_id, &self.config.domain_name, a, &sets) {
                        Err(e) => {
                            self.phase = Phase::Stopped(e);
                            Action::Exit(e)
                        },
                        Ok(None) => {
                            self.phase = Phase::Idle;
                            Action::Sleep(self.config.interval_secs)
                        },
                        Ok(Some(c)) => {
                            self.phase = Phase::Submitting;
                            self.submissions = self.submissions.saturating_add(1);
                            Action::Submit(c)
                        },
                    }
                },
                Event::RecordSets(None) => self.retry_later(Route53UpdateError::ProviderError),
                _ => {
                    self.phase = Phase::Listing(a);
                    Action::Wait
                },
            },
            Phase::Submitting => match ev {
                Event::Submitted(Some(id)) => {
                    let query = Action::QueryStatus(id.clone());
                    self.phase = Phase::Polling(PropagationTracker::new(id));
                    query
                },
                Event::Submitted(None) => self.retry_later(Route53UpdateError::ProviderError),
                _ => {
                    self.phase = Phase::Submitting;
                    Action::Wait
                },
            },
            Phase::Polling(t) => match ev {
                Event::Polled(reply) => self.after_poll(t, reply),
                _ => {
                    self.phase = Phase::Polling(t);
                    Action::Wait
                },
            },
            Phase::PollWait(t) => match ev {
                Event::Elapsed => {
                    let query = Action::QueryStatus(t.change_id.clone());
                    self.phase = Phase::Polling(t);
                    query
                },
                _ => {
                    self.phase = Phase::PollWait(t);
                    Action::Wait
                },
            },
        }
    }

    fn after_poll(&mut self, t: PropagationTracker, reply: PollReply) -> (act: Action)
        requires
            t.status == ChangeStatus::Pending,
        ensures
            final(self).wf(),
            final(self).config == old(self).config,
            final(self).submissions == old(self).submissions,
            after_poll(old(self).config, t, reply, final(self).phase, act),
    {
        match reply {
            PollReply::Status(status) => {
                let mut t = t;
                if t.record_status(status) {
                    self.phase = Phase::Idle;
                    Action::Sleep(self.config.interval_secs)
                } else {
                    self.phase = Phase::PollWait(t);
                    Action::Sleep(self.config.poll_secs)
                }
            },
            PollReply::Transient => {
                self.phase = Phase::PollWait(t);
                Action::Sleep(self.config.poll_secs)
            },
            PollReply::UnknownChange => self.retry_later(Route53UpdateError::ProviderError),
        }
    }
}

} // verus!
