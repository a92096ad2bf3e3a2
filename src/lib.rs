//! Dynamic DNS reconciliation: keeps one address record of a hosted zone in
//! step with the public address that the host is observed to have.
//!
//! The library is the decision logic. Talking to the address oracle and to the
//! record provider is left to the caller, which feeds what it learned back in
//! as plain values.

mod model;
mod drift;
mod change;
mod propagation;
mod reconcile;

pub use model::{
    family_of, is_fatal_error, listing_view, record_type_text, ChangeStatus, IpAddress, RecordSet,
    RecordSetView, RecordType, Route53UpdateError,
};
pub use drift::{
    drift_current_iff_equal, drift_of, first_match, get_single_record_set, is_addr_current,
    is_current, is_first_match, no_match_means_no_record, set_matches, DriftResult,
};
pub use change::{
    drift_comment, is_upsert_of, submit_single_change_request, update_record, ChangeRequest,
    ChangeRequestView,
};
pub use propagation::{queries_until_in_sync, reaches_in_sync, PropagationTracker};
pub use reconcile::{
    after_poll, apply_upsert, cycle_outcome, is_step, listing_after_cycle, plan_cycle,
    second_cycle_submits_nothing, Action, Event, Phase, PollReply, Reconciler, ReconcilerConfig,
};
