use vstd::prelude::*;
use crate::model::{
    family_of, listing_view, record_type_text, IpAddress, RecordSet, RecordSetView, RecordType,
    Route53UpdateError,
};

verus! {

/// How a published address compares with the observed one.
#[derive(Debug, Clone, Copy, PartialEq, Eq, Structural)]
pub struct DriftResult {
    pub is_current: bool,
    pub record_address: Option<IpAddress>,
    pub observed_address: IpAddress,
}

/// Whether a record set is the one kept for `name` and `t`.
pub open spec fn set_matches(s: RecordSetView, name: Seq<char>, t: RecordType) -> bool {
    s.name == name && s.record_type == record_type_text(t)
}

/// Whether index `i` holds the first record set of the listing that matches.
pub open spec fn is_first_match(
    sets: Seq<RecordSetView>,
    name: Seq<char>,
    t: RecordType,
    i: int,
) -> bool {
    &&& 0 <= i < sets.len()
    &&& set_matches(sets[i], name, t)
    &&& forall|j: int| 0 <= j < i ==> !set_matches(#[trigger] sets[j], name, t)
}

/// The index of the first record set that matches, in the listing's order.
pub open spec fn first_match(sets: Seq<RecordSetView>, name: Seq<char>, t: RecordType) -> Option<
    int,
> {
    if exists|i: int| is_first_match(sets, name, t, i) {
        Some(choose|i: int| is_first_match(sets, name, t, i))
    } else {
        None
    }
}

/// What the drift check reports for a listing and an observed address.
pub open spec fn drift_of(
    sets: Seq<RecordSetView>,
    name: Seq<char>,
    t: RecordType,
    observed: IpAddress,
) -> Result<DriftResult, Route53UpdateError> {
    match first_match(sets, name, t) {
        None => Err(Route53UpdateError::NoRecordAvailable),
        Some(i) => {
            let values = sets[i].values;
            if values.len() == 0 {
                Err(Route53UpdateError::MalformedRecord)
            } else {
                match values[0] {
                    Some(a) => if family_of(a) == t {
                        Ok(
                            DriftResult {
                                is_current: a == observed,
                                record_address: Some(a),
                                observed_address: observed,
                            },
                        )
                    } else {
                        Err(Route53UpdateError::MalformedRecord)
                    },
                    None => Err(Route53UpdateError::MalformedRecord),
                }
            }
        },
    }
}

pub(crate) proof fn lemma_first_match_unique(sets: Seq<RecordSetView>, name: Seq<char>, t: RecordType, i: int)
    requires
        is_first_match(sets, name, t, i),
    ensures
        first_match(sets, name, t) == Some(i),
{
    let k = choose|k: int| is_first_match(sets, name, t, k);
    assert(is_first_match(sets, name, t, k));
    if k < i {
        assert(!set_matches(sets[k], name, t));
    } else if i < k {
        assert(!set_matches(sets[i], name, t));
    }
}

/// A published address is current when it is the observed one, bit for bit.
pub fn is_current(recorded: IpAddress, observed: IpAddress) -> (r: bool)
    ensures
        r == (recorded == observed),
{
    recorded == observed
}

/// Finds the record set kept for `domain_name` and `record_type`: the first
/// of the listing, in the provider's order, whose name and type both match.
pub fn get_single_record_set(
    sets: &Vec<RecordSet>,
    domain_name: &String,
    record_type: RecordType,
) -> (r: Option<usize>)
    ensures
        r == (match first_match(listing_view(sets@), domain_name@, record_type) {
            Some(i) => Some(i as usize),
            None => None::<usize>,
        }),
        r matches Some(i) ==> is_first_match(listing_view(sets@), domain_name@, record_type, i as int),
{
    let wanted_type = record_type.to_string();
    let ghost view = listing_view(sets@);
    let mut i: usize = 0;
    while i < sets.len()
        invariant
            i <= sets.len(),
            view == listing_view(sets@),
            wanted_type@ == record_type_text(record_type),
            forall|j: int| 0 <= j < i ==> !set_matches(#[trigger] view[j], domain_name@, record_type),
        decreases sets.len() - i,
    {
        let s = &sets[i];
        if s.name == *domain_name && s.record_type == wanted_type {
            assert(set_matches(view[i as int], domain_name@, record_type));
            proof {
                lemma_first_match_unique(view, domain_name@, record_type, i as int);
            }
            return Some(i);
        }
        assert(!set_matches(view[i as int], domain_name@, record_type));
        i = i + 1;
    }
    assert forall|k: int| !is_first_match(view, domain_name@, record_type, k) by {
        if 0 <= k < view.len() {
            assert(!set_matches(view[k], domain_name@, record_type));
        }
    }
    None
}

/// Compares the address that the zone publishes for `domain_name` and
/// `record_type` with the observed one. The published address is the first
/// value of the first matching record set, and must be of the record type's
/// family.
pub fn is_addr_current(
    sets: &Vec<RecordSet>,
    domain_name: &String,
    record_type: RecordType,
    observed: IpAddress,
) -> (r: Result<DriftResult, Route53UpdateError>)
    ensures
        r == drift_of(listing_view(sets@), domain_name@, record_type, observed),
{
    match get_single_record_set(sets, domain_name, record_type) {
        None => Err(Route53UpdateError::NoRecordAvailable),
        Some(i) => {
            let values = &sets[i].values;
            proof {
                lemma_first_match_unique(listing_view(sets@), domain_name@, record_type, i as int);
            }
            assert(values@ == listing_view(sets@)[i as int].values);
            if values.len() == 0 {
                Err(Route53UpdateError::MalformedRecord)
            } else {
                match values[0] {
                    Some(a) => {
                        if RecordType::for_address(a) == record_type {
                            Ok(
                                DriftResult {
                                    is_current: is_current(a, observed),
                                    record_address: Some(a),
                                    observed_address: observed,
                                },
                            )
                        } else {
                            Err(Route53UpdateError::MalformedRecord)
                        }
                    },
                    None => Err(Route53UpdateError::MalformedRecord),
                }
            }
        },
    }
}

/// A drift check reports the published address as current exactly when it
/// equals the observed address, bit for bit.
pub proof fn drift_current_iff_equal(
    sets: Seq<RecordSetView>,
    name: Seq<char>,
    t: RecordType,
    observed: IpAddress,
)
    ensures
        drift_of(sets, name, t, observed) matches Ok(d) ==> (d.is_current <==> d.record_address
            == Some(observed)),
{
}

/// A listing in which no record set has both the wanted name and type makes
/// the drift check fail with `NoRecordAvailable`, whatever the name and type.
pub proof fn no_match_means_no_record(
    sets: Seq<RecordSetView>,
    name: Seq<char>,
    t: RecordType,
    observed: IpAddress,
)
    requires
        forall|i: int| 0 <= i < sets.len() ==> !set_matches(#[trigger] sets[i], name, t),
    ensures
        drift_of(sets, name, t, observed) == Err::<DriftResult, Route53UpdateError>(
            Route53UpdateError::NoRecordAvailable,
        ),
{
    assert forall|k: int| !is_first_match(sets, name, t, k) by {
        if 0 <= k < sets.len() {
            assert(!set_matches(sets[k], name, t));
        }
    }
}

} // verus!
