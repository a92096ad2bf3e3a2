use vstd::prelude::*;
use crate::drift::{first_match, get_single_record_set, lemma_first_match_unique};
use crate::model::{
    family_of, listing_view, IpAddress, RecordSet, RecordSetView, RecordType, Route53UpdateError,
};

verus! {

/// The comment that goes with every corrective change.
pub open spec fn drift_comment() -> Seq<char> {
    "ISP provided dynamic IP has drifted."@
}

/// A single-change batch that upserts one record set of a zone.
///
/// The record set keeps the name, type and time to live of the one it
/// replaces; its values are replaced wholly by the one new address, so a
/// record that held several addresses holds one afterwards.
#[derive(Debug, Clone)]
pub struct ChangeRequest {
    pub zone_id: String,
    pub name: String,
    pub record_type: String,
    pub ttl: u64,
    pub values: Vec<IpAddress>,
    pub comment: String,
}

/// The mathematical model of a change request.
pub struct ChangeRequestView {
    pub zone_id: Seq<char>,
    pub name: Seq<char>,
    pub record_type: Seq<char>,
    pub ttl: u64,
    pub values: Seq<IpAddress>,
    pub comment: Seq<char>,
}

impl View for ChangeRequest {
    type V = ChangeRequestView;

    open spec fn view(&self) -> ChangeRequestView {
        ChangeRequestView {
            zone_id: self.zone_id@,
            name: self.name@,
            record_type: self.record_type@,
            ttl: self.ttl,
            values: self.values@,
            comment: self.comment@,
        }
    }
}

/// Whether `c` is the upsert that puts `addr` into `matched` in zone `zone_id`.
pub open spec fn is_upsert_of(
    c: ChangeRequestView,
    zone_id: Seq<char>,
    matched: RecordSetView,
    addr: IpAddress,
) -> bool {
    &&& matched.ttl == Some(c.ttl)
    &&& c.zone_id == zone_id
    &&& c.name == matched.name
    &&& c.record_type == matched.record_type
    &&& c.values == seq![addr]
    &&& c.comment == drift_comment()
}

/// Builds the upsert that replaces the values of `matched` by `[public_ip]`.
/// Fails with `MalformedRecord` where `matched` has no time to live.
pub fn submit_single_change_request(
    matched: &RecordSet,
    public_ip: IpAddress,
    dns_zone_id: &String,
) -> (r: Result<ChangeRequest, Route53UpdateError>)
    ensures
        match r {
            Err(e) => e == Route53UpdateError::MalformedRecord && matched.ttl is None,
            Ok(c) => is_upsert_of(c@, dns_zone_id@, matched@, public_ip),
        },
{
    match matched.ttl {
        None => Err(Route53UpdateError::MalformedRecord),
        Some(ttl) => {
            let mut values: Vec<IpAddress> = Vec::new();
            values.push(public_ip);
            proof {
                reveal_strlit("ISP provided dynamic IP has drifted.");
            }
            Ok(
                ChangeRequest {
                    zone_id: dns_zone_id.clone(),
                    name: matched.name.clone(),
                    record_type: matched.record_type.clone(),
                    ttl,
                    values,
                    comment: String::from_str("ISP provided dynamic IP has drifted."),
                },
            )
        },
    }
}

/// Builds the upsert that points the record set of `domain_name`, of the type
/// of `public_ip`'s family, at `public_ip`. Fails with `NoRecordAvailable`
/// where the listing holds no such record set, and with `MalformedRecord`
/// where the matched one has no time to live.
pub fn update_record(
    dns_zone_id: &String,
    domain_name: &String,
    public_ip: IpAddress,
    sets: &Vec<RecordSet>,
) -> (r: Result<ChangeRequest, Route53UpdateError>)
    ensures
        ({
            let view = listing_view(sets@);
            match first_match(view, domain_name@, family_of(public_ip)) {
                None => r == Err::<ChangeRequest, Route53UpdateError>(
                    Route53UpdateError::NoRecordAvailable,
                ),
                Some(i) => match r {
                    Err(e) => e == Route53UpdateError::MalformedRecord && view[i].ttl is None,
                    Ok(c) => is_upsert_of(c@, dns_zone_id@, view[i], public_ip),
                },
            }
        }),
{
    let record_type = RecordType::for_address(public_ip);
    match get_single_record_set(sets, domain_name, record_type) {
        None => Err(Route53UpdateError::NoRecordAvailable),
        Some(i) => {
            proof {
                lemma_first_match_unique(listing_view(sets@), domain_name@, record_type, i as int);
            }
            assert(sets@[i as int]@ == listing_view(sets@)[i as int]);
            submit_single_change_request(&sets[i], public_ip, dns_zone_id)
        },
    }
}

} // verus!
