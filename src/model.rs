use vstd::prelude::*;

verus! {

/// The record type of an address record.
#[derive(Debug, Clone, Copy, PartialEq, Eq, Structural)]
pub enum RecordType {
    A,
    AAAA,
}

/// An IP address, as the number that its bits spell.
#[derive(Debug, Clone, Copy, PartialEq, Eq, Structural)]
pub enum IpAddress {
    V4(u32),
    V6(u128),
}

/// The text of a record type, as the provider spells it.
pub open spec fn record_type_text(t: RecordType) -> Seq<char> {
    match t {
        RecordType::A => seq!['A'],
        RecordType::AAAA => seq!['A', 'A', 'A', 'A'],
    }
}

/// The record type that holds addresses of the family of `a`.
pub open spec fn family_of(a: IpAddress) -> RecordType {
    match a {
        IpAddress::V4(_) => RecordType::A,
        IpAddress::V6(_) => RecordType::AAAA,
    }
}

impl RecordType {
    /// The record type for addresses of the family of `addr`.
    pub fn for_address(addr: IpAddress) -> (r: RecordType)
        ensures
            r == family_of(addr),
    {
        match addr {
            IpAddress::V4(_) => RecordType::A,
            IpAddress::V6(_) => RecordType::AAAA,
        }
    }

    /// The record type's name: `"A"` or `"AAAA"`.
    pub fn to_string(&self) -> (r: String)
        ensures
            r@ == record_type_text(*self),
    {
        match self {
            RecordType::A => {
                proof {
                    reveal_strlit("A");
                }
                String::from_str("A")
            },
            RecordType::AAAA => {
                proof {
                    reveal_strlit("AAAA");
                }
                String::from_str("AAAA")
            },
        }
    }
}

/// What can stop a reconciliation cycle.
#[derive(Debug, Clone, Copy, PartialEq, Eq, Structural)]
pub enum Route53UpdateError {
    /// The zone holds no record set of the wanted name and type.
    NoRecordAvailable,
    /// The matched record set holds no address of the wanted family first,
    /// or lacks a time to live.
    MalformedRecord,
    /// The public address could not be observed, or is of the wrong family.
    AddressUnavailable,
    /// The record provider failed a listing, a submission or a status query.
    ProviderError,
}

impl Route53UpdateError {
    /// Whether the error ends the process rather than the current cycle.
    pub fn is_fatal(&self) -> (r: bool)
        ensures
            r == is_fatal_error(*self),
    {
        match self {
            Route53UpdateError::NoRecordAvailable => true,
            Route53UpdateError::MalformedRecord => true,
            _ => false,
        }
    }
}

/// A misconfigured zone or record cannot be reconciled by retrying.
pub open spec fn is_fatal_error(e: Route53UpdateError) -> bool {
    e == Route53UpdateError::NoRecordAvailable || e == Route53UpdateError::MalformedRecord
}

/// One record set of a zone listing, as the provider returned it.
#[derive(Debug, Clone)]
pub struct RecordSet {
    pub name: String,
    /// The provider's name of the record type (`A`, `AAAA`, `CNAME`, ...).
    pub record_type: String,
    /// Time to live in seconds, where the provider gave one.
    pub ttl: Option<u64>,
    /// The values in the provider's order, each as the address it spells, or
    /// `None` where it spells none.
    pub values: Vec<Option<IpAddress>>,
}

/// The mathematical model of a record set.
pub struct RecordSetView {
    pub name: Seq<char>,
    pub record_type: Seq<char>,
    pub ttl: Option<u64>,
    pub values: Seq<Option<IpAddress>>,
}

impl View for RecordSet {
    type V = RecordSetView;

    open spec fn view(&self) -> RecordSetView {
        RecordSetView {
            name: self.name@,
            record_type: self.record_type@,
            ttl: self.ttl,
            values: self.values@,
        }
    }
}

/// The models of a listing's record sets, in order.
pub open spec fn listing_view(sets: Seq<RecordSet>) -> Seq<RecordSetView> {
    sets.map_values(|s: RecordSet| s@)
}

/// The status that the provider reports of a submitted change.
#[derive(Debug, Clone, Copy, PartialEq, Eq, Structural)]
pub enum ChangeStatus {
    Pending,
    InSync,
}

} // verus!
