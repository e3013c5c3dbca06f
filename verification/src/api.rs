//! Data model of the provider API: the current-address lookup result, the
//! provider's response envelope for record listings, and the body of a
//! record-update request.
use vstd::prelude::*;

verus! {

/// One address-discovery response: a single string holding the address.
pub struct CurrentIP {
    /// The current IP address.
    pub ip: String,
}

/// The pair of addresses resolved at the start of a cycle.  Either side may
/// be absent when its lookup failed; the other side is still usable.
pub struct IPAddresses {
    /// The fetched IPv4 address.
    pub ipv4: Option<String>,
    /// The fetched IPv6 address.
    pub ipv6: Option<String>,
}

/// The provider's response envelope for a record-listing request.
#[derive(Debug)]
pub struct CloudFlareResult {
    /// The records returned, absent when the provider sent none.
    pub result: Option<Vec<DNSRecordResult>>,
    /// Whether the provider reports the request as successful.
    pub success: bool,
    /// The provider's error payload, if any.
    pub errors: Option<Vec<CloudFlareError>>,
}

/// One entry of the provider's error payload.
#[derive(Debug)]
pub struct CloudFlareError {
    /// The provider's numeric error code.
    pub code: u32,
    /// The provider's error message.
    pub message: String,
}

/// One DNS record as the provider reports it.
#[derive(Debug)]
pub struct DNSRecordResult {
    /// The record's identifier at the provider.
    pub id: String,
    /// The record's name.
    pub name: String,
    /// The record's current address content.
    pub content: String,
    /// Whether the provider forbids modifying this record.
    pub locked: bool,
    /// Whether the record is proxied.
    pub proxied: bool,
    /// The record's time-to-live.
    pub ttl: u32,
    /// The identifier of the zone the record belongs to.
    pub zone_id: String,
    /// When the record was last modified, as the provider reports it.
    pub modified_on: String,
}

/// The body of a record-update request.
#[derive(Debug)]
pub struct UpdateRecord {
    /// The record type label, `"A"` or `"AAAA"`.
    pub record_type: String,
    /// The record's name.
    pub name: String,
    /// The new address content.
    pub content: String,
    /// The record's time-to-live, carried over unchanged.
    pub ttl: u32,
    /// The record's proxy flag, carried over unchanged.
    pub proxied: bool,
}

/// Mathematical model of an address pair.
#[verifier::ext_equal]
pub ghost struct PairModel {
    pub ipv4: Option<Seq<char>>,
    pub ipv6: Option<Seq<char>>,
}

/// Mathematical model of a DNS record.
#[verifier::ext_equal]
pub ghost struct RecordModel {
    pub id: Seq<char>,
    pub name: Seq<char>,
    pub content: Seq<char>,
    pub locked: bool,
    pub proxied: bool,
    pub ttl: u32,
    pub zone_id: Seq<char>,
    pub modified_on: Seq<char>,
}

/// Mathematical model of one provider error entry.
#[verifier::ext_equal]
pub ghost struct ErrorModel {
    pub code: u32,
    pub message: Seq<char>,
}

/// Mathematical model of the response envelope.
#[verifier::ext_equal]
pub ghost struct EnvelopeModel {
    pub result: Option<Seq<RecordModel>>,
    pub success: bool,
    pub errors: Option<Seq<ErrorModel>>,
}

/// Mathematical model of an update-request body.
#[verifier::ext_equal]
pub ghost struct UpdateModel {
    pub record_type: Seq<char>,
    pub name: Seq<char>,
    pub content: Seq<char>,
    pub ttl: u32,
    pub proxied: bool,
}

impl View for IPAddresses {
    type V = PairModel;

    open spec fn view(&self) -> PairModel {
        PairModel {
            ipv4: match self.ipv4 {
                Some(a) => Some(a@),
                None => None,
            },
            ipv6: match self.ipv6 {
                Some(a) => Some(a@),
                None => None,
            },
        }
    }
}

impl View for DNSRecordResult {
    type V = RecordModel;

    open spec fn view(&self) -> RecordModel {
        RecordModel {
            id: self.id@,
            name: self.name@,
            content: self.content@,
            locked: self.locked,
            proxied: self.proxied,
            ttl: self.ttl,
            zone_id: self.zone_id@,
            modified_on: self.modified_on@,
        }
    }
}

impl View for CloudFlareError {
    type V = ErrorModel;

    open spec fn view(&self) -> ErrorModel {
        ErrorModel { code: self.code, message: self.message@ }
    }
}

impl View for CloudFlareResult {
    type V = EnvelopeModel;

    open spec fn view(&self) -> EnvelopeModel {
        EnvelopeModel {
            result: match self.result {
                Some(v) => Some(v@.map_values(|r: DNSRecordResult| r@)),
                None => None,
            },
            success: self.success,
            errors: match self.errors {
                Some(v) => Some(v@.map_values(|e: CloudFlareError| e@)),
                None => None,
            },
        }
    }
}

impl View for UpdateRecord {
    type V = UpdateModel;

    open spec fn view(&self) -> UpdateModel {
        UpdateModel {
            record_type: self.record_type@,
            name: self.name@,
            content: self.content@,
            ttl: self.ttl,
            proxied: self.proxied,
        }
    }
}

impl Clone for CloudFlareError {
    fn clone(&self) -> (r: Self)
        ensures
            r == *self,
    {
        CloudFlareError { code: self.code, message: self.message.clone() }
    }
}

impl Clone for DNSRecordResult {
    fn clone(&self) -> (r: Self)
        ensures
            r == *self,
    {
        DNSRecordResult {
            id: self.id.clone(),
            name: self.name.clone(),
            content: self.content.clone(),
            locked: self.locked,
            proxied: self.proxied,
            ttl: self.ttl,
            zone_id: self.zone_id.clone(),
            modified_on: self.modified_on.clone(),
        }
    }
}

impl IPAddresses {
    /// Combines the two independent address lookups into one pair.  A lookup
    /// that failed contributes an absent side; the other side is kept, so one
    /// failure never hides the other family's address.
    pub fn from_lookups(ipv4: Option<CurrentIP>, ipv6: Option<CurrentIP>) -> (r: IPAddresses)
        ensures
            r@.ipv4 == (match ipv4 {
                Some(c) => Some(c.ip@),
                None => None::<Seq<char>>,
            }),
            r@.ipv6 == (match ipv6 {
                Some(c) => Some(c.ip@),
                None => None::<Seq<char>>,
            }),
    {
        IPAddresses {
            ipv4: match ipv4 {
                Some(c) => Some(c.ip),
                None => None,
            },
            ipv6: match ipv6 {
                Some(c) => Some(c.ip),
                None => None,
            },
        }
    }
}

} // verus!
