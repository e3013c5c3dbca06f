//! Validation of the provider's record-listing response: checking the
//! success/error envelope and keeping only the configured record names.
use vstd::prelude::*;

use crate::api::CloudFlareError;
use crate::api::CloudFlareResult;
use crate::api::DNSRecordResult;
use crate::api::EnvelopeModel;
use crate::api::ErrorModel;
use crate::api::RecordModel;
use crate::config_loader::name_views;

verus! {

/// Why a provider operation failed.
#[derive(Debug)]
pub enum ApiError {
    /// The endpoint could not be reached at all.
    Transport(String),
    /// The endpoint answered, but not in the expected shape.
    Protocol(String),
    /// The endpoint answered and reported a business-level failure.
    Provider(Vec<CloudFlareError>),
}

/// Mathematical model of a failure.
#[verifier::ext_equal]
pub ghost enum ApiErrorModel {
    Transport(Seq<char>),
    Protocol(Seq<char>),
    Provider(Seq<ErrorModel>),
}

/// The views of a list of error entries.
pub open spec fn error_views(errors: Seq<CloudFlareError>) -> Seq<ErrorModel> {
    errors.map_values(|e: CloudFlareError| e@)
}

/// The views of a list of records.
pub open spec fn record_views(records: Seq<DNSRecordResult>) -> Seq<RecordModel> {
    records.map_values(|r: DNSRecordResult| r@)
}

impl View for ApiError {
    type V = ApiErrorModel;

    open spec fn view(&self) -> ApiErrorModel {
        match self {
            ApiError::Transport(m) => ApiErrorModel::Transport(m@),
            ApiError::Protocol(m) => ApiErrorModel::Protocol(m@),
            ApiError::Provider(v) => ApiErrorModel::Provider(error_views(v@)),
        }
    }
}

impl Clone for ApiError {
    fn clone(&self) -> (r: Self)
        ensures
            r@ == self@,
    {
        match self {
            ApiError::Transport(m) => ApiError::Transport(m.clone()),
            ApiError::Protocol(m) => ApiError::Protocol(m.clone()),
            ApiError::Provider(v) => ApiError::Provider(clone_errors(v)),
        }
    }
}

/// Copies a provider error payload entry by entry.
pub(crate) fn clone_errors(errors: &Vec<CloudFlareError>) -> (r: Vec<CloudFlareError>)
    ensures
        r@ == errors@,
{
    let mut out: Vec<CloudFlareError> = Vec::new();
    let mut i: usize = 0;
    while i < errors.len()
        invariant
            i <= errors@.len(),
            out@ == errors@.take(i as int),
        decreases errors@.len() - i,
    {
        out.push(errors[i].clone());
        proof {
            assert(out@ =~= errors@.take(i + 1));
        }
        i = i + 1;
    }
    proof {
        assert(errors@.take(errors@.len() as int) =~= errors@);
    }
    out
}

/// Whether a record name occurs in a configured name list.
pub open spec fn name_listed(names: Seq<Seq<char>>, name: Seq<char>) -> bool {
    exists|i: int| 0 <= i < names.len() && names[i] == name
}

/// The fetched records whose names are configured, in the provider's order.
pub open spec fn selected_records(names: Seq<Seq<char>>, records: Seq<RecordModel>) -> Seq<
    RecordModel,
>
    decreases records.len(),
{
    if records.len() == 0 {
        Seq::empty()
    } else {
        let rest = selected_records(names, records.drop_last());
        if name_listed(names, records.last().name) {
            rest.push(records.last())
        } else {
            rest
        }
    }
}

/// The error payload an unsuccessful envelope carries: the provider's error
/// list, or nothing when the provider sent none.
pub open spec fn provider_errors(envelope: EnvelopeModel) -> Seq<ErrorModel> {
    match envelope.errors {
        Some(e) => e,
        None => Seq::empty(),
    }
}

/// What validating an envelope yields: the configured records on success, a
/// provider failure carrying the provider's payload when the success flag is
/// down, and a protocol failure when a successful envelope carries no record
/// list at all.
pub open spec fn spec_fetch_outcome(envelope: EnvelopeModel, names: Seq<Seq<char>>) -> Result<
    Seq<RecordModel>,
    ApiErrorModel,
> {
    if !envelope.success {
        Err(ApiErrorModel::Provider(provider_errors(envelope)))
    } else {
        match envelope.result {
            Some(records) => Ok(selected_records(names, records)),
            None => Err(ApiErrorModel::Protocol("No records found!"@)),
        }
    }
}

/// The model of a validation result.
pub open spec fn fetch_result_views(r: Result<Vec<DNSRecordResult>, ApiError>) -> Result<
    Seq<RecordModel>,
    ApiErrorModel,
> {
    match r {
        Ok(v) => Ok(record_views(v@)),
        Err(e) => Err(e@),
    }
}

/// Whether a name occurs in the configured list.
pub fn name_list_contains(names: &Vec<String>, name: &String) -> (r: bool)
    ensures
        r == name_listed(name_views(names@), name@),
{
    let mut i: usize = 0;
    while i < names.len()
        invariant
            i <= names@.len(),
            forall|k: int| 0 <= k < i ==> name_views(names@)[k] != name@,
        decreases names@.len() - i,
    {
        if names[i] == *name {
            assert(name_views(names@)[i as int] == name@);
            return true;
        }
        i = i + 1;
    }
    false
}

/// Validates a record-listing envelope and keeps the configured records.
///
/// When the provider reports failure, the result carries the provider's
/// error payload; when a successful envelope carries no record list, the
/// response is malformed and a protocol failure is returned; otherwise the
/// fetched records whose names are configured are returned in the
/// provider's order.
pub fn process_fetch_response(envelope: &CloudFlareResult, names: &Vec<String>) -> (r: Result<
    Vec<DNSRecordResult>,
    ApiError,
>)
    ensures
        fetch_result_views(r) == spec_fetch_outcome(envelope@, name_views(names@)),
{
    if !envelope.success {
        let errs: Vec<CloudFlareError> = match &envelope.errors {
            Some(v) => clone_errors(v),
            None => Vec::new(),
        };
        proof {
            assert(error_views(errs@) =~= provider_errors(envelope@));
        }
        Err(ApiError::Provider(errs))
    } else {
        match &envelope.result {
            None => Err(ApiError::Protocol(String::from_str("No records found!"))),
            Some(records) => {
                let mut out: Vec<DNSRecordResult> = Vec::new();
                let mut i: usize = 0;
                while i < records.len()
                    invariant
                        i <= records@.len(),
                        record_views(out@) == selected_records(
                            name_views(names@),
                            record_views(records@).take(i as int),
                        ),
                    decreases records@.len() - i,
                {
                    let ghost taken = record_views(records@).take(i + 1);
                    proof {
                        assert(taken.drop_last() =~= record_views(records@).take(i as int));
                        assert(taken.last() == records@[i as int]@);
                    }
                    if name_list_contains(names, &records[i].name) {
                        out.push(records[i].clone());
                        proof {
                            assert(record_views(out@) =~= selected_records(
                                name_views(names@),
                                taken,
                            ));
                        }
                    } else {
                        proof {
                            assert(record_views(out@) =~= selected_records(
                                name_views(names@),
                                taken,
                            ));
                        }
                    }
                    i = i + 1;
                }
                proof {
                    assert(record_views(records@).take(records@.len() as int) =~= record_views(
                        records@,
                    ));
                }
                Ok(out)
            },
        }
    }
}

} // verus!
