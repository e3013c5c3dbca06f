//! The reconciler: given the addresses resolved at the start of a cycle and
//! the provider's answer for every configured zone, it plans which records to
//! update.  A record is updated exactly when it exists at the provider, is
//! not locked, and carries an address other than the current one; the new
//! request body carries the record's TTL and proxy flag over unchanged.
//!
//! The plan for a cycle is a pure function of the cycle's inputs: no update
//! outcome feeds back into it, so a failed update can never change what is
//! planned for any other record, and a failed fetch for one zone can never
//! change what is planned for any other zone.
use vstd::prelude::*;

use crate::api::CloudFlareResult;
use crate::api::DNSRecordResult;
use crate::api::EnvelopeModel;
use crate::api::IPAddresses;
use crate::api::PairModel;
use crate::api::RecordModel;
use crate::api::UpdateModel;
use crate::api::UpdateRecord;
use crate::config_loader::Config;
use crate::config_loader::ConfigModel;
use crate::config_loader::Zone;
use crate::config_loader::ZoneModel;
use crate::config_loader::name_views;
use crate::fetch::ApiError;
use crate::fetch::ApiErrorModel;
use crate::fetch::process_fetch_response;
use crate::fetch::record_views;
use crate::fetch::spec_fetch_outcome;

verus! {

/// The address family of a record, determining its provider type label.
#[derive(Clone, Copy, PartialEq, Eq, Structural)]
pub enum RecordType {
    /// An IPv4 record.
    A,
    /// An IPv6 record.
    AAAA,
}

impl RecordType {
    /// The provider's label for this record type.
    pub open spec fn label(self) -> Seq<char> {
        match self {
            RecordType::A => "A"@,
            RecordType::AAAA => "AAAA"@,
        }
    }

    /// The provider's label for this record type, as a string.
    pub fn label_string(self) -> (r: String)
        ensures
            r@ == self.label(),
    {
        match self {
            RecordType::A => String::from_str("A"),
            RecordType::AAAA => String::from_str("AAAA"),
        }
    }
}

/// What the reconciler decides for one configured record name.
pub enum RecordAction {
    /// The provider knows no record of this name; there is nothing to update.
    Missing,
    /// The record exists but is locked; it must not be touched.
    Locked,
    /// The record already carries the current address; no write is needed.
    UpToDate,
    /// The record is stale: issue one update request for it.
    Update {
        /// The provider's identifier of the record to update.
        record_id: String,
        /// The identifier of the zone the record belongs to.
        zone_id: String,
        /// The body of the update request.
        body: UpdateRecord,
    },
}

/// Mathematical model of a per-record decision.
#[verifier::ext_equal]
pub ghost enum ActionModel {
    Missing,
    Locked,
    UpToDate,
    Update { record_id: Seq<char>, zone_id: Seq<char>, body: UpdateModel },
}

impl View for RecordAction {
    type V = ActionModel;

    open spec fn view(&self) -> ActionModel {
        match self {
            RecordAction::Missing => ActionModel::Missing,
            RecordAction::Locked => ActionModel::Locked,
            RecordAction::UpToDate => ActionModel::UpToDate,
            RecordAction::Update { record_id, zone_id, body } => ActionModel::Update {
                record_id: record_id@,
                zone_id: zone_id@,
                body: body@,
            },
        }
    }
}

/// The views of a list of per-record decisions.
pub open spec fn action_views(actions: Seq<RecordAction>) -> Seq<ActionModel> {
    actions.map_values(|a: RecordAction| a@)
}

/// What the reconciler decides for one address family of one zone.
pub enum FamilyPlan {
    /// This family's address lookup failed; none of its records is touched.
    NoAddress,
    /// Fetching this family's records failed; none of them is touched.
    FetchFailed(ApiError),
    /// One decision per configured name, in the name list's order.
    Actions(Vec<RecordAction>),
}

/// Mathematical model of a per-family plan.
#[verifier::ext_equal]
pub ghost enum FamilyModel {
    NoAddress,
    FetchFailed(ApiErrorModel),
    Actions(Seq<ActionModel>),
}

impl View for FamilyPlan {
    type V = FamilyModel;

    open spec fn view(&self) -> FamilyModel {
        match self {
            FamilyPlan::NoAddress => FamilyModel::NoAddress,
            FamilyPlan::FetchFailed(e) => FamilyModel::FetchFailed(e@),
            FamilyPlan::Actions(v) => FamilyModel::Actions(action_views(v@)),
        }
    }
}

/// The two fetch outcomes a zone's processing starts from.  A failed call is
/// handed in as the failure it produced.
pub struct FetchPair {
    /// The outcome of listing the zone's IPv4 records.
    pub a: Result<CloudFlareResult, ApiError>,
    /// The outcome of listing the zone's IPv6 records.
    pub aaaa: Result<CloudFlareResult, ApiError>,
}

/// Mathematical model of a zone's pair of fetch outcomes.
#[verifier::ext_equal]
pub ghost struct FetchPairModel {
    pub a: Result<EnvelopeModel, ApiErrorModel>,
    pub aaaa: Result<EnvelopeModel, ApiErrorModel>,
}

/// The model of one fetch outcome.
pub open spec fn outcome_view(outcome: Result<CloudFlareResult, ApiError>) -> Result<
    EnvelopeModel,
    ApiErrorModel,
> {
    match outcome {
        Ok(envelope) => Ok(envelope@),
        Err(e) => Err(e@),
    }
}

impl View for FetchPair {
    type V = FetchPairModel;

    open spec fn view(&self) -> FetchPairModel {
        FetchPairModel { a: outcome_view(self.a), aaaa: outcome_view(self.aaaa) }
    }
}

/// The reconciler's plan for one zone: one per-family plan for each family.
pub struct ZonePlan {
    /// The plan for the zone's IPv4 records.
    pub a: FamilyPlan,
    /// The plan for the zone's IPv6 records.
    pub aaaa: FamilyPlan,
}

/// Mathematical model of a zone's plan.
#[verifier::ext_equal]
pub ghost struct ZonePlanModel {
    pub a: FamilyModel,
    pub aaaa: FamilyModel,
}

impl View for ZonePlan {
    type V = ZonePlanModel;

    open spec fn view(&self) -> ZonePlanModel {
        ZonePlanModel { a: self.a@, aaaa: self.aaaa@ }
    }
}

/// The position of the first fetched record carrying the given name, in the
/// provider's order, if any record carries it.
pub open spec fn first_match(records: Seq<RecordModel>, name: Seq<char>) -> Option<int>
    decreases records.len(),
{
    if records.len() == 0 {
        None
    } else if records[0].name == name {
        Some(0)
    } else {
        match first_match(records.skip(1), name) {
            Some(j) => Some(j + 1),
            None => None,
        }
    }
}

/// What `first_match` finds: the earliest record of the name when one
/// exists, and nothing exactly when no record carries the name.
pub proof fn lemma_first_match_props(records: Seq<RecordModel>, name: Seq<char>)
    ensures
        match first_match(records, name) {
            Some(j) => 0 <= j < records.len() && records[j].name == name && (forall|k: int|
                0 <= k < j ==> records[k].name != name),
            None => forall|k: int| 0 <= k < records.len() ==> records[k].name != name,
        },
    decreases records.len(),
{
    if records.len() == 0 {
    } else if records[0].name == name {
    } else {
        let rest = records.skip(1);
        lemma_first_match_props(rest, name);
        match first_match(rest, name) {
            Some(j) => {
                assert(first_match(records, name) == Some(j + 1));
                assert(rest[j] == records[j + 1]);
                assert forall|k: int| 0 <= k < j + 1 implies records[k].name != name by {
                    if k > 0 {
                        assert(rest[k - 1] == records[k]);
                    }
                }
            },
            None => {
                assert forall|k: int| 0 <= k < records.len() implies records[k].name != name by {
                    if k > 0 {
                        assert(rest[k - 1] == records[k]);
                    }
                }
            },
        }
    }
}

/// The reconciler's decision for one configured name: nothing to do when the
/// provider knows no record of the name; hands off a locked record; leaves a
/// record already carrying the current address alone; and otherwise plans one
/// update whose body carries the new address under the family's type label
/// and keeps the record's TTL and proxy flag unchanged.
pub open spec fn spec_action(
    current: Seq<char>,
    records: Seq<RecordModel>,
    name: Seq<char>,
    label: Seq<char>,
) -> ActionModel {
    match first_match(records, name) {
        None => ActionModel::Missing,
        Some(j) => {
            let rec = records[j];
            if rec.locked {
                ActionModel::Locked
            } else if rec.content == current {
                ActionModel::UpToDate
            } else {
                ActionModel::Update {
                    record_id: rec.id,
                    zone_id: rec.zone_id,
                    body: UpdateModel {
                        record_type: label,
                        name: rec.name,
                        content: current,
                        ttl: rec.ttl,
                        proxied: rec.proxied,
                    },
                }
            }
        },
    }
}

/// One decision per configured name, each a function of that name, the
/// fetched records and the current address alone.
pub open spec fn spec_actions(
    current: Seq<char>,
    records: Seq<RecordModel>,
    names: Seq<Seq<char>>,
    label: Seq<char>,
) -> Seq<ActionModel> {
    Seq::new(names.len(), |i: int| spec_action(current, records, names[i], label))
}

/// The plan for one family of one zone: a failed fetch or a rejected
/// envelope ends the family's processing with that failure; an absent
/// address skips the family; otherwise every configured name gets its
/// decision against the fetched records.
pub open spec fn spec_family(
    current: Option<Seq<char>>,
    names: Seq<Seq<char>>,
    outcome: Result<EnvelopeModel, ApiErrorModel>,
    label: Seq<char>,
) -> FamilyModel {
    match outcome {
        Err(e) => FamilyModel::FetchFailed(e),
        Ok(envelope) => match spec_fetch_outcome(envelope, names) {
            Err(e) => FamilyModel::FetchFailed(e),
            Ok(records) => match current {
                None => FamilyModel::NoAddress,
                Some(cur) => FamilyModel::Actions(spec_actions(cur, records, names, label)),
            },
        },
    }
}

/// The plan for one zone: each family planned from its own address and its
/// own fetch outcome.
pub open spec fn spec_zone(zone: ZoneModel, addrs: PairModel, fetched: FetchPairModel) -> ZonePlanModel {
    ZonePlanModel {
        a: spec_family(addrs.ipv4, zone.a_records, fetched.a, "A"@),
        aaaa: spec_family(addrs.ipv6, zone.aaaa_records, fetched.aaaa, "AAAA"@),
    }
}

/// The plan for a whole cycle: every zone of every credential planned from
/// that zone's own configuration and fetch outcomes and the cycle's shared
/// address pair.
pub open spec fn spec_cycle(
    config: ConfigModel,
    addrs: PairModel,
    fetched: Seq<Seq<FetchPairModel>>,
) -> Seq<Seq<ZonePlanModel>> {
    Seq::new(config.keys.len(), |k: int|
        Seq::new(config.keys[k].zones.len(), |z: int|
            spec_zone(config.keys[k].zones[z], addrs, fetched[k][z])))
}

/// Finds the first fetched record carrying the given name, by name rather
/// than by position, so a reordered or shortened provider answer cannot pair
/// a name with the wrong record.
pub fn find_record(records: &Vec<DNSRecordResult>, name: &String) -> (r: Option<usize>)
    ensures
        match r {
            Some(i) => i < records@.len() && first_match(record_views(records@), name@) == Some(
                i as int,
            ),
            None => first_match(record_views(records@), name@) is None,
        },
{
    let ghost views = record_views(records@);
    let mut i: usize = 0;
    while i < records.len()
        invariant
            i <= records@.len(),
            views == record_views(records@),
            forall|k: int| 0 <= k < i ==> views[k].name != name@,
        decreases records@.len() - i,
    {
        if records[i].name == *name {
            proof {
                lemma_first_match_props(views, name@);
                assert(views[i as int].name == name@);
            }
            return Some(i);
        }
        i = i + 1;
    }
    proof {
        lemma_first_match_props(views, name@);
    }
    None
}

/// The model of an optional address.
pub open spec fn address_view(current: Option<String>) -> Option<Seq<char>> {
    match current {
        Some(s) => Some(s@),
        None => None,
    }
}

/// Builds the body of an update request for one record: the new address
/// under the family's type label, with the record's name, TTL and proxy
/// flag carried over unchanged.
pub fn build_update_record(record: &DNSRecordResult, ip: &String, rtype: RecordType) -> (r:
    UpdateRecord)
    ensures
        r@ == (UpdateModel {
            record_type: rtype.label(),
            name: record.name@,
            content: ip@,
            ttl: record.ttl,
            proxied: record.proxied,
        }),
{
    UpdateRecord {
        record_type: rtype.label_string(),
        name: record.name.clone(),
        content: ip.clone(),
        ttl: record.ttl,
        proxied: record.proxied,
    }
}

/// Decides every configured name of one family against the fetched records:
/// one decision per name, in the name list's order.
pub fn plan_family_actions(
    current: &String,
    names: &Vec<String>,
    records: &Vec<DNSRecordResult>,
    rtype: RecordType,
) -> (r: Vec<RecordAction>)
    ensures
        action_views(r@) == spec_actions(
            current@,
            record_views(records@),
            name_views(names@),
            rtype.label(),
        ),
{
    let ghost rv = record_views(records@);
    let ghost nv = name_views(names@);
    let mut out: Vec<RecordAction> = Vec::new();
    let mut i: usize = 0;
    while i < names.len()
        invariant
            i <= names@.len(),
            out@.len() == i,
            rv == record_views(records@),
            nv == name_views(names@),
            forall|k: int|
                0 <= k < i ==> action_views(out@)[k] == spec_action(
                    current@,
                    rv,
                    nv[k],
                    rtype.label(),
                ),
        decreases names@.len() - i,
    {
        let action: RecordAction = match find_record(records, &names[i]) {
            None => RecordAction::Missing,
            Some(j) => {
                if records[j].locked {
                    RecordAction::Locked
                } else if records[j].content == *current {
                    RecordAction::UpToDate
                } else {
                    RecordAction::Update {
                        record_id: records[j].id.clone(),
                        zone_id: records[j].zone_id.clone(),
                        body: build_update_record(&records[j], current, rtype),
                    }
                }
            },
        };
        proof {
            assert(action@ =~= spec_action(current@, rv, nv[i as int], rtype.label()));
        }
        let ghost prev = out@;
        out.push(action);
        proof {
            assert(action_views(out@) =~= action_views(prev).push(action@));
        }
        i = i + 1;
    }
    proof {
        assert(action_views(out@) =~= spec_actions(current@, rv, nv, rtype.label()));
    }
    out
}

/// Plans one family of one zone from its fetch outcome and its address: a
/// failed fetch or a rejected envelope becomes that failure, an absent
/// address skips the family, and otherwise every configured name is decided
/// against the fetched records.
pub fn plan_family(
    current: &Option<String>,
    names: &Vec<String>,
    outcome: &Result<CloudFlareResult, ApiError>,
    rtype: RecordType,
) -> (r: FamilyPlan)
    ensures
        r@ == spec_family(
            address_view(*current),
            name_views(names@),
            outcome_view(*outcome),
            rtype.label(),
        ),
{
    match outcome {
        Err(e) => FamilyPlan::FetchFailed(e.clone()),
        Ok(envelope) => match process_fetch_response(envelope, names) {
            Err(e) => FamilyPlan::FetchFailed(e),
            Ok(records) => match current {
                None => FamilyPlan::NoAddress,
                Some(cur) => FamilyPlan::Actions(plan_family_actions(cur, names, &records, rtype)),
            },
        },
    }
}

/// Plans one zone: its IPv4 family from the IPv4 address and the zone's
/// IPv4 fetch outcome, and its IPv6 family from the IPv6 address and the
/// zone's IPv6 fetch outcome, each independently of the other.
pub fn plan_zone(zone: &Zone, addrs: &IPAddresses, fetched: &FetchPair) -> (r: ZonePlan)
    ensures
        r@ == spec_zone(zone@, addrs@, fetched@),
{
    ZonePlan {
        a: plan_family(&addrs.ipv4, &zone.a_records, &fetched.a, RecordType::A),
        aaaa: plan_family(&addrs.ipv6, &zone.aaaa_records, &fetched.aaaa, RecordType::AAAA),
    }
}

/// The models of a cycle's fetch outcomes, zone by zone.
pub open spec fn fetch_views(fetched: Seq<Vec<FetchPair>>) -> Seq<Seq<FetchPairModel>> {
    fetched.map_values(|v: Vec<FetchPair>| v@.map_values(|p: FetchPair| p@))
}

/// The models of a cycle's plan, zone by zone.
pub open spec fn plan_views(plans: Seq<Vec<ZonePlan>>) -> Seq<Seq<ZonePlanModel>> {
    plans.map_values(|v: Vec<ZonePlan>| v@.map_values(|p: ZonePlan| p@))
}

/// Plans a whole cycle: for every credential and every zone under it, in the
/// configuration's order, the zone's plan from the shared address pair and
/// that zone's own fetch outcomes.
pub fn plan_cycle(config: &Config, addrs: &IPAddresses, fetched: &Vec<Vec<FetchPair>>) -> (r: Vec<
    Vec<ZonePlan>,
>)
    requires
        fetched@.len() == config.keys@.len(),
        forall|k: int| 0 <= k < fetched@.len() ==> fetched@[k]@.len() == config.keys@[k].zones@.len(),
    ensures
        plan_views(r@) == spec_cycle(config@, addrs@, fetch_views(fetched@)),
{
    let ghost cm = config@;
    let ghost fm = fetch_views(fetched@);
    let mut out: Vec<Vec<ZonePlan>> = Vec::new();
    let mut k: usize = 0;
    while k < config.keys.len()
        invariant
            k <= config.keys@.len(),
            fetched@.len() == config.keys@.len(),
            forall|x: int|
                0 <= x < fetched@.len() ==> fetched@[x]@.len() == config.keys@[x].zones@.len(),
            cm == config@,
            fm == fetch_views(fetched@),
            out@.len() == k,
            forall|x: int| 0 <= x < k ==> plan_views(out@)[x] == spec_cycle(cm, addrs@, fm)[x],
        decreases config.keys@.len() - k,
    {
        let mut zs: Vec<ZonePlan> = Vec::new();
        let mut z: usize = 0;
        while z < config.keys[k].zones.len()
            invariant
                k < config.keys@.len(),
                fetched@.len() == config.keys@.len(),
                fetched@[k as int]@.len() == config.keys@[k as int].zones@.len(),
                cm == config@,
                fm == fetch_views(fetched@),
                z <= config.keys@[k as int].zones@.len(),
                zs@.len() == z,
                forall|y: int|
                    0 <= y < z ==> zs@[y]@ == spec_zone(
                        cm.keys[k as int].zones[y],
                        addrs@,
                        fm[k as int][y],
                    ),
            decreases config.keys@[k as int].zones@.len() - z,
        {
            let plan = plan_zone(&config.keys[k].zones[z], addrs, &fetched[k][z]);
            proof {
                assert(cm.keys[k as int].zones[z as int] == config.keys@[k as int].zones@[z as int]@);
                assert(fm[k as int][z as int] == fetched@[k as int]@[z as int]@);
            }
            zs.push(plan);
            z = z + 1;
        }
        proof {
            assert(zs@.map_values(|p: ZonePlan| p@) =~= spec_cycle(cm, addrs@, fm)[k as int]);
        }
        let ghost prev = out@;
        out.push(zs);
        proof {
            assert(plan_views(out@) =~= plan_views(prev).push(zs@.map_values(|p: ZonePlan| p@)));
        }
        k = k + 1;
    }
    proof {
        assert(plan_views(out@) =~= spec_cycle(cm, addrs@, fm));
    }
    out
}

/// Idempotence of a converged family: when every fetched record already
/// carries the current address, the plan issues zero updates.
pub proof fn lemma_converged_no_updates(
    current: Seq<char>,
    records: Seq<RecordModel>,
    names: Seq<Seq<char>>,
    label: Seq<char>,
)
    requires
        forall|j: int| 0 <= j < records.len() ==> records[j].content == current,
    ensures
        forall|i: int|
            0 <= i < names.len() ==> !(spec_actions(current, records, names, label)[i] is Update),
{
    assert forall|i: int|
        0 <= i < names.len() implies !(spec_actions(current, records, names, label)[i]
        is Update) by {
        lemma_first_match_props(records, names[i]);
    }
}

/// A record already carrying the current address is never targeted: the
/// decision for a name whose matching record is unlocked and current is
/// that no write is needed.
pub proof fn lemma_current_content_not_updated(
    current: Seq<char>,
    records: Seq<RecordModel>,
    names: Seq<Seq<char>>,
    label: Seq<char>,
    i: int,
    j: int,
)
    requires
        0 <= i < names.len(),
        first_match(records, names[i]) == Some(j),
        !records[j].locked,
        records[j].content == current,
    ensures
        spec_actions(current, records, names, label)[i] == ActionModel::UpToDate,
{
}

/// A locked record is never targeted: whatever its content, the decision
/// for a name whose matching record is locked is to leave it alone.
pub proof fn lemma_locked_never_updated(
    current: Seq<char>,
    records: Seq<RecordModel>,
    names: Seq<Seq<char>>,
    label: Seq<char>,
    i: int,
    j: int,
)
    requires
        0 <= i < names.len(),
        first_match(records, names[i]) == Some(j),
        records[j].locked,
    ensures
        spec_actions(current, records, names, label)[i] == ActionModel::Locked,
{
}

/// A configured name absent from the fetched records is skipped without an
/// update and without a fault: its decision is that nothing exists to
/// update.
pub proof fn lemma_absent_name_skipped(
    current: Seq<char>,
    records: Seq<RecordModel>,
    names: Seq<Seq<char>>,
    label: Seq<char>,
    i: int,
)
    requires
        0 <= i < names.len(),
        forall|j: int| 0 <= j < records.len() ==> records[j].name != names[i],
    ensures
        spec_actions(current, records, names, label)[i] == ActionModel::Missing,
{
    lemma_first_match_props(records, names[i]);
}

/// An absent address disables its family: with no current address, the
/// family's plan holds no actions at all, so zero update calls occur for
/// that family in the cycle.
pub proof fn lemma_no_address_no_updates(
    names: Seq<Seq<char>>,
    outcome: Result<EnvelopeModel, ApiErrorModel>,
    label: Seq<char>,
)
    ensures
        !(spec_family(None, names, outcome, label) is Actions),
{
}

/// The families are independent: a zone's IPv4 plan is a function of the
/// IPv4 address alone, and its IPv6 plan of the IPv6 address alone, so one
/// family's missing address never disturbs the other family's processing.
pub proof fn lemma_families_independent(
    zone: ZoneModel,
    addrs1: PairModel,
    addrs2: PairModel,
    fetched: FetchPairModel,
)
    ensures
        addrs1.ipv4 == addrs2.ipv4 ==> spec_zone(zone, addrs1, fetched).a == spec_zone(
            zone,
            addrs2,
            fetched,
        ).a,
        addrs1.ipv6 == addrs2.ipv6 ==> spec_zone(zone, addrs1, fetched).aaaa == spec_zone(
            zone,
            addrs2,
            fetched,
        ).aaaa,
{
}

/// Failures are isolated between zones: each zone's plan is a function of
/// that zone's own configuration and fetch outcomes and the shared address
/// pair, so a provider failure while fetching one zone's records leaves
/// every other zone's plan exactly as it would have been.
pub proof fn lemma_zone_isolation(
    config: ConfigModel,
    addrs: PairModel,
    fetched1: Seq<Seq<FetchPairModel>>,
    fetched2: Seq<Seq<FetchPairModel>>,
    k: int,
    z: int,
)
    requires
        0 <= k < config.keys.len(),
        0 <= z < config.keys[k].zones.len(),
        fetched1[k][z] == fetched2[k][z],
    ensures
        spec_cycle(config, addrs, fetched1)[k][z] == spec_cycle(config, addrs, fetched2)[k][z],
{
}

/// Update failures cannot cascade: the decision for each configured name is
/// a function of that name, the fetched records and the current address
/// alone.  No update outcome is an input to any decision, so a failed
/// update of one record leaves the planned attempt on every later record in
/// place.
pub proof fn lemma_record_decisions_independent(
    current: Seq<char>,
    records: Seq<RecordModel>,
    names: Seq<Seq<char>>,
    label: Seq<char>,
    i: int,
)
    requires
        0 <= i < names.len(),
    ensures
        spec_actions(current, records, names, label)[i] == spec_action(
            current,
            records,
            names[i],
            label,
        ),
{
}

} // verus!
