use vstd::prelude::*;

use crate::errors::ProviderError;
use crate::records::{DesiredRecord, DnsRecord, DnsRecordCreate, HetznerDns};

verus! {

/// The minimal provider operation that makes the zone reflect one desired
/// record: create a new record, replace a stale one, or touch nothing.
#[derive(Debug)]
pub enum Action {
    /// No record matched; create one (the provider will assign the id).
    Create(DnsRecordCreate),
    /// A record matched but its content is stale; replace it in full,
    /// keeping its provider-assigned identity.
    Update(DnsRecord),
    /// A record matched and already carries the desired content; issue no
    /// mutating call and hand this record back.
    Keep(DnsRecord),
}

/// True when an existing provider record is the counterpart of the desired
/// record: exact, case-sensitive equality on name and record type.
pub open spec fn spec_matches(r: DnsRecord, d: DesiredRecord) -> bool {
    r.name@ == d.hostname@ && r.type_ == d.type_
}

/// True when a matching record already carries the desired content, so no
/// provider write is needed.
pub open spec fn spec_up_to_date(r: DnsRecord, d: DesiredRecord) -> bool {
    r.value@ == d.value@ && r.ttl == d.ttl
}

/// The position of the first record matching `d`, or `rs.len()` when none
/// does. Matching is by list order, so a duplicate `(name, type)` pair is
/// resolved in favour of the earliest record.
pub open spec fn first_match_index(rs: Seq<DnsRecord>, d: DesiredRecord) -> int
    decreases rs.len(),
{
    if rs.len() <= 0 {
        0
    } else if spec_matches(rs[0], d) {
        0
    } else {
        1 + first_match_index(rs.drop_first(), d)
    }
}

/// What `first_match_index` promises: it is in bounds, it points at a match
/// when one exists, nothing before it matches, and it is `rs.len()` exactly
/// when nothing matches at all.
pub proof fn lemma_first_match_index_props(rs: Seq<DnsRecord>, d: DesiredRecord)
    ensures
        0 <= first_match_index(rs, d) <= rs.len(),
        first_match_index(rs, d) < rs.len() ==> spec_matches(rs[first_match_index(rs, d)], d),
        forall|j: int| 0 <= j < first_match_index(rs, d) ==> !spec_matches(#[trigger] rs[j], d),
        first_match_index(rs, d) == rs.len() ==> forall|j: int|
            0 <= j < rs.len() ==> !spec_matches(#[trigger] rs[j], d),
    decreases rs.len(),
{
    if rs.len() > 0 && !spec_matches(rs[0], d) {
        let tail = rs.drop_first();
        lemma_first_match_index_props(tail, d);
        assert forall|j: int| 0 <= j < first_match_index(rs, d) implies !spec_matches(
            #[trigger] rs[j],
            d,
        ) by {
            if j > 0 {
                assert(rs[j] == tail[j - 1]);
            }
        }
        if first_match_index(rs, d) < rs.len() {
            assert(rs[first_match_index(rs, d)] == tail[first_match_index(tail, d)]);
        }
        if first_match_index(rs, d) == rs.len() {
            assert forall|j: int| 0 <= j < rs.len() implies !spec_matches(#[trigger] rs[j], d) by {
                if j > 0 {
                    assert(rs[j] == tail[j - 1]);
                }
            }
        }
    }
}

/// Finds the first record whose `(name, type)` matching key equals the
/// desired record's, in provider list order.
pub fn find_matching_record(records: &Vec<DnsRecord>, desired: &DesiredRecord) -> (found: Option<
    usize,
>)
    ensures
        found matches Some(i) ==> i < records.len() && spec_matches(records@[i as int], *desired)
            && (forall|j: int| 0 <= j < i as int ==> !spec_matches(#[trigger] records@[j], *desired)),
        found is None ==> forall|j: int|
            0 <= j < records@.len() ==> !spec_matches(#[trigger] records@[j], *desired),
{
    let mut i: usize = 0;
    while i < records.len()
        invariant
            i <= records.len(),
            forall|j: int| 0 <= j < i as int ==> !spec_matches(#[trigger] records@[j], *desired),
        decreases records.len() - i,
    {
        let r = &records[i];
        if r.name == desired.hostname && r.type_ == desired.type_ {
            return Some(i);
        }
        i = i + 1;
    }
    None
}

/// The first record matching `d`, if any.
pub open spec fn first_match(rs: Seq<DnsRecord>, d: DesiredRecord) -> Option<DnsRecord> {
    if first_match_index(rs, d) < rs.len() {
        Some(rs[first_match_index(rs, d)])
    } else {
        None
    }
}

/// The replacement record the update path submits: the matched record's
/// identity (`id`, `zone_id`) with every other field taken from the desired
/// record.
pub open spec fn updated_record(matched: DnsRecord, d: DesiredRecord) -> DnsRecord {
    DnsRecord {
        id: matched.id,
        zone_id: matched.zone_id,
        type_: d.type_,
        name: d.hostname,
        value: d.value,
        ttl: d.ttl,
    }
}

/// The creation request the create path submits: the configured zone with
/// every record field taken from the desired record.
pub open spec fn create_request(zone_id: String, d: DesiredRecord) -> DnsRecordCreate {
    DnsRecordCreate {
        zone_id: zone_id,
        type_: d.type_,
        name: d.hostname,
        value: d.value,
        ttl: d.ttl,
    }
}

/// The reconciliation decision for one desired record against the listed
/// record set: create when nothing matches, keep the first match when it is
/// already up to date, update it otherwise.
pub open spec fn decide_spec(zone_id: String, d: DesiredRecord, rs: Seq<DnsRecord>) -> Action {
    match first_match(rs, d) {
        Option::None => Action::Create(create_request(zone_id, d)),
        Option::Some(r) => if spec_up_to_date(r, d) {
            Action::Keep(r)
        } else {
            Action::Update(updated_record(r, d))
        },
    }
}

/// Create path: when no existing record matches the desired record's
/// `(name, type)` key, the decision is exactly one creation request carrying
/// the configured zone and the desired type, name, value and TTL.
pub proof fn lemma_create_path(zone_id: String, d: DesiredRecord, rs: Seq<DnsRecord>)
    requires
        forall|j: int| 0 <= j < rs.len() ==> !spec_matches(#[trigger] rs[j], d),
    ensures
        decide_spec(zone_id, d, rs) == Action::Create(create_request(zone_id, d)),
        create_request(zone_id, d).zone_id == zone_id,
        create_request(zone_id, d).type_ == d.type_,
        create_request(zone_id, d).name == d.hostname,
        create_request(zone_id, d).value == d.value,
        create_request(zone_id, d).ttl == d.ttl,
{
    lemma_first_match_index_props(rs, d);
}

/// Update path: when the first matching record is stale in value or TTL, the
/// decision is exactly one replacement that preserves the matched record's
/// `id` and `zone_id` and takes every other field from the desired record.
pub proof fn lemma_update_path(zone_id: String, d: DesiredRecord, rs: Seq<DnsRecord>, i: int)
    requires
        0 <= i < rs.len(),
        spec_matches(rs[i], d),
        forall|j: int| 0 <= j < i ==> !spec_matches(#[trigger] rs[j], d),
        !spec_up_to_date(rs[i], d),
    ensures
        decide_spec(zone_id, d, rs) == Action::Update(updated_record(rs[i], d)),
        updated_record(rs[i], d).id == rs[i].id,
        updated_record(rs[i], d).zone_id == rs[i].zone_id,
        updated_record(rs[i], d).type_ == d.type_,
        updated_record(rs[i], d).name == d.hostname,
        updated_record(rs[i], d).value == d.value,
        updated_record(rs[i], d).ttl == d.ttl,
{
    lemma_first_match_index_props(rs, d);
}

/// No-op path: when the first matching record already carries the desired
/// value and TTL, the decision issues no mutating call and hands that record
/// back unchanged.
pub proof fn lemma_no_op_path(zone_id: String, d: DesiredRecord, rs: Seq<DnsRecord>, i: int)
    requires
        0 <= i < rs.len(),
        spec_matches(rs[i], d),
        forall|j: int| 0 <= j < i ==> !spec_matches(#[trigger] rs[j], d),
        spec_up_to_date(rs[i], d),
    ensures
        decide_spec(zone_id, d, rs) == Action::Keep(rs[i]),
{
    lemma_first_match_index_props(rs, d);
}

/// The record a faithful provider stores for a creation request, under the
/// id it assigned.
pub open spec fn stored_create(c: DnsRecordCreate, assigned_id: String) -> DnsRecord {
    DnsRecord {
        id: assigned_id,
        zone_id: c.zone_id,
        type_: c.type_,
        name: c.name,
        value: c.value,
        ttl: c.ttl,
    }
}

/// The provider's record set after it faithfully performs the decided
/// action: unchanged for a kept record, the first match replaced in place
/// for an update, the requested record appended under a provider-assigned id
/// for a creation.
pub open spec fn apply_decision(
    zone_id: String,
    d: DesiredRecord,
    rs: Seq<DnsRecord>,
    assigned_id: String,
) -> Seq<DnsRecord> {
    match decide_spec(zone_id, d, rs) {
        Action::Keep(_) => rs,
        Action::Update(u) => rs.update(first_match_index(rs, d), u),
        Action::Create(c) => rs.push(stored_create(c, assigned_id)),
    }
}

/// Idempotence: once the provider's record set reflects one reconciliation
/// pass for a desired record, a second pass for the same record decides to
/// keep — it issues no mutating call, whichever path the first pass took and
/// whatever id the provider assigned.
pub proof fn lemma_reconcile_idempotent(
    zone_id: String,
    d: DesiredRecord,
    rs: Seq<DnsRecord>,
    assigned_id: String,
)
    ensures
        decide_spec(zone_id, d, apply_decision(zone_id, d, rs, assigned_id)) is Keep,
{
    lemma_first_match_index_props(rs, d);
    let rs2 = apply_decision(zone_id, d, rs, assigned_id);
    lemma_first_match_index_props(rs2, d);
    let k = first_match_index(rs, d);
    let k2 = first_match_index(rs2, d);
    if k < rs.len() && spec_up_to_date(rs[k], d) {
        // a kept record leaves the set unchanged
    } else if k < rs.len() {
        let u = updated_record(rs[k], d);
        assert(rs2[k] == u);
        assert(spec_matches(u, d) && spec_up_to_date(u, d));
        assert(k2 == k);
    } else {
        let c = create_request(zone_id, d);
        let stored = stored_create(c, assigned_id);
        assert(rs2[rs.len() as int] == stored);
        assert(spec_matches(stored, d) && spec_up_to_date(stored, d));
        assert(k2 == rs.len());
    }
}

/// True when at most one record in the set carries the desired record's
/// matching key — the zone invariant the reconciler assumes and preserves.
pub open spec fn at_most_one_match(rs: Seq<DnsRecord>, d: DesiredRecord) -> bool {
    forall|i: int, j: int|
        0 <= i < rs.len() && 0 <= j < rs.len() && spec_matches(#[trigger] rs[i], d)
            && spec_matches(#[trigger] rs[j], d) ==> i == j
}

/// Unrelated records are left untouched: whatever path a reconciliation pass
/// takes, every record other than the first match keeps its place and its
/// content, and no record is removed.
pub proof fn lemma_unrelated_records_untouched(
    zone_id: String,
    d: DesiredRecord,
    rs: Seq<DnsRecord>,
    assigned_id: String,
)
    ensures
        rs.len() <= apply_decision(zone_id, d, rs, assigned_id).len(),
        forall|j: int|
            0 <= j < rs.len() && j != first_match_index(rs, d) ==> apply_decision(
                zone_id,
                d,
                rs,
                assigned_id,
            )[j] == #[trigger] rs[j],
{
    lemma_first_match_index_props(rs, d);
}

/// A zone that holds at most one record for the desired record's matching
/// key still does after a reconciliation pass: an update replaces the one
/// match in place, and a creation happens only when there was none.
pub proof fn lemma_at_most_one_match_preserved(
    zone_id: String,
    d: DesiredRecord,
    rs: Seq<DnsRecord>,
    assigned_id: String,
)
    requires
        at_most_one_match(rs, d),
    ensures
        at_most_one_match(apply_decision(zone_id, d, rs, assigned_id), d),
{
    lemma_first_match_index_props(rs, d);
    let rs2 = apply_decision(zone_id, d, rs, assigned_id);
    let k = first_match_index(rs, d);
    if k < rs.len() && !spec_up_to_date(rs[k], d) {
        let u = updated_record(rs[k], d);
        assert(rs2 == rs.update(k, u));
        assert forall|i: int, j: int|
            0 <= i < rs2.len() && 0 <= j < rs2.len() && spec_matches(#[trigger] rs2[i], d)
                && spec_matches(#[trigger] rs2[j], d) implies i == j by {
            if i != k {
                assert(rs2[i] == rs[i]);
            }
            if j != k {
                assert(rs2[j] == rs[j]);
            }
        }
    } else if k == rs.len() {
        let stored = stored_create(create_request(zone_id, d), assigned_id);
        assert(rs2 == rs.push(stored));
        assert forall|i: int, j: int|
            0 <= i < rs2.len() && 0 <= j < rs2.len() && spec_matches(#[trigger] rs2[i], d)
                && spec_matches(#[trigger] rs2[j], d) implies i == j by {
            if i < rs.len() {
                assert(rs2[i] == rs[i]);
            }
            if j < rs.len() {
                assert(rs2[j] == rs[j]);
            }
        }
    }
}

impl HetznerDns {
    /// Decides the minimal action that makes the zone's record set reflect
    /// `dns_record`, given the records the provider listed: the first record
    /// matching on `(name, type)` is kept when its value and TTL already
    /// agree, replaced under its own identity when they do not, and a
    /// creation request for the configured zone is built when nothing
    /// matches.
    pub fn decide_action(
        &self,
        dns_record: &DesiredRecord,
        existing_records: &Vec<DnsRecord>,
    ) -> (action: Action)
        ensures
            action == decide_spec(self.config.dns_zone_id, *dns_record, existing_records@),
    {
        let found = find_matching_record(existing_records, dns_record);
        proof {
            lemma_first_match_index_props(existing_records@, *dns_record);
        }
        match found {
            Option::Some(i) => {
                proof {
                    assert(first_match_index(existing_records@, *dns_record) == i as int);
                }
                let record = &existing_records[i];
                if record.value != dns_record.value || record.ttl != dns_record.ttl {
                    Action::Update(
                        DnsRecord {
                            id: record.id.clone(),
                            zone_id: record.zone_id.clone(),
                            type_: dns_record.type_,
                            name: dns_record.hostname.clone(),
                            value: dns_record.value.clone(),
                            ttl: dns_record.ttl,
                        },
                    )
                } else {
                    Action::Keep(record.clone())
                }
            },
            Option::None => {
                proof {
                    assert(first_match_index(existing_records@, *dns_record)
                        == existing_records@.len());
                }
                Action::Create(
                    DnsRecordCreate {
                        zone_id: self.config.dns_zone_id.clone(),
                        type_: dns_record.type_,
                        name: dns_record.hostname.clone(),
                        value: dns_record.value.clone(),
                        ttl: dns_record.ttl,
                    },
                )
            },
        }
    }

    /// The list-then-decide step of one reconciliation pass: a listing
    /// failure is propagated as it is, before any decision is taken; a
    /// successful listing is decided exactly as `decide_action` does.
    pub fn reconcile_plan(
        &self,
        dns_record: &DesiredRecord,
        listing: Result<Vec<DnsRecord>, ProviderError>,
    ) -> (plan: Result<Action, ProviderError>)
        ensures
            listing matches Err(e) ==> plan == Err::<Action, ProviderError>(e),
            listing matches Ok(rs) ==> plan == Ok::<Action, ProviderError>(
                decide_spec(self.config.dns_zone_id, *dns_record, rs@),
            ),
    {
        match listing {
            Ok(rs) => Ok(self.decide_action(dns_record, &rs)),
            Err(e) => Err(e),
        }
    }
}

/// The act step of one reconciliation pass: a kept record is returned
/// unchanged without any provider reply, and the provider's reply to a
/// mutating call — success or failure — is returned unchanged.
pub fn reconcile_outcome(
    action: Action,
    write_reply: Option<Result<DnsRecord, ProviderError>>,
) -> (outcome: Result<DnsRecord, ProviderError>)
    requires
        (action is Keep) <==> (write_reply is None),
    ensures
        action matches Action::Keep(r) ==> outcome == Ok::<DnsRecord, ProviderError>(r),
        write_reply matches Some(w) ==> outcome == w,
{
    match action {
        Action::Keep(r) => Ok(r),
        _ => match write_reply {
            Option::Some(w) => w,
            Option::None => vstd::pervasive::unreached(),
        },
    }
}

} // verus!
