//! Locating the record to update among the records that the provider lists.

use vstd::prelude::*;
use crate::record::{DnsRecord, DnsRecordView, record_views};

verus! {

/// The request that lists the records of a zone, filtered by name on the
/// provider's side.
#[derive(Clone, Debug, PartialEq, Eq)]
pub struct ListDnsRecords {
    /// The zone whose records are listed.
    pub zone_identifier: String,
    /// The name that the provider is asked to filter by.
    pub name: Option<String>,
}

/// The mathematical view of a [`ListDnsRecords`], over which contracts are stated.
pub struct ListDnsRecordsView {
    pub zone_identifier: Seq<char>,
    pub name: Option<Seq<char>>,
}

impl View for ListDnsRecords {
    type V = ListDnsRecordsView;

    open spec fn view(&self) -> ListDnsRecordsView {
        ListDnsRecordsView {
            zone_identifier: self.zone_identifier@,
            name: match self.name {
                Some(name) => Some(name@),
                None => None,
            },
        }
    }
}

/// The listing that is asked for when `name` is looked up in `zone_id`.
pub open spec fn listing_for(zone_id: Seq<char>, name: Seq<char>) -> ListDnsRecordsView {
    ListDnsRecordsView { zone_identifier: zone_id, name: Some(name) }
}

/// A record may be updated exactly if it bears the target name, belongs to
/// the target zone and is an A record.
pub open spec fn eligible(record: DnsRecordView, zone_id: Seq<char>, name: Seq<char>) -> bool {
    &&& record.name == name
    &&& record.zone_id == zone_id
    &&& record.content is A
}

/// `i` is the position of the first eligible record of `records`.
pub open spec fn is_first_eligible(
    records: Seq<DnsRecordView>,
    zone_id: Seq<char>,
    name: Seq<char>,
    i: int,
) -> bool {
    &&& 0 <= i < records.len()
    &&& eligible(records[i], zone_id, name)
    &&& forall|j: int| 0 <= j < i ==> !eligible(#[trigger] records[j], zone_id, name)
}

/// No record of `records` is eligible.
pub open spec fn none_eligible(
    records: Seq<DnsRecordView>,
    zone_id: Seq<char>,
    name: Seq<char>,
) -> bool {
    forall|i: int| 0 <= i < records.len() ==> !eligible(#[trigger] records[i], zone_id, name)
}

/// The record that a lookup of `name` in `zone_id` settles on, given the
/// records in the order in which the provider returned them: the first
/// eligible one, if there is any.
pub open spec fn located(
    records: Seq<DnsRecordView>,
    zone_id: Seq<char>,
    name: Seq<char>,
) -> Option<DnsRecordView>
    decreases records.len(),
{
    if records.len() == 0 {
        None
    } else if eligible(records[0], zone_id, name) {
        Some(records[0])
    } else {
        located(records.drop_first(), zone_id, name)
    }
}

/// A lookup settles on the record at the first eligible position.
pub proof fn lemma_located_at_first_eligible(
    records: Seq<DnsRecordView>,
    zone_id: Seq<char>,
    name: Seq<char>,
    i: int,
)
    requires
        is_first_eligible(records, zone_id, name, i),
    ensures
        located(records, zone_id, name) == Some(records[i]),
    decreases i,
{
    if i > 0 {
        let rest = records.drop_first();
        assert(!eligible(records[0], zone_id, name));
        assert forall|j: int| 0 <= j < i - 1 implies !eligible(
            #[trigger] rest[j],
            zone_id,
            name,
        ) by {
            assert(rest[j] == records[j + 1]);
        }
        assert(rest[i - 1] == records[i]);
        lemma_located_at_first_eligible(rest, zone_id, name, i - 1);
    }
}

/// A lookup finds nothing exactly if no record is eligible, whatever else
/// the listing holds.
pub proof fn lemma_located_none_iff_none_eligible(
    records: Seq<DnsRecordView>,
    zone_id: Seq<char>,
    name: Seq<char>,
)
    ensures
        located(records, zone_id, name) is None <==> none_eligible(records, zone_id, name),
    decreases records.len(),
{
    if records.len() > 0 {
        let rest = records.drop_first();
        lemma_located_none_iff_none_eligible(rest, zone_id, name);
        if eligible(records[0], zone_id, name) {
        } else if none_eligible(rest, zone_id, name) {
            assert forall|i: int| 0 <= i < records.len() implies !eligible(
                #[trigger] records[i],
                zone_id,
                name,
            ) by {
                if i > 0 {
                    assert(rest[i - 1] == records[i]);
                }
            }
        } else {
            let k = choose|k: int| 0 <= k < rest.len() && eligible(#[trigger] rest[k], zone_id, name);
            assert(rest[k] == records[k + 1]);
        }
    }
}

/// Whatever a lookup settles on stands at the first eligible position of
/// the listing: no eligible record precedes it.
pub proof fn lemma_located_is_first_eligible(
    records: Seq<DnsRecordView>,
    zone_id: Seq<char>,
    name: Seq<char>,
)
    requires
        located(records, zone_id, name) is Some,
    ensures
        exists|i: int|
            is_first_eligible(records, zone_id, name, i) && located(records, zone_id, name)
                == Some(#[trigger] records[i]),
    decreases records.len(),
{
    if eligible(records[0], zone_id, name) {
        assert(is_first_eligible(records, zone_id, name, 0));
    } else {
        let rest = records.drop_first();
        lemma_located_is_first_eligible(rest, zone_id, name);
        let k = choose|k: int|
            is_first_eligible(rest, zone_id, name, k) && located(rest, zone_id, name) == Some(
                #[trigger] rest[k],
            );
        assert(rest[k] == records[k + 1]);
        assert forall|j: int| 0 <= j < k + 1 implies !eligible(
            #[trigger] records[j],
            zone_id,
            name,
        ) by {
            if j > 0 {
                assert(rest[j - 1] == records[j]);
            }
        }
        assert(is_first_eligible(records, zone_id, name, k + 1));
    }
}

/// The first match wins: where a listing holds an eligible record at all,
/// a lookup settles on the first one in the listing's order, whatever the
/// eligible records after it hold.
pub proof fn lemma_first_match_wins(
    records: Seq<DnsRecordView>,
    zone_id: Seq<char>,
    name: Seq<char>,
    k: int,
)
    requires
        0 <= k < records.len(),
        eligible(records[k], zone_id, name),
    ensures
        exists|i: int|
            0 <= i <= k && is_first_eligible(records, zone_id, name, i) && located(
                records,
                zone_id,
                name,
            ) == Some(#[trigger] records[i]),
{
    lemma_located_none_iff_none_eligible(records, zone_id, name);
    lemma_located_is_first_eligible(records, zone_id, name);
    let i = choose|i: int|
        is_first_eligible(records, zone_id, name, i) && located(records, zone_id, name) == Some(
            #[trigger] records[i],
        );
    assert(i <= k);
}

/// Only A records are ever settled on: a record of another type is passed
/// over even where its name and zone match.
pub proof fn lemma_located_is_a_record(
    records: Seq<DnsRecordView>,
    zone_id: Seq<char>,
    name: Seq<char>,
)
    ensures
        located(records, zone_id, name) matches Some(record) ==> eligible(record, zone_id, name)
            && record.content is A,
{
    if located(records, zone_id, name) is Some {
        lemma_located_is_first_eligible(records, zone_id, name);
    }
}

/// Once a listing holds an eligible record, nothing that follows it changes
/// the outcome: later records are never looked at, eligible or not.
pub proof fn lemma_located_ignores_what_follows(
    head: Seq<DnsRecordView>,
    tail: Seq<DnsRecordView>,
    zone_id: Seq<char>,
    name: Seq<char>,
)
    requires
        located(head, zone_id, name) is Some,
    ensures
        located(head + tail, zone_id, name) == located(head, zone_id, name),
{
    lemma_located_is_first_eligible(head, zone_id, name);
    let i = choose|i: int|
        is_first_eligible(head, zone_id, name, i) && located(head, zone_id, name) == Some(
            #[trigger] head[i],
        );
    let all = head + tail;
    assert(all[i] == head[i]);
    assert forall|j: int| 0 <= j < i implies !eligible(#[trigger] all[j], zone_id, name) by {
        assert(all[j] == head[j]);
    }
    lemma_located_at_first_eligible(all, zone_id, name, i);
}

/// Records that are not eligible may stand before the one that is settled
/// on without changing the outcome.
pub proof fn lemma_located_skips_ineligible(
    head: Seq<DnsRecordView>,
    tail: Seq<DnsRecordView>,
    zone_id: Seq<char>,
    name: Seq<char>,
)
    requires
        none_eligible(head, zone_id, name),
    ensures
        located(head + tail, zone_id, name) == located(tail, zone_id, name),
    decreases head.len(),
{
    if head.len() == 0 {
        assert(head + tail =~= tail);
    } else {
        let all = head + tail;
        assert(all[0] == head[0]);
        assert(all.drop_first() =~= head.drop_first() + tail);
        assert forall|i: int| 0 <= i < head.drop_first().len() implies !eligible(
            #[trigger] head.drop_first()[i],
            zone_id,
            name,
        ) by {
            assert(head.drop_first()[i] == head[i + 1]);
        }
        lemma_located_skips_ineligible(head.drop_first(), tail, zone_id, name);
    }
}

/// The request that lists the records of `zone_id` named `name`.
pub fn list_request(zone_id: &String, name: &String) -> (request: ListDnsRecords)
    ensures
        request@ == listing_for(zone_id@, name@),
{
    ListDnsRecords { zone_identifier: zone_id.clone(), name: Some(name.clone()) }
}

/// Whether `record` may be updated when `name` is looked up in `zone_id`.
pub fn is_eligible(record: &DnsRecord, zone_id: &String, name: &String) -> (yes: bool)
    ensures
        yes == eligible(record@, zone_id@, name@),
{
    *name == record.name && *zone_id == record.zone_id && record.is_a()
}

/// Picks, from the records that the provider listed, the one to update: the
/// first, in the order received, that bears `name`, belongs to `zone_id` and
/// is an A record. Later records are not looked at. The provider's own
/// filter is not relied on: every record is tested here.
pub fn find_dns_record_by_name(records: Vec<DnsRecord>, zone_id: &String, name: &String) -> (found:
    Option<DnsRecord>)
    ensures
        match found {
            Some(record) => {
                &&& located(record_views(records@), zone_id@, name@) == Some(record@)
                &&& exists|i: int|
                    is_first_eligible(record_views(records@), zone_id@, name@, i) && record
                        == #[trigger] records@[i]
            },
            None => {
                &&& located(record_views(records@), zone_id@, name@) is None
                &&& none_eligible(record_views(records@), zone_id@, name@)
            },
        },
{
    let ghost views = record_views(records@);
    let mut rest = records;
    let mut i: usize = 0;
    while i < rest.len()
        invariant
            rest@ == records@,
            views == record_views(records@),
            i <= rest.len(),
            forall|j: int| 0 <= j < i ==> !eligible(#[trigger] views[j], zone_id@, name@),
        decreases rest.len() - i,
    {
        if is_eligible(&rest[i], zone_id, name) {
            proof {
                assert(views[i as int] == records@[i as int]@);
                assert(is_first_eligible(views, zone_id@, name@, i as int));
                lemma_located_at_first_eligible(views, zone_id@, name@, i as int);
            }
            return Some(rest.swap_remove(i));
        }
        assert(views[i as int] == records@[i as int]@);
        i += 1;
    }
    proof {
        lemma_located_none_iff_none_eligible(views, zone_id@, name@);
    }
    None
}

} // verus!
