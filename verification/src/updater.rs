//! Building the request that points a located record at a new address.

use vstd::prelude::*;
use crate::record::{DnsContent, DnsContentView, DnsRecord, DnsRecordView, Ipv4Address};

verus! {

/// The parameters of an update: what the record is to hold afterwards.
#[derive(Clone, Debug, PartialEq, Eq)]
pub struct UpdateDnsRecordParams {
    /// Time to live, in seconds.
    pub ttl: Option<u32>,
    /// Whether the provider is to proxy traffic for the record.
    pub proxied: Option<bool>,
    /// The DNS name.
    pub name: String,
    /// The record's type and data.
    pub content: DnsContent,
}

/// The request that updates one record of a zone.
#[derive(Clone, Debug, PartialEq, Eq)]
pub struct UpdateDnsRecord {
    /// The zone that owns the record.
    pub zone_identifier: String,
    /// The provider's identifier of the record.
    pub identifier: String,
    /// What the record is to hold afterwards.
    pub params: UpdateDnsRecordParams,
}

/// The mathematical view of a [`UpdateDnsRecordParams`], over which contracts are stated.
pub struct UpdateDnsRecordParamsView {
    pub ttl: Option<u32>,
    pub proxied: Option<bool>,
    pub name: Seq<char>,
    pub content: DnsContentView,
}

/// The mathematical view of a [`UpdateDnsRecord`], over which contracts are stated.
pub struct UpdateDnsRecordView {
    pub zone_identifier: Seq<char>,
    pub identifier: Seq<char>,
    pub params: UpdateDnsRecordParamsView,
}

impl View for UpdateDnsRecordParams {
    type V = UpdateDnsRecordParamsView;

    open spec fn view(&self) -> UpdateDnsRecordParamsView {
        UpdateDnsRecordParamsView {
            ttl: self.ttl,
            proxied: self.proxied,
            name: self.name@,
            content: self.content@,
        }
    }
}

impl View for UpdateDnsRecord {
    type V = UpdateDnsRecordView;

    open spec fn view(&self) -> UpdateDnsRecordView {
        UpdateDnsRecordView {
            zone_identifier: self.zone_identifier@,
            identifier: self.identifier@,
            params: self.params@,
        }
    }
}

/// The update that points `record` at `new_address`: addressed by the
/// record's zone and identifier, it names the record's own name, TTL and
/// proxy setting, each given explicitly, and an A content with the new
/// address.
pub open spec fn update_for(record: DnsRecordView, new_address: Ipv4Address) -> UpdateDnsRecordView {
    UpdateDnsRecordView {
        zone_identifier: record.zone_id,
        identifier: record.id,
        params: UpdateDnsRecordParamsView {
            ttl: Some(record.ttl),
            proxied: Some(record.proxied),
            name: record.name,
            content: DnsContentView::A { content: new_address },
        },
    }
}

/// An update preserves everything but the content: its TTL and proxy
/// setting are exactly the record's, never left out, its name is the
/// record's, and its content is an A content with the new address.
pub proof fn lemma_update_changes_content_only(record: DnsRecordView, new_address: Ipv4Address)
    ensures
        update_for(record, new_address).zone_identifier == record.zone_id,
        update_for(record, new_address).identifier == record.id,
        update_for(record, new_address).params.name == record.name,
        update_for(record, new_address).params.ttl == Some(record.ttl),
        update_for(record, new_address).params.proxied == Some(record.proxied),
        update_for(record, new_address).params.content == (DnsContentView::A {
            content: new_address,
        }),
{
}

/// Builds the request that points `record` at `new_address`.
pub fn update_request(record: &DnsRecord, new_address: Ipv4Address) -> (request: UpdateDnsRecord)
    ensures
        request@ == update_for(record@, new_address),
{
    UpdateDnsRecord {
        zone_identifier: record.zone_id.clone(),
        identifier: record.id.clone(),
        params: UpdateDnsRecordParams {
            name: record.name.clone(),
            ttl: Some(record.ttl),
            proxied: Some(record.proxied),
            content: DnsContent::A { content: new_address },
        },
    }
}

} // verus!
