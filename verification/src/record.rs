//! DNS records as the provider reports them, and their mathematical views.

use vstd::prelude::*;

verus! {

/// An IPv4 address, as its four octets in network order.
#[derive(Clone, Copy, Debug, PartialEq, Eq, Structural)]
pub struct Ipv4Address(pub u8, pub u8, pub u8, pub u8);

/// An IPv6 address, as its 128 bits in network order.
#[derive(Clone, Copy, Debug, PartialEq, Eq, Structural)]
pub struct Ipv6Address(pub u128);

/// The type of a DNS record together with the data that the type carries.
#[derive(Clone, Debug, PartialEq, Eq)]
pub enum DnsContent {
    A { content: Ipv4Address },
    AAAA { content: Ipv6Address },
    CNAME { content: String },
    NS { content: String },
    MX { content: String, priority: u16 },
    TXT { content: String },
    SRV { content: String },
}

/// The mathematical view of a [`DnsContent`], over which contracts are stated.
pub enum DnsContentView {
    A { content: Ipv4Address },
    AAAA { content: Ipv6Address },
    CNAME { content: Seq<char> },
    NS { content: Seq<char> },
    MX { content: Seq<char>, priority: u16 },
    TXT { content: Seq<char> },
    SRV { content: Seq<char> },
}

impl View for DnsContent {
    type V = DnsContentView;

    open spec fn view(&self) -> DnsContentView {
        match *self {
            DnsContent::A { content } => DnsContentView::A { content },
            DnsContent::AAAA { content } => DnsContentView::AAAA { content },
            DnsContent::CNAME { content } => DnsContentView::CNAME { content: content@ },
            DnsContent::NS { content } => DnsContentView::NS { content: content@ },
            DnsContent::MX { content, priority } => DnsContentView::MX {
                content: content@,
                priority,
            },
            DnsContent::TXT { content } => DnsContentView::TXT { content: content@ },
            DnsContent::SRV { content } => DnsContentView::SRV { content: content@ },
        }
    }
}

/// One DNS record of a zone: a local, read-only copy of what the provider
/// holds.
#[derive(Clone, Debug, PartialEq, Eq)]
pub struct DnsRecord {
    /// The provider's identifier of the record, by which an update addresses it.
    pub id: String,
    /// The identifier of the zone that owns the record.
    pub zone_id: String,
    /// The DNS name.
    pub name: String,
    /// The record's type and data.
    pub content: DnsContent,
    /// Time to live, in seconds.
    pub ttl: u32,
    /// Whether the provider proxies traffic for the record.
    pub proxied: bool,
}

/// The mathematical view of a [`DnsRecord`], over which contracts are stated.
pub struct DnsRecordView {
    pub id: Seq<char>,
    pub zone_id: Seq<char>,
    pub name: Seq<char>,
    pub content: DnsContentView,
    pub ttl: u32,
    pub proxied: bool,
}

impl View for DnsRecord {
    type V = DnsRecordView;

    open spec fn view(&self) -> DnsRecordView {
        DnsRecordView {
            id: self.id@,
            zone_id: self.zone_id@,
            name: self.name@,
            content: self.content@,
            ttl: self.ttl,
            proxied: self.proxied,
        }
    }
}

impl DnsContent {
    /// Whether this is the content of an A record.
    pub fn is_a(&self) -> (yes: bool)
        ensures
            yes == (self@ is A),
    {
        match self {
            DnsContent::A { .. } => true,
            _ => false,
        }
    }
}

impl DnsRecord {
    /// Whether this is an A record: the only type of record that is ever
    /// updated.
    pub fn is_a(&self) -> (yes: bool)
        ensures
            yes == (self@.content is A),
    {
        self.content.is_a()
    }
}

/// The views of the records of a listing, in the listing's order.
pub open spec fn record_views(records: Seq<DnsRecord>) -> Seq<DnsRecordView> {
    Seq::new(records.len(), |i: int| records[i]@)
}

} // verus!
