use ddns::record::{DnsContent, DnsRecord, Ipv4Address};
use ddns::updater::{update_request, UpdateDnsRecord, UpdateDnsRecordParams};

fn located(ttl: u32, proxied: bool) -> DnsRecord {
    DnsRecord {
        id: "R1".to_string(),
        zone_id: "Z1".to_string(),
        name: "home.example.com".to_string(),
        content: DnsContent::A { content: Ipv4Address(1, 2, 3, 4) },
        ttl,
        proxied,
    }
}

#[test]
fn update_is_addressed_by_zone_and_record_id() {
    let request = update_request(&located(300, false), Ipv4Address(5, 6, 7, 8));
    assert_eq!(request.zone_identifier, "Z1");
    assert_eq!(request.identifier, "R1");
}

#[test]
fn update_carries_the_whole_parameter_set() {
    let request = update_request(&located(300, false), Ipv4Address(5, 6, 7, 8));
    assert_eq!(
        request,
        UpdateDnsRecord {
            zone_identifier: "Z1".to_string(),
            identifier: "R1".to_string(),
            params: UpdateDnsRecordParams {
                name: "home.example.com".to_string(),
                ttl: Some(300),
                proxied: Some(false),
                content: DnsContent::A { content: Ipv4Address(5, 6, 7, 8) },
            },
        }
    );
}

#[test]
fn ttl_and_proxy_setting_are_preserved_explicitly() {
    for (ttl, proxied) in [(1u32, true), (0, false), (86400, true), (u32::MAX, false)] {
        let request = update_request(&located(ttl, proxied), Ipv4Address(5, 6, 7, 8));
        assert_eq!(request.params.ttl, Some(ttl));
        assert_eq!(request.params.proxied, Some(proxied));
    }
}

#[test]
fn only_the_content_changes() {
    let record = located(300, true);
    let request = update_request(&record, Ipv4Address(203, 0, 113, 9));
    assert_eq!(request.params.name, record.name);
    assert_eq!(request.params.ttl, Some(record.ttl));
    assert_eq!(request.params.proxied, Some(record.proxied));
    assert_ne!(request.params.content, record.content);
    assert_eq!(request.params.content, DnsContent::A { content: Ipv4Address(203, 0, 113, 9) });
}

#[test]
fn update_to_the_same_address_is_still_a_full_update() {
    let record = located(300, false);
    let request = update_request(&record, Ipv4Address(1, 2, 3, 4));
    assert_eq!(request.params.content, record.content);
    assert_eq!(request.params.ttl, Some(300));
    assert_eq!(request.params.proxied, Some(false));
}

#[test]
fn update_leaves_the_record_as_it_was() {
    let record = located(300, false);
    let before = record.clone();
    let _ = update_request(&record, Ipv4Address(5, 6, 7, 8));
    assert_eq!(record, before);
}
