use ddns::locator::{find_dns_record_by_name, is_eligible, list_request, ListDnsRecords};
use ddns::record::{DnsContent, DnsRecord, Ipv4Address, Ipv6Address};

fn a_record(id: &str, zone: &str, name: &str, address: Ipv4Address) -> DnsRecord {
    DnsRecord {
        id: id.to_string(),
        zone_id: zone.to_string(),
        name: name.to_string(),
        content: DnsContent::A { content: address },
        ttl: 300,
        proxied: false,
    }
}

fn record_with(id: &str, zone: &str, name: &str, content: DnsContent) -> DnsRecord {
    DnsRecord {
        id: id.to_string(),
        zone_id: zone.to_string(),
        name: name.to_string(),
        content,
        ttl: 120,
        proxied: true,
    }
}

fn find(records: Vec<DnsRecord>, zone: &str, name: &str) -> Option<DnsRecord> {
    find_dns_record_by_name(records, &zone.to_string(), &name.to_string())
}

#[test]
fn is_a_tells_a_records_from_all_other_types() {
    let text = || "target.example.com".to_string();
    assert!(DnsContent::A { content: Ipv4Address(1, 2, 3, 4) }.is_a());
    assert!(!DnsContent::AAAA { content: Ipv6Address(1) }.is_a());
    assert!(!DnsContent::CNAME { content: text() }.is_a());
    assert!(!DnsContent::NS { content: text() }.is_a());
    assert!(!DnsContent::MX { content: text(), priority: 10 }.is_a());
    assert!(!DnsContent::TXT { content: text() }.is_a());
    assert!(!DnsContent::SRV { content: text() }.is_a());
}

#[test]
fn record_is_a_goes_by_its_content() {
    assert!(a_record("R1", "Z1", "home.example.com", Ipv4Address(1, 2, 3, 4)).is_a());
    let cname = DnsContent::CNAME { content: "other.example.com".to_string() };
    assert!(!record_with("R2", "Z1", "home.example.com", cname).is_a());
}

#[test]
fn eligible_needs_name_zone_and_a_content() {
    let zone = "Z1".to_string();
    let name = "home.example.com".to_string();
    let address = Ipv4Address(1, 2, 3, 4);
    assert!(is_eligible(&a_record("R1", "Z1", "home.example.com", address), &zone, &name));
    assert!(!is_eligible(&a_record("R1", "Z2", "home.example.com", address), &zone, &name));
    assert!(!is_eligible(&a_record("R1", "Z1", "work.example.com", address), &zone, &name));
    let aaaa = DnsContent::AAAA { content: Ipv6Address(1) };
    assert!(!is_eligible(&record_with("R1", "Z1", "home.example.com", aaaa), &zone, &name));
}

#[test]
fn names_are_compared_exactly() {
    let zone = "Z1".to_string();
    let name = "home.example.com".to_string();
    let address = Ipv4Address(1, 2, 3, 4);
    assert!(!is_eligible(&a_record("R1", "Z1", "Home.example.com", address), &zone, &name));
    assert!(!is_eligible(&a_record("R1", "Z1", "home.example.com.", address), &zone, &name));
    assert!(!is_eligible(&a_record("R1", "Z1", "home.example.co", address), &zone, &name));
    assert!(!is_eligible(&a_record("R1", "z1", "home.example.com", address), &zone, &name));
}

#[test]
fn list_request_filters_by_name_within_the_zone() {
    let request = list_request(&"Z1".to_string(), &"home.example.com".to_string());
    assert_eq!(
        request,
        ListDnsRecords {
            zone_identifier: "Z1".to_string(),
            name: Some("home.example.com".to_string()),
        }
    );
}

#[test]
fn empty_listing_holds_no_record() {
    assert_eq!(find(Vec::new(), "Z1", "home.example.com"), None);
}

#[test]
fn the_one_eligible_record_is_found() {
    let record = a_record("R1", "Z1", "home.example.com", Ipv4Address(1, 2, 3, 4));
    assert_eq!(find(vec![record.clone()], "Z1", "home.example.com"), Some(record));
}

#[test]
fn listing_without_a_match_finds_nothing() {
    let records = vec![
        a_record("R1", "Z1", "work.example.com", Ipv4Address(1, 2, 3, 4)),
        a_record("R2", "Z2", "home.example.com", Ipv4Address(1, 2, 3, 4)),
        record_with("R3", "Z1", "home.example.com", DnsContent::TXT { content: "v=spf1".to_string() }),
    ];
    assert_eq!(find(records, "Z1", "home.example.com"), None);
}

#[test]
fn first_of_several_eligible_records_wins() {
    let first = a_record("R1", "Z1", "home.example.com", Ipv4Address(1, 2, 3, 4));
    let mut second = a_record("R2", "Z1", "home.example.com", Ipv4Address(9, 9, 9, 9));
    second.ttl = 60;
    second.proxied = true;
    let found = find(vec![first.clone(), second.clone()], "Z1", "home.example.com");
    assert_eq!(found, Some(first.clone()));
    let found = find(vec![second.clone(), first], "Z1", "home.example.com");
    assert_eq!(found, Some(second));
}

#[test]
fn records_before_the_match_are_passed_over() {
    let wanted = a_record("R4", "Z1", "home.example.com", Ipv4Address(1, 2, 3, 4));
    let records = vec![
        a_record("R1", "Z1", "work.example.com", Ipv4Address(7, 7, 7, 7)),
        record_with("R2", "Z1", "home.example.com", DnsContent::AAAA { content: Ipv6Address(1) }),
        a_record("R3", "Z2", "home.example.com", Ipv4Address(8, 8, 8, 8)),
        wanted.clone(),
        a_record("R5", "Z1", "home.example.com", Ipv4Address(9, 9, 9, 9)),
    ];
    assert_eq!(find(records, "Z1", "home.example.com"), Some(wanted));
}

#[test]
fn what_follows_the_match_changes_nothing() {
    let wanted = a_record("R1", "Z1", "home.example.com", Ipv4Address(1, 2, 3, 4));
    let alone = find(vec![wanted.clone()], "Z1", "home.example.com");
    let followed = find(
        vec![
            wanted.clone(),
            a_record("R2", "Z1", "home.example.com", Ipv4Address(9, 9, 9, 9)),
            record_with("R3", "Z1", "home.example.com", DnsContent::NS { content: "ns".to_string() }),
        ],
        "Z1",
        "home.example.com",
    );
    assert_eq!(alone, followed);
    assert_eq!(followed, Some(wanted));
}

#[test]
fn record_of_another_type_is_never_selected() {
    let name = "home.example.com";
    let text = || "other.example.com".to_string();
    let others = vec![
        DnsContent::AAAA { content: Ipv6Address(0x2001_0db8_0000_0000_0000_0000_0000_0001) },
        DnsContent::CNAME { content: text() },
        DnsContent::NS { content: text() },
        DnsContent::MX { content: text(), priority: 5 },
        DnsContent::TXT { content: text() },
        DnsContent::SRV { content: text() },
    ];
    for content in others {
        assert_eq!(find(vec![record_with("R1", "Z1", name, content)], "Z1", name), None);
    }
}

#[test]
fn cname_before_an_a_record_is_skipped() {
    let cname = DnsContent::CNAME { content: "other.example.com".to_string() };
    let wanted = a_record("R2", "Z1", "home.example.com", Ipv4Address(1, 2, 3, 4));
    let records = vec![record_with("R1", "Z1", "home.example.com", cname), wanted.clone()];
    assert_eq!(find(records, "Z1", "home.example.com"), Some(wanted));
}

#[test]
fn found_record_comes_back_whole() {
    let mut record = a_record("R1", "Z1", "home.example.com", Ipv4Address(10, 0, 0, 1));
    record.ttl = 1;
    record.proxied = true;
    let found = find(vec![record], "Z1", "home.example.com").unwrap();
    assert_eq!(found.id, "R1");
    assert_eq!(found.zone_id, "Z1");
    assert_eq!(found.name, "home.example.com");
    assert_eq!(found.content, DnsContent::A { content: Ipv4Address(10, 0, 0, 1) });
    assert_eq!(found.ttl, 1);
    assert!(found.proxied);
}

#[test]
fn match_at_the_end_of_a_long_listing_is_found() {
    let mut records = Vec::new();
    for i in 0..200u32 {
        records.push(a_record(&format!("R{}", i), "Z1", "work.example.com", Ipv4Address(1, 1, 1, 1)));
    }
    let wanted = a_record("last", "Z1", "home.example.com", Ipv4Address(1, 2, 3, 4));
    records.push(wanted.clone());
    assert_eq!(find(records, "Z1", "home.example.com"), Some(wanted));
}

#[test]
fn empty_name_and_zone_are_compared_like_any_other() {
    let record = a_record("R1", "", "", Ipv4Address(1, 2, 3, 4));
    assert_eq!(find(vec![record.clone()], "", ""), Some(record.clone()));
    assert_eq!(find(vec![record], "Z1", ""), None);
}
