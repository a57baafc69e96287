use nostr_relays::relays::Relays;
use nostr_relays::report::u64_to_dec;

#[test]
fn add_idempotent() {
    let mut r = Relays::new();
    assert_eq!(r.count(), 0);
    let first = r.add("wss://relay.one.example.com");
    assert!(first);
    assert_eq!(r.count(), 1);
    let second = r.add("wss://relay.one.example.com");
    assert!(!second);
    assert_eq!(r.count(), 1);
}

#[test]
fn add_malformed_is_rejected() {
    let mut r = Relays::new();
    let ok = r.add("not a url");
    assert!(!ok);
    assert_eq!(r.count(), 0);
}

#[test]
fn add_normalizes_addresses() {
    let mut r = Relays::new();
    assert!(r.add("wss://A.Example.Com"));
    // The same endpoint under another spelling is not a new member.
    assert!(!r.add("wss://a.example.com"));
    assert_eq!(r.count(), 1);
    let members = r.get_some(10);
    assert_eq!(members, vec!["wss://a.example.com/".to_string()]);
}

#[test]
fn sample_is_bounded() {
    let mut r = Relays::new();
    assert!(r.add("wss://one.example.com"));
    assert!(r.add("wss://two.example.com"));
    assert!(r.add("wss://three.example.com"));
    assert_eq!(r.get_some(0).len(), 0);
    assert_eq!(r.get_some(2).len(), 2);
    assert_eq!(r.get_some(3).len(), 3);
    assert_eq!(r.get_some(50).len(), 3);
}

#[test]
fn sample_of_empty_registry() {
    let r = Relays::new();
    assert_eq!(r.get_some(0).len(), 0);
    assert_eq!(r.get_some(7).len(), 0);
    r.print();
}

#[test]
fn report_of_empty_registry_has_seed() {
    let r = Relays::new();
    assert_eq!(r.dump(), "[\"RELAYS\",{\"0\":\"wss://relay.gnostr.org\"}]");
    let entries = r.report_list("wss://relay.gnostr.org");
    assert_eq!(entries, vec!["wss://relay.gnostr.org".to_string()]);
}

#[test]
fn report_lists_members_then_seed() {
    let mut r = Relays::new();
    assert!(r.add("wss://one.example.com"));
    assert!(r.add("wss://two.example.com"));
    assert_eq!(
        r.dump(),
        "[\"RELAYS\",{\"0\":\"wss://one.example.com/\"},{\"1\":\"wss://two.example.com/\"},{\"2\":\"wss://relay.gnostr.org\"}]"
    );
    let entries = r.report_list("wss://relay.gnostr.org");
    assert_eq!(entries.len(), 3);
    assert_eq!(entries[2], "wss://relay.gnostr.org");
    let seed_count = entries
        .iter()
        .filter(|e| e.as_str() == "wss://relay.gnostr.org")
        .count();
    assert_eq!(seed_count, 1);
}

#[test]
fn report_with_custom_seed() {
    let mut r = Relays::new();
    assert!(r.add("wss://one.example.com"));
    assert_eq!(
        r.dump_with_seed("wss://seed.example.org"),
        "[\"RELAYS\",{\"0\":\"wss://one.example.com/\"},{\"1\":\"wss://seed.example.org\"}]"
    );
}

#[test]
fn report_indices_go_past_ten() {
    let mut r = Relays::new();
    for i in 0..11 {
        assert!(r.add(&format!("wss://relay{}.example.com", i)));
    }
    let text = r.dump();
    assert!(text.ends_with("{\"11\":\"wss://relay.gnostr.org\"}]"));
    assert!(text.contains("{\"10\":\"wss://relay10.example.com/\"}"));
}

#[test]
fn decimal_rendering() {
    assert_eq!(u64_to_dec(0), "0");
    assert_eq!(u64_to_dec(7), "7");
    assert_eq!(u64_to_dec(10), "10");
    assert_eq!(u64_to_dec(12345), "12345");
    assert_eq!(u64_to_dec(u64::MAX), "18446744073709551615");
}
