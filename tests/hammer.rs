use banhammer::{
    AddBanRequest, Ban, BanHammer, BanTypesEnum, Decision, Event, RemoveBanRequest, TagEntry,
};

fn ban(content: &str, regex: bool, ban_type: BanTypesEnum) -> Ban {
    Ban { content: content.to_string(), regex, reason: None, ban_type }
}

fn event(content: &str) -> Event {
    Event {
        id: vec![0xab, 0x01],
        pubkey: vec![0x01, 0x02, 0x03],
        created_at: 1_700_000_000,
        content: content.to_string(),
        tags: Vec::new(),
    }
}

fn ip(s: &str) -> Option<String> {
    Some(s.to_string())
}

#[test]
fn test_banhammer_default() {
    let banhammer = BanHammer::new(None);

    assert_eq!(banhammer.ips.len(), 0);
    assert_eq!(banhammer.tags.len(), 0);
    assert_eq!(banhammer.words.len(), 0);
    assert_eq!(banhammer.users.len(), 0);
}

#[test]
fn test_content_invalidation() {
    let ban = Ban {
        content: "test".to_string(),
        regex: false,
        reason: Some("test reason".to_string()),
        ban_type: BanTypesEnum::CONTENT,
    };
    let banhammer = BanHammer {
        words: [ban].to_vec(),
        tags: [].to_vec(),
        users: [].to_vec(),
        ips: [].to_vec(),
    };

    let result = banhammer.invalidate_content("test".to_string());
    assert_eq!(true, result);

    let result = banhammer.invalidate_content("lipsum".to_string());
    assert_eq!(false, result);
}

#[test]
fn test_user_invalidation() {
    let ban = Ban {
        content: "npub1234".to_string(),
        regex: false,
        reason: Some("test reason".to_string()),
        ban_type: BanTypesEnum::USER,
    };
    let banhammer = BanHammer {
        words: [].to_vec(),
        tags: [].to_vec(),
        users: [ban].to_vec(),
        ips: [].to_vec(),
    };

    // The bytes of "test" encode as npub1w3jhxaqqs665n, which does not hold
    // the banned pattern.
    let result = banhammer.invalidate_user("test".into());
    assert_eq!(false, result);

    let hit = BanHammer {
        words: [].to_vec(),
        tags: [].to_vec(),
        users: [ban_of_user("npub1w3jhxaq")].to_vec(),
        ips: [].to_vec(),
    };
    assert_eq!(true, hit.invalidate_user("test".into()));
}

fn ban_of_user(pattern: &str) -> Ban {
    ban(pattern, false, BanTypesEnum::USER)
}

#[test]
fn test_ip_invalidation() {
    let ban = Ban {
        content: "127.0.0.1".to_string(),
        regex: false,
        reason: Some("test reason".to_string()),
        ban_type: BanTypesEnum::IP,
    };
    let banhammer = BanHammer {
        words: [].to_vec(),
        tags: [].to_vec(),
        users: [].to_vec(),
        ips: [ban].to_vec(),
    };
    assert!(banhammer.invalidate_ip(ip("127.0.0.1")));
    assert!(!banhammer.invalidate_ip(ip("10.0.0.1")));
    assert!(banhammer.invalidate_ip(None));
}

#[test]
fn test_tags_invalidation() {
    let ban = Ban {
        content: "banhammer".to_string(),
        regex: false,
        reason: Some("test reason".to_string()),
        ban_type: BanTypesEnum::IP,
    };
    let banhammer = BanHammer {
        words: [].to_vec(),
        tags: [ban].to_vec(),
        users: [].to_vec(),
        ips: [].to_vec(),
    };
    let hit = vec![TagEntry {
        name: "t".to_string(),
        values: vec!["nostr".to_string(), "banhammer".to_string()],
    }];
    assert!(banhammer.invalidate_tags(hit));
    // Tag values are compared whole, not as substrings.
    let near = vec![TagEntry { name: "t".to_string(), values: vec!["banhammers".to_string()] }];
    assert!(!banhammer.invalidate_tags(near));
    assert!(!banhammer.invalidate_tags(Vec::new()));
}

#[test]
fn absent_ip_is_denied_on_clean_event() {
    let store = BanHammer::new(Some(Vec::new()));
    let r = store.evaluate(&event("hello"), &None);
    assert_eq!(r.decision, Decision::Deny);
    assert_eq!(r.audit.len(), 1);
    assert_eq!(r.audit[0].ban_type, BanTypesEnum::IP);
    assert_eq!(r.audit[0].ip, "");
}

#[test]
fn unencodable_identity_is_denied() {
    let store = BanHammer::new(Some(Vec::new()));
    assert!(store.invalidate_address(None));
    assert!(!store.invalidate_address(Some("npub1xyz".to_string())));
}

#[test]
fn appended_content_rule_is_listed_and_applied() {
    let mut store = BanHammer::new(Some(vec![ban("first", false, BanTypesEnum::CONTENT)]));
    let e = event("some banned words");
    assert_eq!(store.evaluate(&e, &ip("5.6.7.8")).decision, Decision::Permit);

    store.add_ban(ban("banned", false, BanTypesEnum::CONTENT));
    let listed = store.list(BanTypesEnum::CONTENT);
    assert_eq!(listed.len(), 2);
    assert_eq!(listed[0].content, "first");
    assert_eq!(listed[1].content, "banned");
    assert_eq!(store.evaluate(&e, &ip("5.6.7.8")).decision, Decision::Deny);
}

#[test]
fn unreadable_snapshot_gives_empty_store() {
    let store = BanHammer::new(None);
    for c in [BanTypesEnum::CONTENT, BanTypesEnum::TAG, BanTypesEnum::USER, BanTypesEnum::IP] {
        assert!(store.list(c).is_empty());
    }
}

#[test]
fn content_rule_scenario() {
    let store = BanHammer::new(Some(vec![ban("banned", false, BanTypesEnum::CONTENT)]));
    let denied = store.evaluate(&event("this is banned text"), &ip("5.6.7.8"));
    assert_eq!(denied.decision, Decision::Deny);
    assert_eq!(denied.audit.len(), 1);
    assert_eq!(denied.audit[0].ban_type, BanTypesEnum::CONTENT);
    let permitted = store.evaluate(&event("clean text"), &ip("5.6.7.8"));
    assert_eq!(permitted.decision, Decision::Permit);
    assert!(permitted.audit.is_empty());
}

#[test]
fn ip_rule_scenario() {
    let store = BanHammer::new(Some(vec![ban("1.2.3.4", false, BanTypesEnum::IP)]));
    assert_eq!(store.evaluate(&event("hi"), &ip("1.2.3.4")).decision, Decision::Deny);
    assert_eq!(store.evaluate(&event("hi"), &ip("5.6.7.8")).decision, Decision::Permit);
    assert_eq!(store.evaluate(&event("hi"), &None).decision, Decision::Deny);
}

#[test]
fn every_firing_check_is_audited_in_order() {
    let store = BanHammer::new(Some(vec![
        ban("1.2.3.4", false, BanTypesEnum::IP),
        ban("spam", false, BanTypesEnum::CONTENT),
        ban("npub1", false, BanTypesEnum::USER),
        ban("bad", false, BanTypesEnum::TAG),
    ]));
    let mut e = event("spam spam");
    e.tags = vec![TagEntry { name: "t".to_string(), values: vec!["bad".to_string()] }];
    let r = store.evaluate(&e, &ip("1.2.3.4"));
    assert_eq!(r.decision, Decision::Deny);
    let kinds: Vec<BanTypesEnum> = r.audit.iter().map(|a| a.ban_type).collect();
    assert_eq!(
        kinds,
        vec![BanTypesEnum::IP, BanTypesEnum::CONTENT, BanTypesEnum::USER, BanTypesEnum::TAG]
    );
}

#[test]
fn audit_entry_fields() {
    let store = BanHammer::new(Some(Vec::new()));
    let pubkey = hex_bytes("3bf0c63fcb93463407af97a5e5ee64fa883d107ef9e558472c4eb9aaaefa459d");
    let e = Event {
        id: vec![0xab, 0x01, 0xff],
        pubkey,
        created_at: 1_700_000_000,
        content: "x".to_string(),
        tags: Vec::new(),
    };
    let a = store.rejection_log_prompt(BanTypesEnum::CONTENT, &e, &ip("9.9.9.9"));
    assert_eq!(a.ban_type, BanTypesEnum::CONTENT);
    assert_eq!(a.event_id, "ab01ff");
    assert_eq!(a.ip, "9.9.9.9");
    assert_eq!(a.datetime, "2023-11-14 22:13:20");
    assert_eq!(a.pubkey, "npub180cvv07tjdrrgpa0j7j7tmnyl2yr6yr7l8j4s3evf6u64th6gkwsyjh6w6");

    let epoch = Event { created_at: 0, ..e };
    let b = store.rejection_log_prompt(BanTypesEnum::IP, &epoch, &None);
    assert_eq!(b.datetime, "1970-01-01 00:00:00");
    assert_eq!(b.ip, "");
}

#[test]
fn audit_time_out_of_range_still_recorded() {
    let store = BanHammer::new(Some(Vec::new()));
    let mut e = event("x");
    e.created_at = u64::MAX;
    let a = store.rejection_log_prompt(BanTypesEnum::IP, &e, &None);
    assert_eq!(a.datetime.len(), 19);
}

fn hex_bytes(s: &str) -> Vec<u8> {
    (0..s.len()).step_by(2).map(|i| u8::from_str_radix(&s[i..i + 2], 16).unwrap()).collect()
}

#[test]
fn snapshot_is_partitioned_in_order() {
    let store = BanHammer::new(Some(vec![
        ban("a", false, BanTypesEnum::CONTENT),
        ban("b", false, BanTypesEnum::IP),
        ban("c", false, BanTypesEnum::NIP05),
        ban("d", false, BanTypesEnum::CONTENT),
        ban("e", false, BanTypesEnum::TAG),
        ban("f", false, BanTypesEnum::LUD16),
        ban("g", false, BanTypesEnum::USER),
    ]));
    let words: Vec<String> = store.words.iter().map(|b| b.content.clone()).collect();
    assert_eq!(words, vec!["a".to_string(), "d".to_string()]);
    assert_eq!(store.ips.len(), 1);
    assert_eq!(store.tags.len(), 1);
    assert_eq!(store.users.len(), 1);
    assert!(store.list(BanTypesEnum::NIP05).is_empty());
    assert!(store.list(BanTypesEnum::LUD16).is_empty());
}

#[test]
fn load_keeps_store_without_snapshot() {
    let store = BanHammer::new(Some(vec![ban("a", false, BanTypesEnum::CONTENT)]));
    let kept = store.load(None);
    assert_eq!(kept.words.len(), 1);
    let replaced = kept.load(Some(vec![ban("b", false, BanTypesEnum::IP)]));
    assert_eq!(replaced.words.len(), 0);
    assert_eq!(replaced.ips.len(), 1);
}

#[test]
fn duplicate_rules_are_kept() {
    let mut store = BanHammer::default();
    store.add_ban(ban("x", false, BanTypesEnum::USER));
    store.add_ban(ban("x", false, BanTypesEnum::USER));
    store.add_ban(ban("y", false, BanTypesEnum::NIP05));
    assert_eq!(store.list(BanTypesEnum::USER).len(), 2);
    assert!(store.list(BanTypesEnum::NIP05).is_empty());
}

#[test]
fn list_bans_by_code() {
    let store = BanHammer::new(Some(vec![
        Ban { content: "t".to_string(), regex: true, reason: Some("r".to_string()), ban_type: BanTypesEnum::TAG },
        ban("w", false, BanTypesEnum::CONTENT),
    ]));
    let tags = store.list_bans(1);
    assert_eq!(tags.len(), 1);
    assert_eq!(tags[0].content, "t");
    assert!(tags[0].regex);
    assert_eq!(tags[0].reason, Some("r".to_string()));
    assert_eq!(tags[0].ban_type, 1);
    assert_eq!(store.list_bans(0)[0].ban_type, 0);
    assert!(store.list_bans(7).is_empty());
    assert!(store.list_bans(-1).is_empty());
}

#[test]
fn remove_is_bounds_checked() {
    let mut store = BanHammer::new(Some(vec![
        ban("a", false, BanTypesEnum::IP),
        ban("b", false, BanTypesEnum::IP),
        ban("c", false, BanTypesEnum::CONTENT),
    ]));
    assert!(!store.remove_ban(BanTypesEnum::IP, 2));
    assert!(!store.remove_ban(BanTypesEnum::NIP05, 0));
    assert!(store.remove_ban(BanTypesEnum::IP, 0));
    let ips = store.list(BanTypesEnum::IP);
    assert_eq!(ips.len(), 1);
    assert_eq!(ips[0].content, "b");
    assert_eq!(store.words.len(), 1);
    assert!(store.remove_by_request(&RemoveBanRequest { ban_type: 0, index: 0 }));
    assert!(store.words.is_empty());
    assert!(!store.remove_by_request(&RemoveBanRequest { ban_type: 9, index: 0 }));
}

#[test]
fn add_by_request_checks_the_code() {
    let mut store = BanHammer::default();
    let req = |code: i32| AddBanRequest {
        content: "p".to_string(),
        regex: false,
        reason: None,
        expires_in: None,
        ban_type: code,
    };
    assert!(store.add_by_request(req(3)));
    assert_eq!(store.ips.len(), 1);
    assert!(!store.add_by_request(req(6)));
    assert!(store.add_by_request(req(4)));
    assert_eq!(store.ips.len() + store.words.len() + store.tags.len() + store.users.len(), 1);
    assert!(Ban::from_request(req(-1)).is_none());
    assert_eq!(Ban::from_request(req(1)).unwrap().ban_type, BanTypesEnum::TAG);
}

#[test]
fn appends_are_listed_in_order() {
    let mut store = BanHammer::new(Some(vec![ban("w0", false, BanTypesEnum::CONTENT)]));
    for (p, x) in [("p1", false), ("p2", true), ("p3", false)] {
        assert!(store.add_by_request(AddBanRequest {
            content: p.to_string(),
            regex: x,
            reason: Some(format!("r-{}", p)),
            expires_in: None,
            ban_type: 0,
        }));
    }
    let items = store.list_bans(0);
    let contents: Vec<&str> = items.iter().map(|i| i.content.as_str()).collect();
    assert_eq!(contents, vec!["w0", "p1", "p2", "p3"]);
    assert!(items[2].regex);
    assert_eq!(items[3].reason, Some("r-p3".to_string()));
    assert!(items.iter().all(|i| i.ban_type == 0));
}
