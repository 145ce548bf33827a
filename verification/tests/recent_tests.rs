use wt_event_handler::recent::{Channel, Meta, Recent, ScrapeType};

fn channel(urls: &[&str]) -> Channel {
    Channel {
        name: "forums".to_string(),
        domain: "https://forum.warthunder.com".to_string(),
        scrape_type: ScrapeType::Forum,
        selector: "a".to_string(),
        pin: "".to_string(),
        old_urls: urls.iter().map(|u| u.to_string()).collect(),
    }
}

#[test]
fn unseen_url_is_new() {
    let ch = channel(&["https://a", "https://b"]);
    assert!(ch.is_new("https://c"));
    assert!(!ch.is_new("https://a"));
    assert!(!ch.is_new("https://b"));
}

#[test]
fn empty_channel_sees_everything_as_new() {
    let ch = channel(&[]);
    assert!(ch.is_new(""));
    assert!(ch.is_new("https://a"));
}

#[test]
fn prefix_of_seen_url_is_still_new() {
    let ch = channel(&["https://abc"]);
    assert!(ch.is_new("https://ab"));
    assert!(ch.is_new("https://abcd"));
}

#[test]
fn stored_url_is_not_new() {
    let mut ch = channel(&["https://a"]);
    assert!(ch.is_new("https://new"));
    ch.store_recent("https://new");
    assert!(!ch.is_new("https://new"));
    assert!(!ch.is_new("https://a"));
    assert!(ch.is_new("https://other"));
    assert_eq!(ch.old_urls, vec!["https://a".to_string(), "https://new".to_string()]);
}

#[test]
fn storing_twice_records_once() {
    let mut ch = channel(&[]);
    ch.store_recent("https://x");
    ch.store_recent("https://x");
    assert_eq!(ch.old_urls, vec!["https://x".to_string()]);
    assert_eq!(ch.name, "forums");
    assert_eq!(ch.scrape_type, ScrapeType::Forum);
}

#[test]
fn clear_recent_urls_forgets_every_url() {
    let mut recent = Recent {
        meta: Meta { timestamp: 17 },
        sources: vec![channel(&["https://a"]), channel(&["https://b", "https://c"])],
    };
    recent.clear_recent_urls();
    assert_eq!(recent.meta.timestamp, 17);
    assert_eq!(recent.sources.len(), 2);
    for ch in &recent.sources {
        assert!(ch.old_urls.is_empty());
        assert!(ch.is_new("https://a"));
        assert_eq!(ch.domain, "https://forum.warthunder.com");
    }
}

#[test]
fn set_timestamp_accepts_non_negative_seconds() {
    let mut meta = Meta { timestamp: 5 };
    assert!(meta.set_timestamp(1_650_000_000));
    assert_eq!(meta.timestamp, 1_650_000_000);
    assert!(meta.set_timestamp(0));
    assert_eq!(meta.timestamp, 0);
}

#[test]
fn set_timestamp_refuses_negative_seconds() {
    let mut meta = Meta { timestamp: 5 };
    assert!(!meta.set_timestamp(-1));
    assert_eq!(meta.timestamp, 5);
}

#[test]
fn update_timestamp_stores_non_negative_reading() {
    let mut recent = Recent { meta: Meta { timestamp: 0 }, sources: vec![channel(&["https://a"])] };
    assert!(recent.update_timestamp(1_700_000_000));
    assert_eq!(recent.meta.timestamp, 1_700_000_000);
    assert_eq!(recent.sources.len(), 1);
    assert_eq!(recent.sources[0].old_urls, vec!["https://a".to_string()]);
}

#[test]
fn update_timestamp_refuses_negative_reading() {
    let mut recent = Recent { meta: Meta { timestamp: 9 }, sources: vec![channel(&["https://a"])] };
    assert!(!recent.update_timestamp(-5));
    assert_eq!(recent.meta.timestamp, 9);
    assert_eq!(recent.sources[0].old_urls, vec!["https://a".to_string()]);
}

#[test]
fn recorded_url_stays_not_new_after_later_recordings() {
    let mut ch = channel(&[]);
    ch.store_recent("https://first");
    for url in ["https://second", "https://third", "https://first", "https://fourth"] {
        ch.store_recent(url);
        assert!(!ch.is_new("https://first"));
    }
}

#[test]
fn default_recent_is_empty() {
    let recent = Recent::default();
    assert_eq!(recent.meta, Meta { timestamp: 0 });
    assert!(recent.sources.is_empty());
    assert_eq!(Meta::default().timestamp, 0);
}
