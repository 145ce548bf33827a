use wt_event_handler::text::str_contains;
use wt_event_handler::webhook_handler::{
    default_keyword_list, match_filter, news_post_targets, simple_post_targets, webhook_message,
};
use wt_event_handler::webhooks::{FilterType, Hooks, WebhookAuth};

fn hook(name: &str, filter: FilterType, keywords: &[&str]) -> Hooks {
    Hooks {
        name: name.to_string(),
        token: "hook-token".to_string(),
        uid: 42,
        filter,
        keywords: keywords.iter().map(|k| k.to_string()).collect(),
    }
}

const DEVBLOG: &str = "https://warthunder.com/en/news/7000-development-devblog-new-tanks";
const PLAIN: &str = "https://warthunder.com/en/news/7001-hello-pilots";

#[test]
fn contains_finds_substrings() {
    assert!(str_contains("abcdef", "cde"));
    assert!(str_contains("abcdef", "abcdef"));
    assert!(str_contains("abcdef", ""));
    assert!(str_contains("", ""));
    assert!(!str_contains("abcdef", "abd"));
    assert!(!str_contains("abc", "abcd"));
    assert!(!str_contains("", "a"));
    assert!(str_contains("grüße", "üß"));
}

#[test]
fn default_filter_matches_builtin_keywords() {
    let h = hook("d", FilterType::Default, &["ignored"]);
    assert_eq!(match_filter(DEVBLOG, &h), Some(DEVBLOG));
    assert_eq!(match_filter(PLAIN, &h), None);
    assert_eq!(match_filter("big summer sale", &h), Some("big summer sale"));
    assert_eq!(match_filter("Devblog", &h), None);
}

#[test]
fn default_keywords_are_the_builtin_list() {
    let list = default_keyword_list();
    assert_eq!(list.len(), 27);
    assert_eq!(list[0], "devblog");
    assert_eq!(list[21], "2021");
    assert_eq!(list[26], "servers");
}

#[test]
fn blacklist_rejects_listed_keywords() {
    let h = hook("b", FilterType::Blacklist, &["sale", "devblog"]);
    assert_eq!(match_filter(DEVBLOG, &h), None);
    assert_eq!(match_filter(PLAIN, &h), Some(PLAIN));
}

#[test]
fn empty_blacklist_accepts_everything() {
    let h = hook("b", FilterType::Blacklist, &[]);
    assert_eq!(match_filter(DEVBLOG, &h), Some(DEVBLOG));
    assert_eq!(match_filter("", &h), Some(""));
}

#[test]
fn whitelist_accepts_only_listed_keywords() {
    let h = hook("w", FilterType::Whitelist, &["pilots", "ships"]);
    assert_eq!(match_filter(PLAIN, &h), Some(PLAIN));
    assert_eq!(match_filter(DEVBLOG, &h), None);
}

#[test]
fn empty_whitelist_accepts_nothing() {
    let h = hook("w", FilterType::Whitelist, &[]);
    assert_eq!(match_filter(DEVBLOG, &h), None);
    assert_eq!(match_filter("", &h), None);
}

#[test]
fn empty_keyword_matches_every_post() {
    let w = hook("w", FilterType::Whitelist, &[""]);
    let b = hook("b", FilterType::Blacklist, &[""]);
    assert_eq!(match_filter(PLAIN, &w), Some(PLAIN));
    assert_eq!(match_filter(PLAIN, &b), None);
}

#[test]
fn blacklist_and_whitelist_split_posts() {
    let keywords = ["tanks", "event"];
    let b = hook("b", FilterType::Blacklist, &keywords);
    let w = hook("w", FilterType::Whitelist, &keywords);
    for post in [DEVBLOG, PLAIN, "", "event"] {
        assert_ne!(match_filter(post, &b).is_some(), match_filter(post, &w).is_some());
    }
}

#[test]
fn adding_a_whitelist_keyword_keeps_posts() {
    let w1 = hook("w", FilterType::Whitelist, &["pilots"]);
    let w2 = hook("w", FilterType::Whitelist, &["pilots", "tanks"]);
    assert!(match_filter(PLAIN, &w1).is_some());
    assert!(match_filter(PLAIN, &w2).is_some());
    assert!(match_filter(DEVBLOG, &w1).is_none());
    assert!(match_filter(DEVBLOG, &w2).is_some());
}

#[test]
fn news_targets_are_accepting_clients_in_order() {
    let auth = WebhookAuth {
        hooks: vec![
            hook("a", FilterType::Default, &[]),
            hook("b", FilterType::Whitelist, &["pilots"]),
            hook("c", FilterType::Blacklist, &["tanks"]),
            hook("d", FilterType::Whitelist, &["tanks"]),
        ],
    };
    assert_eq!(news_post_targets(DEVBLOG, &auth), vec![0, 3]);
    assert_eq!(news_post_targets(PLAIN, &auth), vec![1, 2]);
    let empty = WebhookAuth { hooks: vec![] };
    assert!(news_post_targets(DEVBLOG, &empty).is_empty());
}

#[test]
fn simple_targets_are_every_client() {
    let auth = WebhookAuth {
        hooks: vec![hook("a", FilterType::Whitelist, &[]), hook("b", FilterType::Default, &[])],
    };
    assert_eq!(simple_post_targets(&auth), vec![0, 1]);
    assert!(simple_post_targets(&WebhookAuth { hooks: vec![] }).is_empty());
}

#[test]
fn message_wraps_content_as_link_label() {
    assert_eq!(webhook_message(PLAIN), format!("[{}]()", PLAIN));
    assert_eq!(webhook_message(""), "[]()");
}

#[test]
fn add_then_remove_last_restores_clients() {
    let mut auth = WebhookAuth { hooks: vec![hook("a", FilterType::Default, &[])] };
    let before = auth.clone();
    let extra = hook("b", FilterType::Whitelist, &["x"]);
    auth.add_hook(extra.clone());
    assert_eq!(auth.hooks.len(), 2);
    let removed = auth.remove_hook(1);
    assert_eq!(removed, extra);
    assert_eq!(auth, before);
}

#[test]
fn remove_hook_shifts_later_clients() {
    let mut auth = WebhookAuth {
        hooks: vec![
            hook("a", FilterType::Default, &[]),
            hook("b", FilterType::Default, &[]),
            hook("c", FilterType::Default, &[]),
        ],
    };
    let removed = auth.remove_hook(0);
    assert_eq!(removed.name, "a");
    let names: Vec<&str> = auth.hooks.iter().map(|h| h.name.as_str()).collect();
    assert_eq!(names, vec!["b", "c"]);
}
