use wt_event_handler::start_profile::{choose_profile, StartProfile};
use wt_event_handler::text::str_equals;

#[test]
fn each_answer_selects_its_profile() {
    assert_eq!(choose_profile("1"), Some(StartProfile::Regular));
    assert_eq!(choose_profile("2"), Some(StartProfile::WithoutHooks));
    assert_eq!(choose_profile("3"), Some(StartProfile::AddWebhook));
    assert_eq!(choose_profile("4"), Some(StartProfile::RemoveWebhook));
    assert_eq!(choose_profile("5"), Some(StartProfile::WithoutHooksOrVerification));
    assert_eq!(choose_profile("6"), Some(StartProfile::TestHook));
}

#[test]
fn other_answers_select_nothing() {
    assert_eq!(choose_profile(""), None);
    assert_eq!(choose_profile("7"), None);
    assert_eq!(choose_profile("11"), None);
    assert_eq!(choose_profile(" 1"), None);
}

#[test]
fn profiles_without_hooks() {
    assert!(StartProfile::Regular.sends_hooks());
    assert!(!StartProfile::WithoutHooks.sends_hooks());
    assert!(StartProfile::AddWebhook.sends_hooks());
    assert!(StartProfile::RemoveWebhook.sends_hooks());
    assert!(!StartProfile::WithoutHooksOrVerification.sends_hooks());
    assert!(!StartProfile::TestHook.sends_hooks());
}

#[test]
fn str_equals_compares_characters() {
    assert!(str_equals("abc", "abc"));
    assert!(str_equals("", ""));
    assert!(!str_equals("abc", "abd"));
    assert!(!str_equals("abc", "ab"));
    assert!(!str_equals("", "a"));
}

