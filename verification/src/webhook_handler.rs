use vstd::prelude::*;

use crate::text::{is_substring, str_contains};
use crate::webhooks::{FilterType, Hooks, WebhookAuth};

verus! {

/// The keywords that a client with the default filter listens for.
pub open spec fn default_keywords() -> Seq<Seq<char>> {
    seq![
        "devblog"@, "event"@, "maintenance"@, "major"@, "trailer"@, "teaser"@, "developers"@,
        "fix"@, "vehicles"@, "economy"@, "changes"@, "sale"@, "twitch"@, "bundles"@, "development"@,
        "shop"@, "pass"@, "season"@, "operation"@, "pass"@, "summer"@, "2021"@, "planned"@, "bonds"@,
        "issues"@, "technical"@, "servers"@,
    ]
}

/// Some keyword of `keywords` occurs in `content`.
pub open spec fn mentions_any(content: Seq<char>, keywords: Seq<Seq<char>>) -> bool {
    exists|i: int| 0 <= i < keywords.len() && is_substring(content, #[trigger] keywords[i])
}

/// Whether a client with this filter and these keywords receives `content`.
pub open spec fn filter_accepts(content: Seq<char>, filter: FilterType, keywords: Seq<Seq<char>>) -> bool {
    match filter {
        FilterType::Default => mentions_any(content, default_keywords()),
        FilterType::Blacklist => !mentions_any(content, keywords),
        FilterType::Whitelist => mentions_any(content, keywords),
    }
}

/// Whether `hook` receives `content`.
pub open spec fn hook_accepts(content: Seq<char>, hook: Hooks) -> bool {
    filter_accepts(content, hook.filter, hook.keywords.deep_view())
}

/// The built-in keyword list, in its fixed order.
pub fn default_keyword_list() -> (res: Vec<&'static str>)
    ensures
        res.deep_view() == default_keywords(),
        res.deep_view() == seq![
            "devblog"@,
            "event"@,
            "maintenance"@,
            "major"@,
            "trailer"@,
            "teaser"@,
            "developers"@,
            "fix"@,
            "vehicles"@,
            "economy"@,
            "changes"@,
            "sale"@,
            "twitch"@,
            "bundles"@,
            "development"@,
            "shop"@,
            "pass"@,
            "season"@,
            "operation"@,
            "pass"@,
            "summer"@,
            "2021"@,
            "planned"@,
            "bonds"@,
            "issues"@,
            "technical"@,
            "servers"@,
        ],
{
    let res = vec![
        "devblog", "event", "maintenance", "major", "trailer", "teaser", "developers",
        "fix", "vehicles", "economy", "changes", "sale", "twitch", "bundles", "development",
        "shop", "pass", "season", "operation", "pass", "summer", "2021", "planned", "bonds",
        "issues", "technical", "servers",
    ];
    assert(res.deep_view() =~= default_keywords());
    res
}

/// Whether one of `keywords` occurs in `content`.
fn mentions_any_str(content: &str, keywords: &Vec<&str>) -> (res: bool)
    ensures
        res == mentions_any(content@, keywords.deep_view()),
{
    let mut i: usize = 0;
    while i < keywords.len()
        invariant
            i <= keywords@.len(),
            forall|j: int| 0 <= j < i ==> !is_substring(content@, #[trigger] keywords.deep_view()[j]),
        decreases keywords@.len() - i,
    {
        if str_contains(content, keywords[i]) {
            assert(is_substring(content@, keywords.deep_view()[i as int]));
            return true;
        }
        i = i + 1;
    }
    false
}

/// Whether one of `keywords` occurs in `content`.
fn mentions_any_string(content: &str, keywords: &Vec<String>) -> (res: bool)
    ensures
        res == mentions_any(content@, keywords.deep_view()),
{
    let mut i: usize = 0;
    while i < keywords.len()
        invariant
            i <= keywords@.len(),
            forall|j: int| 0 <= j < i ==> !is_substring(content@, #[trigger] keywords.deep_view()[j]),
        decreases keywords@.len() - i,
    {
        if str_contains(content, keywords[i].as_str()) {
            assert(is_substring(content@, keywords.deep_view()[i as int]));
            return true;
        }
        i = i + 1;
    }
    false
}

/// Decides whether `hook` receives `content`: `Some(content)` if its filter
/// lets the post through, `None` otherwise.
pub fn match_filter<'a>(content: &'a str, hook: &'a Hooks) -> (res: Option<&'a str>)
    ensures
        res == (if hook_accepts(content@, *hook) { Some(content) } else { None::<&'a str> }),
        res is Some ==> res == Some(content),
        hook.filter == FilterType::Whitelist ==> (res is Some <==> exists|i: int|
            0 <= i < hook.keywords@.len() && is_substring(content@, #[trigger] hook.keywords@[i]@)),
        hook.filter == FilterType::Blacklist ==> (res is Some <==> forall|i: int|
            0 <= i < hook.keywords@.len() ==> !is_substring(content@, #[trigger] hook.keywords@[i]@)),
        hook.filter == FilterType::Default ==> (res is Some <==> builtin_keyword_occurs(content@)),
{
    proof {
        law_client_reads_every_keyword(content@, *hook);
        law_default_filter_reads_every_builtin_keyword(content@, hook.keywords.deep_view());
    }
    match hook.filter {
        FilterType::Default => {
            let defaults = default_keyword_list();
            if mentions_any_str(content, &defaults) {
                Some(content)
            } else {
                None
            }
        },
        FilterType::Blacklist => {
            if hook.keywords.len() == 0 {
                return Some(content);
            }
            if mentions_any_string(content, &hook.keywords) {
                None
            } else {
                Some(content)
            }
        },
        FilterType::Whitelist => {
            if mentions_any_string(content, &hook.keywords) {
                Some(content)
            } else {
                None
            }
        },
    }
}

/// The positions, in increasing order, of the first `n` clients of `hooks`
/// that receive `content`.
pub open spec fn accepting_positions(content: Seq<char>, hooks: Seq<Hooks>, n: nat) -> Seq<usize>
    decreases n,
{
    if n == 0 {
        Seq::empty()
    } else {
        let before = accepting_positions(content, hooks, (n - 1) as nat);
        if hook_accepts(content, hooks[n - 1]) {
            before.push((n - 1) as usize)
        } else {
            before
        }
    }
}

/// The positions `0, 1, .., n - 1`.
pub open spec fn all_positions(n: nat) -> Seq<usize> {
    Seq::new(n, |i: int| i as usize)
}

/// The clients, by position in `auth.hooks`, that a news post is delivered
/// to: those whose filter lets `content` through, in registration order.
pub fn news_post_targets(content: &str, auth: &WebhookAuth) -> (res: Vec<usize>)
    ensures
        res@ == accepting_positions(content@, auth.hooks@, auth.hooks@.len()),
{
    let mut res: Vec<usize> = Vec::new();
    let mut i: usize = 0;
    while i < auth.hooks.len()
        invariant
            i <= auth.hooks@.len(),
            res@ == accepting_positions(content@, auth.hooks@, i as nat),
        decreases auth.hooks@.len() - i,
    {
        if match_filter(content, &auth.hooks[i]).is_some() {
            res.push(i);
        }
        i = i + 1;
    }
    res
}

/// The clients, by position in `auth.hooks`, that an unfiltered post is
/// delivered to: every registered client, in registration order.
pub fn simple_post_targets(auth: &WebhookAuth) -> (res: Vec<usize>)
    ensures
        res@ == all_positions(auth.hooks@.len()),
        res@.len() == auth.hooks@.len(),
        forall|i: int| 0 <= i < auth.hooks@.len() ==> res@[i] == i,
{
    let mut res: Vec<usize> = Vec::new();
    let mut i: usize = 0;
    while i < auth.hooks.len()
        invariant
            i <= auth.hooks@.len(),
            res@ == all_positions(i as nat),
        decreases auth.hooks@.len() - i,
    {
        res.push(i);
        i = i + 1;
        assert(res@ =~= all_positions(i as nat));
    }
    res
}

/// The text of the message that delivers `content`: the content as the
/// label of a markdown link with an empty target.
pub fn webhook_message(content: &str) -> (res: String)
    ensures
        res@ == "["@ + content@ + "]()"@,
{
    let mut res = String::new();
    res.append("[");
    res.append(content);
    res.append("]()");
    res
}

/// A blacklist and a whitelist with the same keywords split the posts
/// between them: every post is received by exactly one of the two.
pub proof fn law_blacklist_complements_whitelist(content: Seq<char>, keywords: Seq<Seq<char>>)
    ensures
        filter_accepts(content, FilterType::Blacklist, keywords) == !filter_accepts(
            content,
            FilterType::Whitelist,
            keywords,
        ),
{
}

/// A blacklist without keywords lets every post through; a whitelist
/// without keywords lets none through.
pub proof fn law_empty_keyword_lists(content: Seq<char>)
    ensures
        filter_accepts(content, FilterType::Blacklist, Seq::empty()),
        !filter_accepts(content, FilterType::Whitelist, Seq::empty()),
{
}

/// Adding a keyword to a whitelist never drops a post it received; adding a
/// keyword to a blacklist never admits a post it refused.
pub proof fn law_adding_keywords_is_monotone(content: Seq<char>, keywords: Seq<Seq<char>>, extra: Seq<char>)
    ensures
        filter_accepts(content, FilterType::Whitelist, keywords) ==> filter_accepts(
            content,
            FilterType::Whitelist,
            keywords.push(extra),
        ),
        !filter_accepts(content, FilterType::Blacklist, keywords) ==> !filter_accepts(
            content,
            FilterType::Blacklist,
            keywords.push(extra),
        ),
{
    if mentions_any(content, keywords) {
        let i = choose|i: int| 0 <= i < keywords.len() && is_substring(content, #[trigger] keywords[i]);
        assert(keywords.push(extra)[i] == keywords[i]);
    }
}

/// A post is delivered to a client exactly when that client's filter lets
/// it through; every client gets it at most once, in registration order.
pub proof fn law_news_targets_are_the_accepting_clients(content: Seq<char>, hooks: Seq<Hooks>, n: nat)
    requires
        n <= hooks.len(),
        hooks.len() <= usize::MAX,
    ensures
        forall|p: usize| accepting_positions(content, hooks, n).contains(p) <==> (p < n && hook_accepts(content, hooks[p as int])),
        forall|a: int, b: int| 0 <= a < b < accepting_positions(content, hooks, n).len() ==>
            accepting_positions(content, hooks, n)[a] < accepting_positions(content, hooks, n)[b],
    decreases n,
{
    if n > 0 {
        law_news_targets_are_the_accepting_clients(content, hooks, (n - 1) as nat);
        let before = accepting_positions(content, hooks, (n - 1) as nat);
        let last: usize = (n - 1) as usize;
        assert(last as int == n - 1);
        assert forall|p: usize| accepting_positions(content, hooks, n).contains(p) <==> (p < n && hook_accepts(content, hooks[p as int])) by {
            if hook_accepts(content, hooks[n - 1]) {
                let after = before.push(last);
                if after.contains(p) && p != last {
                    let k = choose|k: int| 0 <= k < after.len() && after[k] == p;
                    assert(before[k] == p);
                }
                if before.contains(p) {
                    let k = choose|k: int| 0 <= k < before.len() && before[k] == p;
                    assert(after[k] == p);
                }
                if p == last {
                    assert(after[before.len() as int] == p);
                }
            }
        }
        assert forall|a: int, b: int| 0 <= a < b < accepting_positions(content, hooks, n).len() implies
            accepting_positions(content, hooks, n)[a] < accepting_positions(content, hooks, n)[b] by {
            if hook_accepts(content, hooks[n - 1]) {
                if b == before.len() {
                    assert(before.contains(before[a]));
                }
            }
        }
    }
}

/// One of the built-in keywords occurs in `content`, the keywords written out.
pub open spec fn builtin_keyword_occurs(content: Seq<char>) -> bool {
            ||| is_substring(content, "devblog"@)
            ||| is_substring(content, "event"@)
            ||| is_substring(content, "maintenance"@)
            ||| is_substring(content, "major"@)
            ||| is_substring(content, "trailer"@)
            ||| is_substring(content, "teaser"@)
            ||| is_substring(content, "developers"@)
            ||| is_substring(content, "fix"@)
            ||| is_substring(content, "vehicles"@)
            ||| is_substring(content, "economy"@)
            ||| is_substring(content, "changes"@)
            ||| is_substring(content, "sale"@)
            ||| is_substring(content, "twitch"@)
            ||| is_substring(content, "bundles"@)
            ||| is_substring(content, "development"@)
            ||| is_substring(content, "shop"@)
            ||| is_substring(content, "pass"@)
            ||| is_substring(content, "season"@)
            ||| is_substring(content, "operation"@)
            ||| is_substring(content, "pass"@)
            ||| is_substring(content, "summer"@)
            ||| is_substring(content, "2021"@)
            ||| is_substring(content, "planned"@)
            ||| is_substring(content, "bonds"@)
            ||| is_substring(content, "issues"@)
            ||| is_substring(content, "technical"@)
            ||| is_substring(content, "servers"@)
}

/// The built-in keyword list holds these 27 keywords, in this order.
pub proof fn law_builtin_keyword_list()
    ensures
        default_keywords().len() == 27,
        default_keywords() == seq![
            "devblog"@,
            "event"@,
            "maintenance"@,
            "major"@,
            "trailer"@,
            "teaser"@,
            "developers"@,
            "fix"@,
            "vehicles"@,
            "economy"@,
            "changes"@,
            "sale"@,
            "twitch"@,
            "bundles"@,
            "development"@,
            "shop"@,
            "pass"@,
            "season"@,
            "operation"@,
            "pass"@,
            "summer"@,
            "2021"@,
            "planned"@,
            "bonds"@,
            "issues"@,
            "technical"@,
            "servers"@,
        ],
{
    assert(default_keywords() =~= seq![
            "devblog"@,
            "event"@,
            "maintenance"@,
            "major"@,
            "trailer"@,
            "teaser"@,
            "developers"@,
            "fix"@,
            "vehicles"@,
            "economy"@,
            "changes"@,
            "sale"@,
            "twitch"@,
            "bundles"@,
            "development"@,
            "shop"@,
            "pass"@,
            "season"@,
            "operation"@,
            "pass"@,
            "summer"@,
            "2021"@,
            "planned"@,
            "bonds"@,
            "issues"@,
            "technical"@,
            "servers"@,
        ]);
}

/// A client with the default filter receives a post exactly when one of the
/// 27 built-in keywords occurs in it, whatever the client's own keywords.
pub proof fn law_default_filter_reads_every_builtin_keyword(content: Seq<char>, keywords: Seq<Seq<char>>)
    ensures
        filter_accepts(content, FilterType::Default, keywords) <==> builtin_keyword_occurs(content),
{
    let d = default_keywords();
    law_builtin_keyword_list();
    assert(d[0] == "devblog"@);
    assert(d[1] == "event"@);
    assert(d[2] == "maintenance"@);
    assert(d[3] == "major"@);
    assert(d[4] == "trailer"@);
    assert(d[5] == "teaser"@);
    assert(d[6] == "developers"@);
    assert(d[7] == "fix"@);
    assert(d[8] == "vehicles"@);
    assert(d[9] == "economy"@);
    assert(d[10] == "changes"@);
    assert(d[11] == "sale"@);
    assert(d[12] == "twitch"@);
    assert(d[13] == "bundles"@);
    assert(d[14] == "development"@);
    assert(d[15] == "shop"@);
    assert(d[16] == "pass"@);
    assert(d[17] == "season"@);
    assert(d[18] == "operation"@);
    assert(d[19] == "pass"@);
    assert(d[20] == "summer"@);
    assert(d[21] == "2021"@);
    assert(d[22] == "planned"@);
    assert(d[23] == "bonds"@);
    assert(d[24] == "issues"@);
    assert(d[25] == "technical"@);
    assert(d[26] == "servers"@);
    if mentions_any(content, d) {
        let i = choose|i: int| 0 <= i < d.len() && is_substring(content, #[trigger] d[i]);
        assert(builtin_keyword_occurs(content));
    }
    if builtin_keyword_occurs(content) {
        assert(mentions_any(content, d));
    }
}

/// A whitelist client receives a post exactly when one of its keywords, at
/// any position of its list, occurs in the post; a blacklist client exactly
/// when none of them does.
pub proof fn law_client_reads_every_keyword(content: Seq<char>, hook: Hooks)
    ensures
        hook.filter == FilterType::Whitelist ==> (hook_accepts(content, hook) <==> exists|i: int|
            0 <= i < hook.keywords@.len() && is_substring(content, #[trigger] hook.keywords@[i]@)),
        hook.filter == FilterType::Blacklist ==> (hook_accepts(content, hook) <==> forall|i: int|
            0 <= i < hook.keywords@.len() ==> !is_substring(content, #[trigger] hook.keywords@[i]@)),
{
    let k = hook.keywords.deep_view();
    assert(k.len() == hook.keywords@.len());
    assert forall|i: int| 0 <= i < hook.keywords@.len() implies #[trigger] k[i] == hook.keywords@[i]@ by {}
    if mentions_any(content, k) {
        let i = choose|i: int| 0 <= i < k.len() && is_substring(content, #[trigger] k[i]);
        assert(is_substring(content, hook.keywords@[i]@));
    }
    if exists|i: int| 0 <= i < hook.keywords@.len() && is_substring(content, #[trigger] hook.keywords@[i]@) {
        let i = choose|i: int| 0 <= i < hook.keywords@.len() && is_substring(content, #[trigger] hook.keywords@[i]@);
        assert(is_substring(content, k[i]));
    }
}

/// An unfiltered post goes to every client: the positions `0 .. n` are
/// `n` entries, entry `i` being `i`.
pub proof fn law_all_positions_names_every_client(n: nat)
    requires
        n <= usize::MAX,
    ensures
        all_positions(n).len() == n,
        forall|i: int| 0 <= i < n ==> #[trigger] all_positions(n)[i] == i,
{
}

}
