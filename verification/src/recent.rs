use vstd::prelude::*;

verus! {

/// How the page of a source is read.
#[derive(Debug, Clone, Copy, PartialEq, Eq, Structural)]
pub enum ScrapeType {
    Forum,
    Main,
    Changelog,
}

/// One watched news source and the urls already seen on it.
///
/// `old_urls` is kept free of repeated entries by `store_recent`; the
/// contracts speak of the set of urls it holds.
#[derive(Debug, PartialEq, Eq)]
pub struct Channel {
    pub name: String,
    pub domain: String,
    pub scrape_type: ScrapeType,
    pub selector: String,
    pub pin: String,
    pub old_urls: Vec<String>,
}

/// Bookkeeping of the cache of seen urls.
#[derive(Debug, PartialEq, Eq, Structural)]
pub struct Meta {
    /// Seconds since the Unix epoch at the last save.
    pub timestamp: u64,
}

/// The cache of every watched source.
#[derive(Debug, PartialEq, Eq)]
pub struct Recent {
    pub meta: Meta,
    pub sources: Vec<Channel>,
}

/// A url counts as new when the set of seen urls does not hold it.
pub open spec fn url_is_new(seen: Set<Seq<char>>, url: Seq<char>) -> bool {
    !seen.contains(url)
}

impl Channel {
    /// The urls already seen on this source.
    pub open spec fn seen_urls(self) -> Set<Seq<char>> {
        self.old_urls.deep_view().to_set()
    }

    /// No url is recorded twice.
    pub open spec fn urls_distinct(self) -> bool {
        self.old_urls.deep_view().no_duplicates()
    }

    /// The fields other than `old_urls` are those of `other`.
    pub open spec fn same_settings(self, other: Channel) -> bool {
        &&& self.name == other.name
        &&& self.domain == other.domain
        &&& self.scrape_type == other.scrape_type
        &&& self.selector == other.selector
        &&& self.pin == other.pin
    }

    /// Whether `value` has not been seen on this source yet.
    pub fn is_new(&self, value: &str) -> (res: bool)
        ensures
            res == url_is_new(self.seen_urls(), value@),
    {
        let wanted: String = value.to_owned();
        let mut i: usize = 0;
        while i < self.old_urls.len()
            invariant
                i <= self.old_urls@.len(),
                wanted@ == value@,
                forall|j: int| 0 <= j < i ==> #[trigger] self.old_urls.deep_view()[j] != value@,
            decreases self.old_urls@.len() - i,
        {
            if self.old_urls[i] == wanted {
                assert(self.old_urls.deep_view()[i as int] == value@);
                assert(self.seen_urls().contains(value@));
                return false;
            }
            i = i + 1;
        }
        assert(!self.old_urls.deep_view().contains(value@));
        true
    }

    /// Records `value` as seen; a url already recorded is not recorded again.
    pub fn store_recent(&mut self, value: &str)
        ensures
            final(self).seen_urls() == old(self).seen_urls().insert(value@),
            final(self).old_urls.deep_view() == (if old(self).seen_urls().contains(value@) {
                old(self).old_urls.deep_view()
            } else {
                old(self).old_urls.deep_view().push(value@)
            }),
            old(self).urls_distinct() ==> final(self).urls_distinct(),
            final(self).same_settings(*old(self)),
    {
        if self.is_new(value) {
            let ghost before = self.old_urls.deep_view();
            self.old_urls.push(value.to_owned());
            assert(self.old_urls.deep_view() =~= before.push(value@));
            assert(self.seen_urls() =~= before.to_set().insert(value@)) by {
                before.lemma_push_to_set_commute(value@);
            }
            assert(before.no_duplicates() ==> self.old_urls.deep_view().no_duplicates());
        } else {
            assert(self.seen_urls().insert(value@) =~= self.seen_urls());
        }
    }
}

impl Default for Meta {
    fn default() -> (res: Self)
        ensures
            res.timestamp == 0,
    {
        Meta { timestamp: 0 }
    }
}

impl Default for Recent {
    fn default() -> (res: Self)
        ensures
            res.meta.timestamp == 0,
            res.sources@.len() == 0,
    {
        Recent { meta: Meta { timestamp: 0 }, sources: Vec::new() }
    }
}

impl Meta {
    /// Stores `secs` as the timestamp when it is a valid unsigned number of
    /// seconds; a negative value is refused and leaves the timestamp as it was.
    pub fn set_timestamp(&mut self, secs: i64) -> (stored: bool)
        ensures
            stored == (secs >= 0),
            stored ==> final(self).timestamp == secs,
            !stored ==> *final(self) == *old(self),
    {
        if secs >= 0 {
            self.timestamp = secs as u64;
            true
        } else {
            false
        }
    }
}

impl Recent {
    /// Stamps the cache with `now_secs`, the current time in seconds since
    /// the Unix epoch as read from the clock by the caller. A negative reading
    /// is refused: `false` is returned and the cache stays as it was.
    pub fn update_timestamp(&mut self, now_secs: i64) -> (stored: bool)
        ensures
            stored == (now_secs >= 0),
            stored ==> final(self).meta.timestamp == now_secs,
            stored ==> final(self).sources == old(self).sources,
            !stored ==> *final(self) == *old(self),
    {
        self.meta.set_timestamp(now_secs)
    }

    /// Forgets every url seen on every source; the sources themselves and the
    /// timestamp stay.
    pub fn clear_recent_urls(&mut self)
        ensures
            final(self).meta == old(self).meta,
            final(self).sources@.len() == old(self).sources@.len(),
            forall|i: int| 0 <= i < final(self).sources@.len() ==> {
                &&& (#[trigger] final(self).sources@[i]).old_urls@.len() == 0
                &&& final(self).sources@[i].same_settings(old(self).sources@[i])
            },
    {
        let mut i: usize = 0;
        while i < self.sources.len()
            invariant
                i <= self.sources@.len(),
                self.meta == old(self).meta,
                self.sources@.len() == old(self).sources@.len(),
                forall|j: int| 0 <= j < i ==> (#[trigger] self.sources@[j]).old_urls@.len() == 0,
                forall|j: int| 0 <= j < self.sources@.len() ==> (#[trigger] self.sources@[j]).same_settings(old(self).sources@[j]),
            decreases self.sources@.len() - i,
        {
            self.sources[i].old_urls.clear();
            i = i + 1;
        }
    }
}

/// Once a url has been recorded on a source, it is no longer new there, and
/// whether any other url is new is as before.
pub proof fn law_recorded_url_is_not_new(before: Channel, after: Channel, url: Seq<char>, other: Seq<char>)
    requires
        after.seen_urls() == before.seen_urls().insert(url),
    ensures
        !url_is_new(after.seen_urls(), url),
        other != url ==> url_is_new(after.seen_urls(), other) == url_is_new(before.seen_urls(), other),
{
}

/// Recording a url a second time changes nothing: the recorded urls after
/// the second time are those after the first.
pub proof fn law_recording_twice_is_recording_once(before: Channel, once: Channel, twice: Channel, url: Seq<char>)
    requires
        once.seen_urls() == before.seen_urls().insert(url),
        twice.old_urls.deep_view() == (if once.seen_urls().contains(url) {
            once.old_urls.deep_view()
        } else {
            once.old_urls.deep_view().push(url)
        }),
    ensures
        twice.old_urls.deep_view() == once.old_urls.deep_view(),
{
}

/// A url is new on a source exactly when it is not among the urls seen
/// there; on a source whose urls were cleared, every url is new.
pub proof fn law_cleared_source_sees_every_url_as_new(channel: Channel, url: Seq<char>)
    requires
        channel.old_urls@.len() == 0,
    ensures
        url_is_new(channel.seen_urls(), url),
{
    assert(channel.old_urls.deep_view().len() == 0);
    if channel.seen_urls().contains(url) {
        assert(channel.old_urls.deep_view().contains(url));
    }
}

/// The urls seen after recording each of `later`, in turn, on top of `seen`.
pub open spec fn record_all(seen: Set<Seq<char>>, later: Seq<Seq<char>>) -> Set<Seq<char>>
    decreases later.len(),
{
    if later.len() == 0 {
        seen
    } else {
        record_all(seen, later.drop_last()).insert(later.last())
    }
}

/// A recorded url stays not new however many urls are recorded after it:
/// recording only ever adds to the urls seen.
pub proof fn law_recorded_url_is_never_new_again(seen: Set<Seq<char>>, url: Seq<char>, later: Seq<Seq<char>>)
    ensures
        !url_is_new(record_all(seen.insert(url), later), url),
        seen.insert(url).subset_of(record_all(seen.insert(url), later)),
    decreases later.len(),
{
    if later.len() > 0 {
        law_recorded_url_is_never_new_again(seen, url, later.drop_last());
    }
}

}
