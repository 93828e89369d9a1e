//! The GitHub side: the requests the service sends and what it keeps of the
//! replies.
//!
//! Replies are kept by entity tag. A request for a URL whose tag is known
//! carries that tag, and a reply that says "not modified" is answered from the
//! cache. The caller sends the request and decodes the reply; this module
//! decides what is sent, what a status means and what the cache holds.

use vstd::prelude::*;
use vstd::string::StringExecFns;
use crate::table::Table;
use crate::text::copy_of;

pub mod gist;
pub mod graphql_issue_list;
pub mod issue;

verus! {

/// An entity tag: the version of a reply, as the server names it.
#[derive(Debug)]
pub struct ETag(pub String);

impl DeepView for ETag {
    type V = Seq<char>;

    open spec fn deep_view(&self) -> Seq<char> {
        self.0@
    }
}

impl Clone for ETag {
    fn clone(&self) -> (copy: Self)
        ensures
            copy == *self,
    {
        ETag(self.0.clone())
    }
}

/// A GET request: where it goes and the headers it carries, in order.
#[derive(Debug)]
pub struct Request {
    pub url: String,
    pub headers: Vec<(String, String)>,
}

/// A reply with a status of the 4xx or 5xx class.
#[derive(Debug)]
pub struct UpstreamError {
    pub status: u16,
    pub url: String,
}

/// One fetch of a URL: the token it is made with, and the tag that the cache
/// had for the URL when the fetch began.
#[derive(Debug)]
pub struct Exchange {
    pub url: String,
    pub token: Option<String>,
    pub prev: Option<ETag>,
}

/// The headers of a request: the user agent, then the token where there is
/// one, then the known tag where there is one.
pub open spec fn headers_for(token: Option<Seq<char>>, prev: Option<Seq<char>>) -> Seq<
    (Seq<char>, Seq<char>),
> {
    seq![("User-Agent"@, "actix"@)] + match token {
        Some(t) => seq![("Authorization"@, "bearer "@ + t)],
        None => Seq::empty(),
    } + match prev {
        Some(tag) => seq![("If-None-Match"@, tag)],
        None => Seq::empty(),
    }
}

impl Exchange {
    /// The request that this fetch sends.
    pub fn request(&self) -> (request: Request)
        ensures
            request.url@ == self.url@,
            request.headers.deep_view() == headers_for(
                self.token.deep_view(),
                self.prev.deep_view(),
            ),
    {
        let mut headers: Vec<(String, String)> = Vec::new();
        headers.push(("User-Agent".to_owned(), "actix".to_owned()));
        match &self.token {
            Some(token) => {
                let mut value = String::from_str("bearer ");
                value.append(token.as_str());
                headers.push(("Authorization".to_owned(), value));
            },
            None => {},
        }
        match &self.prev {
            Some(tag) => {
                headers.push(("If-None-Match".to_owned(), tag.0.clone()));
            },
            None => {},
        }
        Request { url: self.url.clone(), headers }
    }
}

/// What the cache holds: a tag for each URL whose reply came with one, and the
/// decoded reply for each tag.
pub struct CacheView<T> {
    pub tags: Map<Seq<char>, Seq<char>>,
    pub entries: Map<Seq<char>, T>,
}

impl<T> CacheView<T> {
    /// The tag that is known for `url`.
    pub open spec fn tag_of(self, url: Seq<char>) -> Option<Seq<char>> {
        if self.tags.contains_key(url) {
            Some(self.tags[url])
        } else {
            None
        }
    }

    /// Every tag that a URL has leads to a reply.
    pub open spec fn no_dangling(self) -> bool {
        forall|url: Seq<char>| #[trigger]
            self.tags.contains_key(url) ==> self.entries.contains_key(self.tags[url])
    }

    /// The cache after a decoded reply for `url` has come in. Without a new
    /// tag nothing changes. With one, the reply under the tag that the fetch
    /// began with is given up, the new reply is kept under the new tag, and
    /// the URL gets the new tag.
    pub open spec fn stored(
        self,
        url: Seq<char>,
        prev: Option<Seq<char>>,
        new_tag: Option<Seq<char>>,
        value: T,
    ) -> CacheView<T> {
        match new_tag {
            None => self,
            Some(tag) => CacheView {
                tags: self.tags.insert(url, tag),
                entries: match prev {
                    Some(old_tag) => self.entries.remove(old_tag),
                    None => self.entries,
                }.insert(tag, value),
            },
        }
    }
}

/// The replies of one shape, kept by entity tag.
pub struct Cache<T> {
    tags: Table<String>,
    entries: Table<T>,
}

impl<T> View for Cache<T> {
    type V = CacheView<T>;

    closed spec fn view(&self) -> CacheView<T> {
        CacheView { tags: self.tags@.map_values(|tag: String| tag@), entries: self.entries@ }
    }
}

/// What a status means for a fetch.
pub enum Verdict<'a, T> {
    /// The reply is the one in the cache.
    Cached(&'a T),
    /// The cache has lost the reply: the fetch is made again, without a tag.
    Retry(Exchange),
    /// The body is to be decoded and handed to `Cache::store`, with the tag
    /// that the reply carries.
    Fresh,
    /// The fetch has failed.
    Failed(UpstreamError),
}

/// The status "not modified".
pub const NOT_MODIFIED: u16 = 304;

/// Whether a status is of the 4xx or 5xx class.
pub open spec fn is_failure(status: u16) -> bool {
    400 <= status <= 599
}

/// Whether a status is of the 4xx or 5xx class.
pub fn failed(status: u16) -> (yes: bool)
    ensures
        yes == is_failure(status),
{
    400 <= status && status <= 599
}

impl<T> Cache<T> {
    /// A cache that holds nothing.
    pub fn new() -> (cache: Self)
        ensures
            cache@.tags == Map::<Seq<char>, Seq<char>>::empty(),
            cache@.entries == Map::<Seq<char>, T>::empty(),
    {
        let cache = Cache { tags: Table::new(), entries: Table::new() };
        cache
    }

    /// The tag that is known for `url`.
    pub fn tag_of(&self, url: &str) -> (tag: Option<ETag>)
        ensures
            tag.deep_view() == self@.tag_of(url@),
    {
        match self.tags.get(url) {
            Some(tag) => Some(ETag(tag.clone())),
            None => None,
        }
    }

    /// The reply that is kept under `tag`.
    pub fn lookup(&self, tag: &ETag) -> (value: Option<&T>)
        ensures
            match value {
                Some(v) => self@.entries.contains_key(tag.deep_view()) && self@.entries[tag.deep_view()]
                    == *v,
                None => !self@.entries.contains_key(tag.deep_view()),
            },
    {
        self.entries.get(tag.0.as_str())
    }

    /// What `status` means for `exchange`. "Not modified" is answered from the
    /// cache where the fetch carried a tag, and asks for a second fetch
    /// without a tag where the cache no longer has the reply. Any other status
    /// of the 4xx or 5xx class fails the fetch. Everything else is a fresh
    /// reply.
    pub fn receive<'a>(&'a self, exchange: &Exchange, status: u16) -> (verdict: Verdict<'a, T>)
        ensures
            match verdict {
                Verdict::Cached(value) => {
                    &&& status == NOT_MODIFIED
                    &&& exchange.prev is Some
                    &&& self@.entries.contains_key(exchange.prev.deep_view()->0)
                    &&& self@.entries[exchange.prev.deep_view()->0] == *value
                },
                Verdict::Retry(again) => {
                    &&& status == NOT_MODIFIED
                    &&& exchange.prev is Some
                    &&& !self@.entries.contains_key(exchange.prev.deep_view()->0)
                    &&& again.url@ == exchange.url@
                    &&& again.token == exchange.token
                    &&& again.prev is None
                },
                Verdict::Failed(error) => {
                    &&& !(status == NOT_MODIFIED && exchange.prev is Some)
                    &&& is_failure(status)
                    &&& error.status == status
                    &&& error.url@ == exchange.url@
                },
                Verdict::Fresh => {
                    &&& !(status == NOT_MODIFIED && exchange.prev is Some)
                    &&& !is_failure(status)
                },
            },
    {
        if status == NOT_MODIFIED {
            match &exchange.prev {
                Some(tag) => {
                    return match self.lookup(tag) {
                        Some(value) => Verdict::Cached(value),
                        None => Verdict::Retry(
                            Exchange {
                                url: exchange.url.clone(),
                                token: copy_of(&exchange.token),
                                prev: None,
                            },
                        ),
                    };
                },
                None => {},
            }
        }
        if failed(status) {
            Verdict::Failed(UpstreamError { status, url: exchange.url.clone() })
        } else {
            Verdict::Fresh
        }
    }

    /// Takes in the decoded reply for `url`, which came with the tag
    /// `new_tag`; `prev` is the tag that the fetch began with.
    pub fn store(&mut self, url: &str, prev: &Option<ETag>, new_tag: Option<ETag>, value: T)
        ensures
            final(self)@ == old(self)@.stored(
                url@,
                prev.deep_view(),
                new_tag.deep_view(),
                value,
            ),
    {
        match new_tag {
            None => {},
            Some(tag) => {
                match prev {
                    Some(old_tag) => {
                        self.entries.remove(old_tag.0.as_str());
                    },
                    None => {},
                }
                self.entries.insert(tag.0.clone(), value);
                self.tags.insert(url.to_owned(), tag.0);
                assert(self@.tags =~= old(self)@.tags.insert(url@, tag.deep_view()));
            },
        }
    }
}

/// Begins a fetch of `url`: the tag that the cache has for the URL goes with
/// it.
pub fn get_object<T>(url: &str, token: Option<String>, etag_cache: &Cache<T>) -> (exchange:
    Exchange)
    ensures
        exchange.url@ == url@,
        exchange.token == token,
        exchange.prev.deep_view() == etag_cache@.tag_of(url@),
{
    Exchange { url: url.to_owned(), token, prev: etag_cache.tag_of(url) }
}

/// A cache in which every tag leads to a reply stays so when a reply comes in,
/// as long as no other URL has the tag that is given up.
pub proof fn lemma_store_keeps_replies<T>(
    cache: CacheView<T>,
    url: Seq<char>,
    prev: Option<Seq<char>>,
    new_tag: Option<Seq<char>>,
    value: T,
)
    requires
        cache.no_dangling(),
        prev is Some && new_tag is Some && prev != new_tag ==> forall|other: Seq<char>|
            other != url && #[trigger] cache.tags.contains_key(other) ==> cache.tags[other]
                != prev->0,
    ensures
        cache.stored(url, prev, new_tag, value).no_dangling(),
{
    let after = cache.stored(url, prev, new_tag, value);
    assert forall|u: Seq<char>| #[trigger] after.tags.contains_key(u) implies after.entries.contains_key(
        after.tags[u],
    ) by {
        if new_tag is Some && u != url {
            assert(cache.tags.contains_key(u));
        }
    }
}

/// A reply that takes the place of another does not make the cache grow: the
/// reply under the tag that the fetch began with is gone, unless the new reply
/// has the same tag, and the only tag that may be new is that of the new reply.
pub proof fn lemma_store_replaces<T>(
    cache: CacheView<T>,
    url: Seq<char>,
    old_tag: Seq<char>,
    new_tag: Seq<char>,
    value: T,
)
    ensures
        ({
            let after = cache.stored(url, Some(old_tag), Some(new_tag), value);
            &&& after.tag_of(url) == Some(new_tag)
            &&& after.entries.contains_key(new_tag) && after.entries[new_tag] == value
            &&& old_tag != new_tag ==> !after.entries.contains_key(old_tag)
            &&& forall|tag: Seq<char>| #[trigger]
                after.entries.contains_key(tag) ==> tag == new_tag || cache.entries.contains_key(
                    tag,
                )
        }),
{
}

/// A fetch carries the tag that is known for its URL, as its last header, and
/// no tag where none is known.
pub proof fn lemma_request_carries_tag<T>(
    cache: CacheView<T>,
    url: Seq<char>,
    token: Option<Seq<char>>,
)
    ensures
        cache.tag_of(url) matches Some(tag) ==> headers_for(token, cache.tag_of(url)).last() == (
            "If-None-Match"@,
            tag,
        ),
        cache.tag_of(url) is None ==> forall|i: int|
            0 <= i < headers_for(token, cache.tag_of(url)).len() ==> (#[trigger] headers_for(
                token,
                cache.tag_of(url),
            )[i]).0 != "If-None-Match"@,
{
    reveal_strlit("User-Agent");
    reveal_strlit("Authorization");
    reveal_strlit("If-None-Match");
    assert("Authorization"@[0] != "If-None-Match"@[0]);
}

} // verus!
