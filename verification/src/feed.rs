//! Feed management: ownership-checked create, list, read, update and delete
//! of named feed definitions. A feed is addressed by its globally unique
//! name; to a non-owner an existing feed is indistinguishable from an
//! absent one.

use vstd::prelude::*;

use crate::store::{
    feed_idx, has_feed, owned_names, row_has_content, row_overwritten, unique_feed_names, Store,
    StoreError, WebNews,
};

verus! {

/// Why a feed operation failed.
#[derive(Debug, Clone, Copy, PartialEq, Eq, Structural)]
pub enum FeedError {
    /// No feed of that name is visible to the caller: it is absent, or it
    /// belongs to someone else. The two are deliberately not distinguished.
    NoFeed,
    /// A feed with the same name already exists.
    Duplicate,
    /// The store refused the write.
    Storage,
}

/// A feed definition as callers see it: source url, name, and the selector
/// bundle. The owner is implicit in who may touch it.
#[derive(Debug, Clone, PartialEq, Eq)]
pub struct Feed {
    pub url: String,
    pub name: String,
    pub selectors: Selectors,
}

/// Extraction hints for a feed: opaque selector strings, three of them
/// required and three optional. This core only stores and returns them.
#[derive(Debug, Clone, PartialEq, Eq)]
pub struct Selectors {
    pub post: Option<String>,
    pub title: Option<String>,
    pub link: String,
    pub description: Option<String>,
    pub date: Option<String>,
    pub image: Option<String>,
}

/// The feed definition carried by a stored row.
pub open spec fn feed_of(w: WebNews) -> Feed {
    Feed {
        url: w.url,
        name: w.name,
        selectors: Selectors {
            post: w.selector_post,
            title: w.selector_title,
            link: w.selector_link,
            description: w.selector_description,
            date: w.selector_date,
            image: w.selector_image,
        },
    }
}

/// A row carrying a feed definition for the given owner. Lookups never read
/// the id, so a fixed one stands in.
pub open spec fn web_news_of(f: Feed, owner: i32) -> WebNews {
    WebNews {
        id: 0,
        url: f.url,
        name: f.name,
        owner,
        selector_post: f.selectors.post,
        selector_title: f.selectors.title,
        selector_link: f.selectors.link,
        selector_description: f.selectors.description,
        selector_date: f.selectors.date,
        selector_image: f.selectors.image,
    }
}

/// What looking a feed up by name yields for a given caller: its definition
/// when the caller owns it, and the not-found outcome both when it is absent
/// and when it belongs to someone else.
pub open spec fn feed_lookup(feeds: Seq<WebNews>, user_id: i32, name: Seq<char>) -> Result<
    Feed,
    FeedError,
> {
    if !has_feed(feeds, name) {
        Err(FeedError::NoFeed)
    } else {
        let w = feeds[feed_idx(feeds, name)];
        if w.owner != user_id {
            Err(FeedError::NoFeed)
        } else {
            Ok(feed_of(w))
        }
    }
}

impl From<WebNews> for Feed {
    /// The feed definition carried by a stored row, the row's id dropped.
    fn from(web_news: WebNews) -> (r: Feed)
        ensures
            r == feed_of(web_news),
    {
        Feed {
            url: web_news.url,
            name: web_news.name,
            selectors: Selectors {
                post: web_news.selector_post,
                title: web_news.selector_title,
                link: web_news.selector_link,
                description: web_news.selector_description,
                date: web_news.selector_date,
                image: web_news.selector_image,
            },
        }
    }
}

impl vstd::std_specs::convert::FromSpecImpl<WebNews> for Feed {
    open spec fn obeys_from_spec() -> bool {
        true
    }

    open spec fn from_spec(w: WebNews) -> Feed {
        feed_of(w)
    }
}

/// The feed manager: ownership-checked feed operations against a record
/// store, on behalf of an already-authenticated user id.
pub struct FeedManager {}

impl FeedManager {
    pub fn new() -> (r: FeedManager) {
        FeedManager {}
    }

    /// Store a new feed owned by the given user. Refused when a feed of the
    /// same name exists, whoever owns it: names are globally unique.
    pub fn create_feed(&self, store: &mut Store, user_id: i32, feed: Feed) -> (r: Result<
        (),
        FeedError,
    >)
        requires
            old(store).wf(),
        ensures
            final(store).wf(),
            final(store).users@ == old(store).users@,
            final(store).sessions@ == old(store).sessions@,
            final(store).next_user_id == old(store).next_user_id,
            (match r {
                Ok(()) => !has_feed(old(store).feeds@, feed.name@)
                    && old(store).next_feed_id < i32::MAX
                    && final(store).feeds@ == old(store).feeds@.push(final(store).feeds@.last())
                    && row_has_content(final(store).feeds@.last(), web_news_of(feed, user_id), user_id)
                    && final(store).feeds@.last().id == old(store).next_feed_id
                    && final(store).next_feed_id == old(store).next_feed_id + 1,
                Err(FeedError::Duplicate) => has_feed(old(store).feeds@, feed.name@)
                    && *final(store) == *old(store),
                Err(FeedError::Storage) => !has_feed(old(store).feeds@, feed.name@)
                    && old(store).next_feed_id == i32::MAX
                    && *final(store) == *old(store),
                Err(FeedError::NoFeed) => false,
            }),
    {
        let ghost f0 = feed;
        let row = WebNews {
            id: 0,  // ignored: the store assigns the id
            url: feed.url,
            name: feed.name,
            owner: user_id,
            selector_post: feed.selectors.post,
            selector_title: feed.selectors.title,
            selector_link: feed.selectors.link,
            selector_description: feed.selectors.description,
            selector_date: feed.selectors.date,
            selector_image: feed.selectors.image,
        };
        proof {
            assert(row == web_news_of(f0, user_id));
        }
        match store.create_web_news(&row) {
            Ok(()) => Ok(()),
            Err(StoreError::Duplicate) => Err(FeedError::Duplicate),
            Err(StoreError::Full) => Err(FeedError::Storage),
        }
    }

    /// The names of the feeds the given user owns, in storage order.
    pub fn feeds_list(&self, store: &Store, user_id: i32) -> (r: Vec<String>)
        ensures
            r@.map_values(|s: String| s@) == owned_names(store.feeds@, user_id),
    {
        store.get_all_web_news_names_by_user_id(user_id)
    }

    /// Look a feed up by name on behalf of a user. An absent feed and a feed
    /// owned by someone else fail with the same outcome.
    pub fn feed(&self, store: &Store, user_id: i32, name: &str) -> (r: Result<Feed, FeedError>)
        requires
            store.wf(),
        ensures
            r == feed_lookup(store.feeds@, user_id, name@),
    {
        let w = match store.get_web_news_by_name(name) {
            Some(w) => w,
            None => {
                return Err(FeedError::NoFeed);
            },
        };
        if w.owner != user_id {
            return Err(FeedError::NoFeed);
        }
        Ok(Feed::from(w))
    }

    /// Delete the named feed after the same ownership check as a lookup;
    /// a feed that is absent or foreign reports not-found and nothing
    /// changes.
    pub fn delete_feed(&self, store: &mut Store, user_id: i32, name: &str) -> (r: Result<
        (),
        FeedError,
    >)
        requires
            old(store).wf(),
        ensures
            final(store).wf(),
            final(store).users@ == old(store).users@,
            final(store).sessions@ == old(store).sessions@,
            final(store).next_user_id == old(store).next_user_id,
            final(store).next_feed_id == old(store).next_feed_id,
            (match r {
                Ok(()) => has_feed(old(store).feeds@, name@)
                    && old(store).feeds@[feed_idx(old(store).feeds@, name@)].owner == user_id
                    && final(store).feeds@ == old(store).feeds@.remove(
                    feed_idx(old(store).feeds@, name@),
                ),
                Err(FeedError::NoFeed) => (!has_feed(old(store).feeds@, name@) || old(
                    store,
                ).feeds@[feed_idx(old(store).feeds@, name@)].owner != user_id) && *final(store)
                    == *old(store),
                _ => false,
            }),
    {
        match self.feed(store, user_id, name) {
            Ok(_) => {},
            Err(e) => {
                return Err(e);
            },
        }
        store.delete_web_news_by_name(name);
        Ok(())
    }

    /// Overwrite the url and selectors of the named feed after the same
    /// ownership check as a lookup; name and owner are never altered, and a
    /// feed that is absent or foreign reports not-found with the stored row
    /// left untouched.
    pub fn update_feed(&self, store: &mut Store, user_id: i32, name: &str, feed: Feed) -> (r:
        Result<(), FeedError>)
        requires
            old(store).wf(),
        ensures
            final(store).wf(),
            final(store).users@ == old(store).users@,
            final(store).sessions@ == old(store).sessions@,
            final(store).next_user_id == old(store).next_user_id,
            final(store).next_feed_id == old(store).next_feed_id,
            (match r {
                Ok(()) => has_feed(old(store).feeds@, name@) && ({
                    let k = feed_idx(old(store).feeds@, name@);
                    &&& old(store).feeds@[k].owner == user_id
                    &&& final(store).feeds@ == old(store).feeds@.update(k, final(store).feeds@[k])
                    &&& row_overwritten(
                        old(store).feeds@[k],
                        final(store).feeds@[k],
                        web_news_of(feed, user_id),
                    )
                }),
                Err(FeedError::NoFeed) => (!has_feed(old(store).feeds@, name@) || old(
                    store,
                ).feeds@[feed_idx(old(store).feeds@, name@)].owner != user_id) && *final(store)
                    == *old(store),
                _ => false,
            }),
    {
        match self.feed(store, user_id, name) {
            Ok(_) => {},
            Err(e) => {
                return Err(e);
            },
        }
        let ghost f0 = feed;
        let row = WebNews {
            // ignored fields: the named row keeps its id, name and owner
            id: 0,
            name: String::new(),
            owner: user_id,
            url: feed.url,
            selector_post: feed.selectors.post,
            selector_title: feed.selectors.title,
            selector_link: feed.selectors.link,
            selector_description: feed.selectors.description,
            selector_date: feed.selectors.date,
            selector_image: feed.selectors.image,
        };
        store.update_web_news_by_name(name, &row);
        Ok(())
    }
}

/// To a non-owner, an existing feed is exactly as invisible as an absent
/// one: looking either up fails with the same not-found outcome.
pub proof fn lemma_foreign_feed_hidden(
    feeds: Seq<WebNews>,
    user_id: i32,
    taken: Seq<char>,
    absent: Seq<char>,
)
    requires
        has_feed(feeds, taken) ==> feeds[feed_idx(feeds, taken)].owner != user_id,
        !has_feed(feeds, absent),
    ensures
        feed_lookup(feeds, user_id, taken) == Err::<Feed, FeedError>(FeedError::NoFeed),
        feed_lookup(feeds, user_id, absent) == Err::<Feed, FeedError>(FeedError::NoFeed),
        feed_lookup(feeds, user_id, taken) == feed_lookup(feeds, user_id, absent),
{
}

/// After the row of a named feed is removed, a lookup of that name fails for
/// every user with the not-found outcome.
pub proof fn lemma_deleted_feed_gone(feeds: Seq<WebNews>, name: Seq<char>, user_id: i32)
    requires
        unique_feed_names(feeds),
        has_feed(feeds, name),
    ensures
        !has_feed(feeds.remove(feed_idx(feeds, name)), name),
        feed_lookup(feeds.remove(feed_idx(feeds, name)), user_id, name) == Err::<
            Feed,
            FeedError,
        >(FeedError::NoFeed),
{
    let k = feed_idx(feeds, name);
    let rest = feeds.remove(k);
    assert(0 <= k < feeds.len() && feeds[k].name@ == name);
    assert forall|i: int| 0 <= i < rest.len() implies rest[i].name@ != name by {
        let i0 = if i < k {
            i
        } else {
            i + 1
        };
        assert(rest[i] == feeds[i0]);
        if i0 < k {
            assert(feeds[i0].name@ != feeds[k].name@);
        } else {
            assert(feeds[k].name@ != feeds[i0].name@);
        }
    }
    assert(!has_feed(rest, name));
}

/// The listing for a user holds the names of exactly that user's feeds:
/// every feed the user owns appears, and nothing else does.
pub proof fn lemma_owned_names_exact(feeds: Seq<WebNews>, owner: i32)
    ensures
        forall|i: int|
            0 <= i < feeds.len() && (#[trigger] feeds[i]).owner == owner ==> owned_names(
                feeds,
                owner,
            ).contains(feeds[i].name@),
        forall|n: Seq<char>|
            #[trigger] owned_names(feeds, owner).contains(n) ==> exists|i: int|
                0 <= i < feeds.len() && feeds[i].owner == owner && feeds[i].name@ == n,
    decreases feeds.len(),
{
    if feeds.len() == 0 {
    } else {
        let prefix = feeds.drop_last();
        let last = feeds.last();
        lemma_owned_names_exact(prefix, owner);
        let p = owned_names(prefix, owner);
        let full = owned_names(feeds, owner);
        assert forall|i: int|
            0 <= i < feeds.len() && (#[trigger] feeds[i]).owner == owner implies full.contains(
            feeds[i].name@,
        ) by {
            if i < feeds.len() - 1 {
                assert(prefix[i] == feeds[i]);
                assert(p.contains(feeds[i].name@));
                let j = choose|j: int| 0 <= j < p.len() && p[j] == feeds[i].name@;
                if last.owner == owner {
                    assert(full == p.push(last.name@));
                    assert(full[j] == feeds[i].name@);
                } else {
                    assert(full == p);
                }
                assert(full.contains(feeds[i].name@));
            } else {
                assert(feeds[i] == last);
                assert(full == p.push(last.name@));
                assert(full[full.len() - 1] == last.name@);
                assert(full.contains(feeds[i].name@));
            }
        }
        assert forall|n: Seq<char>| #[trigger] full.contains(n) implies exists|i: int|
            0 <= i < feeds.len() && feeds[i].owner == owner && feeds[i].name@ == n by {
            let j = choose|j: int| 0 <= j < full.len() && full[j] == n;
            if last.owner == owner {
                assert(full == p.push(last.name@));
                if j == full.len() - 1 {
                    assert(feeds[feeds.len() - 1].owner == owner && feeds[feeds.len() - 1].name@
                        == n);
                } else {
                    assert(p[j] == n);
                    assert(p.contains(n));
                    let i = choose|i: int|
                        0 <= i < prefix.len() && prefix[i].owner == owner && prefix[i].name@ == n;
                    assert(feeds[i] == prefix[i]);
                }
            } else {
                assert(full == p);
                assert(p.contains(n));
                let i = choose|i: int|
                    0 <= i < prefix.len() && prefix[i].owner == owner && prefix[i].name@ == n;
                assert(feeds[i] == prefix[i]);
            }
        }
    }
}

} // verus!
