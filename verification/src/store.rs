//! The record store: users with credentials, sessions, and feed rows.
//!
//! This is the persistence model the authentication and feed components
//! work against: an in-memory store with the same uniqueness guarantees a
//! relational schema would enforce (unique user names and ids, unique
//! session tokens, globally unique feed names, store-assigned row ids).

use vstd::prelude::*;

verus! {

/// A user as handed to callers: id and display name, no credential.
#[derive(Debug, Clone, PartialEq, Eq)]
pub struct User {
    pub id: i32,
    pub name: String,
}

/// A user record with its password hash; never leaves the auth component.
#[derive(Debug, Clone, PartialEq, Eq)]
pub struct UserCreds {
    pub id: i32,
    pub name: String,
    pub password_hash: String,
}

/// A session: owning user, opaque 128-bit token, absolute expiry in
/// milliseconds. Never mutated after creation; expiry is checked lazily.
#[derive(Debug, Clone, Copy, PartialEq, Eq, Structural)]
pub struct Session {
    pub owner: i32,
    pub token: u128,
    pub valid_until: i64,
}

/// A stored feed row: source url, globally unique name, owning user, and
/// the six selector fields (opaque extraction hints, three of them optional).
#[derive(Debug, Clone, PartialEq, Eq)]
pub struct WebNews {
    pub id: i32,
    pub url: String,
    pub name: String,
    pub owner: i32,
    pub selector_post: Option<String>,
    pub selector_title: Option<String>,
    pub selector_link: String,
    pub selector_description: Option<String>,
    pub selector_date: Option<String>,
    pub selector_image: Option<String>,
}

/// Why a store write was refused.
#[derive(Debug, Clone, Copy, PartialEq, Eq, Structural)]
pub enum StoreError {
    /// A row with the same key already exists.
    Duplicate,
    /// The id space for new rows is exhausted.
    Full,
}

/// The in-memory record store.
pub struct Store {
    pub users: Vec<UserCreds>,
    pub sessions: Vec<Session>,
    pub feeds: Vec<WebNews>,
    pub next_user_id: i32,
    pub next_feed_id: i32,
}

pub open spec fn has_user_named(users: Seq<UserCreds>, name: Seq<char>) -> bool {
    exists|i: int| 0 <= i < users.len() && users[i].name@ == name
}

pub open spec fn user_idx_by_name(users: Seq<UserCreds>, name: Seq<char>) -> int {
    choose|i: int| 0 <= i < users.len() && users[i].name@ == name
}

pub open spec fn has_user_id(users: Seq<UserCreds>, id: i32) -> bool {
    exists|i: int| 0 <= i < users.len() && users[i].id == id
}

pub open spec fn user_idx_by_id(users: Seq<UserCreds>, id: i32) -> int {
    choose|i: int| 0 <= i < users.len() && users[i].id == id
}

pub open spec fn has_session(sessions: Seq<Session>, token: u128) -> bool {
    exists|i: int| 0 <= i < sessions.len() && sessions[i].token == token
}

pub open spec fn session_idx(sessions: Seq<Session>, token: u128) -> int {
    choose|i: int| 0 <= i < sessions.len() && sessions[i].token == token
}

pub open spec fn has_feed(feeds: Seq<WebNews>, name: Seq<char>) -> bool {
    exists|i: int| 0 <= i < feeds.len() && feeds[i].name@ == name
}

pub open spec fn feed_idx(feeds: Seq<WebNews>, name: Seq<char>) -> int {
    choose|i: int| 0 <= i < feeds.len() && feeds[i].name@ == name
}

pub open spec fn unique_user_names(users: Seq<UserCreds>) -> bool {
    forall|i: int, j: int| 0 <= i < j < users.len() ==> users[i].name@ != users[j].name@
}

pub open spec fn unique_user_ids(users: Seq<UserCreds>) -> bool {
    forall|i: int, j: int| 0 <= i < j < users.len() ==> users[i].id != users[j].id
}

pub open spec fn user_ids_below(users: Seq<UserCreds>, bound: i32) -> bool {
    forall|i: int| 0 <= i < users.len() ==> 0 <= #[trigger] users[i].id < bound
}

pub open spec fn unique_tokens(sessions: Seq<Session>) -> bool {
    forall|i: int, j: int| 0 <= i < j < sessions.len() ==> sessions[i].token != sessions[j].token
}

/// Referential integrity: every session points at an existing user.
pub open spec fn sessions_owned(sessions: Seq<Session>, users: Seq<UserCreds>) -> bool {
    forall|i: int| 0 <= i < sessions.len() ==> has_user_id(users, #[trigger] sessions[i].owner)
}

pub open spec fn unique_feed_names(feeds: Seq<WebNews>) -> bool {
    forall|i: int, j: int| 0 <= i < j < feeds.len() ==> feeds[i].name@ != feeds[j].name@
}

pub open spec fn feed_ids_below(feeds: Seq<WebNews>, bound: i32) -> bool {
    forall|i: int| 0 <= i < feeds.len() ==> 0 <= #[trigger] feeds[i].id < bound
}

/// The two views of an optional string field are the same text.
pub open spec fn opt_text(o: Option<String>) -> Option<Seq<char>> {
    match o {
        Option::None => Option::None,
        Option::Some(s) => Option::Some(s@),
    }
}

impl Store {
    /// Well-formedness: the uniqueness and integrity guarantees the schema
    /// would enforce. Every operation preserves it.
    pub open spec fn wf(self) -> bool {
        &&& unique_user_names(self.users@)
        &&& unique_user_ids(self.users@)
        &&& user_ids_below(self.users@, self.next_user_id)
        &&& unique_tokens(self.sessions@)
        &&& sessions_owned(self.sessions@, self.users@)
        &&& unique_feed_names(self.feeds@)
        &&& feed_ids_below(self.feeds@, self.next_feed_id)
        &&& 0 <= self.next_user_id
        &&& 0 <= self.next_feed_id
    }

    /// An empty store.
    pub fn new() -> (r: Store)
        ensures
            r.wf(),
            r.users@ == Seq::<UserCreds>::empty(),
            r.sessions@ == Seq::<Session>::empty(),
            r.feeds@ == Seq::<WebNews>::empty(),
            r.next_user_id == 0,
            r.next_feed_id == 0,
    {
        Store { users: Vec::new(), sessions: Vec::new(), feeds: Vec::new(), next_user_id: 0, next_feed_id: 0 }
    }
}

/// Exactly one user record was appended: the new user carries the next free
/// id, the given name and hash; everything else is untouched.
pub open spec fn user_created(pre: Store, post: Store, name: Seq<char>, hash: Seq<char>) -> bool {
    &&& post.users@.len() == pre.users@.len() + 1
    &&& post.users@ == pre.users@.push(post.users@.last())
    &&& post.users@.last().id == pre.next_user_id
    &&& post.users@.last().name@ == name
    &&& post.users@.last().password_hash@ == hash
    &&& post.next_user_id == pre.next_user_id + 1
    &&& post.sessions@ == pre.sessions@
    &&& post.feeds@ == pre.feeds@
    &&& post.next_feed_id == pre.next_feed_id
}

impl Store {
    /// Create a user with the given name and password hash; the id is
    /// store-assigned. Refused when the name is taken.
    pub fn create_user(&mut self, username: &str, password_hash: String) -> (r: Result<(), StoreError>)
        requires
            old(self).wf(),
        ensures
            final(self).wf(),
            (match r {
                Ok(()) => !has_user_named(old(self).users@, username@)
                    && old(self).next_user_id < i32::MAX
                    && user_created(*old(self), *final(self), username@, password_hash@),
                Err(StoreError::Duplicate) => has_user_named(old(self).users@, username@)
                    && *final(self) == *old(self),
                Err(StoreError::Full) => !has_user_named(old(self).users@, username@)
                    && old(self).next_user_id == i32::MAX
                    && *final(self) == *old(self),
            }),
    {
        if find_user_by_name(&self.users, username).is_some() {
            return Err(StoreError::Duplicate);
        }
        if self.next_user_id == i32::MAX {
            return Err(StoreError::Full);
        }
        let id = self.next_user_id;
        let name = username.to_owned();
        self.users.push(UserCreds { id, name, password_hash });
        self.next_user_id = id + 1;
        proof {
            let pre = *old(self);
            let post = *self;
            let m = pre.users@.len() as int;
            assert(post.users@ == pre.users@.push(post.users@.last()));
            assert forall|i: int, j: int| 0 <= i < j < post.users@.len() implies
                post.users@[i].name@ != post.users@[j].name@ && post.users@[i].id != post.users@[j].id
            by {
                if j == m {
                    assert(post.users@[i] == pre.users@[i]);
                    assert(pre.users@[i].name@ != username@) by {
                        if pre.users@[i].name@ == username@ {
                            assert(has_user_named(pre.users@, username@));
                        }
                    }
                    assert(pre.users@[i].id < pre.next_user_id);
                } else {
                    assert(post.users@[i] == pre.users@[i]);
                    assert(post.users@[j] == pre.users@[j]);
                }
            }
            assert forall|i: int| 0 <= i < post.users@.len() implies
                0 <= #[trigger] post.users@[i].id < post.next_user_id
            by {
                if i < m {
                    assert(post.users@[i] == pre.users@[i]);
                    assert(0 <= pre.users@[i].id < pre.next_user_id);
                }
            }
            assert forall|i: int| 0 <= i < post.sessions@.len() implies
                has_user_id(post.users@, #[trigger] post.sessions@[i].owner)
            by {
                assert(has_user_id(pre.users@, pre.sessions@[i].owner));
                let k = choose|k: int| 0 <= k < pre.users@.len() && pre.users@[k].id == pre.sessions@[i].owner;
                assert(post.users@[k] == pre.users@[k]);
            }
        }
        Ok(())
    }
}

impl Store {
    /// Credential lookup by user name.
    pub fn get_user_creds_by_name(&self, name: &str) -> (r: Option<UserCreds>)
        requires
            self.wf(),
        ensures
            (match r {
                Some(c) => has_user_named(self.users@, name@)
                    && c == self.users@[user_idx_by_name(self.users@, name@)],
                None => !has_user_named(self.users@, name@),
            }),
    {
        match find_user_by_name(&self.users, name) {
            Some(i) => Some(clone_creds(&self.users[i])),
            None => None,
        }
    }

    /// Public user record by id, without the credential.
    pub fn get_user_by_id(&self, id: i32) -> (r: Option<User>)
        requires
            self.wf(),
        ensures
            (match r {
                Some(u) => has_user_id(self.users@, id)
                    && u.id == self.users@[user_idx_by_id(self.users@, id)].id
                    && u.name == self.users@[user_idx_by_id(self.users@, id)].name,
                None => !has_user_id(self.users@, id),
            }),
    {
        let n = self.users.len();
        let mut i: usize = 0;
        while i < n
            invariant
                n == self.users@.len(),
                i <= n,
                unique_user_ids(self.users@),
                forall|j: int| 0 <= j < i ==> self.users@[j].id != id,
            decreases n - i,
        {
            if self.users[i].id == id {
                proof {
                    assert(has_user_id(self.users@, id));
                    let k = user_idx_by_id(self.users@, id);
                    assert(0 <= k < self.users@.len() && self.users@[k].id == id);
                    if k != i as int {
                        assert(self.users@[k].id != self.users@[i as int].id);
                    }
                }
                let u = &self.users[i];
                return Some(User { id: u.id, name: u.name.clone() });
            }
            i += 1;
        }
        None
    }

    /// Record a new session. Refused when the token is already present, as
    /// the schema's uniqueness constraint would refuse it.
    pub fn create_session(&mut self, owner: i32, token: u128, valid_until: i64) -> (r: Result<(), StoreError>)
        requires
            old(self).wf(),
            has_user_id(old(self).users@, owner),
        ensures
            final(self).wf(),
            (match r {
                Ok(()) => !has_session(old(self).sessions@, token)
                    && final(self).sessions@ == old(self).sessions@.push((Session { owner, token, valid_until }))
                    && final(self).users@ == old(self).users@
                    && final(self).feeds@ == old(self).feeds@
                    && final(self).next_user_id == old(self).next_user_id
                    && final(self).next_feed_id == old(self).next_feed_id,
                Err(StoreError::Duplicate) => has_session(old(self).sessions@, token)
                    && *final(self) == *old(self),
                Err(StoreError::Full) => false,
            }),
    {
        if find_session_by_token(&self.sessions, token).is_some() {
            return Err(StoreError::Duplicate);
        }
        self.sessions.push(Session { owner, token, valid_until });
        proof {
            let pre = *old(self);
            let post = *self;
            let m = pre.sessions@.len() as int;
            assert forall|i: int, j: int| 0 <= i < j < post.sessions@.len() implies
                post.sessions@[i].token != post.sessions@[j].token
            by {
                if j == m {
                    assert(post.sessions@[i] == pre.sessions@[i]);
                    assert(pre.sessions@[i].token != token) by {
                        if pre.sessions@[i].token == token {
                            assert(has_session(pre.sessions@, token));
                        }
                    }
                } else {
                    assert(post.sessions@[i] == pre.sessions@[i]);
                    assert(post.sessions@[j] == pre.sessions@[j]);
                }
            }
            assert forall|i: int| 0 <= i < post.sessions@.len() implies
                has_user_id(post.users@, #[trigger] post.sessions@[i].owner)
            by {
                if i < m {
                    assert(post.sessions@[i] == pre.sessions@[i]);
                    assert(has_user_id(pre.users@, pre.sessions@[i].owner));
                }
            }
        }
        Ok(())
    }

    /// Session lookup by token.
    pub fn get_session_by_token(&self, token: u128) -> (r: Option<Session>)
        requires
            self.wf(),
        ensures
            (match r {
                Some(s) => has_session(self.sessions@, token)
                    && s == self.sessions@[session_idx(self.sessions@, token)],
                None => !has_session(self.sessions@, token),
            }),
    {
        match find_session_by_token(&self.sessions, token) {
            Some(i) => Some(self.sessions[i]),
            None => None,
        }
    }
}

/// The stored row carries the given url, name, owner and selectors (its id
/// is the store's business).
pub open spec fn row_has_content(row: WebNews, src: WebNews, owner: i32) -> bool {
    &&& row.url@ == src.url@
    &&& row.name@ == src.name@
    &&& row.owner == owner
    &&& opt_text(row.selector_post) == opt_text(src.selector_post)
    &&& opt_text(row.selector_title) == opt_text(src.selector_title)
    &&& row.selector_link@ == src.selector_link@
    &&& opt_text(row.selector_description) == opt_text(src.selector_description)
    &&& opt_text(row.selector_date) == opt_text(src.selector_date)
    &&& opt_text(row.selector_image) == opt_text(src.selector_image)
}

/// The row kept its identity (id, name, owner) and took the url and
/// selectors of `src`.
pub open spec fn row_overwritten(prev: WebNews, now: WebNews, src: WebNews) -> bool {
    &&& now.id == prev.id
    &&& now.name@ == prev.name@
    &&& now.owner == prev.owner
    &&& now.url@ == src.url@
    &&& opt_text(now.selector_post) == opt_text(src.selector_post)
    &&& opt_text(now.selector_title) == opt_text(src.selector_title)
    &&& now.selector_link@ == src.selector_link@
    &&& opt_text(now.selector_description) == opt_text(src.selector_description)
    &&& opt_text(now.selector_date) == opt_text(src.selector_date)
    &&& opt_text(now.selector_image) == opt_text(src.selector_image)
}

/// The names of the feeds owned by `owner`, in storage order.
pub open spec fn owned_names(feeds: Seq<WebNews>, owner: i32) -> Seq<Seq<char>>
    decreases feeds.len(),
{
    if feeds.len() == 0 {
        Seq::empty()
    } else {
        let prefix = owned_names(feeds.drop_last(), owner);
        if feeds.last().owner == owner {
            prefix.push(feeds.last().name@)
        } else {
            prefix
        }
    }
}

impl Store {
    /// Insert a feed row with the given content; the id is store-assigned
    /// and the given one is ignored. Refused when the name is taken.
    pub fn create_web_news(&mut self, web_news: &WebNews) -> (r: Result<(), StoreError>)
        requires
            old(self).wf(),
        ensures
            final(self).wf(),
            final(self).users@ == old(self).users@,
            final(self).sessions@ == old(self).sessions@,
            final(self).next_user_id == old(self).next_user_id,
            (match r {
                Ok(()) => !has_feed(old(self).feeds@, web_news.name@)
                    && old(self).next_feed_id < i32::MAX
                    && final(self).feeds@ == old(self).feeds@.push(final(self).feeds@.last())
                    && row_has_content(final(self).feeds@.last(), *web_news, web_news.owner)
                    && final(self).feeds@.last().id == old(self).next_feed_id
                    && final(self).next_feed_id == old(self).next_feed_id + 1,
                Err(StoreError::Duplicate) => has_feed(old(self).feeds@, web_news.name@)
                    && *final(self) == *old(self),
                Err(StoreError::Full) => !has_feed(old(self).feeds@, web_news.name@)
                    && old(self).next_feed_id == i32::MAX
                    && *final(self) == *old(self),
            }),
    {
        if find_feed_by_name(&self.feeds, &web_news.name).is_some() {
            return Err(StoreError::Duplicate);
        }
        if self.next_feed_id == i32::MAX {
            return Err(StoreError::Full);
        }
        let id = self.next_feed_id;
        let row = WebNews {
            id,
            url: web_news.url.clone(),
            name: web_news.name.clone(),
            owner: web_news.owner,
            selector_post: clone_opt(&web_news.selector_post),
            selector_title: clone_opt(&web_news.selector_title),
            selector_link: web_news.selector_link.clone(),
            selector_description: clone_opt(&web_news.selector_description),
            selector_date: clone_opt(&web_news.selector_date),
            selector_image: clone_opt(&web_news.selector_image),
        };
        self.feeds.push(row);
        self.next_feed_id = id + 1;
        proof {
            let pre = *old(self);
            let post = *self;
            let m = pre.feeds@.len() as int;
            assert(post.feeds@ == pre.feeds@.push(post.feeds@.last()));
            assert forall|i: int, j: int| 0 <= i < j < post.feeds@.len() implies
                post.feeds@[i].name@ != post.feeds@[j].name@
            by {
                if j == m {
                    assert(post.feeds@[i] == pre.feeds@[i]);
                    assert(pre.feeds@[i].name@ != web_news.name@) by {
                        if pre.feeds@[i].name@ == web_news.name@ {
                            assert(has_feed(pre.feeds@, web_news.name@));
                        }
                    }
                } else {
                    assert(post.feeds@[i] == pre.feeds@[i]);
                    assert(post.feeds@[j] == pre.feeds@[j]);
                }
            }
            assert forall|i: int| 0 <= i < post.feeds@.len() implies
                0 <= #[trigger] post.feeds@[i].id < post.next_feed_id
            by {
                if i < m {
                    assert(post.feeds@[i] == pre.feeds@[i]);
                    assert(0 <= pre.feeds@[i].id < pre.next_feed_id);
                }
            }
        }
        Ok(())
    }

    /// The names of the feeds owned by the given user, in storage order.
    pub fn get_all_web_news_names_by_user_id(&self, user_id: i32) -> (r: Vec<String>)
        ensures
            r@.map_values(|s: String| s@) == owned_names(self.feeds@, user_id),
    {
        let n = self.feeds.len();
        let mut out: Vec<String> = Vec::new();
        let mut i: usize = 0;
        while i < n
            invariant
                n == self.feeds@.len(),
                i <= n,
                out@.map_values(|s: String| s@) == owned_names(self.feeds@.take(i as int), user_id),
            decreases n - i,
        {
            proof {
                assert(self.feeds@.take(i as int + 1).drop_last() == self.feeds@.take(i as int));
                assert(self.feeds@.take(i as int + 1).last() == self.feeds@[i as int]);
            }
            if self.feeds[i].owner == user_id {
                let name = self.feeds[i].name.clone();
                out.push(name);
                proof {
                    assert(out@.map_values(|s: String| s@) =~= owned_names(self.feeds@.take(i as int + 1), user_id));
                }
            }
            i += 1;
        }
        proof {
            assert(self.feeds@.take(n as int) == self.feeds@);
        }
        out
    }

    /// Feed row lookup by name, with no owner check: the caller decides.
    pub fn get_web_news_by_name(&self, name: &str) -> (r: Option<WebNews>)
        requires
            self.wf(),
        ensures
            (match r {
                Some(w) => has_feed(self.feeds@, name@)
                    && w == self.feeds@[feed_idx(self.feeds@, name@)],
                None => !has_feed(self.feeds@, name@),
            }),
    {
        match find_feed_by_name(&self.feeds, name) {
            Some(i) => Some(clone_row(&self.feeds[i])),
            None => None,
        }
    }

    /// Every stored feed row, in storage order: what the poller process
    /// enumerates.
    pub fn get_all_web_news(&self) -> (r: Vec<WebNews>)
        ensures
            r@ == self.feeds@,
    {
        let n = self.feeds.len();
        let mut out: Vec<WebNews> = Vec::new();
        let mut i: usize = 0;
        while i < n
            invariant
                n == self.feeds@.len(),
                i <= n,
                out@ == self.feeds@.take(i as int),
            decreases n - i,
        {
            out.push(clone_row(&self.feeds[i]));
            proof {
                assert(out@ =~= self.feeds@.take(i as int + 1));
            }
            i += 1;
        }
        proof {
            assert(self.feeds@.take(n as int) == self.feeds@);
        }
        out
    }

    /// Remove the row with the given name; removing an absent name is a
    /// no-op, as the relational delete reporting zero rows would be.
    pub fn delete_web_news_by_name(&mut self, name: &str)
        requires
            old(self).wf(),
        ensures
            final(self).wf(),
            final(self).users@ == old(self).users@,
            final(self).sessions@ == old(self).sessions@,
            final(self).next_user_id == old(self).next_user_id,
            final(self).next_feed_id == old(self).next_feed_id,
            has_feed(old(self).feeds@, name@) ==> final(self).feeds@
                == old(self).feeds@.remove(feed_idx(old(self).feeds@, name@)),
            !has_feed(old(self).feeds@, name@) ==> *final(self) == *old(self),
    {
        match find_feed_by_name(&self.feeds, name) {
            Some(i) => {
                self.feeds.remove(i);
                proof {
                    let pre = *old(self);
                    let post = *self;
                    let k = feed_idx(pre.feeds@, name@);
                    assert(post.feeds@ == pre.feeds@.remove(k));
                    assert forall|p: int, q: int| 0 <= p < q < post.feeds@.len() implies
                        post.feeds@[p].name@ != post.feeds@[q].name@
                    by {
                        let p0 = if p < k { p } else { p + 1 };
                        let q0 = if q < k { q } else { q + 1 };
                        assert(post.feeds@[p] == pre.feeds@[p0]);
                        assert(post.feeds@[q] == pre.feeds@[q0]);
                    }
                    assert forall|p: int| 0 <= p < post.feeds@.len() implies
                        0 <= #[trigger] post.feeds@[p].id < post.next_feed_id
                    by {
                        let p0 = if p < k { p } else { p + 1 };
                        assert(post.feeds@[p] == pre.feeds@[p0]);
                        assert(0 <= pre.feeds@[p0].id < pre.next_feed_id);
                    }
                }
            }
            None => {}
        }
    }

    /// Overwrite the url and selector fields of the named row from the given
    /// content, keeping id, name and owner; a no-op when the name is absent.
    pub fn update_web_news_by_name(&mut self, name: &str, web_news: &WebNews)
        requires
            old(self).wf(),
        ensures
            final(self).wf(),
            final(self).users@ == old(self).users@,
            final(self).sessions@ == old(self).sessions@,
            final(self).next_user_id == old(self).next_user_id,
            final(self).next_feed_id == old(self).next_feed_id,
            has_feed(old(self).feeds@, name@) ==> {
                let k = feed_idx(old(self).feeds@, name@);
                final(self).feeds@ == old(self).feeds@.update(k, final(self).feeds@[k])
                    && row_overwritten(old(self).feeds@[k], final(self).feeds@[k], *web_news)
            },
            !has_feed(old(self).feeds@, name@) ==> *final(self) == *old(self),
    {
        match find_feed_by_name(&self.feeds, name) {
            Some(i) => {
                let prev = &self.feeds[i];
                let row = WebNews {
                    id: prev.id,
                    url: web_news.url.clone(),
                    name: prev.name.clone(),
                    owner: prev.owner,
                    selector_post: clone_opt(&web_news.selector_post),
                    selector_title: clone_opt(&web_news.selector_title),
                    selector_link: web_news.selector_link.clone(),
                    selector_description: clone_opt(&web_news.selector_description),
                    selector_date: clone_opt(&web_news.selector_date),
                    selector_image: clone_opt(&web_news.selector_image),
                };
                self.feeds.set(i, row);
                proof {
                    let pre = *old(self);
                    let post = *self;
                    let k = feed_idx(pre.feeds@, name@);
                    assert(post.feeds@ == pre.feeds@.update(k, post.feeds@[k]));
                    assert forall|p: int, q: int| 0 <= p < q < post.feeds@.len() implies
                        post.feeds@[p].name@ != post.feeds@[q].name@
                    by {
                        assert(pre.feeds@[p].name@ != pre.feeds@[q].name@);
                        assert(post.feeds@[p].name@ == pre.feeds@[p].name@);
                        assert(post.feeds@[q].name@ == pre.feeds@[q].name@);
                    }
                    assert forall|p: int| 0 <= p < post.feeds@.len() implies
                        0 <= #[trigger] post.feeds@[p].id < post.next_feed_id
                    by {
                        assert(post.feeds@[p].id == pre.feeds@[p].id);
                        assert(0 <= pre.feeds@[p].id < pre.next_feed_id);
                    }
                }
            }
            None => {}
        }
    }
}

/// Field-for-field copy of an optional string.
fn clone_opt(o: &Option<String>) -> (r: Option<String>)
    ensures
        r == *o,
{
    match o {
        Some(s) => Some(s.clone()),
        None => None,
    }
}

/// Field-for-field copy of a feed row.
fn clone_row(w: &WebNews) -> (r: WebNews)
    ensures
        r == *w,
{
    WebNews {
        id: w.id,
        url: w.url.clone(),
        name: w.name.clone(),
        owner: w.owner,
        selector_post: clone_opt(&w.selector_post),
        selector_title: clone_opt(&w.selector_title),
        selector_link: w.selector_link.clone(),
        selector_description: clone_opt(&w.selector_description),
        selector_date: clone_opt(&w.selector_date),
        selector_image: clone_opt(&w.selector_image),
    }
}

/// First feed row with the given name, if any.
fn find_feed_by_name(feeds: &Vec<WebNews>, name: &str) -> (r: Option<usize>)
    requires
        unique_feed_names(feeds@),
    ensures
        (match r {
            Some(i) => has_feed(feeds@, name@)
                && i < feeds@.len()
                && i == feed_idx(feeds@, name@),
            None => !has_feed(feeds@, name@),
        }),
{
    let target: String = name.to_owned();
    let n = feeds.len();
    let mut i: usize = 0;
    while i < n
        invariant
            n == feeds@.len(),
            i <= n,
            target@ == name@,
            unique_feed_names(feeds@),
            forall|j: int| 0 <= j < i ==> feeds@[j].name@ != name@,
        decreases n - i,
    {
        if feeds[i].name == target {
            proof {
                assert(has_feed(feeds@, name@));
                let k = feed_idx(feeds@, name@);
                assert(0 <= k < feeds@.len() && feeds@[k].name@ == name@);
                if k != i as int {
                    assert(feeds@[k].name@ != feeds@[i as int].name@);
                }
            }
            return Some(i);
        }
        i += 1;
    }
    None
}

/// Field-for-field copy of a credential record.
fn clone_creds(c: &UserCreds) -> (r: UserCreds)
    ensures
        r == *c,
{
    UserCreds { id: c.id, name: c.name.clone(), password_hash: c.password_hash.clone() }
}

/// First session with the given token, if any.
fn find_session_by_token(sessions: &Vec<Session>, token: u128) -> (r: Option<usize>)
    requires
        unique_tokens(sessions@),
    ensures
        (match r {
            Some(i) => has_session(sessions@, token)
                && i < sessions@.len()
                && i == session_idx(sessions@, token),
            None => !has_session(sessions@, token),
        }),
{
    let n = sessions.len();
    let mut i: usize = 0;
    while i < n
        invariant
            n == sessions@.len(),
            i <= n,
            unique_tokens(sessions@),
            forall|j: int| 0 <= j < i ==> sessions@[j].token != token,
        decreases n - i,
    {
        if sessions[i].token == token {
            proof {
                assert(has_session(sessions@, token));
                let k = session_idx(sessions@, token);
                assert(0 <= k < sessions@.len() && sessions@[k].token == token);
                if k != i as int {
                    assert(sessions@[k].token != sessions@[i as int].token);
                }
            }
            return Some(i);
        }
        i += 1;
    }
    None
}

/// First user record with the given name, if any.
fn find_user_by_name(users: &Vec<UserCreds>, name: &str) -> (r: Option<usize>)
    requires
        unique_user_names(users@),
    ensures
        (match r {
            Some(i) => has_user_named(users@, name@)
                && i < users@.len()
                && i == user_idx_by_name(users@, name@),
            None => !has_user_named(users@, name@),
        }),
{
    let target: String = name.to_owned();
    let n = users.len();
    let mut i: usize = 0;
    while i < n
        invariant
            n == users@.len(),
            i <= n,
            target@ == name@,
            unique_user_names(users@),
            forall|j: int| 0 <= j < i ==> users@[j].name@ != name@,
        decreases n - i,
    {
        if users[i].name == target {
            proof {
                assert(has_user_named(users@, name@));
                let k = user_idx_by_name(users@, name@);
                assert(0 <= k < users@.len() && users@[k].name@ == name@);
                if k != i as int {
                    assert(users@[k].name@ != users@[i as int].name@);
                }
            }
            return Some(i);
        }
        i += 1;
    }
    None
}

} // verus!
