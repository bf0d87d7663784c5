//! Authentication: registration with hashed passwords, login issuing
//! expiring session tokens, and token resolution back to the owning user.

use vstd::prelude::*;

use crate::clock::current_millis;
use crate::hashing::{bcrypt_verify_of, check_password, hash_password};
use crate::store::{
    has_session, has_user_id, has_user_named, session_idx, user_created, user_idx_by_id,
    user_idx_by_name, Session, Store, StoreError, User,
};
use crate::token::{format_token, generate_token, parse_token, uuid_hyphenated, uuid_parse_of};

verus! {

/// How long a session stays valid after login: seven days, in milliseconds.
pub const WEEK_MILLIS: i64 = 7 * 24 * 60 * 60 * 1000;

/// Why an authentication operation failed.
#[derive(Debug, Clone, Copy, PartialEq, Eq, Structural)]
pub enum AuthError {
    /// The username is already registered.
    Duplicate,
    /// The store refused the write.
    Storage,
    /// The hashing primitive failed.
    Hash,
    /// No user with the given name.
    NoUser,
    /// The password does not match the stored hash.
    Password,
    /// The token string does not parse.
    ParseToken,
    /// No session carries the token.
    InvalidToken,
    /// The session is past its expiry.
    ExpiredToken,
}

/// A username/password pair as submitted by a client.
#[derive(Debug, Clone, PartialEq, Eq)]
pub struct LoginInfo {
    pub username: String,
    pub password: String,
}

/// What resolving an already-parsed token against a store at a given time
/// yields: the owning user while the session is unexpired, otherwise the
/// reason the token is refused.
pub open spec fn auth_bits(store: Store, bits: u128, now_ms: i64) -> Result<User, AuthError> {
    if !has_session(store.sessions@, bits) {
        Err(AuthError::InvalidToken)
    } else {
        let sess = store.sessions@[session_idx(store.sessions@, bits)];
        if now_ms >= sess.valid_until {
            Err(AuthError::ExpiredToken)
        } else {
            let cred = store.users@[user_idx_by_id(store.users@, sess.owner)];
            Ok((User { id: cred.id, name: cred.name }))
        }
    }
}

/// What authenticating a token string against a store at a given time
/// yields; a string the token parser refuses never resolves to a user.
pub open spec fn authenticate_spec(store: Store, token: Seq<char>, now_ms: i64) -> Result<
    User,
    AuthError,
> {
    match uuid_parse_of(token) {
        None => Err(AuthError::ParseToken),
        Some(bits) => auth_bits(store, bits, now_ms),
    }
}

/// The authenticator: registers users and issues and resolves session
/// tokens against a record store.
pub struct Auth {}

impl Auth {
    pub fn new() -> (r: Auth) {
        Auth {}
    }

    /// Register a user: hash the password and create the user record.
    pub fn register(&self, store: &mut Store, username: &str, password: &str) -> (r: Result<
        (),
        AuthError,
    >)
        requires
            old(store).wf(),
        ensures
            final(store).wf(),
            (match r {
                Ok(()) => !has_user_named(old(store).users@, username@)
                    && old(store).next_user_id < i32::MAX
                    && (exists|h: Seq<char>|
                        #[trigger] user_created(*old(store), *final(store), username@, h)
                            && bcrypt_verify_of(password@, h) == Some(true)),
                Err(AuthError::Hash) => *final(store) == *old(store),
                Err(AuthError::Duplicate) => has_user_named(old(store).users@, username@)
                    && *final(store) == *old(store),
                Err(AuthError::Storage) => !has_user_named(old(store).users@, username@)
                    && old(store).next_user_id == i32::MAX
                    && *final(store) == *old(store),
                _ => false,
            }),
    {
        let hash = match hash_password(password) {
            Some(h) => h,
            None => {
                return Err(AuthError::Hash);
            },
        };
        let ghost hview = hash@;
        match store.create_user(username, hash) {
            Ok(()) => {
                proof {
                    assert(user_created(*old(store), *store, username@, hview)
                        && bcrypt_verify_of(password@, hview) == Some(true));
                }
                Ok(())
            },
            Err(StoreError::Duplicate) => Err(AuthError::Duplicate),
            Err(StoreError::Full) => Err(AuthError::Storage),
        }
    }

    /// Log in at the given time: verify the password against the stored
    /// hash, then record a fresh random session valid for seven days and
    /// return its token as text.
    pub fn login_at(
        &self,
        store: &mut Store,
        username: &str,
        password: &str,
        now_ms: i64,
    ) -> (r: Result<String, AuthError>)
        requires
            old(store).wf(),
            now_ms <= i64::MAX - WEEK_MILLIS,
        ensures
            final(store).wf(),
            final(store).users@ == old(store).users@,
            final(store).feeds@ == old(store).feeds@,
            final(store).next_user_id == old(store).next_user_id,
            final(store).next_feed_id == old(store).next_feed_id,
            (match r {
                Ok(token) => has_user_named(old(store).users@, username@) && ({
                    let cred = old(store).users@[user_idx_by_name(old(store).users@, username@)];
                    &&& bcrypt_verify_of(password@, cred.password_hash@) == Some(true)
                    &&& exists|s: Session|
                        {
                            &&& final(store).sessions@ == old(store).sessions@.push(s)
                            &&& s.owner == cred.id
                            &&& s.valid_until == now_ms + WEEK_MILLIS
                            &&& !has_session(old(store).sessions@, s.token)
                            &&& token@ == uuid_hyphenated(s.token)
                            &&& uuid_parse_of(token@) == Some(s.token)
                        }
                }),
                Err(AuthError::NoUser) => !has_user_named(old(store).users@, username@)
                    && *final(store) == *old(store),
                Err(AuthError::Password) => has_user_named(old(store).users@, username@)
                    && bcrypt_verify_of(
                    password@,
                    old(store).users@[user_idx_by_name(old(store).users@, username@)].password_hash@,
                ) == Some(false) && *final(store) == *old(store),
                Err(AuthError::Hash) => has_user_named(old(store).users@, username@)
                    && bcrypt_verify_of(
                    password@,
                    old(store).users@[user_idx_by_name(old(store).users@, username@)].password_hash@,
                ) is None && *final(store) == *old(store),
                Err(AuthError::Storage) => has_user_named(old(store).users@, username@)
                    && bcrypt_verify_of(
                    password@,
                    old(store).users@[user_idx_by_name(old(store).users@, username@)].password_hash@,
                ) == Some(true) && *final(store) == *old(store),
                _ => false,
            }),
    {
        let cred = match store.get_user_creds_by_name(username) {
            Some(c) => c,
            None => {
                return Err(AuthError::NoUser);
            },
        };
        let ok = match check_password(password, &cred.password_hash) {
            Some(b) => b,
            None => {
                return Err(AuthError::Hash);
            },
        };
        if !ok {
            return Err(AuthError::Password);
        }
        let bits = generate_token();
        proof {
            let k = user_idx_by_name(store.users@, username@);
            assert(store.users@[k].id == cred.id);
            assert(has_user_id(store.users@, cred.id));
        }
        match store.create_session(cred.id, bits, now_ms + WEEK_MILLIS) {
            Ok(()) => {
                let token = format_token(bits);
                proof {
                    let s = (Session { owner: cred.id, token: bits, valid_until: (now_ms + WEEK_MILLIS) as i64 });
                    assert(store.sessions@ == old(store).sessions@.push(s));
                }
                Ok(token)
            },
            Err(_) => Err(AuthError::Storage),
        }
    }

    /// Log in at the current wall-clock time.
    pub fn login(&self, store: &mut Store, username: &str, password: &str) -> (r: Result<
        String,
        AuthError,
    >)
        requires
            old(store).wf(),
        ensures
            final(store).wf(),
            final(store).users@ == old(store).users@,
            final(store).feeds@ == old(store).feeds@,
            final(store).next_user_id == old(store).next_user_id,
            final(store).next_feed_id == old(store).next_feed_id,
            (match r {
                Ok(token) => has_user_named(old(store).users@, username@) && ({
                    let cred = old(store).users@[user_idx_by_name(old(store).users@, username@)];
                    &&& bcrypt_verify_of(password@, cred.password_hash@) == Some(true)
                    &&& exists|s: Session|
                        {
                            &&& final(store).sessions@ == old(store).sessions@.push(s)
                            &&& s.owner == cred.id
                            &&& !has_session(old(store).sessions@, s.token)
                            &&& token@ == uuid_hyphenated(s.token)
                            &&& uuid_parse_of(token@) == Some(s.token)
                        }
                }),
                Err(AuthError::NoUser) => !has_user_named(old(store).users@, username@)
                    && *final(store) == *old(store),
                Err(AuthError::Password) => has_user_named(old(store).users@, username@)
                    && bcrypt_verify_of(
                    password@,
                    old(store).users@[user_idx_by_name(old(store).users@, username@)].password_hash@,
                ) == Some(false) && *final(store) == *old(store),
                Err(AuthError::Hash) => has_user_named(old(store).users@, username@)
                    && bcrypt_verify_of(
                    password@,
                    old(store).users@[user_idx_by_name(old(store).users@, username@)].password_hash@,
                ) is None && *final(store) == *old(store),
                Err(AuthError::Storage) => *final(store) == *old(store),
                _ => false,
            }),
    {
        let now_ms = current_millis();
        if now_ms > i64::MAX - WEEK_MILLIS {
            return Err(AuthError::Storage);
        }
        self.login_at(store, username, password, now_ms)
    }

    /// Resolve a token string at the given time: parse it, find its session,
    /// refuse it if expired, and return the owning user.
    pub fn get_user_at(&self, store: &Store, token: &str, now_ms: i64) -> (r: Result<
        User,
        AuthError,
    >)
        requires
            store.wf(),
        ensures
            r == authenticate_spec(*store, token@, now_ms),
    {
        let bits = match parse_token(token) {
            Some(b) => b,
            None => {
                return Err(AuthError::ParseToken);
            },
        };
        let session = match store.get_session_by_token(bits) {
            Some(s) => s,
            None => {
                return Err(AuthError::InvalidToken);
            },
        };
        if now_ms >= session.valid_until {
            return Err(AuthError::ExpiredToken);
        }
        match store.get_user_by_id(session.owner) {
            Some(u) => Ok(u),
            None => {
                proof {
                    let k = session_idx(store.sessions@, bits);
                    assert(has_user_id(store.users@, store.sessions@[k].owner));
                }
                unreached()
            },
        }
    }

    /// Resolve a token string at the current wall-clock time.
    pub fn get_user(&self, store: &Store, token: &str) -> (r: Result<User, AuthError>)
        requires
            store.wf(),
        ensures
            exists|now_ms: i64| r == #[trigger] authenticate_spec(*store, token@, now_ms),
    {
        let now_ms = current_millis();
        let r = self.get_user_at(store, token, now_ms);
        proof {
            assert(r == authenticate_spec(*store, token@, now_ms));
        }
        r
    }
}

/// After a successful registration, a login with the same credentials finds
/// the new user, and the stored hash matches the password: by `login_at`'s
/// contract such a login cannot fail with `NoUser` or `Password`.
pub proof fn lemma_register_enables_login(
    pre: Store,
    post: Store,
    username: Seq<char>,
    password: Seq<char>,
    hash: Seq<char>,
)
    requires
        pre.wf(),
        !has_user_named(pre.users@, username),
        user_created(pre, post, username, hash),
        bcrypt_verify_of(password, hash) == Some(true),
    ensures
        has_user_named(post.users@, username),
        bcrypt_verify_of(
            password,
            post.users@[user_idx_by_name(post.users@, username)].password_hash@,
        ) == Some(true),
{
    let m = pre.users@.len() as int;
    assert(post.users@[m].name@ == username);
    assert(has_user_named(post.users@, username));
    let k = user_idx_by_name(post.users@, username);
    assert(0 <= k < post.users@.len() && post.users@[k].name@ == username);
    if k != m {
        assert(post.users@[k] == pre.users@[k]);
        assert(has_user_named(pre.users@, username));
    }
}

/// A session just recorded resolves, at any time before its expiry, to
/// exactly its owner; at or past the expiry it is refused as expired, and
/// only as expired.
pub proof fn lemma_issued_token_resolves(pre: Store, post: Store, sess: Session, now_ms: i64)
    requires
        pre.wf(),
        !has_session(pre.sessions@, sess.token),
        has_user_id(pre.users@, sess.owner),
        post.sessions@ == pre.sessions@.push(sess),
        post.users@ == pre.users@,
    ensures
        now_ms < sess.valid_until ==> (auth_bits(post, sess.token, now_ms) matches Ok(u)
            && u.id == sess.owner
            && u.name == post.users@[user_idx_by_id(post.users@, sess.owner)].name),
        now_ms >= sess.valid_until ==> auth_bits(post, sess.token, now_ms) == Err::<
            User,
            AuthError,
        >(AuthError::ExpiredToken),
{
    let n = pre.sessions@.len() as int;
    assert(post.sessions@[n] == sess);
    assert(has_session(post.sessions@, sess.token));
    let k = session_idx(post.sessions@, sess.token);
    assert(0 <= k < post.sessions@.len() && post.sessions@[k].token == sess.token);
    if k != n {
        assert(post.sessions@[k] == pre.sessions@[k]);
        assert(has_session(pre.sessions@, sess.token));
    }
    assert(post.sessions@[k] == sess);
    if now_ms < sess.valid_until {
        let j = user_idx_by_id(post.users@, sess.owner);
        assert(0 <= j < post.users@.len() && post.users@[j].id == sess.owner);
    }
}

/// A token string the parser refuses is rejected as malformed, in every
/// store and at every time: it never resolves to a user.
pub proof fn lemma_malformed_token_rejected(store: Store, token: Seq<char>, now_ms: i64)
    requires
        uuid_parse_of(token) is None,
    ensures
        authenticate_spec(store, token, now_ms) == Err::<User, AuthError>(AuthError::ParseToken),
{
}

/// A well-formed token that no session carries is rejected as unknown: the
/// failure differs from the malformed case only internally.
pub proof fn lemma_unknown_token_rejected(store: Store, token: Seq<char>, now_ms: i64)
    requires
        uuid_parse_of(token) matches Some(bits) && !has_session(store.sessions@, bits),
    ensures
        authenticate_spec(store, token, now_ms) == Err::<User, AuthError>(AuthError::InvalidToken),
{
}

} // verus!
