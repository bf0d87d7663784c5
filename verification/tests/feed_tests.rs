use gentlepol::auth::Auth;
use gentlepol::feed::{Feed, FeedError, FeedManager, Selectors};
use gentlepol::store::Store;

fn selectors(link: &str) -> Selectors {
    Selectors {
        post: None,
        title: None,
        link: link.to_owned(),
        description: None,
        date: None,
        image: None,
    }
}

fn sample_feed(name: &str) -> Feed {
    Feed {
        url: "https://example.org/news".to_owned(),
        name: name.to_owned(),
        selectors: Selectors {
            post: Some("div.post".to_owned()),
            title: Some("h2".to_owned()),
            link: "a.permalink".to_owned(),
            description: None,
            date: Some("time".to_owned()),
            image: None,
        },
    }
}

/// Two registered users; returns their ids, alice first.
fn two_users(store: &mut Store) -> (i32, i32) {
    let auth = Auth::new();
    auth.register(store, "alice", "pw1").unwrap();
    auth.register(store, "bob", "pw2").unwrap();
    let ta = auth.login_at(store, "alice", "pw1", 1_000).unwrap();
    let tb = auth.login_at(store, "bob", "pw2", 1_000).unwrap();
    let alice = auth.get_user_at(store, &ta, 2_000).unwrap();
    let bob = auth.get_user_at(store, &tb, 2_000).unwrap();
    (alice.id, bob.id)
}

#[test]
fn create_then_get_by_owner() {
    let mut store = Store::new();
    let (alice, _) = two_users(&mut store);
    let fm = FeedManager::new();
    fm.create_feed(&mut store, alice, sample_feed("blog")).unwrap();
    let got = fm.feed(&store, alice, "blog").unwrap();
    assert_eq!(got, sample_feed("blog"));
}

#[test]
fn foreign_feed_looks_absent() {
    let mut store = Store::new();
    let (alice, bob) = two_users(&mut store);
    let fm = FeedManager::new();
    fm.create_feed(&mut store, alice, sample_feed("blog")).unwrap();
    let foreign = fm.feed(&store, bob, "blog").unwrap_err();
    let absent = fm.feed(&store, bob, "nonexistent").unwrap_err();
    assert_eq!(foreign, FeedError::NoFeed);
    assert_eq!(foreign, absent);
}

#[test]
fn duplicate_name_refused_across_owners() {
    let mut store = Store::new();
    let (alice, bob) = two_users(&mut store);
    let fm = FeedManager::new();
    fm.create_feed(&mut store, alice, sample_feed("blog")).unwrap();
    // Feed names are globally unique, not per owner.
    let r = fm.create_feed(&mut store, bob, sample_feed("blog"));
    assert_eq!(r.unwrap_err(), FeedError::Duplicate);
}

#[test]
fn update_changes_url_and_selectors_only() {
    let mut store = Store::new();
    let (alice, _) = two_users(&mut store);
    let fm = FeedManager::new();
    fm.create_feed(&mut store, alice, sample_feed("blog")).unwrap();
    let new_def = Feed {
        url: "https://example.org/other".to_owned(),
        name: "renamed-is-ignored".to_owned(),
        selectors: selectors("a.other"),
    };
    fm.update_feed(&mut store, alice, "blog", new_def).unwrap();
    // Still addressed by its old name; url and selectors are the new ones.
    let got = fm.feed(&store, alice, "blog").unwrap();
    assert_eq!(got.name, "blog");
    assert_eq!(got.url, "https://example.org/other");
    assert_eq!(got.selectors, selectors("a.other"));
    assert_eq!(fm.feed(&store, alice, "renamed-is-ignored").unwrap_err(), FeedError::NoFeed);
}

#[test]
fn update_by_non_owner_leaves_row_unchanged() {
    let mut store = Store::new();
    let (alice, bob) = two_users(&mut store);
    let fm = FeedManager::new();
    fm.create_feed(&mut store, alice, sample_feed("blog")).unwrap();
    let r = fm.update_feed(
        &mut store,
        bob,
        "blog",
        Feed { url: "https://evil".to_owned(), name: "blog".to_owned(), selectors: selectors("x") },
    );
    assert_eq!(r.unwrap_err(), FeedError::NoFeed);
    let got = fm.feed(&store, alice, "blog").unwrap();
    assert_eq!(got, sample_feed("blog"));
}

#[test]
fn update_of_absent_feed_reports_not_found() {
    let mut store = Store::new();
    let (alice, _) = two_users(&mut store);
    let fm = FeedManager::new();
    let r = fm.update_feed(&mut store, alice, "nothing", sample_feed("nothing"));
    assert_eq!(r.unwrap_err(), FeedError::NoFeed);
}

#[test]
fn delete_removes_feed_for_everyone() {
    let mut store = Store::new();
    let (alice, bob) = two_users(&mut store);
    let fm = FeedManager::new();
    fm.create_feed(&mut store, alice, sample_feed("blog")).unwrap();
    fm.delete_feed(&mut store, alice, "blog").unwrap();
    assert_eq!(fm.feed(&store, alice, "blog").unwrap_err(), FeedError::NoFeed);
    assert_eq!(fm.feed(&store, bob, "blog").unwrap_err(), FeedError::NoFeed);
}

#[test]
fn delete_by_non_owner_is_a_refused_no_op() {
    let mut store = Store::new();
    let (alice, bob) = two_users(&mut store);
    let fm = FeedManager::new();
    fm.create_feed(&mut store, alice, sample_feed("blog")).unwrap();
    let r = fm.delete_feed(&mut store, bob, "blog");
    assert_eq!(r.unwrap_err(), FeedError::NoFeed);
    // The row is still there for its owner.
    assert!(fm.feed(&store, alice, "blog").is_ok());
}

#[test]
fn delete_of_absent_feed_reports_not_found() {
    let mut store = Store::new();
    let (alice, _) = two_users(&mut store);
    let fm = FeedManager::new();
    let r = fm.delete_feed(&mut store, alice, "nothing");
    assert_eq!(r.unwrap_err(), FeedError::NoFeed);
}

#[test]
fn list_holds_exactly_own_names() {
    let mut store = Store::new();
    let (alice, bob) = two_users(&mut store);
    let fm = FeedManager::new();
    fm.create_feed(&mut store, alice, sample_feed("blog")).unwrap();
    fm.create_feed(&mut store, alice, sample_feed("news")).unwrap();
    fm.create_feed(&mut store, bob, sample_feed("bobs")).unwrap();
    let alice_names = fm.feeds_list(&store, alice);
    let bob_names = fm.feeds_list(&store, bob);
    assert_eq!(alice_names, vec!["blog".to_owned(), "news".to_owned()]);
    assert_eq!(bob_names, vec!["bobs".to_owned()]);
}

#[test]
fn list_shrinks_after_delete() {
    let mut store = Store::new();
    let (alice, _) = two_users(&mut store);
    let fm = FeedManager::new();
    fm.create_feed(&mut store, alice, sample_feed("blog")).unwrap();
    fm.create_feed(&mut store, alice, sample_feed("news")).unwrap();
    fm.delete_feed(&mut store, alice, "blog").unwrap();
    assert_eq!(fm.feeds_list(&store, alice), vec!["news".to_owned()]);
}

#[test]
fn full_scenario() {
    let mut store = Store::new();
    let auth = Auth::new();
    let fm = FeedManager::new();
    auth.register(&mut store, "alice", "pw1").unwrap();
    auth.register(&mut store, "bob", "pw2").unwrap();
    let token = auth.login_at(&mut store, "alice", "pw1", 1_000).unwrap();
    let alice = auth.get_user_at(&store, &token, 2_000).unwrap();
    let tb = auth.login_at(&mut store, "bob", "pw2", 1_000).unwrap();
    let bob = auth.get_user_at(&store, &tb, 2_000).unwrap();
    let def = Feed {
        url: "https://x".to_owned(),
        name: "blog".to_owned(),
        selectors: selectors("a.post"),
    };
    fm.create_feed(&mut store, alice.id, def.clone()).unwrap();
    assert_eq!(fm.feed(&store, bob.id, "blog").unwrap_err(), FeedError::NoFeed);
    assert_eq!(fm.feed(&store, alice.id, "blog").unwrap(), def);
}
