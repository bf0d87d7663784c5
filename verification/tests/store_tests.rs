use gentlepol::store::{Store, StoreError, WebNews};

fn row(name: &str, owner: i32, url: &str) -> WebNews {
    WebNews {
        id: -1, // ignored: the store assigns ids
        url: url.to_owned(),
        name: name.to_owned(),
        owner,
        selector_post: None,
        selector_title: Some("h1".to_owned()),
        selector_link: "a".to_owned(),
        selector_description: None,
        selector_date: None,
        selector_image: None,
    }
}

#[test]
fn create_user_assigns_increasing_ids() {
    let mut store = Store::new();
    store.create_user("alice", "h1".to_owned()).unwrap();
    store.create_user("bob", "h2".to_owned()).unwrap();
    let alice = store.get_user_creds_by_name("alice").unwrap();
    let bob = store.get_user_creds_by_name("bob").unwrap();
    assert_eq!(alice.id, 0);
    assert_eq!(bob.id, 1);
    assert_eq!(alice.password_hash, "h1");
    assert!(store.get_user_creds_by_name("carol").is_none());
}

#[test]
fn duplicate_user_name_refused() {
    let mut store = Store::new();
    store.create_user("alice", "h1".to_owned()).unwrap();
    let r = store.create_user("alice", "h2".to_owned());
    assert_eq!(r.unwrap_err(), StoreError::Duplicate);
}

#[test]
fn duplicate_session_token_refused() {
    let mut store = Store::new();
    store.create_user("alice", "h1".to_owned()).unwrap();
    store.create_session(0, 42, 1_000).unwrap();
    let r = store.create_session(0, 42, 2_000);
    assert_eq!(r.unwrap_err(), StoreError::Duplicate);
}

#[test]
fn session_lookup_finds_the_row() {
    let mut store = Store::new();
    store.create_user("alice", "h1".to_owned()).unwrap();
    store.create_session(0, 42, 1_000).unwrap();
    let s = store.get_session_by_token(42).unwrap();
    assert_eq!(s.owner, 0);
    assert_eq!(s.valid_until, 1_000);
    assert!(store.get_session_by_token(43).is_none());
}

#[test]
fn update_keeps_id_name_and_owner() {
    let mut store = Store::new();
    store.create_web_news(&row("blog", 7, "https://a")).unwrap();
    store.update_web_news_by_name("blog", &row("ignored", 9, "https://b"));
    let w = store.get_web_news_by_name("blog").unwrap();
    assert_eq!(w.id, 0);
    assert_eq!(w.name, "blog");
    assert_eq!(w.owner, 7);
    assert_eq!(w.url, "https://b");
}

#[test]
fn delete_of_absent_name_changes_nothing() {
    let mut store = Store::new();
    store.create_web_news(&row("blog", 7, "https://a")).unwrap();
    store.delete_web_news_by_name("nothing");
    assert!(store.get_web_news_by_name("blog").is_some());
    store.delete_web_news_by_name("blog");
    assert!(store.get_web_news_by_name("blog").is_none());
}

#[test]
fn poller_enumeration_sees_every_row() {
    let mut store = Store::new();
    store.create_web_news(&row("blog", 7, "https://a")).unwrap();
    store.create_web_news(&row("news", 7, "https://b")).unwrap();
    store.create_web_news(&row("other", 8, "https://c")).unwrap();
    let all = store.get_all_web_news();
    let names: Vec<&str> = all.iter().map(|w| w.name.as_str()).collect();
    assert_eq!(names, vec!["blog", "news", "other"]);
    let ids: Vec<i32> = all.iter().map(|w| w.id).collect();
    assert_eq!(ids, vec![0, 1, 2]);
}
