use blog_store::post::Post;
use blog_store::store::PostStore;

#[test]
fn empty_store_lists_nothing() {
    let store = PostStore::new();
    let posts = store.list();
    assert!(posts.is_empty());
}

#[test]
fn append_assigns_ids_in_order() {
    let mut store = PostStore::new();
    let a = store.append("A".to_string(), "aaa".to_string()).unwrap();
    let b = store.append("B".to_string(), "bbb".to_string()).unwrap();
    let c = store.append("C".to_string(), "ccc".to_string()).unwrap();
    assert_eq!(a.id, 0);
    assert_eq!(b.id, 1);
    assert_eq!(c.id, 2);
}

#[test]
fn empty_title_is_rejected() {
    let mut store = PostStore::new();
    store.append("seed".to_string(), "post".to_string()).unwrap();
    let before = store.list().len();
    let r = store.append("".to_string(), "x".to_string());
    assert!(r.is_err());
    assert_eq!(store.list().len(), before);
}

#[test]
fn empty_article_is_rejected() {
    let mut store = PostStore::new();
    let r = store.append("x".to_string(), "".to_string());
    assert!(r.is_err());
    assert_eq!(store.list().len(), 0);
}

#[test]
fn empty_title_and_article_are_rejected() {
    let mut store = PostStore::new();
    let r = store.append("".to_string(), "".to_string());
    assert!(r.is_err());
    assert_eq!(store.list().len(), 0);
}

#[test]
fn validation_error_message() {
    let mut store = PostStore::new();
    let e = store.append("".to_string(), "".to_string()).unwrap_err();
    assert_eq!(e.message(), "Title and article are required");
}

#[test]
fn listing_preserves_insertion_order() {
    let mut store = PostStore::new();
    store.append("A".to_string(), "first body".to_string()).unwrap();
    store.append("B".to_string(), "second body".to_string()).unwrap();
    store.append("C".to_string(), "third body".to_string()).unwrap();
    let posts = store.list();
    let titles: Vec<&str> = posts.iter().map(|p| p.title.as_str()).collect();
    assert_eq!(titles, vec!["A", "B", "C"]);
    let articles: Vec<&str> = posts.iter().map(|p| p.article.as_str()).collect();
    assert_eq!(articles, vec!["first body", "second body", "third body"]);
}

#[test]
fn listing_twice_is_identical() {
    let mut store = PostStore::new();
    store.append("one".to_string(), "body one".to_string()).unwrap();
    store.append("two".to_string(), "body two".to_string()).unwrap();
    let first = store.list();
    let second = store.list();
    assert_eq!(first.len(), second.len());
    for (p, q) in first.iter().zip(second.iter()) {
        assert_eq!(p.id, q.id);
        assert_eq!(p.title, q.title);
        assert_eq!(p.date, q.date);
        assert_eq!(p.article, q.article);
    }
}

#[test]
fn many_appends_give_distinct_gapless_ids() {
    let mut store = PostStore::new();
    let n: usize = 8;
    let mut ids: Vec<usize> = Vec::new();
    for i in 0..n {
        let p = store
            .append(format!("title {i}"), format!("article {i}"))
            .unwrap();
        ids.push(p.id);
    }
    let expected: Vec<usize> = (0..n).collect();
    assert_eq!(ids, expected);
    let listed: Vec<usize> = store.list().iter().map(|p| p.id).collect();
    assert_eq!(listed, expected);
}

#[test]
fn scenario_first_post() {
    let mut store = PostStore::new();
    assert_eq!(store.list().len(), 0);

    let p = store.append("Hello".to_string(), "World".to_string()).unwrap();
    assert_eq!(p.id, 0);
    assert_eq!(p.title, "Hello");
    assert_eq!(p.date, "2024-01-15");
    assert_eq!(p.article, "World");

    let e = store.append("".to_string(), "Body".to_string()).unwrap_err();
    assert_eq!(e.message(), "Title and article are required");

    let posts = store.list();
    assert_eq!(posts.len(), 1);
    let only: &Post = &posts[0];
    assert_eq!(only.id, 0);
    assert_eq!(only.title, "Hello");
    assert_eq!(only.date, "2024-01-15");
    assert_eq!(only.article, "World");
}

#[test]
fn listed_posts_are_snapshots() {
    let mut store = PostStore::new();
    store.append("kept".to_string(), "original body".to_string()).unwrap();
    let mut snapshot = store.list();
    snapshot[0].title = "changed".to_string();
    let again = store.list();
    assert_eq!(again[0].title, "kept");
}
