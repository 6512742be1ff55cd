use posts_api::post::Model;
use posts_api::store::{DataError, PostStore};

fn record(title: &str, text: Option<&str>) -> Model {
    Model { id: 0, title: title.to_string(), text: text.map(|t| t.to_string()) }
}

fn seeded(n: usize) -> PostStore {
    let mut store = PostStore::new();
    for i in 0..n {
        store.create_post(record(&format!("title {i}"), None));
    }
    store
}

#[test]
fn create_assigns_sequential_ids() {
    let mut store = PostStore::new();
    let first = store.create_post(record("a", None));
    let second = store.create_post(record("b", Some("body")));
    assert_eq!(first.id, 1);
    assert_eq!(second.id, 2);
}

#[test]
fn create_overwrites_client_supplied_id() {
    let mut store = PostStore::new();
    let created = store.create_post(Model {
        id: 99,
        title: "a".to_string(),
        text: None,
    });
    assert_eq!(created.id, 1);
}

#[test]
fn create_then_find_returns_identical_title_and_text() {
    let mut store = PostStore::new();
    let created = store.create_post(record("hello", Some("world")));
    let fetched = store.find_post_by_id(created.id).unwrap();
    assert_eq!(fetched.title, "hello");
    assert_eq!(fetched.text, Some("world".to_string()));
    assert_eq!(fetched, created);
}

#[test]
fn find_absent_id_is_not_found() {
    let store = PostStore::new();
    assert_eq!(store.find_post_by_id(1), Err(DataError::NotFound));
}

#[test]
fn update_then_find_returns_updated_fields_unchanged_id() {
    let mut store = seeded(3);
    let updated = store
        .update_post_by_id(2, record("new title", Some("new text")))
        .unwrap();
    assert_eq!(updated.id, 2);
    let fetched = store.find_post_by_id(2).unwrap();
    assert_eq!(fetched.id, 2);
    assert_eq!(fetched.title, "new title");
    assert_eq!(fetched.text, Some("new text".to_string()));
}

#[test]
fn update_leaves_other_rows_unchanged() {
    let mut store = seeded(3);
    store.update_post_by_id(2, record("changed", None)).unwrap();
    let first = store.find_post_by_id(1).unwrap();
    assert_eq!(first.title, "title 0");
    let third = store.find_post_by_id(3).unwrap();
    assert_eq!(third.title, "title 2");
}

#[test]
fn update_absent_id_is_not_found() {
    let mut store = seeded(2);
    assert_eq!(
        store.update_post_by_id(7, record("x", None)),
        Err(DataError::NotFound)
    );
}

#[test]
fn delete_then_find_is_not_found() {
    let mut store = seeded(3);
    let rows = store.delete_post(2);
    assert_eq!(rows, 1);
    assert_eq!(store.find_post_by_id(2), Err(DataError::NotFound));
}

#[test]
fn delete_absent_id_returns_zero_rows_not_an_error() {
    let mut store = seeded(2);
    let rows = store.delete_post(999);
    assert_eq!(rows, 0);
}

#[test]
fn seven_rows_page_one_of_five_has_five_items_two_pages() {
    let store = seeded(7);
    let (posts, num_pages) = store.find_posts_in_page(1, 5);
    assert_eq!(posts.len(), 5);
    assert_eq!(num_pages, 2);
}

#[test]
fn pages_are_ordered_by_ascending_id_and_bounded() {
    let store = seeded(7);
    let (first_page, _) = store.find_posts_in_page(1, 5);
    let ids: Vec<i32> = first_page.iter().map(|p| p.id).collect();
    assert_eq!(ids, vec![1, 2, 3, 4, 5]);
    let (second_page, num_pages) = store.find_posts_in_page(2, 5);
    let ids: Vec<i32> = second_page.iter().map(|p| p.id).collect();
    assert_eq!(ids, vec![6, 7]);
    assert_eq!(num_pages, 2);
}

#[test]
fn out_of_range_page_is_empty_without_error() {
    let store = seeded(7);
    let (posts, num_pages) = store.find_posts_in_page(3, 5);
    assert!(posts.is_empty());
    assert_eq!(num_pages, 2);
}

#[test]
fn page_count_is_ceiling_of_rows_over_page_size() {
    assert_eq!(PostStore::new().find_posts_in_page(1, 5).1, 0);
    assert_eq!(seeded(5).find_posts_in_page(1, 5).1, 1);
    assert_eq!(seeded(6).find_posts_in_page(1, 5).1, 2);
    assert_eq!(seeded(10).find_posts_in_page(1, 3).1, 4);
}

#[test]
fn ids_are_not_reused_after_delete() {
    let mut store = seeded(2);
    store.delete_post(2);
    let created = store.create_post(record("again", None));
    assert_eq!(created.id, 3);
}

#[test]
fn pagination_after_delete_skips_the_missing_id() {
    let mut store = seeded(4);
    store.delete_post(2);
    let (posts, num_pages) = store.find_posts_in_page(1, 5);
    let ids: Vec<i32> = posts.iter().map(|p| p.id).collect();
    assert_eq!(ids, vec![1, 3, 4]);
    assert_eq!(num_pages, 1);
}
