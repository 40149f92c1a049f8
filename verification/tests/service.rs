use post_service::AppError;
use post_service::DeleteQuery;
use post_service::GetPostsQueryParams;
use post_service::create_post;
use post_service::delete_post_by_text;
use post_service::get_post_by_id;
use post_service::get_posts;
use post_service::models::NewPost;
use post_service::models::Post;
use post_service::publish_post;
use post_service::store::PostTable;

fn new_post(title: &str, body: &str) -> NewPost {
    NewPost { title: title.to_owned(), body: body.to_owned() }
}

fn create(table: &mut PostTable, title: &str, body: &str) -> Post {
    create_post(table, new_post(title, body)).expect("create should succeed")
}

fn list(table: &PostTable, include_unpublished: Option<bool>) -> Vec<Post> {
    get_posts(table, &GetPostsQueryParams { include_unpublished }).expect("list should succeed")
}

fn delete_by_id(table: &mut PostTable, id: i32) -> Result<usize, AppError> {
    delete_post_by_text(table, &DeleteQuery { text: None, id: Some(id) })
}

fn delete_by_text(table: &mut PostTable, text: &str) -> Result<usize, AppError> {
    delete_post_by_text(table, &DeleteQuery { text: Some(text.to_owned()), id: None })
}

#[test]
fn create_then_fetch_matches_payload() {
    let mut table = PostTable::new();
    let created = create(&mut table, "A title", "A body");
    assert_eq!(created.id, 1);
    assert_eq!(created.title, "A title");
    assert_eq!(created.body, "A body");
    assert!(!created.published);

    let fetched = get_post_by_id(&table, created.id).expect("fetch should find the row");
    assert_eq!(fetched.id, created.id);
    assert_eq!(fetched.title, "A title");
    assert_eq!(fetched.body, "A body");
    assert!(!fetched.published);
}

#[test]
fn create_accepts_empty_strings() {
    let mut table = PostTable::new();
    let created = create(&mut table, "", "");
    let fetched = get_post_by_id(&table, created.id).expect("fetch should find the row");
    assert_eq!(fetched.title, "");
    assert_eq!(fetched.body, "");
}

#[test]
fn ids_are_assigned_in_sequence() {
    let mut table = PostTable::new();
    assert_eq!(create(&mut table, "a", "x").id, 1);
    assert_eq!(create(&mut table, "b", "y").id, 2);
    assert_eq!(create(&mut table, "c", "z").id, 3);
}

#[test]
fn publish_then_fetch_is_published() {
    let mut table = PostTable::new();
    let created = create(&mut table, "T", "B");
    let updated = publish_post(&mut table, created.id).expect("publish should find the row");
    assert_eq!(updated.id, created.id);
    assert_eq!(updated.title, "T");
    assert_eq!(updated.body, "B");
    assert!(updated.published);

    let fetched = get_post_by_id(&table, created.id).expect("fetch should find the row");
    assert!(fetched.published);
    assert_eq!(fetched.title, "T");
}

#[test]
fn publish_missing_id_is_internal_error() {
    let mut table = PostTable::new();
    create(&mut table, "only", "row");
    let result = publish_post(&mut table, 42);
    assert!(matches!(result, Err(AppError::Internal)));
    let (status, body) = AppError::Internal.error_response();
    assert_eq!(status, 500);
    assert_eq!(body, "Something went wrong");
    // no row appeared and the existing row is untouched
    let all = list(&table, Some(true));
    assert_eq!(all.len(), 1);
    assert!(!all[0].published);
}

#[test]
fn listing_hides_unpublished_by_default() {
    let mut table = PostTable::new();
    let first = create(&mut table, "first", "b");
    create(&mut table, "second", "b");
    publish_post(&mut table, first.id).expect("publish should find the row");

    let visible = list(&table, None);
    assert_eq!(visible.len(), 1);
    assert_eq!(visible[0].id, first.id);
    assert!(visible.iter().all(|p| p.published));

    let visible = list(&table, Some(false));
    assert_eq!(visible.len(), 1);
    assert!(visible.iter().all(|p| p.published));
}

#[test]
fn listing_shows_all_when_asked() {
    let mut table = PostTable::new();
    let first = create(&mut table, "first", "b");
    create(&mut table, "second", "b");
    publish_post(&mut table, first.id).expect("publish should find the row");

    let all = list(&table, Some(true));
    assert_eq!(all.len(), 2);
    assert_eq!(all[0].id, 1);
    assert_eq!(all[1].id, 2);
    assert!(all[0].published);
    assert!(!all[1].published);
}

#[test]
fn listing_caps_at_twenty_rows() {
    let mut table = PostTable::new();
    for k in 0..25 {
        let created = create(&mut table, &format!("t{}", k), "b");
        publish_post(&mut table, created.id).expect("publish should find the row");
    }
    assert_eq!(list(&table, None).len(), 20);
    assert_eq!(list(&table, Some(true)).len(), 20);
    // the first twenty in table order are the ones listed
    let listed = list(&table, Some(true));
    for (k, post) in listed.iter().enumerate() {
        assert_eq!(post.id, (k + 1) as i32);
    }
}

#[test]
fn delete_with_no_selector_is_bad_request() {
    let mut table = PostTable::new();
    create(&mut table, "keep", "b");
    let result = delete_post_by_text(&mut table, &DeleteQuery { text: None, id: None });
    match result {
        Err(AppError::BadRequest(Some(reason))) => {
            assert_eq!(reason, "request needs exactly one of 'text' or 'id'");
            let (status, body) = AppError::BadRequest(Some(reason)).error_response();
            assert_eq!(status, 400);
            assert_eq!(body, "request needs exactly one of 'text' or 'id'");
        },
        other => panic!("expected a bad request, got {:?}", other.is_ok()),
    }
    assert_eq!(list(&table, Some(true)).len(), 1);
}

#[test]
fn delete_with_both_selectors_is_bad_request() {
    let mut table = PostTable::new();
    create(&mut table, "keep", "b");
    let result = delete_post_by_text(
        &mut table,
        &DeleteQuery { text: Some("keep".to_owned()), id: Some(1) },
    );
    assert!(matches!(result, Err(AppError::BadRequest(Some(_)))));
    assert_eq!(list(&table, Some(true)).len(), 1);
}

#[test]
fn delete_missing_id_reports_zero() {
    let mut table = PostTable::new();
    create(&mut table, "keep", "b");
    let count = delete_by_id(&mut table, 99).expect("delete by id should succeed");
    assert_eq!(count, 0);
    assert_eq!(list(&table, Some(true)).len(), 1);
}

#[test]
fn delete_by_text_removes_matching_titles_only() {
    let mut table = PostTable::new();
    create(&mut table, "Hello world", "b");
    create(&mut table, "other", "b");
    create(&mut table, "say hello there", "b");
    // the engine's default LIKE folds ASCII case, so "hello" matches "Hello"
    let count = delete_by_text(&mut table, "hello").expect("delete by text should succeed");
    assert_eq!(count, 2);
    let rest = list(&table, Some(true));
    assert_eq!(rest.len(), 1);
    assert_eq!(rest[0].title, "other");
}

#[test]
fn delete_by_text_keeps_wildcard_meaning() {
    let mut table = PostTable::new();
    create(&mut table, "abc", "b");
    create(&mut table, "axc", "b");
    create(&mut table, "ac", "b");
    // '_' in the supplied text matches exactly one character
    let count = delete_by_text(&mut table, "a_c").expect("delete by text should succeed");
    assert_eq!(count, 2);
    let rest = list(&table, Some(true));
    assert_eq!(rest.len(), 1);
    assert_eq!(rest[0].title, "ac");

    // '%' in the supplied text matches any run of characters
    let mut table = PostTable::new();
    create(&mut table, "start end", "b");
    create(&mut table, "other", "b");
    let count = delete_by_text(&mut table, "st%nd").expect("delete by text should succeed");
    assert_eq!(count, 1);
    assert_eq!(list(&table, Some(true))[0].title, "other");
}

#[test]
fn delete_by_empty_text_matches_everything() {
    let mut table = PostTable::new();
    create(&mut table, "a", "b");
    create(&mut table, "b", "b");
    let count = delete_by_text(&mut table, "").expect("delete by text should succeed");
    assert_eq!(count, 2);
    assert!(list(&table, Some(true)).is_empty());
}

#[test]
fn fetch_missing_id_is_not_found() {
    let table = PostTable::new();
    let result = get_post_by_id(&table, 9);
    assert!(matches!(result, Err(AppError::NotFound)));
    let (status, body) = AppError::NotFound.error_response();
    assert_eq!(status, 404);
    assert_eq!(body, "not found");
}

#[test]
fn error_responses_match_the_taxonomy() {
    assert_eq!(AppError::Internal.error_response(), (500, "Something went wrong".to_owned()));
    assert_eq!(AppError::Init.error_response(), (500, "Something went wrong".to_owned()));
    assert_eq!(AppError::NotFound.error_response(), (404, "not found".to_owned()));
    assert_eq!(AppError::BadRequest(None).error_response(), (400, "bad request".to_owned()));
    assert_eq!(
        AppError::BadRequest(Some("why".to_owned())).error_response(),
        (400, "why".to_owned()),
    );
}

#[test]
fn end_to_end_lifecycle() {
    let mut table = PostTable::new();
    let created = create(&mut table, "A", "B");
    let id = created.id;
    assert_eq!(created.title, "A");
    assert_eq!(created.body, "B");
    assert!(!created.published);

    let published = publish_post(&mut table, id).expect("publish should find the row");
    assert!(published.published);

    let count = delete_by_id(&mut table, id).expect("delete by id should succeed");
    assert_eq!(count, 1);

    assert!(matches!(get_post_by_id(&table, id), Err(AppError::NotFound)));
}
