use nothing::state_db::models::Post;
use nothing::state_db::{
    assemble_posts, contents_of_rows, post_content, query_result, replies_from_rows, reply_lookups,
    DBError, PostRow,
};

fn row(id: i64, content: Option<&str>) -> PostRow {
    PostRow { id, content: content.map(|c| c.to_string()) }
}

fn texts(v: &[&str]) -> Vec<String> {
    v.iter().map(|s| s.to_string()).collect()
}

#[test]
fn query_result_passes_the_value_on() {
    let r = query_result::<i64>(Ok(42));
    assert!(matches!(r, Ok(42)));
}

#[test]
fn query_result_wraps_a_database_error() {
    let r = query_result::<bool>(Err(sqlx::Error::RowNotFound));
    assert!(matches!(r, Err(DBError::Inner(sqlx::Error::RowNotFound))));
}

#[test]
fn db_error_from_sqlx_error_is_inner() {
    let e: DBError = sqlx::Error::RowNotFound.into();
    assert!(matches!(e, DBError::Inner(sqlx::Error::RowNotFound)));
}

#[test]
fn post_content_of_a_present_generation() {
    let r = post_content(Ok(Some("hello #world".to_string())));
    assert_eq!(r.unwrap(), "hello #world");
}

#[test]
fn post_content_of_a_missing_generation() {
    let r = post_content(Ok(None));
    assert!(matches!(r, Err(DBError::MissingGeneration)));
}

#[test]
fn post_content_of_a_failed_query() {
    let r = post_content(Err(sqlx::Error::RowNotFound));
    assert!(matches!(r, Err(DBError::Inner(sqlx::Error::RowNotFound))));
}

#[test]
fn replies_keep_the_order_of_the_rows() {
    let rows = vec![Some("first".to_string()), Some("second".to_string()), Some("third".to_string())];
    let r = replies_from_rows(Ok(rows)).unwrap();
    assert_eq!(r, texts(&["first", "second", "third"]));
}

#[test]
fn no_replies_give_an_empty_list() {
    let r = replies_from_rows(Ok(vec![])).unwrap();
    assert!(r.is_empty());
}

#[test]
fn a_reply_without_generation_fails_the_whole_list() {
    let rows = vec![Some("first".to_string()), None, Some("third".to_string())];
    let r = replies_from_rows(Ok(rows));
    assert!(matches!(r, Err(DBError::MissingGeneration)));
}

#[test]
fn a_failed_reply_query_is_inner() {
    let r = replies_from_rows(Err(sqlx::Error::RowNotFound));
    assert!(matches!(r, Err(DBError::Inner(sqlx::Error::RowNotFound))));
}

#[test]
fn contents_of_rows_with_a_missing_last_row() {
    let r = contents_of_rows(vec![Some("a".to_string()), None]);
    assert!(matches!(r, Err(DBError::MissingGeneration)));
}

#[test]
fn only_rows_with_content_have_their_replies_looked_up() {
    let rows = vec![row(9, Some("a")), row(8, None), row(7, Some("c")), row(6, None)];
    assert_eq!(reply_lookups(&rows), vec![9, 7]);
    assert_eq!(reply_lookups(&vec![]), Vec::<i64>::new());
}

#[test]
fn a_listing_keeps_row_order_and_each_post_gets_its_own_replies() {
    let rows = vec![row(12, Some("newest")), row(10, Some("older")), row(3, Some("oldest"))];
    let replies = vec![Ok(texts(&["r1", "r2"])), Ok(vec![]), Ok(texts(&["r3"]))];
    let posts: Vec<Post> = assemble_posts(rows, replies).unwrap();
    assert_eq!(posts.len(), 3);
    assert_eq!(posts[0].id, 12);
    assert_eq!(posts[0].content, "newest");
    assert_eq!(posts[0].replies, texts(&["r1", "r2"]));
    assert_eq!(posts[1].id, 10);
    assert_eq!(posts[1].content, "older");
    assert!(posts[1].replies.is_empty());
    assert_eq!(posts[2].id, 3);
    assert_eq!(posts[2].content, "oldest");
    assert_eq!(posts[2].replies, texts(&["r3"]));
}

#[test]
fn an_empty_listing() {
    let posts = assemble_posts(vec![], vec![]).unwrap();
    assert!(posts.is_empty());
}

#[test]
fn a_post_without_generation_fails_the_listing() {
    let rows = vec![row(5, Some("a")), row(4, None), row(3, Some("c"))];
    let replies = vec![Ok(vec![]), Ok(vec![])];
    let r = assemble_posts(rows, replies);
    assert!(matches!(r, Err(DBError::MissingGeneration)));
}

#[test]
fn the_first_failing_row_gives_the_error() {
    // The replies of the first row failed; a later row has no generation.
    let rows = vec![row(5, Some("a")), row(4, None)];
    let replies = vec![Err(DBError::Inner(sqlx::Error::RowNotFound))];
    let r = assemble_posts(rows, replies);
    assert!(matches!(r, Err(DBError::Inner(sqlx::Error::RowNotFound))));

    // A row without generation comes before a failed reply lookup.
    let rows = vec![row(5, None), row(4, Some("b"))];
    let replies = vec![Err(DBError::Inner(sqlx::Error::RowNotFound))];
    let r = assemble_posts(rows, replies);
    assert!(matches!(r, Err(DBError::MissingGeneration)));
}
