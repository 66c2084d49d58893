use nothing::state_db::models::Post;
use nothing::state_db::DBError;
use nothing::web::error::{GenerationError, WebError};
use nothing::web::{create_post, create_reply, generate_reply, index, new_posts, old_posts, submit_post, submit_reply};

fn post(id: i64, content: &str) -> Post {
    Post { id, content: content.to_string(), replies: vec![] }
}

fn db_failure() -> DBError {
    DBError::Inner(sqlx::Error::RowNotFound)
}

#[test]
fn front_page_bounds_are_the_newest_and_oldest_post() {
    let t = index::respond(Ok(vec![post(30, "c"), post(20, "b"), post(10, "a")])).unwrap();
    assert_eq!(t.after_id, 30);
    assert_eq!(t.before_id, 10);
    assert_eq!(t.posts.len(), 3);
    assert!(t.old_posts.is_empty());
    assert!(t.new_posts.is_empty());
    assert!(t.generated_reply.is_none());
}

#[test]
fn front_page_without_posts_has_zero_bounds() {
    let t = index::respond(Ok(vec![])).unwrap();
    assert_eq!(t.after_id, 0);
    assert_eq!(t.before_id, 0);
    assert!(t.posts.is_empty());
}

#[test]
fn front_page_database_error() {
    let r = index::respond(Err(DBError::MissingGeneration));
    assert!(matches!(r, Err(WebError::DB(DBError::MissingGeneration))));
}

#[test]
fn newer_posts_move_the_bound_to_the_newest() {
    let t = new_posts::respond(new_posts::NewPostData { after: 7 }, Ok(vec![post(12, "x"), post(9, "y")])).unwrap();
    assert_eq!(t.after_id, 12);
    assert_eq!(t.new_posts.len(), 2);
    assert!(t.generated_reply.is_none());
}

#[test]
fn no_newer_posts_keep_the_bound() {
    let t = new_posts::respond(new_posts::NewPostData { after: 7 }, Ok(vec![])).unwrap();
    assert_eq!(t.after_id, 7);
    assert!(t.new_posts.is_empty());
}

#[test]
fn newer_posts_database_error() {
    let r = new_posts::respond(new_posts::NewPostData { after: 7 }, Err(db_failure()));
    assert!(matches!(r, Err(WebError::DB(DBError::Inner(_)))));
}

#[test]
fn older_posts_move_the_bound_to_the_oldest() {
    let t = old_posts::respond(old_posts::OldPostData { before: 20 }, Ok(vec![post(19, "x"), post(4, "y")])).unwrap();
    assert_eq!(t.before_id, 4);
    assert_eq!(t.old_posts.len(), 2);
    assert!(t.generated_reply.is_none());
}

#[test]
fn no_older_posts_keep_the_bound() {
    let t = old_posts::respond(old_posts::OldPostData { before: 20 }, Ok(vec![])).unwrap();
    assert_eq!(t.before_id, 20);
}

#[test]
fn older_posts_database_error() {
    let r = old_posts::respond(old_posts::OldPostData { before: 20 }, Err(DBError::MissingGeneration));
    assert!(matches!(r, Err(WebError::DB(DBError::MissingGeneration))));
}

#[test]
fn new_post_form_uses_the_opened_group() {
    let t = create_post::respond(Ok(41)).unwrap();
    assert_eq!(t.index, 3);
    assert_eq!(t.gen_group, 41);
    assert!(matches!(create_post::respond(Err(db_failure())), Err(WebError::DB(_))));
}

#[test]
fn reply_form_uses_the_post_and_the_opened_group() {
    let t = create_reply::respond(create_reply::PathData { post_id: 5 }, Ok(41)).unwrap();
    assert_eq!(t.index, 3);
    assert_eq!(t.post_id, 5);
    assert_eq!(t.gen_group, 41);
    let r = create_reply::respond(create_reply::PathData { post_id: 5 }, Err(DBError::MissingGeneration));
    assert!(matches!(r, Err(WebError::DB(DBError::MissingGeneration))));
}

#[test]
fn a_used_generation_is_refused_as_a_post() {
    let p = submit_post::PathData { generation_id: 8 };
    let step = submit_post::after_used_check(&p, Ok(true));
    assert!(matches!(step, submit_post::SubmitPostStep::Respond(Err(WebError::GenerationAlreadyUsed))));
}

#[test]
fn an_unused_generation_is_written_as_a_post() {
    let p = submit_post::PathData { generation_id: 8 };
    let step = submit_post::after_used_check(&p, Ok(false));
    assert!(matches!(step, submit_post::SubmitPostStep::WritePost { generation_id: 8 }));
    assert!(matches!(submit_post::after_write(Ok(())), Ok(submit_post::CreatePostButtonTemplate {})));
}

#[test]
fn post_publication_database_errors() {
    let p = submit_post::PathData { generation_id: 8 };
    let step = submit_post::after_used_check(&p, Err(db_failure()));
    assert!(matches!(step, submit_post::SubmitPostStep::Respond(Err(WebError::DB(_)))));
    assert!(matches!(submit_post::after_write(Err(DBError::MissingGeneration)), Err(WebError::DB(DBError::MissingGeneration))));
}

#[test]
fn a_used_generation_is_refused_as_a_reply() {
    let p = submit_reply::PathData { post_id: 2, generation_id: 8 };
    let step = submit_reply::after_used_check(&p, Ok(true));
    assert!(matches!(step, submit_reply::SubmitReplyStep::Respond(Err(WebError::GenerationAlreadyUsed))));
}

#[test]
fn a_reply_is_written_then_read_back() {
    let p = submit_reply::PathData { post_id: 2, generation_id: 8 };
    let step = submit_reply::after_used_check(&p, Ok(false));
    assert!(matches!(step, submit_reply::SubmitReplyStep::WriteReply { generation_id: 8, post_id: 2 }));
    let step = submit_reply::after_write(&p, Ok(()));
    assert!(matches!(step, submit_reply::SubmitReplyStep::ReadGeneration { generation_id: 8 }));
    let t = submit_reply::after_read(&p, Ok("Nice post! #reply".to_string())).unwrap();
    assert_eq!(t.post_id, 2);
    assert_eq!(t.generated_reply, Some("Nice post! #reply".to_string()));
}

#[test]
fn reply_publication_database_errors() {
    let p = submit_reply::PathData { post_id: 2, generation_id: 8 };
    assert!(matches!(
        submit_reply::after_used_check(&p, Err(db_failure())),
        submit_reply::SubmitReplyStep::Respond(Err(WebError::DB(_)))
    ));
    assert!(matches!(
        submit_reply::after_write(&p, Err(db_failure())),
        submit_reply::SubmitReplyStep::Respond(Err(WebError::DB(_)))
    ));
    assert!(matches!(
        submit_reply::after_read(&p, Err(DBError::MissingGeneration)),
        Err(WebError::DB(DBError::MissingGeneration))
    ));
}

#[test]
fn reply_generation_needs_the_post_content_and_uses_the_configured_prompt() {
    let r = generate_reply::prompt_for_post("Write a short reply.", Ok("hello".to_string())).unwrap();
    assert_eq!(r, "Write a short reply.");
    let r = generate_reply::prompt_for_post("P.", Err(DBError::MissingGeneration));
    assert!(matches!(r, Err(WebError::DB(DBError::MissingGeneration))));
}

#[test]
fn every_failed_page_is_an_internal_error() {
    for e in [
        WebError::GenerationAlreadyUsed,
        WebError::DB(DBError::MissingGeneration),
        WebError::Generation(ollama_rs::error::OllamaError::Other("down".to_string())),
    ] {
        let answer = e.error_response();
        assert_eq!(answer.status, 500);
        assert_eq!(answer.body, "An internal error occured");
    }
}

#[test]
fn error_conversions_pick_the_variant() {
    let e: WebError = DBError::MissingGeneration.into();
    assert!(matches!(e, WebError::DB(DBError::MissingGeneration)));
    let e: WebError = ollama_rs::error::OllamaError::Other("x".to_string()).into();
    assert!(matches!(e, WebError::Generation(_)));
    let e: GenerationError = askama::Error::Fmt.into();
    assert!(matches!(e, GenerationError::Templating(askama::Error::Fmt)));
    let e: GenerationError = DBError::MissingGeneration.into();
    assert!(matches!(e, GenerationError::DB(DBError::MissingGeneration)));
    let e: GenerationError = ollama_rs::error::OllamaError::Other("x".to_string()).into();
    assert!(matches!(e, GenerationError::Ollama(_)));
}
