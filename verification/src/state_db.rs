//! What the board keeps in its database, and the verified steps that turn
//! the rows a query returns into the values the rest of the board works with.
//! The queries themselves run against SQLite in the program around this
//! library; each function here takes what a query gave back.
pub mod models;

use vstd::prelude::*;
use crate::state_db::models::Post;

verus! {

/// The error type of the `sqlx` crate, carried through unchanged.
#[verifier::external_type_specification]
#[verifier::external_body]
pub struct ExSqlxError(sqlx::Error);

/// Why a database request failed.
#[derive(Debug)]
pub enum DBError {
    /// The database itself reported an error.
    Inner(sqlx::Error),
    /// A post or reply refers to a generation that does not exist.
    MissingGeneration,
}

impl From<sqlx::Error> for DBError {
    fn from(e: sqlx::Error) -> (r: DBError)
    {
        DBError::Inner(e)
    }
}

impl vstd::std_specs::convert::FromSpecImpl<sqlx::Error> for DBError {
    open spec fn obeys_from_spec() -> bool {
        true
    }

    open spec fn from_spec(v: sqlx::Error) -> DBError {
        DBError::Inner(v)
    }
}

/// A row of a post listing: the post's id and the content of the generation
/// it was made from, absent when the generation row is missing.
#[derive(Debug)]
pub struct PostRow {
    pub id: i64,
    pub content: Option<String>,
}

/// The result of a request whose only failure is a database error.
pub open spec fn query_outcome<T>(fetched: Result<T, sqlx::Error>) -> Result<T, DBError> {
    match fetched {
        Ok(v) => Ok(v),
        Err(e) => Err(DBError::Inner(e)),
    }
}

/// Passes on what a query returned, with a database error wrapped as
/// `DBError::Inner`. Every request of the board that only reads or writes
/// one value goes through this: writing a generation, opening a generation
/// group, asking whether a group is used, writing a post or a reply, and
/// reading a generation's content by its id.
pub fn query_result<T>(fetched: Result<T, sqlx::Error>) -> (r: Result<T, DBError>)
    ensures
        r == query_outcome(fetched),
        match fetched {
            Ok(v) => r == Ok::<T, DBError>(v),
            Err(e) => r == Err::<T, DBError>(DBError::Inner(e)),
        },
{
    match fetched {
        Ok(v) => Ok(v),
        Err(e) => Err(DBError::Inner(e)),
    }
}

/// The content of a post, from the row of the post's generation.
pub open spec fn post_content_outcome(fetched: Result<Option<String>, sqlx::Error>) -> Result<String, DBError> {
    match fetched {
        Err(e) => Err(DBError::Inner(e)),
        Ok(None) => Err(DBError::MissingGeneration),
        Ok(Some(c)) => Ok(c),
    }
}

/// Turns the row read for a post (its generation's content, absent when the
/// post points to no generation) into the post's content.
pub fn post_content(fetched: Result<Option<String>, sqlx::Error>) -> (r: Result<String, DBError>)
    ensures
        r == post_content_outcome(fetched),
        match fetched {
            Ok(Some(c)) => r == Ok::<String, DBError>(c),
            Ok(None) => r == Err::<String, DBError>(DBError::MissingGeneration),
            Err(e) => r == Err::<String, DBError>(DBError::Inner(e)),
        },
{
    match fetched {
        Err(e) => Err(DBError::Inner(e)),
        Ok(None) => Err(DBError::MissingGeneration),
        Ok(Some(c)) => Ok(c),
    }
}

/// Law of a post's content: a content that the read found is handed back
/// unchanged, whatever characters it holds; `MissingGeneration` comes only
/// from an absent content, and a failed read only gives the read's error.
pub proof fn law_present_content_is_returned(fetched: Result<Option<String>, sqlx::Error>)
    ensures
        forall|c: String| fetched == Ok::<Option<String>, sqlx::Error>(Some(c))
            ==> post_content_outcome(fetched) == Ok::<String, DBError>(c),
        (post_content_outcome(fetched) matches Err(DBError::MissingGeneration)) <==> fetched == Ok::<Option<String>, sqlx::Error>(None),
        post_content_outcome(fetched) is Ok <==> fetched matches Ok(Some(_)),
{
}

/// Whether every row has a content.
pub open spec fn all_present(rows: Seq<Option<String>>) -> bool {
    forall|i: int| 0 <= i < rows.len() ==> (#[trigger] rows[i]) is Some
}

/// The contents of the rows, in order, when every row has one; a row without
/// content (a reply whose generation is missing) gives `MissingGeneration`.
pub fn contents_of_rows(rows: Vec<Option<String>>) -> (r: Result<Vec<String>, DBError>)
    ensures
        match r {
            Ok(contents) => {
                &&& all_present(rows@)
                &&& contents@.len() == rows@.len()
                &&& forall|i: int| 0 <= i < rows@.len() ==> rows@[i] == Some(#[trigger] contents@[i])
            },
            Err(e) => e is MissingGeneration && !all_present(rows@),
        },
{
    let ghost all_rows = rows@;
    let mut pending = rows;
    let mut contents: Vec<String> = Vec::new();
    while pending.len() > 0
        invariant
            contents@.len() + pending@.len() == all_rows.len(),
            all_rows == rows@,
            pending@ == all_rows.skip(contents@.len() as int),
            forall|i: int| 0 <= i < contents@.len() ==> all_rows[i] == Some(#[trigger] contents@[i]),
        decreases pending@.len(),
    {
        let row = pending.remove(0);
        let ghost k = contents@.len() as int;
        assert(all_rows[k] == row);
        match row {
            Some(c) => {
                contents.push(c);
                assert(pending@ == all_rows.skip(contents@.len() as int));
            },
            None => {
                assert(all_rows[k] is None);
                return Err(DBError::MissingGeneration);
            },
        }
    }
    assert forall|i: int| 0 <= i < all_rows.len() implies (#[trigger] all_rows[i]) is Some by {
        assert(all_rows[i] == Some(contents@[i]));
    }
    Ok(contents)
}

/// Collects the contents of the replies to a post from the rows the reply
/// query returned: a failed query is passed on as `Inner`, otherwise the
/// result is that of `contents_of_rows`.
pub fn replies_from_rows(fetched: Result<Vec<Option<String>>, sqlx::Error>) -> (r: Result<Vec<String>, DBError>)
    ensures
        match fetched {
            Err(e) => r == Err::<Vec<String>, DBError>(DBError::Inner(e)),
            Ok(rows) => match r {
                Ok(replies) => {
                    &&& all_present(rows@)
                    &&& replies@.len() == rows@.len()
                    &&& forall|i: int| 0 <= i < rows@.len() ==> rows@[i] == Some(#[trigger] replies@[i])
                },
                Err(e) => e is MissingGeneration && !all_present(rows@),
            },
        },
{
    match fetched {
        Err(e) => Err(DBError::Inner(e)),
        Ok(rows) => contents_of_rows(rows),
    }
}

/// Whether a post row leads to a reply lookup: only rows whose generation
/// content is present do.
pub open spec fn reply_lookup_of(row: PostRow) -> Option<i64> {
    match row.content {
        Some(_) => Some(row.id),
        None => None,
    }
}

/// The ids whose replies are looked up for a listing, in the order of the
/// rows: those of the rows with a content.
pub open spec fn reply_lookup_ids(rows: Seq<PostRow>) -> Seq<i64> {
    rows.filter_map(|row: PostRow| reply_lookup_of(row))
}

/// The ids of the posts whose replies must be read to assemble a listing:
/// every row that has a content, in order. A row without content fails on
/// its own, so its replies are never read.
pub fn reply_lookups(rows: &Vec<PostRow>) -> (ids: Vec<i64>)
    ensures
        ids@ == reply_lookup_ids(rows@),
{
    let mut ids: Vec<i64> = Vec::new();
    let mut i: usize = 0;
    while i < rows.len()
        invariant
            i <= rows@.len(),
            ids@ == reply_lookup_ids(rows@.take(i as int)),
        decreases rows@.len() - i,
    {
        proof {
            rows@.lemma_filter_map_take_succ(|row: PostRow| reply_lookup_of(row), i as int);
        }
        if rows[i].content.is_some() {
            ids.push(rows[i].id);
        }
        i = i + 1;
    }
    assert(rows@.take(rows@.len() as int) =~= rows@);
    ids
}

/// The post a row and the reply lookup made for it give.
pub open spec fn post_of(row: PostRow, replies: Result<Vec<String>, DBError>) -> Post {
    Post { id: row.id, content: row.content->0, replies: replies->Ok_0 }
}

/// Whether a row and its reply lookup make a post.
pub open spec fn row_succeeds(row: PostRow, replies: Result<Vec<String>, DBError>) -> bool {
    row.content is Some && replies is Ok
}

/// The error of a row that does not make a post: a missing generation, or
/// the failure of its reply lookup.
pub open spec fn row_error(row: PostRow, replies: Result<Vec<String>, DBError>) -> DBError {
    match row.content {
        None => DBError::MissingGeneration,
        Some(_) => replies->Err_0,
    }
}

/// Whether row `j` is the first row of a listing that does not make a post.
pub open spec fn first_failure_at(
    rows: Seq<PostRow>,
    replies: Seq<Result<Vec<String>, DBError>>,
    j: int,
) -> bool {
    &&& 0 <= j < rows.len()
    &&& !row_succeeds(rows[j], replies[j])
    &&& forall|i: int| 0 <= i < j ==> row_succeeds(#[trigger] rows[i], replies[i])
}

/// The number of rows up to `k` that lead to a reply lookup never exceeds
/// the number for all rows.
proof fn lemma_lookup_prefix(rows: Seq<PostRow>, k: int)
    requires
        0 <= k <= rows.len(),
    ensures
        reply_lookup_ids(rows.take(k)).len() <= reply_lookup_ids(rows).len(),
    decreases rows.len() - k,
{
    if k == rows.len() {
        assert(rows.take(k) =~= rows);
    } else {
        lemma_lookup_prefix(rows, k + 1);
        rows.lemma_filter_map_take_succ(|row: PostRow| reply_lookup_of(row), k);
    }
}

/// Assembles a post listing from its rows and from the reply lookups made
/// for the rows with a content (`replies[k]` belongs to the k-th such row).
/// When every row has a content and every lookup succeeded, the result holds
/// one post per row, in order, each with its own replies; otherwise it is the
/// error of the first row that fails, in row order.
pub fn assemble_posts(rows: Vec<PostRow>, replies: Vec<Result<Vec<String>, DBError>>) -> (r: Result<Vec<Post>, DBError>)
    requires
        replies@.len() == reply_lookup_ids(rows@).len(),
    ensures
        match r {
            Ok(posts) => {
                &&& posts@.len() == rows@.len()
                &&& forall|i: int| 0 <= i < rows@.len() ==> row_succeeds(#[trigger] rows@[i], replies@[i])
                &&& forall|i: int| 0 <= i < rows@.len() ==> #[trigger] posts@[i] == post_of(rows@[i], replies@[i])
            },
            Err(e) => exists|j: int| #[trigger] first_failure_at(rows@, replies@, j) && e == row_error(rows@[j], replies@[j]),
        },
{
    let ghost orig_rows = rows@;
    let ghost orig_replies = replies@;
    let mut pending_rows = rows;
    let mut pending_replies = replies;
    let mut posts: Vec<Post> = Vec::new();
    while pending_rows.len() > 0
        invariant
            orig_rows == rows@,
            orig_replies == replies@,
            orig_replies.len() == reply_lookup_ids(orig_rows).len(),
            posts@.len() <= orig_rows.len(),
            pending_rows@ == orig_rows.skip(posts@.len() as int),
            pending_replies@ == orig_replies.skip(posts@.len() as int),
            reply_lookup_ids(orig_rows.take(posts@.len() as int)).len() == posts@.len(),
            forall|i: int| 0 <= i < posts@.len() ==> row_succeeds(#[trigger] orig_rows[i], orig_replies[i]),
            forall|i: int| 0 <= i < posts@.len() ==> #[trigger] posts@[i] == post_of(orig_rows[i], orig_replies[i]),
        decreases pending_rows@.len(),
    {
        let ghost k = posts@.len() as int;
        proof {
            orig_rows.lemma_filter_map_take_succ(|row: PostRow| reply_lookup_of(row), k);
        }
        let row = pending_rows.remove(0);
        assert(orig_rows[k] == row);
        match row.content {
            None => {
                assert(first_failure_at(orig_rows, orig_replies, k));
                return Err(DBError::MissingGeneration);
            },
            Some(content) => {
                proof {
                    lemma_lookup_prefix(orig_rows, k + 1);
                }
                let lookup = pending_replies.remove(0);
                assert(orig_replies[k] == lookup);
                match lookup {
                    Err(e) => {
                        assert(first_failure_at(orig_rows, orig_replies, k));
                        return Err(e);
                    },
                    Ok(post_replies) => {
                        posts.push(Post { id: row.id, content, replies: post_replies });
                        assert(pending_rows@ =~= orig_rows.skip(posts@.len() as int));
                        assert(pending_replies@ =~= orig_replies.skip(posts@.len() as int));
                    },
                }
            },
        }
    }
    Ok(posts)
}

/// Law of a request's outcome: a value is handed back unchanged, and a
/// database error becomes `Inner` of that same error, never `MissingGeneration`.
pub proof fn law_query_outcome<T>(fetched: Result<T, sqlx::Error>)
    ensures
        forall|v: T| fetched == Ok::<T, sqlx::Error>(v) ==> query_outcome(fetched) == Ok::<T, DBError>(v),
        forall|e: sqlx::Error| fetched == Err::<T, sqlx::Error>(e) ==> query_outcome(fetched) == Err::<T, DBError>(DBError::Inner(e)),
        !(query_outcome(fetched) matches Err(DBError::MissingGeneration)),
{
}

/// Law of one row of a listing: it makes a post exactly when its generation
/// is present and its reply lookup succeeded, and that post has the row's id,
/// the generation's content and the looked-up replies; otherwise its error is
/// `MissingGeneration` for an absent generation, or the lookup's own error.
pub proof fn law_listing_row(row: PostRow, replies: Result<Vec<String>, DBError>)
    ensures
        row_succeeds(row, replies) <==> (row.content is Some && replies is Ok),
        forall|c: String, rs: Vec<String>| row.content == Some(c) && replies == Ok::<Vec<String>, DBError>(rs)
            ==> post_of(row, replies) == (Post { id: row.id, content: c, replies: rs }),
        row.content is None ==> row_error(row, replies) is MissingGeneration,
        forall|e: DBError| row.content is Some && replies == Err::<Vec<String>, DBError>(e) ==> row_error(row, replies) == e,
{
}

/// Law of the reply lookups: there are never more lookups than rows; when
/// every row has a content, the lookups are the rows' ids in row order; when
/// no row has one, there are none.
pub proof fn law_reply_lookups(rows: Seq<PostRow>)
    ensures
        reply_lookup_ids(rows).len() <= rows.len(),
        (forall|i: int| 0 <= i < rows.len() ==> (#[trigger] rows[i]).content is Some) ==> {
            &&& reply_lookup_ids(rows).len() == rows.len()
            &&& forall|i: int| 0 <= i < rows.len() ==> #[trigger] reply_lookup_ids(rows)[i] == rows[i].id
        },
        (forall|i: int| 0 <= i < rows.len() ==> (#[trigger] rows[i]).content is None) ==> reply_lookup_ids(rows).len() == 0,
    decreases rows.len(),
{
    if rows.len() > 0 {
        let rest = rows.drop_last();
        law_reply_lookups(rest);
        assert forall|i: int| 0 <= i < rest.len() implies #[trigger] rest[i] == rows[i] by {}
        if forall|i: int| 0 <= i < rows.len() ==> (#[trigger] rows[i]).content is Some {
            assert(rows[rows.len() - 1].content is Some);
            assert(forall|i: int| 0 <= i < rest.len() ==> (#[trigger] rest[i]).content is Some) by {
                assert forall|i: int| 0 <= i < rest.len() implies (#[trigger] rest[i]).content is Some by {
                    assert(rest[i] == rows[i]);
                }
            }
            assert forall|i: int| 0 <= i < rows.len() implies #[trigger] reply_lookup_ids(rows)[i] == rows[i].id by {
                if i < rows.len() - 1 {
                    assert(rest[i] == rows[i]);
                }
            }
        }
        if forall|i: int| 0 <= i < rows.len() ==> (#[trigger] rows[i]).content is None {
            assert(rows[rows.len() - 1].content is None);
            assert forall|i: int| 0 <= i < rest.len() implies (#[trigger] rest[i]).content is None by {
                assert(rest[i] == rows[i]);
            }
        }
    }
}

} // verus!
