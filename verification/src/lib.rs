use vstd::prelude::*;

pub mod error;
pub mod like;
pub mod models;
pub mod store;

pub use error::AppError;

use error::DbError;
use models::NewPost;
use models::Post;
use store::PostTable;
use store::find_post;
use store::listed_posts;
use store::publish_one;
use store::published_rows;
use store::rows_not_matching;
use store::rows_without_id;

verus! {

/// Query parameters of the list endpoint.
pub struct GetPostsQueryParams {
    pub include_unpublished: Option<bool>,
}

impl GetPostsQueryParams {
    /// Whether unpublished rows were asked for; an absent flag means no.
    pub open spec fn wants_unpublished(self) -> bool {
        self.include_unpublished == Some(true)
    }
}

/// Body of the delete endpoint. Exactly one of `text` (a substring to
/// match against titles) and `id` (an exact id) must be supplied.
pub struct DeleteQuery {
    pub text: Option<String>,
    pub id: Option<i32>,
}

impl DeleteQuery {
    /// The delete precondition: exactly one selector is present.
    pub open spec fn valid(self) -> bool {
        (self.text is Some) != (self.id is Some)
    }
}

/// Every driver error is reported to the client only as the opaque
/// internal error; the cause is logged at the boundary, outside this
/// library, and discarded before the response.
fn query_error(_err: DbError) -> (r: AppError)
    ensures
        r == AppError::Internal,
{
    AppError::Internal
}

/// Translates the outcome of a unit of work run against the connection
/// into the uniform application error. The pool checkout and the hop to a
/// blocking-capable worker live outside this library; what they hand back
/// is this outcome.
pub fn do_query<R>(outcome: Result<R, DbError>) -> (r: Result<R, AppError>)
    ensures
        outcome matches Ok(v) ==> r == Ok::<R, AppError>(v),
        outcome is Err ==> r == Err::<R, AppError>(AppError::Internal),
{
    match outcome {
        Ok(v) => Ok(v),
        Err(err) => Err(query_error(err)),
    }
}

/// The list endpoint: up to 20 rows in table order, and only the
/// published ones unless `include_unpublished=true` was passed. The
/// result never exceeds 20 rows, and never holds an unpublished row
/// unless they were asked for.
pub fn get_posts(conn: &PostTable, query: &GetPostsQueryParams) -> (r: Result<
    Vec<Post>,
    AppError,
>)
    ensures
        r matches Ok(v) && v@ == listed_posts(conn.rows@, query.wants_unpublished(), 20),
        listed_posts(conn.rows@, query.wants_unpublished(), 20).len() <= 20,
        !query.wants_unpublished() ==> forall|k: int|
            0 <= k < listed_posts(conn.rows@, false, 20).len() ==> (#[trigger] listed_posts(
                conn.rows@,
                false,
                20,
            )[k]).published,
{
    let include_unpublished = match query.include_unpublished {
        Some(b) => b,
        None => false,
    };
    proof {
        store::lemma_listed_len(conn.rows@, include_unpublished, 20);
        if !include_unpublished {
            store::lemma_listed_published(conn.rows@, 20);
        }
    }
    match do_query(conn.load_posts(include_unpublished)) {
        Ok(v) => Ok(v),
        Err(e) => Err(e),
    }
}

/// The fetch endpoint: the row with the given id, or `NotFound` (a 404
/// with no post body) when no row has it — absence is an expected empty
/// result here, not a driver error.
pub fn get_post_by_id(conn: &PostTable, post_id: i32) -> (r: Result<Post, AppError>)
    ensures
        find_post(conn.rows@, post_id) matches Some(q) ==> r == Ok::<Post, AppError>(q),
        find_post(conn.rows@, post_id) is None ==> r == Err::<Post, AppError>(AppError::NotFound),
{
    let found = match do_query(conn.find_post_by_id(post_id)) {
        Ok(opt) => opt,
        Err(e) => {
            return Err(e);
        },
    };
    match found {
        Some(post) => Ok(post),
        None => Err(AppError::NotFound),
    }
}

/// The create endpoint: inserts a row with the supplied title and body,
/// `published = false` and the next free id, and returns the created row
/// in full. Empty titles and bodies are accepted; the one failure is an
/// exhausted id space, surfaced as the opaque internal error.
pub fn create_post(conn: &mut PostTable, post: NewPost) -> (r: Result<Post, AppError>)
    requires
        old(conn).wf(),
    ensures
        final(conn).wf(),
        old(conn).next_id < i32::MAX ==> (r matches Ok(p) && p.id == old(conn).next_id
            && p.title@ == post.title@ && p.body@ == post.body@ && !p.published && final(conn).rows@ == old(conn).rows@.push(p) && final(conn).next_id == old(conn).next_id + 1),
        old(conn).next_id == i32::MAX ==> (r == Err::<Post, AppError>(AppError::Internal) && final(conn).rows@ == old(conn).rows@ && final(conn).next_id == old(conn).next_id),
{
    match do_query(conn.insert_post(post)) {
        Ok(p) => Ok(p),
        Err(e) => Err(e),
    }
}

/// The publish endpoint: sets `published = true` on the row with the
/// given id and returns the updated row; no other row and no other field
/// changes. When no row has the id, the returning update yields zero rows
/// and — as the reference behavior has it — this surfaces as the opaque
/// internal error, not as 404, and the table is unchanged.
pub fn publish_post(conn: &mut PostTable, post_id: i32) -> (r: Result<Post, AppError>)
    requires
        old(conn).wf(),
    ensures
        final(conn).wf(),
        final(conn).next_id == old(conn).next_id,
        find_post(old(conn).rows@, post_id) matches Some(q) ==> (r == Ok::<Post, AppError>(
            publish_one(q, post_id),
        ) && final(conn).rows@ == published_rows(old(conn).rows@, post_id)),
        find_post(old(conn).rows@, post_id) is None ==> (r == Err::<Post, AppError>(
            AppError::Internal,
        ) && final(conn).rows@ == old(conn).rows@),
{
    match do_query(conn.publish_by_id(post_id)) {
        Ok(p) => Ok(p),
        Err(e) => Err(e),
    }
}

/// The delete endpoint. With zero or both selectors present it fails with
/// a 400 and a descriptive reason, before touching the table. With `text`
/// it removes every row whose title the pattern `%text%` matches (so `%`
/// and `_` inside the text keep their wildcard meaning); with `id`, the
/// row with that id, an absent id deleting zero rows without error. The
/// result is the exact number of rows removed; the remaining rows are
/// untouched and keep their order.
pub fn delete_post_by_text(conn: &mut PostTable, query: &DeleteQuery) -> (r: Result<
    usize,
    AppError,
>)
    requires
        old(conn).wf(),
    ensures
        final(conn).wf(),
        final(conn).next_id == old(conn).next_id,
        !query.valid() ==> (r matches Err(e) && e matches AppError::BadRequest(reason)
            && reason matches Some(msg) && msg@ == "request needs exactly one of 'text' or 'id'"@
            && final(conn).rows@ == old(conn).rows@),
        query.text matches Some(t) ==> (query.id is None ==> (r matches Ok(n) && final(conn).rows@ == rows_not_matching(old(conn).rows@, t@) && n == old(conn).rows@.len() - final(conn).rows@.len())),
        query.id matches Some(pid) ==> (query.text is None ==> (r matches Ok(n) && final(conn).rows@ == rows_without_id(old(conn).rows@, pid) && n == old(conn).rows@.len() - final(conn).rows@.len())),
{
    if query.text.is_some() == query.id.is_some() {
        return Err(
            AppError::BadRequest(Some("request needs exactly one of 'text' or 'id'".to_owned())),
        );
    }
    let outcome = match &query.text {
        Some(text) => conn.delete_by_title(text.as_str()),
        None => {
            let post_id = query.id.unwrap();
            conn.delete_by_id(post_id)
        },
    };
    match do_query(outcome) {
        Ok(n) => Ok(n),
        Err(e) => Err(e),
    }
}

} // verus!
