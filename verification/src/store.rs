use vstd::prelude::*;

use crate::error::DbError;
use crate::like::title_matches;
use crate::like::title_contains;
use crate::models::NewPost;
use crate::models::Post;

verus! {

/// The first row of `rows` whose `id` equals `id`, if any. This is the
/// single-row primary-key lookup; with unique ids it is the only such row.
pub open spec fn find_post(rows: Seq<Post>, id: i32) -> Option<Post>
    decreases rows.len(),
{
    if rows.len() == 0 {
        None::<Post>
    } else if rows[0].id == id {
        Some(rows[0])
    } else {
        find_post(rows.skip(1), id)
    }
}

/// The rows a list query returns: the first `limit` rows in table order,
/// skipping the unpublished ones unless `include_unpublished` is set.
pub open spec fn listed_posts(rows: Seq<Post>, include_unpublished: bool, limit: nat) -> Seq<Post>
    decreases rows.len(),
{
    if rows.len() == 0 || limit == 0 {
        Seq::<Post>::empty()
    } else if include_unpublished || rows[0].published {
        seq![rows[0]] + listed_posts(rows.skip(1), include_unpublished, (limit - 1) as nat)
    } else {
        listed_posts(rows.skip(1), include_unpublished, limit)
    }
}

/// The row `p` after an update that sets `published = true` on every row
/// whose id is `id`: the id, title and body never change.
pub open spec fn publish_one(p: Post, id: i32) -> Post {
    if p.id == id {
        Post { id: p.id, title: p.title, body: p.body, published: true }
    } else {
        p
    }
}

/// The table contents after the publish update for `id`.
pub open spec fn published_rows(rows: Seq<Post>, id: i32) -> Seq<Post> {
    rows.map_values(|p: Post| publish_one(p, id))
}

/// The table contents after deleting every row whose id is `id`; the
/// remaining rows keep their order.
pub open spec fn rows_without_id(rows: Seq<Post>, id: i32) -> Seq<Post>
    decreases rows.len(),
{
    if rows.len() == 0 {
        rows
    } else if rows[0].id == id {
        rows_without_id(rows.skip(1), id)
    } else {
        seq![rows[0]] + rows_without_id(rows.skip(1), id)
    }
}

/// The table contents after deleting every row whose title is matched by
/// the pattern `%text%`; the remaining rows keep their order.
pub open spec fn rows_not_matching(rows: Seq<Post>, text: Seq<char>) -> Seq<Post>
    decreases rows.len(),
{
    if rows.len() == 0 {
        rows
    } else if title_matches(text, rows[0].title@) {
        rows_not_matching(rows.skip(1), text)
    } else {
        seq![rows[0]] + rows_not_matching(rows.skip(1), text)
    }
}

/// The one table of the service. It models the persisted `posts` table:
/// the rows in storage order (inserts append), and the id the engine will
/// assign to the next inserted row.
pub struct PostTable {
    pub rows: Vec<Post>,
    pub next_id: i32,
}

impl PostTable {
    /// The table's invariant: ids are at least 1, below `next_id`, and
    /// unique. Every operation preserves it.
    pub open spec fn wf(self) -> bool {
        &&& 1 <= self.next_id
        &&& forall|i: int|
            0 <= i < self.rows@.len() ==> 1 <= (#[trigger] self.rows@[i]).id < self.next_id
        &&& forall|i: int, j: int|
            0 <= i < j < self.rows@.len() ==> self.rows@[i].id != self.rows@[j].id
    }

    /// An empty table, as a fresh database starts.
    pub fn new() -> (t: PostTable)
        ensures
            t.wf(),
            t.rows@ =~= Seq::<Post>::empty(),
            t.next_id == 1,
    {
        PostTable { rows: Vec::new(), next_id: 1 }
    }

    /// The list query: up to 20 rows in table order, only the published
    /// ones unless `include_unpublished` is set. The model raises no
    /// driver error here.
    pub fn load_posts(&self, include_unpublished: bool) -> (r: Result<Vec<Post>, DbError>)
        ensures
            r matches Ok(v) && v@ == listed_posts(self.rows@, include_unpublished, 20),
    {
        let n = self.rows.len();
        let mut out: Vec<Post> = Vec::new();
        let mut i: usize = 0;
        proof {
            assert(self.rows@.skip(0) =~= self.rows@);
            assert(out@ + listed_posts(self.rows@, include_unpublished, 20) =~= listed_posts(
                self.rows@,
                include_unpublished,
                20,
            ));
        }
        while i < n && out.len() < 20
            invariant
                i <= n,
                n == self.rows@.len(),
                out@.len() <= 20,
                listed_posts(self.rows@, include_unpublished, 20) == out@ + listed_posts(
                    self.rows@.skip(i as int),
                    include_unpublished,
                    (20 - out@.len()) as nat,
                ),
            decreases n - i,
        {
            let p = &self.rows[i];
            proof {
                assert(self.rows@.skip(i as int)[0] == self.rows@[i as int]);
                assert(self.rows@.skip(i as int).skip(1) =~= self.rows@.skip(i as int + 1));
            }
            let ghost out_pre = out@;
            if include_unpublished || p.published {
                out.push(p.duplicate());
                proof {
                    assert(out@ =~= out_pre.push(self.rows@[i as int]));
                    assert(out_pre + (seq![self.rows@[i as int]] + listed_posts(
                        self.rows@.skip(i as int + 1),
                        include_unpublished,
                        (20 - out@.len()) as nat,
                    )) =~= out@ + listed_posts(
                        self.rows@.skip(i as int + 1),
                        include_unpublished,
                        (20 - out@.len()) as nat,
                    ));
                }
            }
            i += 1;
        }
        proof {
            if out@.len() < 20 {
                assert(self.rows@.skip(i as int) =~= Seq::<Post>::empty());
            }
            assert(out@ + Seq::<Post>::empty() =~= out@);
        }
        Ok(out)
    }

    /// The primary-key lookup. `Ok(None)` is the expected empty result,
    /// distinguished from a driver error, as a lookup made optional
    /// reports it.
    pub fn find_post_by_id(&self, post_id: i32) -> (r: Result<Option<Post>, DbError>)
        ensures
            r matches Ok(opt) && opt == find_post(self.rows@, post_id),
    {
        let n = self.rows.len();
        let mut i: usize = 0;
        proof {
            assert(self.rows@.skip(0) =~= self.rows@);
        }
        while i < n
            invariant
                i <= n,
                n == self.rows@.len(),
                find_post(self.rows@, post_id) == find_post(self.rows@.skip(i as int), post_id),
            decreases n - i,
        {
            let p = &self.rows[i];
            proof {
                assert(self.rows@.skip(i as int)[0] == self.rows@[i as int]);
                assert(self.rows@.skip(i as int).skip(1) =~= self.rows@.skip(i as int + 1));
            }
            if p.id == post_id {
                return Ok(Some(p.duplicate()));
            }
            i += 1;
        }
        proof {
            assert(self.rows@.skip(i as int) =~= Seq::<Post>::empty());
        }
        Ok(None)
    }

    /// The insert: appends a row with the next free id, the supplied title
    /// and body, and `published = false`, and returns the created row. The
    /// one driver failure the model can produce is an exhausted id space.
    pub fn insert_post(&mut self, new_post: NewPost) -> (r: Result<Post, DbError>)
        requires
            old(self).wf(),
        ensures
            final(self).wf(),
            old(self).next_id == i32::MAX ==> r == Err::<Post, DbError>(DbError::Database)
                && final(self).rows@ == old(self).rows@
                && final(self).next_id == old(self).next_id,
            old(self).next_id < i32::MAX ==> (r matches Ok(p)
                && p.id == old(self).next_id
                && p.title@ == new_post.title@
                && p.body@ == new_post.body@
                && !p.published
                && final(self).rows@ == old(self).rows@.push(p)
                && final(self).next_id == old(self).next_id + 1),
    {
        if self.next_id == i32::MAX {
            return Err(DbError::Database);
        }
        let id = self.next_id;
        self.next_id = id + 1;
        let created = Post {
            id,
            title: new_post.title,
            body: new_post.body,
            published: false,
        };
        let returned = created.duplicate();
        self.rows.push(created);
        Ok(returned)
    }

    /// The returning update that publishes the row with id `post_id`. When
    /// no row has that id the update touches zero rows and the returning
    /// call reports the driver's `NotFound`.
    pub fn publish_by_id(&mut self, post_id: i32) -> (r: Result<Post, DbError>)
        requires
            old(self).wf(),
        ensures
            final(self).wf(),
            final(self).next_id == old(self).next_id,
            find_post(old(self).rows@, post_id) is None ==> r == Err::<Post, DbError>(
                DbError::NotFound,
            ) && final(self).rows@ == old(self).rows@,
            find_post(old(self).rows@, post_id) matches Some(q) ==> (r == Ok::<Post, DbError>(
                publish_one(q, post_id),
            ) && final(self).rows@ == published_rows(old(self).rows@, post_id)),
    {
        let n = self.rows.len();
        let mut out: Vec<Post> = Vec::new();
        let mut found: Option<Post> = None;
        let mut i: usize = 0;
        proof {
            assert(self.rows@.take(0) =~= Seq::<Post>::empty());
            assert(out@ =~= published_rows(self.rows@.take(0), post_id));
        }
        while i < n
            invariant
                i <= n,
                n == self.rows@.len(),
                self.rows@ == old(self).rows@,
                self.next_id == old(self).next_id,
                out@ =~= published_rows(self.rows@.take(i as int), post_id),
                found == find_post(self.rows@.take(i as int), post_id),
            decreases n - i,
        {
            let ghost prefix = self.rows@.take(i as int);
            let p = &self.rows[i];
            proof {
                assert(self.rows@.take(i as int + 1) =~= prefix.push(self.rows@[i as int]));
                lemma_find_post_push(prefix, self.rows@[i as int], post_id);
                assert(published_rows(prefix.push(self.rows@[i as int]), post_id) =~=
                    published_rows(prefix, post_id).push(
                        publish_one(self.rows@[i as int], post_id),
                    ));
            }
            if p.id == post_id {
                if found.is_none() {
                    found = Some(p.duplicate());
                }
                out.push(Post {
                    id: p.id,
                    title: p.title.clone(),
                    body: p.body.clone(),
                    published: true,
                });
            } else {
                out.push(p.duplicate());
            }
            i += 1;
        }
        proof {
            assert(self.rows@.take(n as int) =~= self.rows@);
        }
        match found {
            None => Err(DbError::NotFound),
            Some(q) => {
                self.rows = out;
                proof {
                    assert forall|k: int| 0 <= k < self.rows@.len() implies 1 <= (
                    #[trigger] self.rows@[k]).id < self.next_id by {
                        assert(self.rows@[k] == publish_one(old(self).rows@[k], post_id));
                    }
                    assert forall|k1: int, k2: int|
                        0 <= k1 < k2 < self.rows@.len() implies self.rows@[k1].id
                        != self.rows@[k2].id by {
                        assert(self.rows@[k1] == publish_one(old(self).rows@[k1], post_id));
                        assert(self.rows@[k2] == publish_one(old(self).rows@[k2], post_id));
                    }
                    lemma_find_post_id(old(self).rows@, post_id);
                }
                Ok(Post { id: q.id, title: q.title, body: q.body, published: true })
            },
        }
    }

    /// The delete for an exact id: removes the row with that id if it
    /// exists and reports how many rows went away (0 or 1 under the
    /// invariant). Deleting an absent id is not an error.
    pub fn delete_by_id(&mut self, post_id: i32) -> (r: Result<usize, DbError>)
        requires
            old(self).wf(),
        ensures
            final(self).wf(),
            final(self).next_id == old(self).next_id,
            final(self).rows@ == rows_without_id(old(self).rows@, post_id),
            r matches Ok(n) && n == old(self).rows@.len() - final(self).rows@.len(),
    {
        let n = self.rows.len();
        let mut out: Vec<Post> = Vec::new();
        let mut i: usize = 0;
        proof {
            assert(self.rows@.skip(0) =~= self.rows@);
            assert(out@ + rows_without_id(self.rows@, post_id) =~= rows_without_id(
                self.rows@,
                post_id,
            ));
        }
        while i < n
            invariant
                i <= n,
                n == self.rows@.len(),
                self.rows@ == old(self).rows@,
                self.next_id == old(self).next_id,
                old(self).wf(),
                out@.len() <= i,
                rows_without_id(self.rows@, post_id) == out@ + rows_without_id(
                    self.rows@.skip(i as int),
                    post_id,
                ),
                forall|k: int|
                    0 <= k < out@.len() ==> exists|j: int|
                        0 <= j < i && #[trigger] out@[k] == self.rows@[j],
                forall|k1: int, k2: int|
                    0 <= k1 < k2 < out@.len() ==> out@[k1].id != out@[k2].id,
            decreases n - i,
        {
            let p = &self.rows[i];
            proof {
                assert(self.rows@.skip(i as int)[0] == self.rows@[i as int]);
                assert(self.rows@.skip(i as int).skip(1) =~= self.rows@.skip(i as int + 1));
            }
            let ghost out_pre = out@;
            if p.id != post_id {
                out.push(p.duplicate());
                proof {
                    assert(out@ =~= out_pre.push(self.rows@[i as int]));
                    assert(out_pre + (seq![self.rows@[i as int]] + rows_without_id(
                        self.rows@.skip(i as int + 1),
                        post_id,
                    )) =~= out@ + rows_without_id(self.rows@.skip(i as int + 1), post_id));
                    assert forall|k: int| 0 <= k < out@.len() implies exists|j: int|
                        0 <= j < i + 1 && #[trigger] out@[k] == self.rows@[j] by {
                        if k < out_pre.len() {
                            let j = choose|j: int| 0 <= j < i && out_pre[k] == self.rows@[j];
                            assert(out@[k] == self.rows@[j]);
                        } else {
                            assert(out@[k] == self.rows@[i as int]);
                        }
                    }
                    assert forall|k1: int, k2: int|
                        0 <= k1 < k2 < out@.len() implies out@[k1].id != out@[k2].id by {
                        if k2 == out_pre.len() {
                            let j = choose|j: int| 0 <= j < i && out_pre[k1] == self.rows@[j];
                            assert(self.rows@[j].id != self.rows@[i as int].id);
                        }
                    }
                }
            }
            i += 1;
        }
        proof {
            assert(self.rows@.skip(n as int) =~= Seq::<Post>::empty());
            assert(out@ + Seq::<Post>::empty() =~= out@);
            assert forall|k: int| 0 <= k < out@.len() implies 1 <= (#[trigger] out@[k]).id
                < self.next_id by {
                let j = choose|j: int| 0 <= j < n && out@[k] == self.rows@[j];
            }
        }
        let removed = self.rows.len() - out.len();
        self.rows = out;
        Ok(removed)
    }

    /// The delete for a client-supplied text: removes every row whose
    /// title is matched by the pattern `%text%` and reports the exact
    /// count removed. Rows that do not match are untouched.
    pub fn delete_by_title(&mut self, text: &str) -> (r: Result<usize, DbError>)
        requires
            old(self).wf(),
        ensures
            final(self).wf(),
            final(self).next_id == old(self).next_id,
            final(self).rows@ == rows_not_matching(old(self).rows@, text@),
            r matches Ok(n) && n == old(self).rows@.len() - final(self).rows@.len(),
    {
        let n = self.rows.len();
        let mut out: Vec<Post> = Vec::new();
        let mut i: usize = 0;
        proof {
            assert(self.rows@.skip(0) =~= self.rows@);
            assert(out@ + rows_not_matching(self.rows@, text@) =~= rows_not_matching(
                self.rows@,
                text@,
            ));
        }
        while i < n
            invariant
                i <= n,
                n == self.rows@.len(),
                self.rows@ == old(self).rows@,
                self.next_id == old(self).next_id,
                old(self).wf(),
                out@.len() <= i,
                rows_not_matching(self.rows@, text@) == out@ + rows_not_matching(
                    self.rows@.skip(i as int),
                    text@,
                ),
                forall|k: int|
                    0 <= k < out@.len() ==> exists|j: int|
                        0 <= j < i && #[trigger] out@[k] == self.rows@[j],
                forall|k1: int, k2: int|
                    0 <= k1 < k2 < out@.len() ==> out@[k1].id != out@[k2].id,
            decreases n - i,
        {
            let p = &self.rows[i];
            proof {
                assert(self.rows@.skip(i as int)[0] == self.rows@[i as int]);
                assert(self.rows@.skip(i as int).skip(1) =~= self.rows@.skip(i as int + 1));
            }
            let ghost out_pre = out@;
            if !title_contains(text, p.title.as_str()) {
                out.push(p.duplicate());
                proof {
                    assert(out@ =~= out_pre.push(self.rows@[i as int]));
                    assert(out_pre + (seq![self.rows@[i as int]] + rows_not_matching(
                        self.rows@.skip(i as int + 1),
                        text@,
                    )) =~= out@ + rows_not_matching(self.rows@.skip(i as int + 1), text@));
                    assert forall|k: int| 0 <= k < out@.len() implies exists|j: int|
                        0 <= j < i + 1 && #[trigger] out@[k] == self.rows@[j] by {
                        if k < out_pre.len() {
                            let j = choose|j: int| 0 <= j < i && out_pre[k] == self.rows@[j];
                            assert(out@[k] == self.rows@[j]);
                        } else {
                            assert(out@[k] == self.rows@[i as int]);
                        }
                    }
                    assert forall|k1: int, k2: int|
                        0 <= k1 < k2 < out@.len() implies out@[k1].id != out@[k2].id by {
                        if k2 == out_pre.len() {
                            let j = choose|j: int| 0 <= j < i && out_pre[k1] == self.rows@[j];
                            assert(self.rows@[j].id != self.rows@[i as int].id);
                        }
                    }
                }
            }
            i += 1;
        }
        proof {
            assert(self.rows@.skip(n as int) =~= Seq::<Post>::empty());
            assert(out@ + Seq::<Post>::empty() =~= out@);
            assert forall|k: int| 0 <= k < out@.len() implies 1 <= (#[trigger] out@[k]).id
                < self.next_id by {
                let j = choose|j: int| 0 <= j < n && out@[k] == self.rows@[j];
            }
        }
        let removed = self.rows.len() - out.len();
        self.rows = out;
        Ok(removed)
    }
}

/// Looking for an id in `rows.push(p)` finds what the search in `rows`
/// found, or `p` itself where `rows` has no such row.
pub proof fn lemma_find_post_push(rows: Seq<Post>, p: Post, id: i32)
    ensures
        find_post(rows.push(p), id) == (if find_post(rows, id) is Some {
            find_post(rows, id)
        } else if p.id == id {
            Some(p)
        } else {
            None::<Post>
        }),
    decreases rows.len(),
{
    if rows.len() == 0 {
        assert(rows.push(p).len() == 1);
        assert(rows.push(p)[0] == p);
        assert(rows.push(p).skip(1) =~= Seq::<Post>::empty());
        assert(find_post(Seq::<Post>::empty(), id) is None);
        if p.id == id {
            assert(find_post(rows.push(p), id) == Some(p));
        } else {
            assert(find_post(rows.push(p), id) == find_post(rows.push(p).skip(1), id));
        }
    } else {
        assert(rows.push(p)[0] == rows[0]);
        assert(rows.push(p).skip(1) =~= rows.skip(1).push(p));
        lemma_find_post_push(rows.skip(1), p, id);
        if rows[0].id == id {
            assert(find_post(rows.push(p), id) == Some(rows[0]));
            assert(find_post(rows, id) == Some(rows[0]));
        } else {
            assert(find_post(rows.push(p), id) == find_post(rows.skip(1).push(p), id));
            assert(find_post(rows, id) == find_post(rows.skip(1), id));
        }
    }
}

/// A found row carries the id it was looked up by, and is a row of the
/// table.
pub proof fn lemma_find_post_id(rows: Seq<Post>, id: i32)
    ensures
        find_post(rows, id) matches Some(q) ==> q.id == id && rows.contains(q),
    decreases rows.len(),
{
    if rows.len() > 0 {
        if rows[0].id == id {
            assert(rows.contains(rows[0]));
        } else {
            lemma_find_post_id(rows.skip(1), id);
            match find_post(rows.skip(1), id) {
                Some(q) => {
                    let w = choose|w: int| 0 <= w < rows.skip(1).len() && rows.skip(1)[w] == q;
                    assert(rows[w + 1] == q);
                    assert(rows.contains(q));
                },
                None => {},
            }
        }
    }
}

/// A list query never returns more rows than its limit, however many
/// rows exist.
pub proof fn lemma_listed_len(rows: Seq<Post>, include_unpublished: bool, limit: nat)
    ensures
        listed_posts(rows, include_unpublished, limit).len() <= limit,
    decreases rows.len(),
{
    if rows.len() == 0 || limit == 0 {
    } else if include_unpublished || rows[0].published {
        lemma_listed_len(rows.skip(1), include_unpublished, (limit - 1) as nat);
    } else {
        lemma_listed_len(rows.skip(1), include_unpublished, limit);
    }
}

/// A list query that does not ask for unpublished rows returns published
/// rows only.
pub proof fn lemma_listed_published(rows: Seq<Post>, limit: nat)
    ensures
        forall|k: int|
            0 <= k < listed_posts(rows, false, limit).len() ==> (#[trigger] listed_posts(
                rows,
                false,
                limit,
            )[k]).published,
    decreases rows.len(),
{
    if rows.len() == 0 || limit == 0 {
    } else if rows[0].published {
        lemma_listed_published(rows.skip(1), (limit - 1) as nat);
        let rest = listed_posts(rows.skip(1), false, (limit - 1) as nat);
        assert forall|k: int|
            0 <= k < listed_posts(rows, false, limit).len() implies (#[trigger] listed_posts(
            rows,
            false,
            limit,
        )[k]).published by {
            if k > 0 {
                assert(listed_posts(rows, false, limit)[k] == rest[k - 1]);
            } else {
                assert(listed_posts(rows, false, limit)[0] == rows[0]);
            }
        }
    } else {
        lemma_listed_published(rows.skip(1), limit);
        assert forall|k: int|
            0 <= k < listed_posts(rows, false, limit).len() implies (#[trigger] listed_posts(
            rows,
            false,
            limit,
        )[k]).published by {
            assert(listed_posts(rows, false, limit)[k] == listed_posts(
                rows.skip(1),
                false,
                limit,
            )[k]);
        }
    }
}

/// Law: creating a post and then fetching the id the store assigned
/// yields exactly the created row — so in particular, by the insert's
/// contract, a row with `published == false` and the title and body of
/// the creation payload.
pub proof fn lemma_create_then_fetch(rows: Seq<Post>, p: Post)
    requires
        forall|i: int| 0 <= i < rows.len() ==> (#[trigger] rows[i]).id != p.id,
    ensures
        find_post(rows.push(p), p.id) == Some(p),
{
    lemma_find_post_push(rows, p, p.id);
    lemma_find_post_none(rows, p.id);
}

/// Law: publishing an existing row and then fetching its id yields that
/// row with `published == true` and the id, title and body unchanged.
pub proof fn lemma_publish_then_fetch(rows: Seq<Post>, id: i32)
    ensures
        find_post(rows, id) matches Some(q) ==> find_post(published_rows(rows, id), id) == Some(
            publish_one(q, id),
        ),
        find_post(rows, id) matches Some(q) ==> publish_one(q, id).published && publish_one(
            q,
            id,
        ).id == q.id && publish_one(q, id).title == q.title && publish_one(q, id).body == q.body,
    decreases rows.len(),
{
    lemma_find_post_id(rows, id);
    if rows.len() > 0 {
        assert(published_rows(rows, id)[0] == publish_one(rows[0], id));
        assert(published_rows(rows, id).skip(1) =~= published_rows(rows.skip(1), id));
        lemma_publish_then_fetch(rows.skip(1), id);
        if rows[0].id == id {
            assert(find_post(rows, id) == Some(rows[0]));
            assert(publish_one(rows[0], id).id == id);
            assert(find_post(published_rows(rows, id), id) == Some(publish_one(rows[0], id)));
        } else {
            assert(find_post(published_rows(rows, id), id) == find_post(
                published_rows(rows.skip(1), id),
                id,
            ));
            assert(find_post(rows, id) == find_post(rows.skip(1), id));
        }
    }
}

/// Law: deleting by an id that no row has removes nothing — the table is
/// unchanged and the reported count is zero.
pub proof fn lemma_delete_absent_id(rows: Seq<Post>, id: i32)
    requires
        forall|i: int| 0 <= i < rows.len() ==> (#[trigger] rows[i]).id != id,
    ensures
        rows_without_id(rows, id) == rows,
    decreases rows.len(),
{
    if rows.len() > 0 {
        assert forall|i: int| 0 <= i < rows.skip(1).len() implies (#[trigger] rows.skip(1)[i]).id
            != id by {
            assert(rows.skip(1)[i] == rows[i + 1]);
        }
        lemma_delete_absent_id(rows.skip(1), id);
        assert(seq![rows[0]] + rows.skip(1) =~= rows);
    }
}

/// Law: deleting by text removes every row whose title the pattern
/// `%text%` matches and no other — no surviving row matches, and every
/// row that did not match survives.
pub proof fn lemma_rows_not_matching(rows: Seq<Post>, text: Seq<char>)
    ensures
        forall|k: int|
            0 <= k < rows_not_matching(rows, text).len() ==> !title_matches(
                text,
                (#[trigger] rows_not_matching(rows, text)[k]).title@,
            ),
        forall|i: int|
            0 <= i < rows.len() && !title_matches(text, rows[i].title@)
                ==> rows_not_matching(rows, text).contains(#[trigger] rows[i]),
    decreases rows.len(),
{
    if rows.len() > 0 {
        lemma_rows_not_matching(rows.skip(1), text);
        let rest = rows_not_matching(rows.skip(1), text);
        if title_matches(text, rows[0].title@) {
            assert forall|i: int|
                0 <= i < rows.len() && !title_matches(text, rows[i].title@)
                    implies rows_not_matching(rows, text).contains(#[trigger] rows[i]) by {
                assert(rows.skip(1)[i - 1] == rows[i]);
            }
        } else {
            let res = seq![rows[0]] + rest;
            assert forall|k: int| 0 <= k < res.len() implies !title_matches(
                text,
                (#[trigger] res[k]).title@,
            ) by {
                if k == 0 {
                    assert(res[0] == rows[0]);
                } else {
                    assert(res[k] == rest[k - 1]);
                }
            }
            assert forall|i: int|
                0 <= i < rows.len() && !title_matches(text, rows[i].title@) implies res.contains(
                #[trigger] rows[i],
            ) by {
                if i == 0 {
                    assert(res[0] == rows[i]);
                } else {
                    assert(rows.skip(1)[i - 1] == rows[i]);
                    let w = choose|w: int| 0 <= w < rest.len() && rest[w] == rows[i];
                    assert(res[w + 1] == rows[i]);
                }
            }
        }
    }
}

/// Law: deleting by id removes exactly the rows with that id — no
/// surviving row has it, and every row with another id survives.
pub proof fn lemma_rows_without_id(rows: Seq<Post>, id: i32)
    ensures
        forall|k: int|
            0 <= k < rows_without_id(rows, id).len() ==> (#[trigger] rows_without_id(
                rows,
                id,
            )[k]).id != id,
        forall|i: int|
            0 <= i < rows.len() && rows[i].id != id ==> rows_without_id(rows, id).contains(
                #[trigger] rows[i],
            ),
    decreases rows.len(),
{
    if rows.len() > 0 {
        lemma_rows_without_id(rows.skip(1), id);
        let rest = rows_without_id(rows.skip(1), id);
        if rows[0].id == id {
            assert forall|i: int|
                0 <= i < rows.len() && rows[i].id != id implies rows_without_id(
                rows,
                id,
            ).contains(#[trigger] rows[i]) by {
                assert(rows.skip(1)[i - 1] == rows[i]);
            }
        } else {
            let res = seq![rows[0]] + rest;
            assert forall|k: int| 0 <= k < res.len() implies (#[trigger] res[k]).id != id by {
                if k == 0 {
                    assert(res[0] == rows[0]);
                } else {
                    assert(res[k] == rest[k - 1]);
                }
            }
            assert forall|i: int|
                0 <= i < rows.len() && rows[i].id != id implies res.contains(
                #[trigger] rows[i],
            ) by {
                if i == 0 {
                    assert(res[0] == rows[i]);
                } else {
                    assert(rows.skip(1)[i - 1] == rows[i]);
                    let w = choose|w: int| 0 <= w < rest.len() && rest[w] == rows[i];
                    assert(res[w + 1] == rows[i]);
                }
            }
        }
    }
}

/// The lookup comes back empty exactly when no row has the id: the
/// fetch-by-id of an absent record, and only of an absent record, reports
/// `NotFound`.
pub proof fn lemma_find_post_none(rows: Seq<Post>, id: i32)
    ensures
        (find_post(rows, id) is None) <==> (forall|i: int|
            0 <= i < rows.len() ==> (#[trigger] rows[i]).id != id),
    decreases rows.len(),
{
    if rows.len() > 0 {
        lemma_find_post_none(rows.skip(1), id);
        if find_post(rows, id) is None {
            assert forall|i: int| 0 <= i < rows.len() implies (#[trigger] rows[i]).id != id by {
                if i > 0 {
                    assert(rows.skip(1)[i - 1] == rows[i]);
                }
            }
        } else {
            if rows[0].id != id {
                let w = choose|w: int|
                    0 <= w < rows.skip(1).len() && (#[trigger] rows.skip(1)[w]).id == id;
                assert(rows[w + 1].id == id);
            }
        }
    }
}

} // verus!
