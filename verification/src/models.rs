use vstd::prelude::*;

verus! {

/// A persisted blog-post row.
///
/// `id` is assigned by the store on insert and is immutable thereafter;
/// `published` starts out `false` at creation and can only be flipped to
/// `true` by the publish operation. Duplicate titles and bodies are allowed;
/// only `id` is unique.
pub struct Post {
    pub id: i32,
    pub title: String,
    pub body: String,
    pub published: bool,
}

impl Post {
    /// A deep copy whose contract ties the copy to the original value.
    pub fn duplicate(&self) -> (r: Post)
        ensures
            r == *self,
    {
        Post {
            id: self.id,
            title: self.title.clone(),
            body: self.body.clone(),
            published: self.published,
        }
    }
}

/// The transient creation payload: only `title` and `body` are
/// client-supplied. The store assigns `id` and starts `published` at `false`.
pub struct NewPost {
    pub title: String,
    pub body: String,
}

} // verus!
