use vstd::prelude::*;

verus! {

/// A registered account. The store assigns `id`; `username` is unique.
#[derive(Debug, PartialEq, Eq)]
pub struct User {
    pub id: i32,
    pub username: String,
}

/// An article written by a user. `published` starts out false and only
/// ever becomes true.
#[derive(Debug, PartialEq, Eq)]
pub struct Post {
    pub id: i32,
    pub user_id: i32,
    pub title: String,
    pub body: String,
    pub published: bool,
}

/// A remark by a user on a post.
#[derive(Debug, PartialEq, Eq)]
pub struct Comment {
    pub id: i32,
    pub user_id: i32,
    pub post_id: i32,
    pub body: String,
}

/// How a user is looked up: by the store-assigned id or by the unique name.
#[derive(Debug)]
pub enum UserKey<'a> {
    ID(i32),
    Username(&'a str),
}

impl User {
    /// A field-for-field copy.
    pub fn duplicate(&self) -> (r: User)
        ensures
            r == *self,
    {
        User { id: self.id, username: self.username.clone() }
    }
}

impl Post {
    /// A field-for-field copy.
    pub fn duplicate(&self) -> (r: Post)
        ensures
            r == *self,
    {
        Post {
            id: self.id,
            user_id: self.user_id,
            title: self.title.clone(),
            body: self.body.clone(),
            published: self.published,
        }
    }
}

impl Comment {
    /// A field-for-field copy.
    pub fn duplicate(&self) -> (r: Comment)
        ensures
            r == *self,
    {
        Comment {
            id: self.id,
            user_id: self.user_id,
            post_id: self.post_id,
            body: self.body.clone(),
        }
    }
}

} // verus!
