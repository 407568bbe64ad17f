use vstd::prelude::*;
use vstd::string::*;
use crate::errors::StoreError;
use crate::model::{Comment, Post, User, UserKey};

verus! {

/// The most rows a table holds: ids run from 1 up to `i32::MAX`.
pub const MAX_ROWS: usize = 2147483647;

/// What a store holds: each relation in the order its rows were created.
pub struct StoreModel {
    pub users: Seq<User>,
    pub posts: Seq<Post>,
    pub comments: Seq<Comment>,
}

/// Selects the posts written by `user_id`.
pub open spec fn written_by(user_id: i32) -> spec_fn(Post) -> bool {
    |p: Post| p.user_id == user_id
}

/// Selects the comments made on `post_id`.
pub open spec fn made_on(post_id: i32) -> spec_fn(Comment) -> bool {
    |c: Comment| c.post_id == post_id
}

/// Selects the comments made by `user_id`.
pub open spec fn made_by(user_id: i32) -> spec_fn(Comment) -> bool {
    |c: Comment| c.user_id == user_id
}

/// `p` once published.
pub open spec fn published(p: Post) -> Post {
    Post { id: p.id, user_id: p.user_id, title: p.title, body: p.body, published: true }
}

impl StoreModel {
    pub open spec fn user_exists(self, id: i32) -> bool {
        1 <= id <= self.users.len()
    }

    pub open spec fn post_exists(self, id: i32) -> bool {
        1 <= id <= self.posts.len()
    }

    /// Ids are positions plus one, usernames are unique, and every post and
    /// comment references rows that exist.
    pub open spec fn wf(self) -> bool {
        &&& self.users.len() <= MAX_ROWS
        &&& self.posts.len() <= MAX_ROWS
        &&& self.comments.len() <= MAX_ROWS
        &&& forall|i: int| #![trigger self.users[i]] 0 <= i < self.users.len() ==> self.users[i].id == i + 1
        &&& forall|i: int, j: int|
            #![trigger self.users[i], self.users[j]]
            0 <= i < self.users.len() && 0 <= j < self.users.len() && i != j
                ==> self.users[i].username@ != self.users[j].username@
        &&& forall|i: int|
            #![trigger self.posts[i]]
            0 <= i < self.posts.len() ==> self.posts[i].id == i + 1
                && self.user_exists(self.posts[i].user_id)
        &&& forall|i: int|
            #![trigger self.comments[i]]
            0 <= i < self.comments.len() ==> self.comments[i].id == i + 1
                && self.user_exists(self.comments[i].user_id)
                && self.post_exists(self.comments[i].post_id)
    }

    pub open spec fn username_taken(self, name: Seq<char>) -> bool {
        exists|i: int| 0 <= i < self.users.len() && #[trigger] self.users[i].username@ == name
    }

    /// The user called `name`, where there is one.
    pub open spec fn user_named(self, name: Seq<char>) -> User {
        self.users[choose|i: int| 0 <= i < self.users.len() && #[trigger] self.users[i].username@ == name]
    }

    /// The user that `key` designates, if any.
    pub open spec fn lookup_user(self, key: UserKey) -> Option<User> {
        match key {
            UserKey::ID(id) => if self.user_exists(id) {
                Some(self.users[id - 1])
            } else {
                None
            },
            UserKey::Username(name) => if self.username_taken(name@) {
                Some(self.user_named(name@))
            } else {
                None
            },
        }
    }

    /// The posts of `user_id`, in creation order.
    pub open spec fn posts_of(self, user_id: i32) -> Seq<Post> {
        self.posts.filter(written_by(user_id))
    }

    /// The comments on `post_id`, in creation order.
    pub open spec fn comments_on(self, post_id: i32) -> Seq<Comment> {
        self.comments.filter(made_on(post_id))
    }

    /// The comments by `user_id`, in creation order.
    pub open spec fn comments_by(self, user_id: i32) -> Seq<Comment> {
        self.comments.filter(made_by(user_id))
    }
}

/// The relational store: three tables of users, posts and comments.
pub struct Store {
    users: Vec<User>,
    posts: Vec<Post>,
    comments: Vec<Comment>,
}

impl View for Store {
    type V = StoreModel;

    closed spec fn view(&self) -> StoreModel {
        StoreModel { users: self.users@, posts: self.posts@, comments: self.comments@ }
    }
}

impl Store {
    /// An empty store.
    pub fn new() -> (s: Store)
        ensures
            s@.wf(),
            s@.users.len() == 0,
            s@.posts.len() == 0,
            s@.comments.len() == 0,
    {
        Store { users: Vec::new(), posts: Vec::new(), comments: Vec::new() }
    }

    /// The position of the user called `name`, if there is one.
    fn position_of_username(&self, name: &String) -> (r: Option<usize>)
        ensures
            match r {
                Some(i) => i < self@.users.len() && self@.users[i as int].username@ == name@,
                None => !self@.username_taken(name@),
            },
    {
        let mut i: usize = 0;
        while i < self.users.len()
            invariant
                i <= self.users@.len(),
                forall|j: int| 0 <= j < i ==> #[trigger] self.users@[j].username@ != name@,
            decreases self.users@.len() - i,
        {
            if self.users[i].username == *name {
                return Some(i);
            }
            i += 1;
        }
        None
    }

    /// Registers a new user called `username`. A name that is already taken
    /// fails with `UniqueViolation` and writes nothing.
    pub fn create_user(&mut self, username: &str) -> (r: Result<User, StoreError>)
        requires
            old(self)@.wf(),
        ensures
            final(self)@.wf(),
            old(self)@.username_taken(username@) ==> r == Err::<User, StoreError>(
                StoreError::UniqueViolation,
            ) && final(self)@ == old(self)@,
            !old(self)@.username_taken(username@) && old(self)@.users.len() == MAX_ROWS ==> r
                == Err::<User, StoreError>(StoreError::CapacityExceeded) && final(self)@ == old(
                self,
            )@,
            !old(self)@.username_taken(username@) && old(self)@.users.len() < MAX_ROWS ==> (
            match r {
                Ok(u) => u.id == old(self)@.users.len() + 1 && u.username@ == username@
                    && final(self)@ == (StoreModel { users: old(self)@.users.push(u), ..old(self)@ }),
                Err(_) => false,
            }),
    {
        let name = String::from_str(username);
        if self.position_of_username(&name).is_some() {
            return Err(StoreError::UniqueViolation);
        }
        if self.users.len() >= MAX_ROWS {
            return Err(StoreError::CapacityExceeded);
        }
        let id = (self.users.len() + 1) as i32;
        let user = User { id, username: name };
        let out = user.duplicate();
        self.users.push(user);
        proof {
            let m = self@;
            let o = old(self)@;
            assert(forall|i: int| 0 <= i < o.users.len() ==> m.users[i] == o.users[i]);
            assert forall|i: int, j: int|
                0 <= i < m.users.len() && 0 <= j < m.users.len() && i != j implies
                m.users[i].username@ != m.users[j].username@ by {
                if i == o.users.len() {
                    assert(m.users[j] == o.users[j]);
                    assert(!(o.users[j].username@ == username@));
                } else if j == o.users.len() {
                    assert(m.users[i] == o.users[i]);
                    assert(!(o.users[i].username@ == username@));
                } else {
                    assert(m.users[i] == o.users[i] && m.users[j] == o.users[j]);
                }
            }
            assert(m.wf());
        }
        Ok(out)
    }

    /// The user that `key` designates; `NotFound` when there is none.
    pub fn find_user(&self, key: UserKey) -> (r: Result<User, StoreError>)
        requires
            self@.wf(),
        ensures
            r == match self@.lookup_user(key) {
                Some(u) => Ok::<User, StoreError>(u),
                None => Err(StoreError::NotFound),
            },
    {
        match key {
            UserKey::ID(id) => {
                if 1 <= id && id as usize <= self.users.len() {
                    Ok(self.users[(id - 1) as usize].duplicate())
                } else {
                    Err(StoreError::NotFound)
                }
            },
            UserKey::Username(name) => {
                let name = String::from_str(name);
                match self.position_of_username(&name) {
                    Some(i) => {
                        proof {
                            let m = self@;
                            let j = choose|j: int|
                                0 <= j < m.users.len() && #[trigger] m.users[j].username@ == name@;
                            assert(m.users[j].username@ == m.users[i as int].username@);
                        }
                        Ok(self.users[i].duplicate())
                    },
                    None => Err(StoreError::NotFound),
                }
            },
        }
    }

    /// Adds a post by `user`, unpublished. The author must already have
    /// been resolved from the store.
    pub fn create_post(&mut self, user: &User, title: &str, body: &str) -> (r: Result<
        Post,
        StoreError,
    >)
        requires
            old(self)@.wf(),
            old(self)@.users.contains(*user),
        ensures
            final(self)@.wf(),
            old(self)@.posts.len() == MAX_ROWS ==> r == Err::<Post, StoreError>(
                StoreError::CapacityExceeded,
            ) && final(self)@ == old(self)@,
            old(self)@.posts.len() < MAX_ROWS ==> (match r {
                Ok(p) => p.id == old(self)@.posts.len() + 1 && p.user_id == user.id && p.title@
                    == title@ && p.body@ == body@ && !p.published && final(self)@ == (StoreModel {
                    posts: old(self)@.posts.push(p),
                    ..old(self)@
                }),
                Err(_) => false,
            }),
    {
        if self.posts.len() >= MAX_ROWS {
            return Err(StoreError::CapacityExceeded);
        }
        proof {
            let k = choose|k: int| 0 <= k < self@.users.len() && self@.users[k] == *user;
            assert(self@.users[k].id == k + 1);
        }
        let id = (self.posts.len() + 1) as i32;
        let post = Post {
            id,
            user_id: user.id,
            title: String::from_str(title),
            body: String::from_str(body),
            published: false,
        };
        let out = post.duplicate();
        self.posts.push(post);
        Ok(out)
    }

    /// Marks post `post_id` as published and returns it; `NotFound` when
    /// there is no such post. Publishing twice is harmless.
    pub fn publish_post(&mut self, post_id: i32) -> (r: Result<Post, StoreError>)
        requires
            old(self)@.wf(),
        ensures
            final(self)@.wf(),
            !old(self)@.post_exists(post_id) ==> r == Err::<Post, StoreError>(StoreError::NotFound)
                && final(self)@ == old(self)@,
            old(self)@.post_exists(post_id) ==> r == Ok::<Post, StoreError>(
                published(old(self)@.posts[post_id - 1]),
            ) && final(self)@ == (StoreModel {
                posts: old(self)@.posts.update(post_id - 1, published(old(self)@.posts[post_id - 1])),
                ..old(self)@
            }),
    {
        if !(1 <= post_id && post_id as usize <= self.posts.len()) {
            return Err(StoreError::NotFound);
        }
        let i = (post_id - 1) as usize;
        let mut post = self.posts[i].duplicate();
        post.published = true;
        let out = post.duplicate();
        self.posts.set(i, post);
        Ok(out)
    }

    /// Every post, in creation order.
    pub fn all_posts(&self) -> (r: Vec<Post>)
        ensures
            r@ == self@.posts,
    {
        let mut out: Vec<Post> = Vec::new();
        let mut i: usize = 0;
        while i < self.posts.len()
            invariant
                i <= self.posts@.len(),
                out@ == self.posts@.take(i as int),
            decreases self.posts@.len() - i,
        {
            out.push(self.posts[i].duplicate());
            assert(self.posts@.take(i + 1) == self.posts@.take(i as int).push(self.posts@[i as int]));
            i += 1;
        }
        assert(self.posts@.take(i as int) == self.posts@);
        out
    }

    /// The posts written by `user_id`, in creation order; empty when there
    /// are none.
    pub fn user_posts(&self, user_id: i32) -> (r: Vec<Post>)
        ensures
            r@ == self@.posts_of(user_id),
    {
        let mut out: Vec<Post> = Vec::new();
        let mut i: usize = 0;
        while i < self.posts.len()
            invariant
                i <= self.posts@.len(),
                out@ == self.posts@.take(i as int).filter(written_by(user_id)),
            decreases self.posts@.len() - i,
        {
            assert(self.posts@.take(i + 1) == self.posts@.take(i as int).push(self.posts@[i as int]));
            proof {
                self.posts@.take(i as int).lemma_filter_push(self.posts@[i as int], written_by(user_id));
            }
            if self.posts[i].user_id == user_id {
                out.push(self.posts[i].duplicate());
            }
            i += 1;
        }
        assert(self.posts@.take(i as int) == self.posts@);
        out
    }

    /// Adds a comment by `user_id` on `post_id`. Neither reference is looked
    /// up beforehand: the table's own constraint rejects a user or post that
    /// does not exist with `ForeignKeyViolation`.
    pub fn create_comment(&mut self, user_id: i32, post_id: i32, body: &str) -> (r: Result<
        Comment,
        StoreError,
    >)
        requires
            old(self)@.wf(),
        ensures
            final(self)@.wf(),
            !(old(self)@.user_exists(user_id) && old(self)@.post_exists(post_id)) ==> r == Err::<
                Comment,
                StoreError,
            >(StoreError::ForeignKeyViolation) && final(self)@ == old(self)@,
            old(self)@.user_exists(user_id) && old(self)@.post_exists(post_id)
                && old(self)@.comments.len() == MAX_ROWS ==> r == Err::<Comment, StoreError>(
                StoreError::CapacityExceeded,
            ) && final(self)@ == old(self)@,
            old(self)@.user_exists(user_id) && old(self)@.post_exists(post_id)
                && old(self)@.comments.len() < MAX_ROWS ==> (match r {
                Ok(c) => c.id == old(self)@.comments.len() + 1 && c.user_id == user_id && c.post_id
                    == post_id && c.body@ == body@ && final(self)@ == (StoreModel {
                    comments: old(self)@.comments.push(c),
                    ..old(self)@
                }),
                Err(_) => false,
            }),
    {
        if !(1 <= user_id && user_id as usize <= self.users.len() && 1 <= post_id && post_id as usize
            <= self.posts.len()) {
            return Err(StoreError::ForeignKeyViolation);
        }
        if self.comments.len() >= MAX_ROWS {
            return Err(StoreError::CapacityExceeded);
        }
        let id = (self.comments.len() + 1) as i32;
        let comment = Comment { id, user_id, post_id, body: String::from_str(body) };
        let out = comment.duplicate();
        self.comments.push(comment);
        Ok(out)
    }

    /// The comments on `post_id`, in creation order; empty when there are
    /// none.
    pub fn post_comments(&self, post_id: i32) -> (r: Vec<Comment>)
        ensures
            r@ == self@.comments_on(post_id),
    {
        let mut out: Vec<Comment> = Vec::new();
        let mut i: usize = 0;
        while i < self.comments.len()
            invariant
                i <= self.comments@.len(),
                out@ == self.comments@.take(i as int).filter(made_on(post_id)),
            decreases self.comments@.len() - i,
        {
            assert(self.comments@.take(i + 1) == self.comments@.take(i as int).push(
                self.comments@[i as int],
            ));
            proof {
                self.comments@.take(i as int).lemma_filter_push(self.comments@[i as int], made_on(post_id));
            }
            if self.comments[i].post_id == post_id {
                out.push(self.comments[i].duplicate());
            }
            i += 1;
        }
        assert(self.comments@.take(i as int) == self.comments@);
        out
    }

    /// The comments by `user_id`, in creation order; empty when there are
    /// none.
    pub fn user_comments(&self, user_id: i32) -> (r: Vec<Comment>)
        ensures
            r@ == self@.comments_by(user_id),
    {
        let mut out: Vec<Comment> = Vec::new();
        let mut i: usize = 0;
        while i < self.comments.len()
            invariant
                i <= self.comments@.len(),
                out@ == self.comments@.take(i as int).filter(made_by(user_id)),
            decreases self.comments@.len() - i,
        {
            assert(self.comments@.take(i + 1) == self.comments@.take(i as int).push(
                self.comments@[i as int],
            ));
            proof {
                self.comments@.take(i as int).lemma_filter_push(self.comments@[i as int], made_by(user_id));
            }
            if self.comments[i].user_id == user_id {
                out.push(self.comments[i].duplicate());
            }
            i += 1;
        }
        assert(self.comments@.take(i as int) == self.comments@);
        out
    }
}

/// Creates a post by user `user_id`: the author is looked up first, so an
/// unknown author fails with `NotFound` and writes nothing.
pub fn add_post(store: &mut Store, user_id: i32, title: &str, body: &str) -> (r: Result<
    Post,
    StoreError,
>)
    requires
        old(store)@.wf(),
    ensures
        final(store)@.wf(),
        !old(store)@.user_exists(user_id) ==> r == Err::<Post, StoreError>(StoreError::NotFound)
            && final(store)@ == old(store)@,
        old(store)@.user_exists(user_id) && old(store)@.posts.len() == MAX_ROWS ==> r == Err::<
            Post,
            StoreError,
        >(StoreError::CapacityExceeded) && final(store)@ == old(store)@,
        old(store)@.user_exists(user_id) && old(store)@.posts.len() < MAX_ROWS ==> (match r {
            Ok(p) => p.id == old(store)@.posts.len() + 1 && p.user_id == user_id && p.title@
                == title@ && p.body@ == body@ && !p.published && final(store)@ == (StoreModel {
                posts: old(store)@.posts.push(p),
                ..old(store)@
            }),
            Err(_) => false,
        }),
{
    match store.find_user(UserKey::ID(user_id)) {
        Ok(user) => {
            proof {
                assert(store@.users[user_id - 1] == user);
            }
            store.create_post(&user, title, body)
        },
        Err(e) => Err(e),
    }
}

} // verus!
