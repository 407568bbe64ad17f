use vstd::prelude::*;
use crate::model::{Comment, User, UserKey};
use crate::store::{made_by, made_on, published, StoreModel};

verus! {

/// A user just registered under `name` (the success of `create_user`) is
/// found by that name, with the same id; the name is then taken, so every
/// later registration of it fails with `UniqueViolation`.
pub proof fn lemma_registered_user_found(m: StoreModel, u: User, name: &str)
    requires
        m.wf(),
        !m.username_taken(name@),
        u.id == m.users.len() + 1,
        u.username@ == name@,
    ensures
        (StoreModel { users: m.users.push(u), ..m }).lookup_user(UserKey::Username(name)) == Some(u),
        (StoreModel { users: m.users.push(u), ..m }).username_taken(name@),
{
    let n = StoreModel { users: m.users.push(u), ..m };
    let last = m.users.len() as int;
    assert(n.users[last].username@ == name@);
    assert(n.username_taken(name@));
    let j = choose|j: int| 0 <= j < n.users.len() && #[trigger] n.users[j].username@ == name@;
    if j < last {
        assert(n.users[j] == m.users[j]);
        assert(m.users[j].username@ == name@);
    }
    assert(j == last);
}

/// Publishing post `id` yields that same post, with the same id, author,
/// title and body, and with `published` set.
pub proof fn lemma_publish_keeps_post(m: StoreModel, id: i32)
    requires
        m.wf(),
        m.post_exists(id),
    ensures
        published(m.posts[id - 1]).id == id,
        published(m.posts[id - 1]).user_id == m.posts[id - 1].user_id,
        published(m.posts[id - 1]).title == m.posts[id - 1].title,
        published(m.posts[id - 1]).body == m.posts[id - 1].body,
        published(m.posts[id - 1]).published,
{
}

/// Publishing a post that is already published changes nothing, and
/// publishing twice leaves the posts as publishing once does.
pub proof fn lemma_publish_idempotent(m: StoreModel, id: i32)
    requires
        m.wf(),
        m.post_exists(id),
    ensures
        m.posts[id - 1].published ==> published(m.posts[id - 1]) == m.posts[id - 1]
            && m.posts.update(id - 1, published(m.posts[id - 1])) == m.posts,
        ({
            let once = m.posts.update(id - 1, published(m.posts[id - 1]));
            once.update(id - 1, published(once[id - 1])) == once
        }),
{
    if m.posts[id - 1].published {
        assert(m.posts.update(id - 1, published(m.posts[id - 1])) =~= m.posts);
    }
    let once = m.posts.update(id - 1, published(m.posts[id - 1]));
    assert(once.update(id - 1, published(once[id - 1])) =~= once);
}

/// A comment just created (the success of `create_comment`) is listed last
/// among the comments on its post and among those by its author, after the
/// ones made before it; the lists of other posts and users do not change.
pub proof fn lemma_new_comment_listed(m: StoreModel, c: Comment)
    ensures
        (StoreModel { comments: m.comments.push(c), ..m }).comments_on(c.post_id)
            == m.comments_on(c.post_id).push(c),
        (StoreModel { comments: m.comments.push(c), ..m }).comments_by(c.user_id)
            == m.comments_by(c.user_id).push(c),
        forall|post_id: i32|
            post_id != c.post_id ==> (StoreModel { comments: m.comments.push(c), ..m }).comments_on(
                post_id,
            ) == #[trigger] m.comments_on(post_id),
        forall|user_id: i32|
            user_id != c.user_id ==> (StoreModel { comments: m.comments.push(c), ..m }).comments_by(
                user_id,
            ) == #[trigger] m.comments_by(user_id),
{
    broadcast use Seq::lemma_filter_push;

    m.comments.lemma_filter_push(c, made_on(c.post_id));
    m.comments.lemma_filter_push(c, made_by(c.user_id));
}

} // verus!
