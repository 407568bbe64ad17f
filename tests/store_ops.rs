use blog_store::errors::{AppError, StoreError};
use blog_store::model::UserKey;
use blog_store::response::{convert, Envelope};
use blog_store::store::{add_post, Store};

#[test]
fn created_user_is_found_by_name() {
    let mut s = Store::new();
    s.create_user("zed").unwrap();
    let u = s.create_user("alice").unwrap();
    let found = s.find_user(UserKey::Username("alice")).unwrap();
    assert_eq!(found.id, u.id);
    assert_eq!(found.id, 2);
    assert_eq!(found.username, "alice");
    let by_id = s.find_user(UserKey::ID(2)).unwrap();
    assert_eq!(by_id, found);
}

#[test]
fn duplicate_username_is_rejected() {
    let mut s = Store::new();
    assert!(s.create_user("alice").is_ok());
    let second = s.create_user("alice");
    assert_eq!(second, Err(StoreError::UniqueViolation));
    let e = AppError::from(second.unwrap_err());
    assert_eq!(e, AppError::RecordAlreadyExists);
    assert_eq!(e.status_code(), 400);
    assert_eq!(s.all_posts().len(), 0);
    assert_eq!(s.find_user(UserKey::ID(2)), Err(StoreError::NotFound));
}

#[test]
fn unknown_id_is_not_found() {
    let mut s = Store::new();
    s.create_user("alice").unwrap();
    let r = s.find_user(UserKey::ID(9999));
    assert_eq!(r, Err(StoreError::NotFound));
    assert_eq!(AppError::from(StoreError::NotFound), AppError::RecordNotFound);
    assert_eq!(s.find_user(UserKey::ID(0)), Err(StoreError::NotFound));
    assert_eq!(s.find_user(UserKey::ID(-1)), Err(StoreError::NotFound));
    assert_eq!(s.find_user(UserKey::Username("bob")), Err(StoreError::NotFound));
}

#[test]
fn post_starts_unpublished_and_publishes() {
    let mut s = Store::new();
    let u = s.create_user("alice").unwrap();
    let p = s.create_post(&u, "T", "B").unwrap();
    assert_eq!(p.id, 1);
    assert_eq!(p.user_id, u.id);
    assert_eq!(p.title, "T");
    assert_eq!(p.body, "B");
    assert!(!p.published);
    let q = s.publish_post(p.id).unwrap();
    assert_eq!(q.id, p.id);
    assert_eq!(q.user_id, p.user_id);
    assert_eq!(q.title, p.title);
    assert_eq!(q.body, p.body);
    assert!(q.published);
    assert_eq!(s.publish_post(9999), Err(StoreError::NotFound));
    assert!(s.all_posts()[0].published);
}

#[test]
fn publishing_twice_is_harmless() {
    let mut s = Store::new();
    let u = s.create_user("alice").unwrap();
    let p = s.create_post(&u, "T", "B").unwrap();
    let once = s.publish_post(p.id).unwrap();
    let twice = s.publish_post(p.id).unwrap();
    assert_eq!(once, twice);
    assert!(twice.published);
    assert_eq!(s.all_posts(), vec![twice]);
}

#[test]
fn comments_are_listed_in_creation_order() {
    let mut s = Store::new();
    let u = s.create_user("alice").unwrap();
    let v = s.create_user("bob").unwrap();
    let p = s.create_post(&u, "T", "B").unwrap();
    let q = s.create_post(&v, "T2", "B2").unwrap();
    let c1 = s.create_comment(u.id, p.id, "hi").unwrap();
    let c2 = s.create_comment(v.id, p.id, "hello").unwrap();
    let c3 = s.create_comment(u.id, q.id, "there").unwrap();
    assert_eq!(c1.id, 1);
    assert_eq!(c1.body, "hi");
    assert_eq!(c3.id, 3);
    let on_p = s.post_comments(p.id);
    assert_eq!(on_p.len(), 2);
    assert_eq!(on_p[0], c1);
    assert_eq!(on_p[1], c2);
    let by_u = s.user_comments(u.id);
    assert_eq!(by_u.len(), 2);
    assert_eq!(by_u[0], c1);
    assert_eq!(by_u[1], c3);
    assert_eq!(s.post_comments(99).len(), 0);
    assert_eq!(s.user_comments(99).len(), 0);
}

#[test]
fn comment_with_missing_reference_is_a_database_error() {
    let mut s = Store::new();
    let u = s.create_user("alice").unwrap();
    let p = s.create_post(&u, "T", "B").unwrap();
    assert_eq!(s.create_comment(u.id, 42, "x"), Err(StoreError::ForeignKeyViolation));
    assert_eq!(s.create_comment(42, p.id, "x"), Err(StoreError::ForeignKeyViolation));
    assert_eq!(s.post_comments(p.id).len(), 0);
    let e = AppError::from(StoreError::ForeignKeyViolation);
    assert_eq!(e, AppError::DatabaseError(StoreError::ForeignKeyViolation));
    assert_eq!(e.status_code(), 500);
    assert_eq!(e.message(), "Database error");
}

#[test]
fn repeated_registration_of_one_name_succeeds_once() {
    let mut s = Store::new();
    let mut ok = 0;
    let mut dup = 0;
    for _ in 0..8 {
        match s.create_user("dup") {
            Ok(_) => ok += 1,
            Err(StoreError::UniqueViolation) => dup += 1,
            Err(_) => panic!("unexpected failure"),
        }
    }
    assert_eq!(ok, 1);
    assert_eq!(dup, 7);
    assert_eq!(s.find_user(UserKey::ID(2)), Err(StoreError::NotFound));
    assert_eq!(s.find_user(UserKey::Username("dup")).unwrap().id, 1);
}

#[test]
fn post_lists_filter_by_author() {
    let mut s = Store::new();
    assert_eq!(s.all_posts().len(), 0);
    let u = s.create_user("alice").unwrap();
    let v = s.create_user("bob").unwrap();
    let p1 = s.create_post(&u, "a", "1").unwrap();
    let p2 = s.create_post(&v, "b", "2").unwrap();
    let p3 = s.create_post(&u, "c", "3").unwrap();
    assert_eq!(s.user_posts(u.id), vec![p1.duplicate(), p3.duplicate()]);
    assert_eq!(s.user_posts(v.id), vec![p2.duplicate()]);
    assert_eq!(s.user_posts(7).len(), 0);
    assert_eq!(s.all_posts(), vec![p1, p2, p3]);
}

#[test]
fn add_post_looks_up_the_author_first() {
    let mut s = Store::new();
    assert_eq!(add_post(&mut s, 1, "T", "B"), Err(StoreError::NotFound));
    assert_eq!(s.all_posts().len(), 0);
    s.create_user("alice").unwrap();
    let p = add_post(&mut s, 1, "T", "B").unwrap();
    assert_eq!(p.user_id, 1);
    assert!(!p.published);
}

#[test]
fn end_to_end_blog_flow() {
    let mut s = Store::new();
    let bob = convert(s.create_user("bob").map_err(AppError::from));
    assert_eq!(bob.status(), 200);
    match bob {
        Envelope::Success(u) => {
            assert_eq!(u.id, 1);
            assert_eq!(u.username, "bob");
        }
        Envelope::Failure(_) => panic!("expected success"),
    }
    let post = convert(add_post(&mut s, 1, "Hi", "World").map_err(AppError::from));
    assert_eq!(post.status(), 200);
    match post {
        Envelope::Success(p) => {
            assert_eq!(p.id, 1);
            assert_eq!(p.user_id, 1);
            assert_eq!(p.title, "Hi");
            assert_eq!(p.body, "World");
            assert!(!p.published);
        }
        Envelope::Failure(_) => panic!("expected success"),
    }
    let published = convert(s.publish_post(1).map_err(AppError::from));
    assert_eq!(published.status(), 200);
    match published {
        Envelope::Success(p) => assert!(p.published),
        Envelope::Failure(_) => panic!("expected success"),
    }
    let all = convert::<Vec<_>>(Ok(s.all_posts()));
    assert_eq!(all.status(), 200);
    match all {
        Envelope::Success(v) => {
            assert_eq!(v.len(), 1);
            assert_eq!(v[0].id, 1);
            assert!(v[0].published);
        }
        Envelope::Failure(_) => panic!("expected success"),
    }
}
