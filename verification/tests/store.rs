use microblog::db::{AppDb, AuthError, DbError, MemDb, Post, User, UserRole};

fn add_named_user(db: &mut MemDb, name: &str, password: &str) {
    let user = User::new(name, password, UserRole::User, false);
    db.add_user(user).expect("fresh name should be accepted");
}

#[test]
fn duplicate_name_is_rejected_and_record_kept() {
    let mut db = MemDb::new();
    add_named_user(&mut db, "alice", "first-pw");
    let again = User::new("alice", "second-pw", UserRole::Admin, true);
    assert_eq!(db.add_user(again), Err(DbError::DuplicateName));
    assert_eq!(db.num_users(), 1);
    let kept = db.get_user_by_name("alice").unwrap();
    assert!(kept.check_password("first-pw"));
    assert!(!kept.check_password("second-pw"));
    assert_eq!(kept.role(), UserRole::User);
    assert!(!kept.blue());
}

#[test]
fn sequential_adds_yield_increasing_ids_from_zero() {
    let mut db = MemDb::new();
    let names = ["a", "b", "c", "d", "e"];
    for name in names.iter() {
        add_named_user(&mut db, name, "pw");
    }
    assert_eq!(db.num_users(), names.len() as u64);
    let users = db.get_users().unwrap();
    assert_eq!(users.len(), names.len());
    for (expected_id, user) in users.iter().enumerate() {
        assert_eq!(user.id(), expected_id as u64);
    }
    for (expected_id, name) in names.iter().enumerate() {
        assert_eq!(db.get_user_by_name(name).unwrap().id(), expected_id as u64);
    }
}

#[test]
fn added_user_is_returned_unchanged_except_id() {
    let mut db = MemDb::new();
    add_named_user(&mut db, "filler", "x");
    let candidate = User::new("carol", "s3cret", UserRole::Admin, true);
    db.add_user(candidate).unwrap();

    let by_name = db.get_user_by_name("carol").unwrap();
    assert_eq!(by_name.id(), 1);
    assert_eq!(by_name.name(), "carol");
    assert!(by_name.check_password("s3cret"));
    assert_eq!(by_name.role(), UserRole::Admin);
    assert!(by_name.blue());
    assert_eq!(by_name.bio(), "");

    let by_id = db.get_user_by_id(1).unwrap();
    assert_eq!(by_id.name(), "carol");
    assert!(by_id.check_password("s3cret"));
    assert_eq!(by_id.role(), UserRole::Admin);
    assert!(by_id.blue());
    assert_eq!(by_id.bio(), "");
}

#[test]
fn lookup_in_empty_store_is_not_found() {
    let db = MemDb::new();
    assert_eq!(db.num_users(), 0);
    assert_eq!(db.num_posts(), 0);
    assert!(matches!(db.get_user_by_name("nobody"), Err(DbError::NotFound)));
    assert!(matches!(db.get_user_by_id(0), Err(DbError::NotFound)));
}

#[test]
fn update_missing_user_fails_and_changes_nothing() {
    let mut db = MemDb::new();
    add_named_user(&mut db, "alice", "pw");
    let stranger = User::new("mallory", "pw", UserRole::User, false);
    assert_eq!(db.update_user(stranger), Err(DbError::NotFound));
    assert_eq!(db.num_users(), 1);
    let kept = db.get_user_by_name("alice").unwrap();
    assert_eq!(kept.id(), 0);
    assert!(kept.check_password("pw"));
}

#[test]
fn update_replaces_whole_record() {
    let mut db = MemDb::new();
    add_named_user(&mut db, "alice", "pw");
    let mut alice = db.get_user_by_name("alice").unwrap();
    alice.set_bio("hello, I post here");
    alice.set_blue(true);
    db.update_user(alice).unwrap();

    let replaced = db.get_user_by_name("alice").unwrap();
    assert_eq!(replaced.bio(), "hello, I post here");
    assert!(replaced.blue());
    assert!(replaced.check_password("pw"));
    assert_eq!(replaced.id(), 0);
    assert_eq!(db.num_users(), 1);
}

#[test]
fn returned_records_are_independent_copies() {
    let mut db = MemDb::new();
    add_named_user(&mut db, "alice", "pw");
    let mut copy = db.get_user_by_name("alice").unwrap();
    copy.set_bio("scribbled only on the copy");
    let stored = db.get_user_by_name("alice").unwrap();
    assert_eq!(stored.bio(), "");
}

#[test]
fn delete_post_removes_exactly_one() {
    let mut db = MemDb::new();
    add_named_user(&mut db, "alice", "pw");
    let alice = db.get_user_by_name("alice").unwrap();
    db.add_post(Post::new(&alice, "one")).unwrap();
    db.add_post(Post::new(&alice, "two")).unwrap();
    db.add_post(Post::new(&alice, "three")).unwrap();
    assert_eq!(db.num_posts(), 3);

    db.delete_post_by_id(1).unwrap();
    assert_eq!(db.num_posts(), 2);
    let posts = db.get_posts().unwrap();
    assert_eq!(posts.len(), 2);
    assert!(posts.iter().all(|p| p.id() != 1));
    assert!(posts.iter().any(|p| p.contents() == "one"));
    assert!(posts.iter().any(|p| p.contents() == "three"));

    assert_eq!(db.delete_post_by_id(1), Err(DbError::NotFound));
    assert_eq!(db.delete_post_by_id(99), Err(DbError::NotFound));
    assert_eq!(db.num_posts(), 2);
}

#[test]
fn added_post_round_trips_through_listing() {
    let mut db = MemDb::new();
    add_named_user(&mut db, "alice", "pw");
    let alice = db.get_user_by_name("alice").unwrap();
    let before: u64 = chrono::Local::now()
        .timestamp()
        .try_into()
        .expect("the clock reads after the epoch");
    db.add_post(Post::new(&alice, "first post!")).unwrap();

    let posts = db.get_posts().unwrap();
    assert_eq!(posts.len(), 1);
    let post = &posts[0];
    assert_eq!(post.id(), 0);
    assert_eq!(post.author_id(), alice.id());
    assert_eq!(post.contents(), "first post!");
    assert!(post.timestamp() >= before);
}

#[test]
fn scenario_delete_second_of_three_posts() {
    let mut db = MemDb::new();
    add_named_user(&mut db, "alice", "pw");
    add_named_user(&mut db, "bob", "pw");
    let alice = db.get_user_by_name("alice").unwrap();
    db.add_post(Post::new(&alice, "post a")).unwrap();
    db.add_post(Post::new(&alice, "post b")).unwrap();
    db.add_post(Post::new(&alice, "post c")).unwrap();

    let second_id = db
        .get_posts()
        .unwrap()
        .iter()
        .find(|p| p.contents() == "post b")
        .expect("the second post is listed")
        .id();
    db.delete_post_by_id(second_id).unwrap();

    let posts = db.get_posts().unwrap();
    assert_eq!(posts.len(), 2);
    assert!(posts.iter().all(|p| p.id() != second_id));
    assert!(posts.iter().all(|p| p.author_id() == alice.id()));
}

#[test]
fn scenario_second_registration_of_same_name_fails() {
    let mut db = MemDb::new();
    assert!(db
        .add_user(User::new("alice", "pw", UserRole::User, false))
        .is_ok());
    assert_eq!(
        db.add_user(User::new("alice", "other", UserRole::User, false)),
        Err(DbError::DuplicateName)
    );
    assert_eq!(db.num_users(), 1);
}

#[test]
fn new_user_carries_what_was_given() {
    let user = User::new("dave", "pw", UserRole::Admin, true);
    assert_eq!(user.name(), "dave");
    assert_eq!(user.id(), 0);
    assert_eq!(user.role(), UserRole::Admin);
    assert!(user.blue());
    assert_eq!(user.bio(), "");
    assert!(user.check_password("pw"));
    assert!(!user.check_password("PW"));
}

#[test]
fn setters_change_only_their_field() {
    let mut user = User::new("erin", "pw", UserRole::User, false);
    user.set_role(UserRole::Admin);
    assert_eq!(user.role(), UserRole::Admin);
    user.set_blue(true);
    assert!(user.blue());
    user.set_bio("a bio");
    assert_eq!(user.bio(), "a bio");
    assert_eq!(user.name(), "erin");
    assert!(user.check_password("pw"));
}

#[test]
fn change_password_needs_the_current_one() {
    let mut user = User::new("frank", "old", UserRole::User, false);
    assert_eq!(
        user.change_password("wrong", "new"),
        Err(AuthError::IncorrectPassword)
    );
    assert!(user.check_password("old"));
    assert_eq!(user.change_password("old", "new"), Ok(()));
    assert!(user.check_password("new"));
    assert!(!user.check_password("old"));
}

#[test]
fn apply_settings_with_empty_password_only_sets_bio() {
    let mut user = User::new("grace", "pw", UserRole::User, false);
    assert_eq!(user.apply_settings("ignored", "", "fresh bio"), Ok(()));
    assert_eq!(user.bio(), "fresh bio");
    assert!(user.check_password("pw"));
}

#[test]
fn apply_settings_with_wrong_password_changes_nothing() {
    let mut user = User::new("heidi", "pw", UserRole::User, false);
    user.set_bio("kept bio");
    assert_eq!(
        user.apply_settings("wrong", "new-pw", "discarded bio"),
        Err(AuthError::IncorrectPassword)
    );
    assert_eq!(user.bio(), "kept bio");
    assert!(user.check_password("pw"));
}

#[test]
fn apply_settings_changes_password_and_bio_together() {
    let mut user = User::new("ivan", "pw", UserRole::User, false);
    assert_eq!(user.apply_settings("pw", "new-pw", "new bio"), Ok(()));
    assert_eq!(user.bio(), "new bio");
    assert!(user.check_password("new-pw"));
    assert!(!user.check_password("pw"));
}

#[test]
fn update_post_replaces_record_by_id() {
    let mut db = MemDb::new();
    add_named_user(&mut db, "alice", "pw");
    let alice = db.get_user_by_name("alice").unwrap();
    db.add_post(Post::new(&alice, "draft")).unwrap();
    let mut stored = db.get_posts().unwrap();
    let replacement = Post::new(&alice, "final text");
    // update_post keys on the identifier, so hand it a record carrying the
    // stored one; a fresh record still carries the placeholder 0, which here
    // is also the stored id.
    assert_eq!(stored[0].id(), 0);
    assert_eq!(replacement.id(), 0);
    db.update_post(replacement).unwrap();
    stored = db.get_posts().unwrap();
    assert_eq!(stored.len(), 1);
    assert_eq!(stored[0].contents(), "final text");
    assert_eq!(stored[0].id(), 0);
}

#[test]
fn update_post_with_unknown_id_fails() {
    let mut db = MemDb::new();
    add_named_user(&mut db, "alice", "pw");
    let alice = db.get_user_by_name("alice").unwrap();
    let homeless = Post::new(&alice, "never stored");
    assert_eq!(db.update_post(homeless), Err(DbError::NotFound));
    assert_eq!(db.num_posts(), 0);
}

#[test]
fn post_ids_are_not_reused_after_delete() {
    let mut db = MemDb::new();
    add_named_user(&mut db, "alice", "pw");
    let alice = db.get_user_by_name("alice").unwrap();
    db.add_post(Post::new(&alice, "one")).unwrap();
    db.delete_post_by_id(0).unwrap();
    db.add_post(Post::new(&alice, "two")).unwrap();
    let posts = db.get_posts().unwrap();
    assert_eq!(posts.len(), 1);
    assert_eq!(posts[0].id(), 1);
}
