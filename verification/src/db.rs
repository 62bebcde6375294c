//! The data layer: user and post records, and the in-memory store that owns
//! them. The store assigns identifiers, enforces the unique-name constraint
//! on users, and hands out independent copies of its records.
use vstd::prelude::*;

verus! {

/// The role a user account holds.
#[derive(Debug, Clone, Copy, PartialEq, Eq, Structural)]
pub enum UserRole {
    User,
    Admin,
}

/// The kinds of failure a store operation can report.
#[derive(Debug, Clone, Copy, PartialEq, Eq, Structural)]
pub enum DbError {
    /// An added user's name collides with an existing user's name.
    DuplicateName,
    /// A lookup, update or delete referenced a name or identifier that no
    /// record carries.
    NotFound,
}

/// The kind of failure a credential change can report.
#[derive(Debug, Clone, Copy, PartialEq, Eq, Structural)]
pub enum AuthError {
    /// The current password handed in does not match the stored one.
    IncorrectPassword,
}

/// The mathematical value of a [`User`] record.
#[verifier::ext_equal]
pub struct UserView {
    pub id: u64,
    pub name: Seq<char>,
    pub password: Seq<char>,
    pub role: UserRole,
    pub blue: bool,
    pub bio: Seq<char>,
}

/// A user record. `id` is assigned by the store and never changes; `name` is
/// unique (case-sensitive) across all stored users.
///
/// The password is held and compared in plain form, which keeps the record a
/// plain value; a production service would store a salted one-way hash
/// instead and change [`User::check_password`] accordingly.
#[derive(Debug)]
pub struct User {
    id: u64,
    name: String,
    password: String,
    role: UserRole,
    blue: bool,
    bio: String,
}

impl View for User {
    type V = UserView;

    closed spec fn view(&self) -> UserView {
        UserView {
            id: self.id,
            name: self.name@,
            password: self.password@,
            role: self.role,
            blue: self.blue,
            bio: self.bio@,
        }
    }
}

impl Clone for User {
    /// An independent copy that carries the same record.
    fn clone(&self) -> (res: Self)
        ensures
            res@ == self@,
    {
        User {
            id: self.id,
            name: self.name.clone(),
            password: self.password.clone(),
            role: self.role,
            blue: self.blue,
            bio: self.bio.clone(),
        }
    }
}

impl User {
    /// A fresh record with an empty bio. The identifier is a placeholder
    /// until the store assigns the real one on insertion.
    pub fn new(name: &str, password: &str, role: UserRole, blue: bool) -> (u: User)
        ensures
            u@ == (UserView {
                id: 0,
                name: name@,
                password: password@,
                role,
                blue,
                bio: Seq::<char>::empty(),
            }),
    {
        User {
            id: 0,
            name: name.to_owned(),
            password: password.to_owned(),
            role,
            blue,
            bio: String::new(),
        }
    }

    pub fn name(&self) -> (r: &str)
        ensures
            r@ == self@.name,
    {
        self.name.as_str()
    }

    pub fn id(&self) -> (r: u64)
        ensures
            r == self@.id,
    {
        self.id
    }

    pub fn role(&self) -> (r: UserRole)
        ensures
            r == self@.role,
    {
        self.role
    }

    pub fn blue(&self) -> (r: bool)
        ensures
            r == self@.blue,
    {
        self.blue
    }

    pub fn bio(&self) -> (r: &str)
        ensures
            r@ == self@.bio,
    {
        self.bio.as_str()
    }

    pub fn set_bio(&mut self, bio: &str)
        ensures
            final(self)@ == (UserView { bio: bio@, ..old(self)@ }),
    {
        self.bio = bio.to_owned();
    }

    pub fn set_role(&mut self, role: UserRole)
        ensures
            final(self)@ == (UserView { role, ..old(self)@ }),
    {
        self.role = role;
    }

    pub fn set_blue(&mut self, blue: bool)
        ensures
            final(self)@ == (UserView { blue, ..old(self)@ }),
    {
        self.blue = blue;
    }

    /// Whether the offered password matches the stored one exactly.
    pub fn check_password(&self, password: &str) -> (r: bool)
        ensures
            r == (self@.password == password@),
    {
        self.password == password.to_owned()
    }

    /// The settings-form rule: a nonempty new password takes effect only
    /// when authorised by the current one, and on a failed authorisation
    /// nothing changes at all; otherwise the bio is replaced wholesale.
    pub fn apply_settings(&mut self, curr_pass: &str, new_pass: &str, bio: &str) -> (r: Result<
        (),
        AuthError,
    >)
        ensures
            new_pass@.len() == 0 ==> r == Ok::<(), AuthError>(()) && final(self)@ == (UserView {
                bio: bio@,
                ..old(self)@
            }),
            new_pass@.len() != 0 && old(self)@.password == curr_pass@ ==> r == Ok::<(), AuthError>(
                (),
            ) && final(self)@ == (UserView { password: new_pass@, bio: bio@, ..old(self)@ }),
            new_pass@.len() != 0 && old(self)@.password != curr_pass@ ==> r == Err::<(), AuthError>(
                AuthError::IncorrectPassword,
            ) && final(self)@ == old(self)@,
    {
        if !new_pass.is_empty() {
            match self.change_password(curr_pass, new_pass) {
                Ok(()) => {},
                Err(e) => {
                    return Err(e);
                },
            }
        }
        self.set_bio(bio);
        Ok(())
    }

    /// Replaces the password, but only when the offered current password
    /// matches; otherwise the record is left unchanged.
    pub fn change_password(&mut self, curr_pass: &str, new_pass: &str) -> (r: Result<
        (),
        AuthError,
    >)
        ensures
            old(self)@.password == curr_pass@ ==> r == Ok::<(), AuthError>(()) && final(self)@
                == (UserView { password: new_pass@, ..old(self)@ }),
            old(self)@.password != curr_pass@ ==> r == Err::<(), AuthError>(
                AuthError::IncorrectPassword,
            ) && final(self)@ == old(self)@,
    {
        if self.check_password(curr_pass) {
            self.password = new_pass.to_owned();
            Ok(())
        } else {
            Err(AuthError::IncorrectPassword)
        }
    }
}

/// The mathematical value of a [`Post`] record.
#[verifier::ext_equal]
pub struct PostView {
    pub id: u64,
    pub author_id: u64,
    pub contents: Seq<char>,
    pub timestamp: u64,
}

/// A short text post. `id` is assigned by the store; `author_id` records the
/// posting user's identifier at creation time; `timestamp` is the creation
/// time in seconds.
#[derive(Debug)]
pub struct Post {
    id: u64,
    author_id: u64,
    contents: String,
    timestamp: u64,
}

impl View for Post {
    type V = PostView;

    closed spec fn view(&self) -> PostView {
        PostView {
            id: self.id,
            author_id: self.author_id,
            contents: self.contents@,
            timestamp: self.timestamp,
        }
    }
}

impl Clone for Post {
    /// An independent copy that carries the same record.
    fn clone(&self) -> (res: Self)
        ensures
            res@ == self@,
    {
        Post {
            id: self.id,
            author_id: self.author_id,
            contents: self.contents.clone(),
            timestamp: self.timestamp,
        }
    }
}

/// Relies on chrono's `Local::now().timestamp()`: the number of non-leap
/// seconds since the Unix epoch by the system clock. Nothing can be promised
/// of a clock reading; a reading before the epoch comes back as zero.
#[verifier::external_body]
fn current_timestamp() -> u64 {
    chrono::Local::now().timestamp().try_into().unwrap_or(0)
}

impl Post {
    /// A fresh post by `author`, stamped with the current time. The
    /// identifier is a placeholder until the store assigns the real one.
    pub fn new(author: &User, contents: &str) -> (p: Post)
        ensures
            p@.id == 0,
            p@.author_id == author@.id,
            p@.contents == contents@,
    {
        let now = current_timestamp();
        Post { id: 0, author_id: author.id, contents: contents.to_owned(), timestamp: now }
    }

    pub fn id(&self) -> (r: u64)
        ensures
            r == self@.id,
    {
        self.id
    }

    pub fn author_id(&self) -> (r: u64)
        ensures
            r == self@.author_id,
    {
        self.author_id
    }

    pub fn contents(&self) -> (r: &str)
        ensures
            r@ == self@.contents,
    {
        self.contents.as_str()
    }

    pub fn timestamp(&self) -> (r: u64)
        ensures
            r == self@.timestamp,
    {
        self.timestamp
    }
}

/// The mathematical contents of a store: both record sequences in insertion
/// order, and the two independent identifier counters.
#[verifier::ext_equal]
pub struct DbModel {
    pub users: Seq<UserView>,
    pub posts: Seq<PostView>,
    pub next_user_id: u64,
    pub next_post_id: u64,
}

impl DbModel {
    /// Well-formedness: user names are unique, user identifiers strictly
    /// increase in insertion order, post identifiers are distinct, and every
    /// assigned identifier lies below its counter (so identifiers are never
    /// reused).
    pub open spec fn wf(self) -> bool {
        &&& forall|i: int, j: int|
            0 <= i < j < self.users.len() ==> self.users[i].name != self.users[j].name
        &&& forall|i: int, j: int|
            0 <= i < j < self.users.len() ==> self.users[i].id < self.users[j].id
        &&& forall|i: int| 0 <= i < self.users.len() ==> self.users[i].id < self.next_user_id
        &&& forall|i: int, j: int|
            0 <= i < j < self.posts.len() ==> self.posts[i].id != self.posts[j].id
        &&& forall|i: int| 0 <= i < self.posts.len() ==> self.posts[i].id < self.next_post_id
    }
}

/// Whether some stored user carries `name`.
pub open spec fn has_user_named(users: Seq<UserView>, name: Seq<char>) -> bool {
    exists|i: int| 0 <= i < users.len() && users[i].name == name
}

/// The index of the user carrying `name`; meaningful where `has_user_named`
/// holds and names are unique.
pub open spec fn user_named_at(users: Seq<UserView>, name: Seq<char>) -> int {
    choose|i: int| 0 <= i < users.len() && users[i].name == name
}

/// Whether some stored user carries the identifier `id`.
pub open spec fn has_user_with_id(users: Seq<UserView>, id: u64) -> bool {
    exists|i: int| 0 <= i < users.len() && users[i].id == id
}

/// The index of the user carrying `id`; meaningful where `has_user_with_id`
/// holds and identifiers are unique.
pub open spec fn user_with_id_at(users: Seq<UserView>, id: u64) -> int {
    choose|i: int| 0 <= i < users.len() && users[i].id == id
}

/// Whether some stored post carries the identifier `id`.
pub open spec fn has_post_with_id(posts: Seq<PostView>, id: u64) -> bool {
    exists|i: int| 0 <= i < posts.len() && posts[i].id == id
}

/// The index of the post carrying `id`; meaningful where `has_post_with_id`
/// holds and identifiers are unique.
pub open spec fn post_with_id_at(posts: Seq<PostView>, id: u64) -> int {
    choose|i: int| 0 <= i < posts.len() && posts[i].id == id
}

/// The store interface the request layer works against. Every operation
/// either fully succeeds or fails atomically, leaving the contents unchanged;
/// no operation blocks or performs I/O. Callers enforce exclusive access for
/// the duration of one logical multi-step operation.
pub trait AppDb {
    /// The mathematical contents of the store.
    spec fn model(&self) -> DbModel;

    /// The current number of stored users.
    fn num_users(&self) -> (n: u64)
        ensures
            n == self.model().users.len(),
    ;

    /// Inserts `user` under the next user identifier, or rejects it when its
    /// name collides with a stored user's name.
    fn add_user(&mut self, user: User) -> (r: Result<(), DbError>)
        requires
            old(self).model().wf(),
            old(self).model().next_user_id < u64::MAX,
        ensures
            final(self).model().wf(),
            final(self).model().posts == old(self).model().posts,
            final(self).model().next_post_id == old(self).model().next_post_id,
            has_user_named(old(self).model().users, user@.name) ==> r == Err::<(), DbError>(
                DbError::DuplicateName,
            ) && final(self).model() == old(self).model(),
            !has_user_named(old(self).model().users, user@.name) ==> r == Ok::<(), DbError>(())
                && final(self).model().users == old(self).model().users.push(
                (UserView { id: old(self).model().next_user_id, ..user@ }),
            ) && final(self).model().next_user_id == old(self).model().next_user_id + 1,
    ;

    /// Replaces the record stored under `user`'s name wholesale, or fails
    /// when no user carries that name. Callers preserve the stored
    /// identifier, as the requires states.
    fn update_user(&mut self, user: User) -> (r: Result<(), DbError>)
        requires
            old(self).model().wf(),
            forall|i: int|
                0 <= i < old(self).model().users.len() && old(self).model().users[i].name
                    == user@.name ==> old(self).model().users[i].id == user@.id,
        ensures
            final(self).model().wf(),
            final(self).model().posts == old(self).model().posts,
            final(self).model().next_user_id == old(self).model().next_user_id,
            final(self).model().next_post_id == old(self).model().next_post_id,
            !has_user_named(old(self).model().users, user@.name) ==> r == Err::<(), DbError>(
                DbError::NotFound,
            ) && final(self).model() == old(self).model(),
            has_user_named(old(self).model().users, user@.name) ==> r == Ok::<(), DbError>(())
                && final(self).model().users == old(self).model().users.update(
                user_named_at(old(self).model().users, user@.name),
                user@,
            ),
    ;

    /// Looks up a user by identifier, returning an independent copy.
    fn get_user_by_id(&self, id: u64) -> (r: Result<User, DbError>)
        requires
            self.model().wf(),
        ensures
            has_user_with_id(self.model().users, id) ==> (r matches Ok(u) && u@ == self.model()
                .users[user_with_id_at(self.model().users, id)]),
            !has_user_with_id(self.model().users, id) ==> r == Err::<User, DbError>(
                DbError::NotFound,
            ),
    ;

    /// Looks up a user by exact, case-sensitive name, returning an
    /// independent copy.
    fn get_user_by_name(&self, name: &str) -> (r: Result<User, DbError>)
        requires
            self.model().wf(),
        ensures
            has_user_named(self.model().users, name@) ==> (r matches Ok(u) && u@ == self.model()
                .users[user_named_at(self.model().users, name@)]),
            !has_user_named(self.model().users, name@) ==> r == Err::<User, DbError>(
                DbError::NotFound,
            ),
    ;

    /// Independent copies of all stored users, in insertion order.
    fn get_users(&self) -> (r: Result<Vec<User>, DbError>)
        ensures
            r matches Ok(us) && us@.map_values(|u: User| u@) == self.model().users,
    ;

    /// The current number of stored posts.
    fn num_posts(&self) -> (n: u64)
        ensures
            n == self.model().posts.len(),
    ;

    /// Inserts `post` under the next post identifier; always succeeds.
    fn add_post(&mut self, post: Post) -> (r: Result<(), DbError>)
        requires
            old(self).model().wf(),
            old(self).model().next_post_id < u64::MAX,
        ensures
            final(self).model().wf(),
            r == Ok::<(), DbError>(()),
            final(self).model().users == old(self).model().users,
            final(self).model().next_user_id == old(self).model().next_user_id,
            final(self).model().posts == old(self).model().posts.push(
                (PostView { id: old(self).model().next_post_id, ..post@ }),
            ),
            final(self).model().next_post_id == old(self).model().next_post_id + 1,
    ;

    /// Replaces the record stored under `post`'s identifier wholesale, or
    /// fails when no post carries that identifier.
    fn update_post(&mut self, post: Post) -> (r: Result<(), DbError>)
        requires
            old(self).model().wf(),
        ensures
            final(self).model().wf(),
            final(self).model().users == old(self).model().users,
            final(self).model().next_user_id == old(self).model().next_user_id,
            final(self).model().next_post_id == old(self).model().next_post_id,
            !has_post_with_id(old(self).model().posts, post@.id) ==> r == Err::<(), DbError>(
                DbError::NotFound,
            ) && final(self).model() == old(self).model(),
            has_post_with_id(old(self).model().posts, post@.id) ==> r == Ok::<(), DbError>(())
                && final(self).model().posts == old(self).model().posts.update(
                post_with_id_at(old(self).model().posts, post@.id),
                post@,
            ),
    ;

    /// Independent copies of all stored posts, in insertion order.
    fn get_posts(&self) -> (r: Result<Vec<Post>, DbError>)
        ensures
            r matches Ok(ps) && ps@.map_values(|p: Post| p@) == self.model().posts,
    ;

    /// Removes the one post carrying `id`, or fails when there is none. The
    /// removal moves the last post into the freed slot, so the relative order
    /// of the remaining posts is not preserved.
    fn delete_post_by_id(&mut self, id: u64) -> (r: Result<(), DbError>)
        requires
            old(self).model().wf(),
        ensures
            final(self).model().wf(),
            final(self).model().users == old(self).model().users,
            final(self).model().next_user_id == old(self).model().next_user_id,
            final(self).model().next_post_id == old(self).model().next_post_id,
            !has_post_with_id(old(self).model().posts, id) ==> r == Err::<(), DbError>(
                DbError::NotFound,
            ) && final(self).model() == old(self).model(),
            has_post_with_id(old(self).model().posts, id) ==> r == Ok::<(), DbError>(())
                && final(self).model().posts == old(self).model().posts.update(
                post_with_id_at(old(self).model().posts, id),
                old(self).model().posts.last(),
            ).drop_last() && final(self).model().posts.len() == old(self).model().posts.len() - 1
                && !has_post_with_id(final(self).model().posts, id),
    ;
}

/// The in-memory store: the authoritative record of users and posts within
/// one running process. Nothing persists across restarts.
pub struct MemDb {
    next_user_id: u64,
    next_post_id: u64,
    users: Vec<User>,
    posts: Vec<Post>,
}

impl MemDb {
    /// An empty store; both identifier counters start at zero.
    pub fn new() -> (db: MemDb)
        ensures
            db.model() == (DbModel {
                users: Seq::<UserView>::empty(),
                posts: Seq::<PostView>::empty(),
                next_user_id: 0,
                next_post_id: 0,
            }),
            db.model().wf(),
    {
        let db = MemDb { next_user_id: 0, next_post_id: 0, users: Vec::new(), posts: Vec::new() };
        proof {
            assert(db.model() =~= (DbModel {
                users: Seq::<UserView>::empty(),
                posts: Seq::<PostView>::empty(),
                next_user_id: 0,
                next_post_id: 0,
            }));
        }
        db
    }

    /// The index of the first stored user whose name equals `name`, if any.
    fn position_of_user_named(&self, name: &str) -> (r: Option<usize>)
        ensures
            match r {
                Some(i) => i < self.model().users.len() && self.model().users[i as int].name
                    == name@,
                None => !has_user_named(self.model().users, name@),
            },
    {
        let key: String = name.to_owned();
        let n: usize = self.users.len();
        let mut i: usize = 0;
        while i < n
            invariant
                n == self.users.len(),
                i <= n,
                key@ == name@,
                forall|k: int| 0 <= k < i ==> self.model().users[k].name != name@,
            decreases n - i,
        {
            if self.users[i].name == key {
                return Some(i);
            }
            i += 1;
        }
        None
    }

    /// The index of the first stored user whose identifier equals `id`, if
    /// any.
    fn position_of_user_with_id(&self, id: u64) -> (r: Option<usize>)
        ensures
            match r {
                Some(i) => i < self.model().users.len() && self.model().users[i as int].id == id,
                None => !has_user_with_id(self.model().users, id),
            },
    {
        let n: usize = self.users.len();
        let mut i: usize = 0;
        while i < n
            invariant
                n == self.users.len(),
                i <= n,
                forall|k: int| 0 <= k < i ==> self.model().users[k].id != id,
            decreases n - i,
        {
            if self.users[i].id == id {
                return Some(i);
            }
            i += 1;
        }
        None
    }

    /// The index of the first stored post whose identifier equals `id`, if
    /// any.
    fn position_of_post_with_id(&self, id: u64) -> (r: Option<usize>)
        ensures
            match r {
                Some(i) => i < self.model().posts.len() && self.model().posts[i as int].id == id,
                None => !has_post_with_id(self.model().posts, id),
            },
    {
        let n: usize = self.posts.len();
        let mut i: usize = 0;
        while i < n
            invariant
                n == self.posts.len(),
                i <= n,
                forall|k: int| 0 <= k < i ==> self.model().posts[k].id != id,
            decreases n - i,
        {
            if self.posts[i].id == id {
                return Some(i);
            }
            i += 1;
        }
        None
    }
}

impl AppDb for MemDb {
    closed spec fn model(&self) -> DbModel {
        DbModel {
            users: self.users@.map_values(|u: User| u@),
            posts: self.posts@.map_values(|p: Post| p@),
            next_user_id: self.next_user_id,
            next_post_id: self.next_post_id,
        }
    }

    fn num_users(&self) -> (n: u64) {
        self.users.len() as u64
    }

    fn add_user(&mut self, user: User) -> (r: Result<(), DbError>) {
        let pos = self.position_of_user_named(user.name.as_str());
        if pos.is_some() {
            proof {
                assert(has_user_named(old(self).model().users, user@.name));
            }
            return Err(DbError::DuplicateName);
        }
        let assigned = User {
            id: self.next_user_id,
            name: user.name,
            password: user.password,
            role: user.role,
            blue: user.blue,
            bio: user.bio,
        };
        self.next_user_id = self.next_user_id + 1;
        self.users.push(assigned);
        proof {
            assert(self.model().users =~= old(self).model().users.push(
                (UserView { id: old(self).model().next_user_id, ..user@ }),
            ));
            assert(self.model().posts =~= old(self).model().posts);
        }
        Ok(())
    }

    fn update_user(&mut self, user: User) -> (r: Result<(), DbError>) {
        let pos = self.position_of_user_named(user.name.as_str());
        match pos {
            None => Err(DbError::NotFound),
            Some(i) => {
                proof {
                    assert(has_user_named(self.model().users, user@.name));
                    let j = user_named_at(self.model().users, user@.name);
                    assert(self.model().users[j].name == user@.name);
                    assert(j == i);
                }
                self.users.remove(i);
                self.users.insert(i, user);
                proof {
                    assert(self.model().users =~= old(self).model().users.update(
                        user_named_at(old(self).model().users, user@.name),
                        user@,
                    ));
                    assert(self.model().posts =~= old(self).model().posts);
                }
                Ok(())
            },
        }
    }

    fn get_user_by_id(&self, id: u64) -> (r: Result<User, DbError>) {
        let pos = self.position_of_user_with_id(id);
        match pos {
            None => Err(DbError::NotFound),
            Some(i) => {
                proof {
                    assert(has_user_with_id(self.model().users, id));
                    let j = user_with_id_at(self.model().users, id);
                    assert(self.model().users[j].id == id);
                    assert(j == i);
                }
                Ok(self.users[i].clone())
            },
        }
    }

    fn get_user_by_name(&self, name: &str) -> (r: Result<User, DbError>) {
        let pos = self.position_of_user_named(name);
        match pos {
            None => Err(DbError::NotFound),
            Some(i) => {
                proof {
                    assert(has_user_named(self.model().users, name@));
                    let j = user_named_at(self.model().users, name@);
                    assert(self.model().users[j].name == name@);
                    assert(j == i);
                }
                Ok(self.users[i].clone())
            },
        }
    }

    fn get_users(&self) -> (r: Result<Vec<User>, DbError>) {
        let n: usize = self.users.len();
        let mut out: Vec<User> = Vec::new();
        let mut i: usize = 0;
        while i < n
            invariant
                n == self.users.len(),
                i <= n,
                out@.len() == i,
                forall|k: int| 0 <= k < i ==> out@[k]@ == self.model().users[k],
            decreases n - i,
        {
            out.push(self.users[i].clone());
            i += 1;
        }
        proof {
            assert(out@.map_values(|u: User| u@) =~= self.model().users);
        }
        Ok(out)
    }

    fn num_posts(&self) -> (n: u64) {
        self.posts.len() as u64
    }

    fn add_post(&mut self, post: Post) -> (r: Result<(), DbError>) {
        let assigned = Post {
            id: self.next_post_id,
            author_id: post.author_id,
            contents: post.contents,
            timestamp: post.timestamp,
        };
        self.next_post_id = self.next_post_id + 1;
        self.posts.push(assigned);
        proof {
            assert(self.model().posts =~= old(self).model().posts.push(
                (PostView { id: old(self).model().next_post_id, ..post@ }),
            ));
            assert(self.model().users =~= old(self).model().users);
        }
        Ok(())
    }

    fn update_post(&mut self, post: Post) -> (r: Result<(), DbError>) {
        let pos = self.position_of_post_with_id(post.id);
        match pos {
            None => Err(DbError::NotFound),
            Some(i) => {
                proof {
                    assert(has_post_with_id(self.model().posts, post@.id));
                    let j = post_with_id_at(self.model().posts, post@.id);
                    assert(self.model().posts[j].id == post@.id);
                    assert(j == i);
                }
                self.posts.remove(i);
                self.posts.insert(i, post);
                proof {
                    assert(self.model().posts =~= old(self).model().posts.update(
                        post_with_id_at(old(self).model().posts, post@.id),
                        post@,
                    ));
                    assert(self.model().users =~= old(self).model().users);
                }
                Ok(())
            },
        }
    }

    fn get_posts(&self) -> (r: Result<Vec<Post>, DbError>) {
        let n: usize = self.posts.len();
        let mut out: Vec<Post> = Vec::new();
        let mut i: usize = 0;
        while i < n
            invariant
                n == self.posts.len(),
                i <= n,
                out@.len() == i,
                forall|k: int| 0 <= k < i ==> out@[k]@ == self.model().posts[k],
            decreases n - i,
        {
            out.push(self.posts[i].clone());
            i += 1;
        }
        proof {
            assert(out@.map_values(|p: Post| p@) =~= self.model().posts);
        }
        Ok(out)
    }

    fn delete_post_by_id(&mut self, id: u64) -> (r: Result<(), DbError>) {
        let pos = self.position_of_post_with_id(id);
        match pos {
            None => Err(DbError::NotFound),
            Some(i) => {
                proof {
                    assert(has_post_with_id(self.model().posts, id));
                    let j = post_with_id_at(self.model().posts, id);
                    assert(self.model().posts[j].id == id);
                    assert(j == i);
                }
                let _removed = self.posts.swap_remove(i);
                proof {
                    let before = old(self).model().posts;
                    let after = self.model().posts;
                    assert(after =~= before.update(i as int, before.last()).drop_last());
                    assert forall|k: int| 0 <= k < after.len() implies after[k].id != id by {
                        if k == i {
                            assert(after[k] == before[before.len() - 1]);
                        } else {
                            assert(after[k] == before[k]);
                        }
                    }
                    assert(!has_post_with_id(after, id));
                }
                Ok(())
            },
        }
    }
}

/// Law: in a well-formed store the user identifiers are strictly increasing
/// in insertion order, and so pairwise distinct. Together with the contracts
/// of [`MemDb::new`] (both counters start at zero) and [`AppDb::add_user`]
/// (each successful add hands out the counter's value and advances it by
/// one), adding a sequence of users yields distinct, strictly increasing
/// identifiers counting up from zero.
pub proof fn lemma_user_ids_strictly_increasing(m: DbModel)
    requires
        m.wf(),
    ensures
        forall|i: int, j: int| 0 <= i < j < m.users.len() ==> m.users[i].id < m.users[j].id,
        forall|i: int, j: int|
            0 <= i < m.users.len() && 0 <= j < m.users.len() && i != j ==> m.users[i].id
                != m.users[j].id,
{
}

/// Law: a just-added user is found again, both by name and by identifier,
/// and the record found is exactly the one that was added.
pub proof fn lemma_added_user_is_found(users: Seq<UserView>, u: UserView)
    requires
        !has_user_named(users, u.name),
        !has_user_with_id(users, u.id),
    ensures
        has_user_named(users.push(u), u.name),
        user_named_at(users.push(u), u.name) == users.len(),
        users.push(u)[user_named_at(users.push(u), u.name)] == u,
        has_user_with_id(users.push(u), u.id),
        user_with_id_at(users.push(u), u.id) == users.len(),
        users.push(u)[user_with_id_at(users.push(u), u.id)] == u,
{
    let w = users.len() as int;
    assert(users.push(u)[w] == u);
    assert(has_user_named(users.push(u), u.name));
    assert(has_user_with_id(users.push(u), u.id));
    let i = user_named_at(users.push(u), u.name);
    assert(0 <= i < users.push(u).len() && users.push(u)[i].name == u.name);
    if i < w {
        assert(users[i] == users.push(u)[i]);
        assert(has_user_named(users, u.name));
    }
    let j = user_with_id_at(users.push(u), u.id);
    assert(0 <= j < users.push(u).len() && users.push(u)[j].id == u.id);
    if j < w {
        assert(users[j] == users.push(u)[j]);
        assert(has_user_with_id(users, u.id));
    }
}

/// Law: replacing the record under an existing name leaves a store in which
/// the lookup by that name yields exactly the replacement, while every other
/// record is untouched.
pub proof fn lemma_updated_user_is_found(users: Seq<UserView>, u: UserView)
    requires
        forall|i: int, j: int| 0 <= i < j < users.len() ==> users[i].name != users[j].name,
        has_user_named(users, u.name),
    ensures
        has_user_named(users.update(user_named_at(users, u.name), u), u.name),
        user_named_at(users.update(user_named_at(users, u.name), u), u.name) == user_named_at(
            users,
            u.name,
        ),
        users.update(user_named_at(users, u.name), u)[user_named_at(users, u.name)] == u,
        forall|k: int|
            0 <= k < users.len() && k != user_named_at(users, u.name) ==> users.update(
                user_named_at(users, u.name),
                u,
            )[k] == users[k],
{
    let i = user_named_at(users, u.name);
    assert(0 <= i < users.len() && users[i].name == u.name);
    let after = users.update(i, u);
    assert(after[i] == u);
    assert(has_user_named(after, u.name));
    let j = user_named_at(after, u.name);
    assert(0 <= j < after.len() && after[j].name == u.name);
    if j != i {
        assert(after[j] == users[j]);
    }
}

/// Law: removing a post by swapping the last one into its slot removes
/// exactly the one record at that index; the count drops by one and every
/// other record is still present.
pub proof fn lemma_swap_removal_keeps_the_rest(posts: Seq<PostView>, i: int)
    requires
        0 <= i < posts.len(),
    ensures
        posts.update(i, posts.last()).drop_last().len() == posts.len() - 1,
        forall|k: int|
            0 <= k < posts.len() && k != i ==> #[trigger] posts.update(
                i,
                posts.last(),
            ).drop_last().contains(posts[k]),
{
    let after = posts.update(i, posts.last()).drop_last();
    assert forall|k: int| 0 <= k < posts.len() && k != i implies #[trigger] after.contains(
        posts[k],
    ) by {
        if k < posts.len() - 1 {
            assert(after[k] == posts[k]);
        } else {
            assert(i < posts.len() - 1);
            assert(after[i] == posts[k]);
        }
    }
}

/// Law: a just-added post is listed: the sequence after the add holds a
/// record whose author and contents are the added ones.
pub proof fn lemma_added_post_is_listed(posts: Seq<PostView>, p: PostView)
    ensures
        exists|k: int| 0 <= k < posts.push(p).len() && posts.push(p)[k] == p,
        has_post_with_id(posts.push(p), p.id),
{
    let w = posts.len() as int;
    assert(posts.push(p)[w] == p);
}

} // verus!
