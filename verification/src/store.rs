//! The user store: records with storage-assigned ids, unique emails and
//! creation/modification timestamps, and the five storage operations over
//! them.

use vstd::prelude::*;

use crate::MAX_TIMESTAMP;

verus! {

/// One stored user record.
#[derive(Debug)]
pub struct User {
    pub id: i32,
    pub name: String,
    pub email: String,
    pub created_at: i64,
    pub updated_at: i64,
}

/// The mathematical value of a [`User`].
pub struct UserView {
    pub id: int,
    pub name: Seq<char>,
    pub email: Seq<char>,
    pub created_at: int,
    pub updated_at: int,
}

impl View for User {
    type V = UserView;

    open spec fn view(&self) -> UserView {
        UserView {
            id: self.id as int,
            name: self.name@,
            email: self.email@,
            created_at: self.created_at as int,
            updated_at: self.updated_at as int,
        }
    }
}

/// The mathematical values of a sequence of records.
pub open spec fn views_of(s: Seq<User>) -> Seq<UserView> {
    s.map_values(|u: User| u@)
}

/// Why a storage operation failed.
#[derive(Clone, Copy, Debug, PartialEq, Eq, Structural)]
pub enum StoreError {
    /// No record carries the requested id.
    NotFound,
    /// The operation would give two records the same email.
    UniqueViolation,
    /// Any other storage failure.
    Other,
}

/// The mathematical value of a [`UserStore`]: the records in storage order,
/// and the id the next created record will receive.
pub struct StoreView {
    pub users: Seq<UserView>,
    pub next_id: int,
}

impl StoreView {
    /// Well-formedness: the next id is in `i32` range and fresh, ids and
    /// emails are unique, and every record's timestamps are renderable and
    /// ordered.
    pub open spec fn wf(self) -> bool {
        &&& 1 <= self.next_id <= i32::MAX as int
        &&& forall|i: int|
            0 <= i < self.users.len() ==> 1 <= (#[trigger] self.users[i]).id < self.next_id
        &&& forall|i: int|
            0 <= i < self.users.len() ==> 0 <= (#[trigger] self.users[i]).created_at
                <= self.users[i].updated_at <= MAX_TIMESTAMP as int
        &&& forall|i: int, j: int|
            0 <= i < self.users.len() && 0 <= j < self.users.len() && i != j ==> (
            #[trigger] self.users[i]).id != (#[trigger] self.users[j]).id
        &&& forall|i: int, j: int|
            0 <= i < self.users.len() && 0 <= j < self.users.len() && i != j ==> (
            #[trigger] self.users[i]).email != (#[trigger] self.users[j]).email
    }

    /// Some record carries this email.
    pub open spec fn email_taken(self, email: Seq<char>) -> bool {
        exists|i: int| 0 <= i < self.users.len() && (#[trigger] self.users[i]).email == email
    }

    /// Some record carries this id.
    pub open spec fn has_id(self, id: int) -> bool {
        exists|i: int| 0 <= i < self.users.len() && (#[trigger] self.users[i]).id == id
    }

    /// The position of the record with this id.
    pub open spec fn idx_of(self, id: int) -> int {
        choose|i: int| 0 <= i < self.users.len() && (#[trigger] self.users[i]).id == id
    }

    /// The record with this id.
    pub open spec fn user_at(self, id: int) -> UserView {
        self.users[self.idx_of(id)]
    }

    /// A record other than the one with id `id` carries this email; `email`
    /// is the requested new email, absent when the update leaves it alone.
    pub open spec fn update_conflicts(self, id: int, email: Option<Seq<char>>) -> bool {
        match email {
            Option::None => false,
            Option::Some(e) => exists|i: int|
                0 <= i < self.users.len() && (#[trigger] self.users[i]).id != id
                    && self.users[i].email == e,
        }
    }

    /// The store after a successful creation.
    pub open spec fn after_insert(self, name: Seq<char>, email: Seq<char>, now: int) -> StoreView {
        StoreView {
            users: self.users.push(
                UserView { id: self.next_id, name, email, created_at: now, updated_at: now },
            ),
            next_id: self.next_id + 1,
        }
    }

    /// The store after a successful partial update of the record with id
    /// `id`.
    pub open spec fn after_update(
        self,
        id: int,
        name: Option<Seq<char>>,
        email: Option<Seq<char>>,
        now: int,
    ) -> StoreView {
        StoreView {
            users: self.users.update(self.idx_of(id), patched(self.user_at(id), name, email, now)),
            next_id: self.next_id,
        }
    }

    /// The store after a successful deletion of the record with id `id`.
    pub open spec fn after_delete(self, id: int) -> StoreView {
        StoreView { users: self.users.remove(self.idx_of(id)), next_id: self.next_id }
    }
}

/// A record after a partial update: fields that were supplied are replaced,
/// absent fields keep their stored value, and the modification timestamp is
/// refreshed either way.
pub open spec fn patched(
    u: UserView,
    name: Option<Seq<char>>,
    email: Option<Seq<char>>,
    now: int,
) -> UserView {
    UserView {
        id: u.id,
        name: match name {
            Option::Some(n) => n,
            Option::None => u.name,
        },
        email: match email {
            Option::Some(e) => e,
            Option::None => u.email,
        },
        created_at: u.created_at,
        updated_at: now,
    }
}

/// The mathematical value of an optional text field.
pub open spec fn opt_text(o: Option<String>) -> Option<Seq<char>> {
    match o {
        Option::Some(s) => Option::Some(s@),
        Option::None => Option::None,
    }
}

/// An in-memory user store: the verified model of the relational table the
/// service keeps its records in.
pub struct UserStore {
    users: Vec<User>,
    next_id: i32,
}

impl View for UserStore {
    type V = StoreView;

    closed spec fn view(&self) -> StoreView {
        StoreView { users: views_of(self.users@), next_id: self.next_id as int }
    }
}

/// An exact copy of a record.
pub fn copy_user(u: &User) -> (r: User)
    ensures
        r@ == u@,
{
    User {
        id: u.id,
        name: u.name.clone(),
        email: u.email.clone(),
        created_at: u.created_at,
        updated_at: u.updated_at,
    }
}

impl UserStore {
    /// An empty store; the first created record will receive id 1.
    pub fn new() -> (s: Self)
        ensures
            s@.wf(),
            s@.users.len() == 0,
            s@.next_id == 1,
    {
        UserStore { users: Vec::new(), next_id: 1 }
    }

    /// Whether another record can still receive a fresh id.
    pub fn can_assign_id(&self) -> (r: bool)
        ensures
            r == (self@.next_id < i32::MAX as int),
    {
        self.next_id < i32::MAX
    }

    /// How many records the store holds.
    pub fn user_count(&self) -> (r: usize)
        ensures
            r == self@.users.len(),
    {
        self.users.len()
    }

    /// The position of the record with id `id`, if any.
    fn index_of_id(&self, id: i32) -> (r: Option<usize>)
        requires
            self@.wf(),
        ensures
            match r {
                Option::Some(i) => self@.has_id(id as int) && i < self@.users.len()
                    && self@.idx_of(id as int) == i as int,
                Option::None => !self@.has_id(id as int),
            },
    {
        let n = self.users.len();
        let mut i: usize = 0;
        while i < n
            invariant
                self@.wf(),
                n == self@.users.len(),
                i <= n,
                forall|j: int| 0 <= j < i ==> (#[trigger] self@.users[j]).id != id as int,
            decreases n - i,
        {
            proof {
                assert(self@.users[i as int] == self.users@[i as int]@);
            }
            if self.users[i].id == id {
                proof {
                    assert(0 <= (i as int) < self@.users.len() && self@.users[i as int].id
                        == id as int);
                    assert(self@.has_id(id as int));
                    let k = self@.idx_of(id as int);
                    assert(0 <= k < self@.users.len() && self@.users[k].id == id as int);
                    assert(k == i as int);
                }
                return Option::Some(i);
            }
            i += 1;
        }
        Option::None
    }

    /// Whether some record carries this email.
    fn email_exists(&self, email: &String) -> (r: bool)
        ensures
            r == self@.email_taken(email@),
    {
        let n = self.users.len();
        let mut i: usize = 0;
        while i < n
            invariant
                n == self@.users.len(),
                i <= n,
                forall|j: int| 0 <= j < i ==> (#[trigger] self@.users[j]).email != email@,
            decreases n - i,
        {
            proof {
                assert(self@.users[i as int] == self.users@[i as int]@);
            }
            if self.users[i].email == *email {
                proof {
                    assert(0 <= (i as int) < self@.users.len() && self@.users[i as int].email
                        == email@);
                }
                return true;
            }
            i += 1;
        }
        false
    }

    /// Create a record: the store assigns the next id, sets both timestamps
    /// to `now`, and refuses an email some record already carries.
    pub fn insert(&mut self, name: String, email: String, now: i64) -> (r: Result<
        User,
        StoreError,
    >)
        requires
            old(self)@.wf(),
            old(self)@.next_id < i32::MAX as int,
            0 <= now <= MAX_TIMESTAMP,
        ensures
            final(self)@.wf(),
            old(self)@.email_taken(email@) ==> (r matches Err(e) && e
                == StoreError::UniqueViolation && final(self)@ == old(self)@),
            !old(self)@.email_taken(email@) ==> (r matches Ok(u) && u@ == (UserView {
                id: old(self)@.next_id,
                name: name@,
                email: email@,
                created_at: now as int,
                updated_at: now as int,
            }) && final(self)@ == old(self)@.after_insert(name@, email@, now as int)),
    {
        if self.email_exists(&email) {
            return Result::Err(StoreError::UniqueViolation);
        }
        let id = self.next_id;
        let stored = User {
            id,
            name: name.clone(),
            email: email.clone(),
            created_at: now,
            updated_at: now,
        };
        let created = copy_user(&stored);
        self.users.push(stored);
        self.next_id = id + 1;
        proof {
            assert(self@.users =~= old(self)@.users.push(created@));
            assert(self@ == old(self)@.after_insert(name@, email@, now as int));
        }
        Result::Ok(created)
    }

    /// Look a record up by id.
    pub fn find_by_id(&self, id: i32) -> (r: Result<User, StoreError>)
        requires
            self@.wf(),
        ensures
            self@.has_id(id as int) ==> (r matches Ok(u) && u@ == self@.user_at(id as int)),
            !self@.has_id(id as int) ==> (r matches Err(e) && e == StoreError::NotFound),
    {
        match self.index_of_id(id) {
            Option::Some(i) => Result::Ok(copy_user(&self.users[i])),
            Option::None => Result::Err(StoreError::NotFound),
        }
    }

    /// All records, in storage order.
    pub fn find_all(&self) -> (r: Vec<User>)
        ensures
            views_of(r@) == self@.users,
    {
        let n = self.users.len();
        let mut out: Vec<User> = Vec::new();
        let mut i: usize = 0;
        while i < n
            invariant
                n == self@.users.len(),
                i <= n,
                out@.len() == i,
                forall|j: int| 0 <= j < i ==> views_of(out@)[j] == self@.users[j],
            decreases n - i,
        {
            out.push(copy_user(&self.users[i]));
            i += 1;
        }
        proof {
            assert(views_of(out@) =~= self@.users);
        }
        out
    }

    /// Update the record with id `id` in place: supplied fields are
    /// replaced, absent fields are kept, and the modification timestamp is
    /// refreshed either way. Refuses an email another record carries.
    pub fn update_by_id(
        &mut self,
        id: i32,
        name: Option<String>,
        email: Option<String>,
        now: i64,
    ) -> (r: Result<User, StoreError>)
        requires
            old(self)@.wf(),
            0 <= now <= MAX_TIMESTAMP,
            old(self)@.has_id(id as int) ==> old(self)@.user_at(id as int).created_at <= now,
        ensures
            final(self)@.wf(),
            !old(self)@.has_id(id as int) ==> (r matches Err(e) && e == StoreError::NotFound
                && final(self)@ == old(self)@),
            old(self)@.has_id(id as int) && old(self)@.update_conflicts(id as int, opt_text(email))
                ==> (r matches Err(e) && e == StoreError::UniqueViolation && final(self)@ == old(self)@),
            old(self)@.has_id(id as int) && !old(self)@.update_conflicts(
                id as int,
                opt_text(email),
            ) ==> (r matches Ok(u) && u@ == patched(
                old(self)@.user_at(id as int),
                opt_text(name),
                opt_text(email),
                now as int,
            ) && final(self)@ == old(self)@.after_update(
                id as int,
                opt_text(name),
                opt_text(email),
                now as int,
            )),
    {
        let i = match self.index_of_id(id) {
            Option::Some(i) => i,
            Option::None => {
                return Result::Err(StoreError::NotFound);
            },
        };
        if let Option::Some(e) = &email {
            if self.email_taken_except(e, i) {
                return Result::Err(StoreError::UniqueViolation);
            }
        }
        let updated = apply_update(&self.users[i], name, email, now);
        let stored = copy_user(&updated);
        self.users[i] = stored;
        proof {
            assert(self@.users =~= old(self)@.users.update(i as int, updated@));
            assert(self@ == old(self)@.after_update(
                id as int,
                opt_text(name),
                opt_text(email),
                now as int,
            ));
        }
        Result::Ok(updated)
    }

    /// Whether a record at a position other than `except` carries this
    /// email.
    fn email_taken_except(&self, email: &String, except: usize) -> (r: bool)
        requires
            self@.wf(),
            except < self@.users.len(),
        ensures
            r == exists|k: int|
                0 <= k < self@.users.len() && k != except as int && (#[trigger] self@.users[k]).email
                    == email@,
    {
        let n = self.users.len();
        let mut i: usize = 0;
        while i < n
            invariant
                n == self@.users.len(),
                i <= n,
                forall|j: int|
                    0 <= j < i && j != except as int ==> (#[trigger] self@.users[j]).email
                        != email@,
            decreases n - i,
        {
            proof {
                assert(self@.users[i as int] == self.users@[i as int]@);
            }
            if i != except && self.users[i].email == *email {
                proof {
                    assert(0 <= (i as int) < self@.users.len() && i as int != except as int
                        && self@.users[i as int].email == email@);
                }
                return true;
            }
            i += 1;
        }
        false
    }

    /// Remove the record with id `id`.
    pub fn delete_by_id(&mut self, id: i32) -> (r: Result<(), StoreError>)
        requires
            old(self)@.wf(),
        ensures
            final(self)@.wf(),
            !old(self)@.has_id(id as int) ==> (r matches Err(e) && e == StoreError::NotFound
                && final(self)@ == old(self)@),
            old(self)@.has_id(id as int) ==> (r matches Ok(x) && final(self)@ == old(self)@.after_delete(id as int)),
    {
        match self.index_of_id(id) {
            Option::None => Result::Err(StoreError::NotFound),
            Option::Some(i) => {
                self.users.remove(i);
                proof {
                    assert(self@.users =~= old(self)@.users.remove(i as int));
                }
                Result::Ok(())
            },
        }
    }
}

/// A record after a partial update, as the storage layer writes it back:
/// supplied fields replace the stored ones, absent fields keep their stored
/// value, and the modification timestamp becomes `now` either way.
pub fn apply_update(u: &User, name: Option<String>, email: Option<String>, now: i64) -> (r: User)
    ensures
        r@ == patched(u@, opt_text(name), opt_text(email), now as int),
{
    User {
        id: u.id,
        name: match name {
            Option::Some(n) => n,
            Option::None => u.name.clone(),
        },
        email: match email {
            Option::Some(e) => e,
            Option::None => u.email.clone(),
        },
        created_at: u.created_at,
        updated_at: now,
    }
}

} // verus!
