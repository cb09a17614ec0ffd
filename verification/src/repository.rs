//! The persistence abstraction: a repository interface over user records,
//! and its in-memory implementation, which doubles as the test store.

use vstd::prelude::*;
use vstd::string::StrSliceExecFns;

use crate::errors::AppError;
use crate::model::{has_email, has_id, is_hex_digit, is_object_id, str_eq, users_model, User,
    UserModel};
use crate::json::hex_digit_char;

verus! {

/// The store's answer to a create: the identifier it assigned.
pub struct InsertAck {
    pub inserted_id: String,
}

/// One record replaced in place: `post` is `pre` with the record at `i`,
/// which bore `id`, rewritten to the given fields (the identifier kept).
pub open spec fn updated_at(
    pre: Seq<UserModel>,
    post: Seq<UserModel>,
    i: int,
    id: Seq<char>,
    name: Seq<char>,
    email: Seq<char>,
    password: Seq<char>,
) -> bool {
    &&& 0 <= i < pre.len()
    &&& pre[i].id == Some(id)
    &&& post == pre.update(i, (UserModel { id: pre[i].id, name, email, password }))
}

/// One record removed: `post` is `pre` without the record at `i`, which
/// bore `id`.
pub open spec fn removed_at(pre: Seq<UserModel>, post: Seq<UserModel>, i: int, id: Seq<char>) -> bool {
    &&& 0 <= i < pre.len()
    &&& pre[i].id == Some(id)
    &&& post == pre.remove(i)
}

/// What any repository must do, stated over its model, a sequence of user
/// records in store order. Every operation may instead fail with a store
/// error, leaving the model unchanged.
pub trait UserRepositoryTrait: Sized {
    /// The records the repository holds, in store order.
    spec fn users(&self) -> Seq<UserModel>;

    /// Inserts a new record with a store-assigned identifier.
    fn create_user(&mut self, name: &str, email: &str, password: &str) -> (r: Result<
        InsertAck,
        AppError,
    >)
        ensures
            match r {
                Ok(ack) => final(self).users() == old(self).users().push(
                    (UserModel {
                        id: Some(ack.inserted_id@),
                        name: name@,
                        email: email@,
                        password: password@,
                    }),
                ),
                Err(e) => final(self).users() == old(self).users() && e is StoreError,
            },
    ;

    /// Looks a record up by identifier; a missing record is an absence, not
    /// an error, but a malformed identifier is rejected before any store
    /// round-trip.
    fn get_user_by_id(&self, id: &str) -> (r: Result<Option<User>, AppError>)
        ensures
            match r {
                Ok(found) => match found {
                    Some(u) => is_object_id(id@) && self.users().contains(u@) && u@.id == Some(id@),
                    None => is_object_id(id@) && !has_id(self.users(), id@),
                },
                Err(e) => {
                    &&& (e is InvalidIdentifier <==> !is_object_id(id@))
                    &&& (e is InvalidIdentifier || e is StoreError)
                },
            },
    ;

    /// Looks a record up by email; a missing record is an absence, not an
    /// error.
    fn get_user_by_email(&self, email: &str) -> (r: Result<Option<User>, AppError>)
        ensures
            match r {
                Ok(found) => match found {
                    Some(u) => self.users().contains(u@) && u@.email == email@,
                    None => !has_email(self.users(), email@),
                },
                Err(e) => e is StoreError,
            },
    ;

    /// Rewrites the fields of at most one record bearing the identifier and
    /// reports how many records matched.
    fn update_user(&mut self, id: &str, name: &str, email: &str, password: &str) -> (r: Result<
        u64,
        AppError,
    >)
        ensures
            match r {
                Ok(n) => is_object_id(id@) && ((n == 1 && exists|i: int|
                    updated_at(
                        old(self).users(),
                        final(self).users(),
                        i,
                        id@,
                        name@,
                        email@,
                        password@,
                    )) || (n == 0 && !has_id(old(self).users(), id@) && final(self).users() == old(
                    self,
                ).users())),
                Err(e) => {
                    &&& final(self).users() == old(self).users()
                    &&& (e is InvalidIdentifier <==> !is_object_id(id@))
                    &&& (e is InvalidIdentifier || e is StoreError)
                },
            },
    ;

    /// Removes at most one record bearing the identifier and reports how
    /// many records matched.
    fn delete_user(&mut self, id: &str) -> (r: Result<u64, AppError>)
        ensures
            match r {
                Ok(n) => is_object_id(id@) && ((n == 1 && exists|i: int|
                    removed_at(old(self).users(), final(self).users(), i, id@)) || (n == 0 && !has_id(
                    old(self).users(),
                    id@,
                ) && final(self).users() == old(self).users())),
                Err(e) => {
                    &&& final(self).users() == old(self).users()
                    &&& (e is InvalidIdentifier <==> !is_object_id(id@))
                    &&& (e is InvalidIdentifier || e is StoreError)
                },
            },
    ;

    /// Materializes every record, in store order.
    fn get_all_users(&self) -> (r: Result<Vec<User>, AppError>)
        ensures
            match r {
                Ok(v) => users_model(v@) == self.users(),
                Err(e) => e is StoreError,
            },
    ;
}

/// Rejects an identifier that is not exactly 24 hexadecimal digits, before
/// anything touches the store.
pub fn check_object_id(id: &str) -> (r: Result<(), AppError>)
    ensures
        match r {
            Ok(_) => is_object_id(id@),
            Err(e) => !is_object_id(id@) && e == AppError::InvalidIdentifier,
        },
{
    let n = id.unicode_len();
    if n != 24 {
        return Err(AppError::InvalidIdentifier);
    }
    let mut i: usize = 0;
    while i < 24
        invariant
            id@.len() == 24,
            i <= 24,
            forall|j: int| 0 <= j < i ==> is_hex_digit(#[trigger] id@[j]),
        decreases 24 - i,
    {
        let c = id.get_char(i);
        if !(('0' <= c && c <= '9') || ('a' <= c && c <= 'f') || ('A' <= c && c <= 'F')) {
            return Err(AppError::InvalidIdentifier);
        }
        i = i + 1;
    }
    Ok(())
}

fn hex_char_of_nibble(d: u64) -> (c: char)
    requires
        d < 16,
    ensures
        c == hex_digit_char(d as int),
        is_hex_digit(c),
{
    match d {
        0 => '0',
        1 => '1',
        2 => '2',
        3 => '3',
        4 => '4',
        5 => '5',
        6 => '6',
        7 => '7',
        8 => '8',
        9 => '9',
        10 => 'a',
        11 => 'b',
        12 => 'c',
        13 => 'd',
        14 => 'e',
        _ => 'f',
    }
}

/// A well-formed 24-digit identifier derived from a counter.
fn object_id_string(n: u64) -> (r: String)
    ensures
        is_object_id(r@),
{
    let mut s = String::new();
    let mut i: usize = 0;
    while i < 8
        invariant
            s@.len() == i,
            i <= 8,
            forall|j: int| 0 <= j < s@.len() ==> is_hex_digit(#[trigger] s@[j]),
        decreases 8 - i,
    {
        s.push('0');
        i = i + 1;
    }
    let mut k: usize = 16;
    while k > 0
        invariant
            s@.len() == 8 + (16 - k),
            k <= 16,
            forall|j: int| 0 <= j < s@.len() ==> is_hex_digit(#[trigger] s@[j]),
        decreases k,
    {
        k = k - 1;
        let shift: u64 = 4 * (k as u64);
        let nibble: u64 = (n >> shift) & 0xf;
        proof {
            assert((n >> shift) & 0xf < 16) by (bit_vector);
        }
        s.push(hex_char_of_nibble(nibble));
    }
    s
}

/// An in-memory repository: the records in a vector, identifiers drawn
/// from a counter. The substitutable store used where no external one is.
pub struct MemoryRepository {
    pub users: Vec<User>,
    pub next_id: u64,
}

impl MemoryRepository {
    /// An empty store.
    pub fn new() -> (r: Self)
        ensures
            r.users() == Seq::<UserModel>::empty(),
    {
        let r = MemoryRepository { users: Vec::new(), next_id: 0 };
        proof {
            assert(r.users() =~= Seq::<UserModel>::empty());
        }
        r
    }
}

impl UserRepositoryTrait for MemoryRepository {
    open spec fn users(&self) -> Seq<UserModel> {
        users_model(self.users@)
    }

    fn create_user(&mut self, name: &str, email: &str, password: &str) -> (r: Result<
        InsertAck,
        AppError,
    >)
        ensures
            r is Ok,
    {
        let ghost pre = self.users();
        let id = object_id_string(self.next_id);
        self.next_id = if self.next_id < u64::MAX {
            self.next_id + 1
        } else {
            0
        };
        let user = User {
            id: Some(id.clone()),
            name: name.to_owned(),
            email: email.to_owned(),
            password: password.to_owned(),
        };
        self.users.push(user);
        proof {
            assert(self.users() =~= pre.push(
                (UserModel { id: Some(id@), name: name@, email: email@, password: password@ }),
            ));
        }
        Ok(InsertAck { inserted_id: id })
    }

    fn get_user_by_id(&self, id: &str) -> (r: Result<Option<User>, AppError>)
        ensures
            r is Err ==> !is_object_id(id@),
    {
        match check_object_id(id) {
            Err(e) => {
                return Err(e);
            },
            Ok(_) => {},
        }
        let n = self.users.len();
        let mut i: usize = 0;
        while i < n
            invariant
                n == self.users@.len(),
                i <= n,
                is_object_id(id@),
                forall|j: int| 0 <= j < i ==> users_model(self.users@)[j].id != Some(id@),
            decreases n - i,
        {
            match &self.users[i].id {
                Some(s) => {
                    if str_eq(s.as_str(), id) {
                        let found = self.users[i].clone();
                        proof {
                            assert(self.users()[i as int] == found@);
                            assert(self.users().contains(found@));
                        }
                        return Ok(Some(found));
                    }
                },
                None => {},
            }
            i = i + 1;
        }
        Ok(None)
    }

    fn get_user_by_email(&self, email: &str) -> (r: Result<Option<User>, AppError>)
        ensures
            r is Ok,
    {
        let n = self.users.len();
        let mut i: usize = 0;
        while i < n
            invariant
                n == self.users@.len(),
                i <= n,
                forall|j: int| 0 <= j < i ==> users_model(self.users@)[j].email != email@,
            decreases n - i,
        {
            if str_eq(self.users[i].email.as_str(), email) {
                let found = self.users[i].clone();
                proof {
                    assert(self.users()[i as int] == found@);
                    assert(self.users().contains(found@));
                }
                return Ok(Some(found));
            }
            i = i + 1;
        }
        Ok(None)
    }

    fn update_user(&mut self, id: &str, name: &str, email: &str, password: &str) -> (r: Result<
        u64,
        AppError,
    >)
        ensures
            r is Err ==> !is_object_id(id@),
    {
        match check_object_id(id) {
            Err(e) => {
                return Err(e);
            },
            Ok(_) => {},
        }
        let ghost pre = self.users();
        let n = self.users.len();
        let mut i: usize = 0;
        while i < n
            invariant
                n == self.users@.len(),
                i <= n,
                is_object_id(id@),
                pre == self.users(),
                pre == old(self).users(),
                forall|j: int| 0 <= j < i ==> users_model(self.users@)[j].id != Some(id@),
            decreases n - i,
        {
            let matched = match &self.users[i].id {
                Some(s) => {
                    if str_eq(s.as_str(), id) {
                        proof {
                            assert(users_model(self.users@)[i as int].id == Some(id@));
                        }
                        true
                    } else {
                        false
                    }
                },
                None => false,
            };
            if matched {
                let mut updated = self.users[i].clone();
                updated.name = name.to_owned();
                updated.email = email.to_owned();
                updated.password = password.to_owned();
                let _ = self.users.remove(i);
                self.users.insert(i, updated);
                proof {
                    assert(self.users() =~= pre.update(
                        i as int,
                        (UserModel { id: pre[i as int].id, name: name@, email: email@, password: password@ }),
                    ));
                    assert(updated_at(pre, self.users(), i as int, id@, name@, email@, password@));
                }
                return Ok(1);
            }
            i = i + 1;
        }
        Ok(0)
    }

    fn delete_user(&mut self, id: &str) -> (r: Result<u64, AppError>)
        ensures
            r is Err ==> !is_object_id(id@),
    {
        match check_object_id(id) {
            Err(e) => {
                return Err(e);
            },
            Ok(_) => {},
        }
        let ghost pre = self.users();
        let n = self.users.len();
        let mut i: usize = 0;
        while i < n
            invariant
                n == self.users@.len(),
                i <= n,
                is_object_id(id@),
                pre == self.users(),
                pre == old(self).users(),
                forall|j: int| 0 <= j < i ==> users_model(self.users@)[j].id != Some(id@),
            decreases n - i,
        {
            let matched = match &self.users[i].id {
                Some(s) => {
                    if str_eq(s.as_str(), id) {
                        proof {
                            assert(users_model(self.users@)[i as int].id == Some(id@));
                        }
                        true
                    } else {
                        false
                    }
                },
                None => false,
            };
            if matched {
                let _ = self.users.remove(i);
                proof {
                    assert(self.users() =~= pre.remove(i as int));
                    assert(removed_at(pre, self.users(), i as int, id@));
                }
                return Ok(1);
            }
            i = i + 1;
        }
        Ok(0)
    }

    fn get_all_users(&self) -> (r: Result<Vec<User>, AppError>)
        ensures
            r is Ok,
    {
        let n = self.users.len();
        let mut out: Vec<User> = Vec::new();
        let mut i: usize = 0;
        while i < n
            invariant
                n == self.users@.len(),
                i <= n,
                out@ == self.users@.take(i as int),
            decreases n - i,
        {
            out.push(self.users[i].clone());
            proof {
                assert(out@ =~= self.users@.take(i as int + 1));
            }
            i = i + 1;
        }
        proof {
            assert(self.users@.take(n as int) =~= self.users@);
            assert(users_model(out@) == self.users());
        }
        Ok(out)
    }
}

} // verus!
