//! The persisted entity: a user record, and its mathematical model.

use vstd::prelude::*;
use vstd::string::StrSliceExecFns;

verus! {

/// The sole persisted entity. The identifier is assigned by the store on
/// creation and is absent until then; it is never accepted from client input.
pub struct User {
    pub id: Option<String>,
    pub name: String,
    pub email: String,
    pub password: String,
}

/// The mathematical value of a `User`: each field as its character sequence.
#[verifier::ext_equal]
pub struct UserModel {
    pub id: Option<Seq<char>>,
    pub name: Seq<char>,
    pub email: Seq<char>,
    pub password: Seq<char>,
}

impl View for User {
    type V = UserModel;

    open spec fn view(&self) -> UserModel {
        UserModel {
            id: match self.id {
                Some(s) => Some(s@),
                None => None,
            },
            name: self.name@,
            email: self.email@,
            password: self.password@,
        }
    }
}

impl Clone for User {
    fn clone(&self) -> (r: Self)
        ensures
            r == *self,
    {
        User {
            id: match &self.id {
                Some(s) => Some(s.clone()),
                None => None,
            },
            name: self.name.clone(),
            email: self.email.clone(),
            password: self.password.clone(),
        }
    }
}

/// The model of a whole store: the models of its records, in store order.
pub open spec fn users_model(users: Seq<User>) -> Seq<UserModel> {
    users.map_values(|u: User| u@)
}

/// Whether some record in `users` holds exactly this email.
pub open spec fn has_email(users: Seq<UserModel>, email: Seq<char>) -> bool {
    exists|i: int| 0 <= i < users.len() && #[trigger] users[i].email == email
}

/// Whether some record in `users` holds exactly this identifier.
pub open spec fn has_id(users: Seq<UserModel>, id: Seq<char>) -> bool {
    exists|i: int| 0 <= i < users.len() && #[trigger] users[i].id == Some(id)
}

/// A well-formed store identifier: exactly 24 hexadecimal digits.
pub open spec fn is_object_id(s: Seq<char>) -> bool {
    s.len() == 24 && forall|i: int| 0 <= i < s.len() ==> is_hex_digit(#[trigger] s[i])
}

/// A hexadecimal digit, either case.
pub open spec fn is_hex_digit(c: char) -> bool {
    ('0' <= c && c <= '9') || ('a' <= c && c <= 'f') || ('A' <= c && c <= 'F')
}

/// Character-for-character string equality.
pub fn str_eq(a: &str, b: &str) -> (r: bool)
    ensures
        r == (a@ == b@),
{
    let n = a.unicode_len();
    if n != b.unicode_len() {
        proof {
            assert(a@ != b@);
        }
        return false;
    }
    let mut i: usize = 0;
    while i < n
        invariant
            n == a@.len(),
            n == b@.len(),
            i <= n,
            forall|j: int| 0 <= j < i ==> a@[j] == b@[j],
        decreases n - i,
    {
        if a.get_char(i) != b.get_char(i) {
            proof {
                assert(a@[i as int] != b@[i as int]);
            }
            return false;
        }
        i = i + 1;
    }
    proof {
        assert(a@ =~= b@);
    }
    true
}

} // verus!
