//! The service layer: the one business rule, email uniqueness, enforced
//! in front of the repository, plus pass-through listing.

use vstd::prelude::*;
use vstd::string::{StringExecFns, StrSliceExecFns};

use crate::errors::AppError;
use crate::model::{has_email, users_model, User, UserModel};
use crate::repository::{InsertAck, UserRepositoryTrait};
use crate::validation::{opt_str, SignUpUserDto};

verus! {

/// The message a signup conflict carries to the client.
pub open spec fn conflict_msg(email: Seq<char>) -> Seq<char> {
    "email "@ + email + " is taken"@
}

/// The conflict a taken email is answered with.
pub fn conflict_error(email: &str) -> (r: AppError)
    ensures
        r matches AppError::Conflict(m) && m@ == conflict_msg(email@),
{
    let mut m = String::from_str("email ");
    m.append(email);
    m.append(" is taken");
    AppError::Conflict(m)
}

/// The user service over any repository honouring the repository contract.
pub struct UserService<R: UserRepositoryTrait> {
    pub repository: R,
}

impl<R: UserRepositoryTrait> UserService<R> {
    pub fn new(repository: R) -> (s: Self)
        ensures
            s.repository == repository,
    {
        UserService { repository }
    }

    /// Signs a user up: a record bearing the email already in the store is
    /// a conflict; otherwise creation is delegated to the repository. Only
    /// a store failure may otherwise intervene, leaving the store as it
    /// was.
    pub fn signup_user(&mut self, request: SignUpUserDto) -> (r: Result<InsertAck, AppError>)
        requires
            request.name is Some,
            request.email is Some,
            request.password is Some,
        ensures
            match r {
                Ok(ack) => {
                    &&& !has_email(old(self).repository.users(), opt_str(request.email))
                    &&& final(self).repository.users() == old(self).repository.users().push(
                        (UserModel {
                            id: Some(ack.inserted_id@),
                            name: opt_str(request.name),
                            email: opt_str(request.email),
                            password: opt_str(request.password),
                        }),
                    )
                },
                Err(e) => {
                    &&& final(self).repository.users() == old(self).repository.users()
                    &&& match e {
                        AppError::Conflict(m) => has_email(
                            old(self).repository.users(),
                            opt_str(request.email),
                        ) && m@ == conflict_msg(opt_str(request.email)),
                        AppError::StoreError(_) => true,
                        _ => false,
                    }
                },
            },
    {
        let name = request.name.unwrap();
        let email = request.email.unwrap();
        let password = request.password.unwrap();
        let existing = match self.repository.get_user_by_email(email.as_str()) {
            Ok(o) => o,
            Err(e) => {
                return Err(e);
            },
        };
        match existing {
            Some(u) => {
                proof {
                    let ghost us = old(self).repository.users();
                    assert(us.contains(u@));
                    let ghost k = choose|k: int| 0 <= k < us.len() && us[k] == u@;
                    assert(us[k].email == opt_str(request.email));
                    assert(has_email(us, opt_str(request.email)));
                }
                Err(conflict_error(email.as_str()))
            },
            None => {
                match self.repository.create_user(
                    name.as_str(),
                    email.as_str(),
                    password.as_str(),
                ) {
                    Ok(ack) => Ok(ack),
                    Err(e) => Err(e),
                }
            },
        }
    }

    /// Pure delegation to the repository's listing.
    pub fn get_all_users(&self) -> (r: Result<Vec<User>, AppError>)
        ensures
            match r {
                Ok(v) => users_model(v@) == self.repository.users(),
                Err(e) => e is StoreError,
            },
    {
        self.repository.get_all_users()
    }
}

/// After any successful signup the created user's email stands in the
/// store, so by the signup contract a repeated signup with the same email
/// must end in a conflict, never a second success.
pub proof fn lemma_signup_then_email_taken(users: Seq<UserModel>, u: UserModel)
    ensures
        has_email(users.push(u), u.email),
{
    assert(users.push(u)[users.len() as int].email == u.email);
}

/// Each successful signup grows the store by exactly one record, so the
/// listing after N successful signups from an empty store holds exactly N
/// users.
pub proof fn lemma_signup_grows_listing(users: Seq<UserModel>, u: UserModel)
    ensures
        users.push(u).len() == users.len() + 1,
{
}

} // verus!
