//! The user controller: the handler bodies behind the route table, each
//! one the composition of extraction, service call and error propagation.

use vstd::prelude::*;

use crate::errors::{entries_model, AppError};
use crate::model::{has_email, users_model, User, UserModel};
use crate::repository::{InsertAck, UserRepositoryTrait};
use crate::services::{conflict_msg, UserService};
use crate::validation::{opt_str, signup_valid, signup_violations, SignUpUserDto,
    ValidationExtractor};

verus! {

pub struct UserController;

impl UserController {
    /// The listing handler: every user, straight from the service.
    pub fn all<R: UserRepositoryTrait>(services: &UserService<R>) -> (r: Result<Vec<User>, AppError>)
        ensures
            match r {
                Ok(v) => users_model(v@) == services.repository.users(),
                Err(e) => e is StoreError,
            },
    {
        services.get_all_users()
    }

    /// The signup handler: validated extraction, then the service. A
    /// payload that violates any rule is rejected with every violation
    /// listed and the store untouched; a fresh valid payload creates the
    /// user; a taken email is a conflict.
    pub fn signup<R: UserRepositoryTrait>(
        services: &mut UserService<R>,
        payload: SignUpUserDto,
    ) -> (r: Result<InsertAck, AppError>)
        ensures
            match r {
                Ok(ack) => {
                    &&& signup_valid(payload)
                    &&& !has_email(old(services).repository.users(), opt_str(payload.email))
                    &&& final(services).repository.users() == old(services).repository.users().push(
                        (UserModel {
                            id: Some(ack.inserted_id@),
                            name: opt_str(payload.name),
                            email: opt_str(payload.email),
                            password: opt_str(payload.password),
                        }),
                    )
                },
                Err(e) => {
                    &&& final(services).repository.users() == old(services).repository.users()
                    &&& match e {
                        AppError::ValidationError(entries) => !signup_valid(payload)
                            && entries_model(entries@) == signup_violations(payload),
                        AppError::Conflict(m) => signup_valid(payload) && has_email(
                            old(services).repository.users(),
                            opt_str(payload.email),
                        ) && m@ == conflict_msg(opt_str(payload.email)),
                        AppError::StoreError(_) => signup_valid(payload),
                        _ => false,
                    }
                },
            },
            !signup_valid(payload) ==> r is Err,
    {
        let dto = match ValidationExtractor::from_payload(payload) {
            Ok(ex) => ex.0,
            Err(e) => {
                return Err(e);
            },
        };
        proof {
            assert(dto.name is Some);
            assert(dto.email is Some);
            assert(dto.password is Some);
        }
        services.signup_user(dto)
    }
}

} // verus!
