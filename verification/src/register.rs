//! Opening an account.

use crate::entities::User;
use crate::error::AppError;
use crate::id::{Id, UserId};
use crate::password::{hash_password, HASH_COST};
use crate::password::{password_valid, validate_password};
use crate::store::{Step, StoreCall, StoreReply};
use crate::validation::{
    email_accepted, has_length_within, judge, length_within, validate_email, verdict,
};
use vstd::prelude::*;

verus! {

/// What a new user registers with.
#[derive(Debug, Clone)]
pub struct RegisterRequest {
    pub name: String,
    pub email: String,
    pub password: String,
}

impl RegisterRequest {
    /// The rules for a registration: a name of 3 to 30 characters, an
    /// e-mail address, and a password that meets the password rule.
    pub open spec fn is_valid(self) -> bool {
        &&& length_within(self.name@, 3, 30)
        &&& email_accepted(self.email@)
        &&& password_valid(self.password@)
    }

    /// Checks the fields against their rules.
    pub fn validate(&self) -> (r: Result<(), AppError>)
        ensures
            r == verdict(self.is_valid()),
    {
        judge(
            has_length_within(self.name.as_str(), 3, 30) && validate_email(
                self.email.as_str(),
            ).is_ok() && validate_password(self.password.as_str()).is_ok(),
        )
    }
}

/// Where a registration stands.
#[derive(Debug)]
pub enum RegisterUseCase {
    /// A user of the same name was asked for.
    AwaitingUsername { name: String, email: String, password: String },
    /// A user of the same e-mail address was asked for.
    AwaitingEmail { name: String, email: String, password: String },
    /// The new user was handed to the store.
    AwaitingInsert,
}

impl RegisterUseCase {
    /// The step that follows `reply`, with `hashed` at hand as the hash of
    /// the password (`None` where hashing failed) and `fresh` as the
    /// identifier of the new user. Name and e-mail address must both be
    /// free; the name is looked at first.
    pub open spec fn next(self, reply: StoreReply, hashed: Option<String>, fresh: UserId) -> Step<
        Self,
        (),
    > {
        match self {
            RegisterUseCase::AwaitingUsername { name, email, password } => match reply {
                StoreReply::User(Some(_)) => Step::Finish(
                    Err(AppError::UsernameAlreadyExists(name)),
                ),
                StoreReply::User(None) => Step::Call(
                    RegisterUseCase::AwaitingEmail { name, email, password },
                    StoreCall::FindUserByEmail(email),
                ),
                _ => Step::Finish(Err(AppError::StorageFailure)),
            },
            RegisterUseCase::AwaitingEmail { name, email, password } => match reply {
                StoreReply::User(Some(_)) => Step::Finish(Err(AppError::EmailAlreadyExists(email))),
                StoreReply::User(None) => match hashed {
                    Some(hash) => Step::Call(
                        RegisterUseCase::AwaitingInsert,
                        StoreCall::InsertUser(User { id: fresh, name, email, password: hash }),
                    ),
                    None => Step::Finish(Err(AppError::UserRegistrationFailed)),
                },
                _ => Step::Finish(Err(AppError::StorageFailure)),
            },
            RegisterUseCase::AwaitingInsert => match reply {
                StoreReply::User(Some(_)) => Step::Finish(Ok(())),
                _ => Step::Finish(Err(AppError::UserRegistrationFailed)),
            },
        }
    }

    /// Starts a registration: a user of the same name is looked for.
    pub fn begin(request: RegisterRequest) -> (r: Step<Self, ()>)
        ensures
            r == Step::<Self, ()>::Call(
                RegisterUseCase::AwaitingUsername {
                    name: request.name,
                    email: request.email,
                    password: request.password,
                },
                StoreCall::FindUserByUsername(request.name),
            ),
    {
        let name = request.name.clone();
        Step::Call(
            RegisterUseCase::AwaitingUsername {
                name: request.name,
                email: request.email,
                password: request.password,
            },
            StoreCall::FindUserByUsername(name),
        )
    }

    /// Takes the store's reply and decides the next step.
    pub fn resume(self, reply: StoreReply, hashed: Option<String>, fresh: UserId) -> (r: Step<
        Self,
        (),
    >)
        ensures
            r == self.next(reply, hashed, fresh),
    {
        match self {
            RegisterUseCase::AwaitingUsername { name, email, password } => match reply {
                StoreReply::User(Some(_)) => Step::Finish(
                    Err(AppError::UsernameAlreadyExists(name)),
                ),
                StoreReply::User(None) => {
                    let wanted = email.clone();
                    Step::Call(
                        RegisterUseCase::AwaitingEmail { name, email, password },
                        StoreCall::FindUserByEmail(wanted),
                    )
                },
                _ => Step::Finish(Err(AppError::StorageFailure)),
            },
            RegisterUseCase::AwaitingEmail { name, email, password: _ } => match reply {
                StoreReply::User(Some(_)) => Step::Finish(Err(AppError::EmailAlreadyExists(email))),
                StoreReply::User(None) => match hashed {
                    Some(hash) => Step::Call(
                        RegisterUseCase::AwaitingInsert,
                        StoreCall::InsertUser(User::with_id(fresh, name, email, hash)),
                    ),
                    None => Step::Finish(Err(AppError::UserRegistrationFailed)),
                },
                _ => Step::Finish(Err(AppError::StorageFailure)),
            },
            RegisterUseCase::AwaitingInsert => match reply {
                StoreReply::User(Some(_)) => Step::Finish(Ok(())),
                _ => Step::Finish(Err(AppError::UserRegistrationFailed)),
            },
        }
    }

    /// Takes the store's reply and decides the next step, hashing the
    /// password and drawing the identifier of the new user itself. The
    /// password is hashed only once name and e-mail address are known to be
    /// free.
    pub fn execute(self, reply: StoreReply) -> (r: Step<Self, ()>)
        ensures
            exists|hashed: Option<String>, fresh: UserId| r == self.next(reply, hashed, fresh),
    {
        let hashed = match &self {
            RegisterUseCase::AwaitingEmail { name: _, email: _, password } => match &reply {
                StoreReply::User(None) => hash_password(password.as_str(), HASH_COST),
                _ => None,
            },
            _ => None,
        };
        let fresh: UserId = Id::gen();
        self.resume(reply, hashed, fresh)
    }
}

} // verus!
