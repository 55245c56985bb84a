//! Signing in with an e-mail address and a password.

use crate::entities::User;
use crate::error::AppError;
use crate::password::{bcrypt_verdict, password_valid, validate_password, verify_password};
use crate::validation::{email_accepted, judge, validate_email, verdict};
use crate::store::{Step, StoreCall, StoreReply};
use vstd::prelude::*;

verus! {

/// What a user signs in with.
#[derive(Debug, Clone)]
pub struct LoginRequest {
    pub email: String,
    pub password: String,
}

impl LoginRequest {
    /// The rules for signing in: an e-mail address, and a password that
    /// meets the password rule.
    pub open spec fn is_valid(self) -> bool {
        email_accepted(self.email@) && password_valid(self.password@)
    }

    /// Checks the fields against their rules.
    pub fn validate(&self) -> (r: Result<(), AppError>)
        ensures
            r == verdict(self.is_valid()),
    {
        judge(
            validate_email(self.email.as_str()).is_ok() && validate_password(
                self.password.as_str(),
            ).is_ok(),
        )
    }
}

/// Where signing in stands.
#[derive(Debug)]
pub enum LoginUseCase {
    /// The user with the e-mail address was asked for.
    AwaitingUser { email: String, password: String },
}

impl LoginUseCase {
    /// The password that was given.
    pub open spec fn password(self) -> String {
        self->password
    }

    /// The outcome, given the store's reply and, where a user was found,
    /// whether the password matches the user's hash.
    pub open spec fn next(self, reply: StoreReply, verdict: Option<bool>) -> Step<Self, User> {
        match reply {
            StoreReply::User(Some(user)) => match verdict {
                Some(true) => Step::Finish(Ok(user)),
                Some(false) => Step::Finish(Err(AppError::BadPassword)),
                None => Step::Finish(Err(AppError::InternalServerError)),
            },
            StoreReply::User(None) => Step::Finish(Err(AppError::NotRegisteredEmail(self->email))),
            _ => Step::Finish(Err(AppError::StorageFailure)),
        }
    }

    /// What the password check says of the reply: it is only made where a
    /// user was found.
    pub open spec fn verdict_on(self, reply: StoreReply) -> Option<bool> {
        match reply {
            StoreReply::User(Some(user)) => bcrypt_verdict(self.password()@, user.password@),
            _ => None,
        }
    }

    /// Starts signing in: the user is looked up by e-mail address.
    pub fn begin(request: LoginRequest) -> (r: Step<Self, User>)
        ensures
            r == Step::<Self, User>::Call(
                LoginUseCase::AwaitingUser { email: request.email, password: request.password },
                StoreCall::FindUserByEmail(request.email),
            ),
    {
        let email = request.email.clone();
        Step::Call(
            LoginUseCase::AwaitingUser { email: request.email, password: request.password },
            StoreCall::FindUserByEmail(email),
        )
    }

    /// Decides the outcome from the store's reply and the password check.
    pub fn resume(self, reply: StoreReply, verdict: Option<bool>) -> (r: Step<Self, User>)
        ensures
            r == self.next(reply, verdict),
    {
        match self {
            LoginUseCase::AwaitingUser { email, password: _ } => match reply {
                StoreReply::User(Some(user)) => match verdict {
                    Some(true) => Step::Finish(Ok(user)),
                    Some(false) => Step::Finish(Err(AppError::BadPassword)),
                    None => Step::Finish(Err(AppError::InternalServerError)),
                },
                StoreReply::User(None) => Step::Finish(Err(AppError::NotRegisteredEmail(email))),
                _ => Step::Finish(Err(AppError::StorageFailure)),
            },
        }
    }

    /// Decides the outcome from the store's reply, checking the password
    /// against the hash of the user found.
    pub fn execute(self, reply: StoreReply) -> (r: Step<Self, User>)
        ensures
            r == self.next(reply, self.verdict_on(reply)),
    {
        let verdict = match &reply {
            StoreReply::User(Some(user)) => match &self {
                LoginUseCase::AwaitingUser { email: _, password } => verify_password(
                    password.as_str(),
                    user.password.as_str(),
                ),
            },
            _ => None,
        };
        self.resume(reply, verdict)
    }
}

} // verus!
