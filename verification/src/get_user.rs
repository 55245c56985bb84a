//! Looking a user up by identifier.

use crate::entities::User;
use crate::error::AppError;
use crate::id::{text_of_uuid, Id, UserId};
use crate::store::{Step, StoreCall, StoreReply};
use vstd::prelude::*;

verus! {

/// Where the lookup stands.
#[derive(Debug)]
pub enum GetUserUseCase {
    /// The user was asked for.
    AwaitingUser { id: UserId },
}

impl GetUserUseCase {
    /// `r` is the first step for the text `id`, given what it parsed to: a
    /// text that is no identifier names no user.
    pub open spec fn first(id: Seq<char>, parsed: Option<UserId>, r: Step<Self, User>) -> bool {
        match parsed {
            Some(user_id) => r == Step::<Self, User>::Call(
                GetUserUseCase::AwaitingUser { id: user_id },
                StoreCall::FindUser(user_id),
            ),
            None => r matches Step::Finish(Err(AppError::UserNotFound(text))) && text@ == id,
        }
    }

    /// `r` is the outcome on `reply`: the user found, or else that none is
    /// known by the identifier.
    pub open spec fn last(self, reply: StoreReply, r: Step<Self, User>) -> bool {
        match reply {
            StoreReply::User(Some(user)) => r == Step::<Self, User>::Finish(Ok(user)),
            _ => r matches Step::Finish(Err(AppError::UserNotFound(text))) && text@ == text_of_uuid(
                self->id.value,
            ),
        }
    }

    /// Starts the lookup once the identifier has been parsed.
    pub fn start(id: &str, parsed: Option<UserId>) -> (r: Step<Self, User>)
        ensures
            Self::first(id@, parsed, r),
    {
        match parsed {
            Some(user_id) => Step::Call(
                GetUserUseCase::AwaitingUser { id: user_id },
                StoreCall::FindUser(user_id),
            ),
            None => Step::Finish(Err(AppError::UserNotFound(id.to_owned()))),
        }
    }

    /// Starts the lookup of the user with the given textual identifier.
    pub fn begin(id: &str) -> (r: Step<Self, User>)
        ensures
            Self::first(id@, UserId::of_text(id@), r),
    {
        let parsed: Option<UserId> = Id::try_from(id);
        Self::start(id, parsed)
    }

    /// Decides the outcome from the store's reply.
    pub fn execute(self, reply: StoreReply) -> (r: Step<Self, User>)
        ensures
            self.last(reply, r),
    {
        match self {
            GetUserUseCase::AwaitingUser { id } => match reply {
                StoreReply::User(Some(user)) => Step::Finish(Ok(user)),
                _ => Step::Finish(Err(AppError::UserNotFound(id.to_text()))),
            },
        }
    }
}

} // verus!
