//! The outcomes that the use cases report when they refuse or fail.

use vstd::prelude::*;

verus! {

/// Why an operation was refused or could not be carried out.
#[derive(Debug, Clone, PartialEq, Eq)]
pub enum AppError {
    /// The item identifier is malformed or names no item.
    ItemNotFound,
    /// The acting user does not own the item.
    NotItemOwner,
    /// The item already has an auction that has not ended.
    OngoingAuctionExists,
    /// The end of the auction is less than a minute away, or no valid date.
    InvalidEndDate,
    /// The auction identifier is malformed or names no such auction.
    AuctionNotFound,
    /// The auction has ended and takes no more bids.
    AuctionExpired,
    /// The owner of the item tried to bid on it.
    OwnerCannotBid,
    /// The bid (first) is below the starting price (second).
    BidBelowStartingPrice(u64, u64),
    /// The bid (first) does not exceed the highest bid so far (second).
    BidBelowHighestBid(u64, u64),
    /// The auction to confirm is malformed or absent.
    AuctionResolutionFailed,
    /// The auction has not ended yet.
    CannotConfirmBeforeExpiry,
    /// Only auctions that ask for final approval can be confirmed.
    WrongStrategyForConfirmation,
    /// The acting user does not own the auctioned item.
    NotOwner,
    /// The store failed or answered with something that was not asked for.
    StorageFailure,
    /// The user name is taken.
    UsernameAlreadyExists(String),
    /// The e-mail address is taken.
    EmailAlreadyExists(String),
    /// The account could not be created.
    UserRegistrationFailed,
    /// No account goes by this e-mail address.
    NotRegisteredEmail(String),
    /// The password does not match.
    BadPassword,
    /// The token is missing, malformed or out of date.
    InvalidJwt,
    /// No user goes by this identifier.
    UserNotFound(String),
    /// Something went wrong that the caller cannot mend.
    InternalServerError,
    /// The item could not be recorded.
    CreateItemFailed,
    /// The request does not meet the rules for its fields.
    InvalidRequest,
    /// The picture of the item could not be fetched.
    GetItemImageFailed,
    /// The item could not be fetched.
    GetItemFailed,
    /// The item (first) is not the user's (second) to see.
    ItemDoesNotBelongToUser(String, String),
    /// The auction could not be fetched.
    GetAuctionFailed,
    /// The listing could not be fetched.
    FailedToGetAuctions,
}

/// The classes of error, by what a caller can do about them.
#[derive(Debug, Clone, Copy, PartialEq, Eq, Structural)]
pub enum ErrorKind {
    Validation,
    Ownership,
    State,
    NotFound,
    Infrastructure,
    Authentication,
}

impl AppError {
    /// The class of this error.
    pub open spec fn kind_spec(self) -> ErrorKind {
        match self {
            AppError::InvalidEndDate => ErrorKind::Validation,
            AppError::BidBelowStartingPrice(_, _) => ErrorKind::Validation,
            AppError::BidBelowHighestBid(_, _) => ErrorKind::Validation,
            AppError::NotItemOwner => ErrorKind::Ownership,
            AppError::OwnerCannotBid => ErrorKind::Ownership,
            AppError::NotOwner => ErrorKind::Ownership,
            AppError::OngoingAuctionExists => ErrorKind::State,
            AppError::AuctionExpired => ErrorKind::State,
            AppError::CannotConfirmBeforeExpiry => ErrorKind::State,
            AppError::WrongStrategyForConfirmation => ErrorKind::State,
            AppError::ItemNotFound => ErrorKind::NotFound,
            AppError::AuctionNotFound => ErrorKind::NotFound,
            AppError::AuctionResolutionFailed => ErrorKind::NotFound,
            AppError::StorageFailure => ErrorKind::Infrastructure,
            AppError::UserRegistrationFailed => ErrorKind::Infrastructure,
            AppError::InternalServerError => ErrorKind::Infrastructure,
            AppError::CreateItemFailed => ErrorKind::Infrastructure,
            AppError::GetItemImageFailed => ErrorKind::Infrastructure,
            AppError::GetItemFailed => ErrorKind::Infrastructure,
            AppError::GetAuctionFailed => ErrorKind::Infrastructure,
            AppError::FailedToGetAuctions => ErrorKind::Infrastructure,
            AppError::InvalidRequest => ErrorKind::Validation,
            AppError::UsernameAlreadyExists(_) => ErrorKind::State,
            AppError::EmailAlreadyExists(_) => ErrorKind::State,
            AppError::ItemDoesNotBelongToUser(_, _) => ErrorKind::Ownership,
            AppError::UserNotFound(_) => ErrorKind::NotFound,
            AppError::NotRegisteredEmail(_) => ErrorKind::Authentication,
            AppError::BadPassword => ErrorKind::Authentication,
            AppError::InvalidJwt => ErrorKind::Authentication,
        }
    }

    /// The class of this error.
    pub fn kind(&self) -> (r: ErrorKind)
        ensures
            r == self.kind_spec(),
    {
        match self {
            AppError::InvalidEndDate => ErrorKind::Validation,
            AppError::BidBelowStartingPrice(_, _) => ErrorKind::Validation,
            AppError::BidBelowHighestBid(_, _) => ErrorKind::Validation,
            AppError::NotItemOwner => ErrorKind::Ownership,
            AppError::OwnerCannotBid => ErrorKind::Ownership,
            AppError::NotOwner => ErrorKind::Ownership,
            AppError::OngoingAuctionExists => ErrorKind::State,
            AppError::AuctionExpired => ErrorKind::State,
            AppError::CannotConfirmBeforeExpiry => ErrorKind::State,
            AppError::WrongStrategyForConfirmation => ErrorKind::State,
            AppError::ItemNotFound => ErrorKind::NotFound,
            AppError::AuctionNotFound => ErrorKind::NotFound,
            AppError::AuctionResolutionFailed => ErrorKind::NotFound,
            AppError::StorageFailure => ErrorKind::Infrastructure,
            AppError::UserRegistrationFailed => ErrorKind::Infrastructure,
            AppError::InternalServerError => ErrorKind::Infrastructure,
            AppError::CreateItemFailed => ErrorKind::Infrastructure,
            AppError::GetItemImageFailed => ErrorKind::Infrastructure,
            AppError::GetItemFailed => ErrorKind::Infrastructure,
            AppError::GetAuctionFailed => ErrorKind::Infrastructure,
            AppError::FailedToGetAuctions => ErrorKind::Infrastructure,
            AppError::InvalidRequest => ErrorKind::Validation,
            AppError::UsernameAlreadyExists(_) => ErrorKind::State,
            AppError::EmailAlreadyExists(_) => ErrorKind::State,
            AppError::ItemDoesNotBelongToUser(_, _) => ErrorKind::Ownership,
            AppError::UserNotFound(_) => ErrorKind::NotFound,
            AppError::NotRegisteredEmail(_) => ErrorKind::Authentication,
            AppError::BadPassword => ErrorKind::Authentication,
            AppError::InvalidJwt => ErrorKind::Authentication,
        }
    }

    /// Whether repeating the whole operation can help: only a failure of
    /// the machinery is worth a retry.
    pub fn is_retryable(&self) -> (r: bool)
        ensures
            r == (self.kind_spec() == ErrorKind::Infrastructure),
    {
        self.kind() == ErrorKind::Infrastructure
    }
}

} // verus!
