//! Items: recording one, and showing them to their owner.

use crate::entities::{Category, Item, User};
use crate::error::AppError;
use crate::id::{text_of_uuid, Id, ItemId, UserId};
use crate::store::{Step, StoreCall, StoreReply};
use crate::validation::{has_length_within, judge, length_within, verdict};
use vstd::prelude::*;

verus! {

/// An item as it is shown: identifiers and category by their text, and no
/// picture.
#[derive(Debug, Clone)]
pub struct ItemDto {
    pub id: String,
    pub brief: String,
    pub description: String,
    pub category: String,
    pub user_id: String,
}

/// The items of a user.
#[derive(Debug, Clone)]
pub struct GetAllItemsByUserIdResponse {
    pub items: Vec<ItemDto>,
}

/// An item as it is handed in; the picture has been read into memory.
#[derive(Debug, Clone)]
pub struct CreateItemRequest {
    pub brief: String,
    pub description: String,
    pub picture: Vec<u8>,
    pub category: String,
}

/// Checks the name of a category.
pub fn validate_category(value: &str) -> (r: Result<(), AppError>)
    ensures
        r == verdict(Category::is_name(value@)),
{
    let name = value.to_owned();
    if name == "art".to_owned() || name == "sport".to_owned() || name == "electronics".to_owned()
        || name == "services".to_owned() || name == "diverse".to_owned() {
        Ok(())
    } else {
        Err(AppError::InvalidRequest)
    }
}

impl CreateItemRequest {
    /// The rules for an item: a brief of 3 to 30 characters, a description
    /// of 3 to 255, and the name of a category.
    pub open spec fn is_valid(self) -> bool {
        &&& length_within(self.brief@, 3, 30)
        &&& length_within(self.description@, 3, 255)
        &&& Category::is_name(self.category@)
    }

    /// Checks the fields against their rules.
    pub fn validate(&self) -> (r: Result<(), AppError>)
        ensures
            r == verdict(self.is_valid()),
    {
        judge(
            has_length_within(self.brief.as_str(), 3, 30) && has_length_within(
                self.description.as_str(),
                3,
                255,
            ) && validate_category(self.category.as_str()).is_ok(),
        )
    }
}

impl ItemDto {
    /// This is `item` as it is shown.
    pub open spec fn shows(self, item: Item) -> bool {
        &&& self.id@ == text_of_uuid(item.id.value)
        &&& self.brief == item.brief
        &&& self.description == item.description
        &&& self.category@ == item.category.name_spec()
        &&& self.user_id@ == text_of_uuid(item.user_id.value)
    }

    /// Shows an item.
    pub fn of(item: &Item) -> (r: Self)
        ensures
            r.shows(*item),
    {
        ItemDto {
            id: item.id.to_text(),
            brief: item.brief.clone(),
            description: item.description.clone(),
            category: item.category.name(),
            user_id: item.user_id.to_text(),
        }
    }

    /// Shows an item.
    pub fn from(value: Item) -> (r: Self)
        ensures
            r.shows(value),
    {
        ItemDto::of(&value)
    }
}

/// `shown` shows the items of `items`, one for one and in order.
pub open spec fn show_all(shown: Seq<ItemDto>, items: Seq<Item>) -> bool {
    shown.len() == items.len() && forall|k: int|
        0 <= k < shown.len() ==> (#[trigger] shown[k]).shows(items[k])
}

/// The listing of a user's items.
#[derive(Debug)]
pub enum GetItemsUseCase {
    /// The items were asked for.
    AwaitingItems,
}

impl GetItemsUseCase {
    /// `r` is the outcome on `reply`: the items listed, each as it is shown.
    pub open spec fn last(reply: StoreReply, r: Step<Self, GetAllItemsByUserIdResponse>) -> bool {
        match reply {
            StoreReply::Items(items) => r matches Step::Finish(Ok(response)) && show_all(
                response.items@,
                items@,
            ),
            _ => r == Step::<Self, GetAllItemsByUserIdResponse>::Finish(
                Err(AppError::InternalServerError),
            ),
        }
    }

    /// Starts the listing of the items of the user with the given textual
    /// identifier, of one category or of all.
    pub fn begin(user_id: String, category: Option<Category>) -> (r: Step<
        Self,
        GetAllItemsByUserIdResponse,
    >)
        ensures
            r == Step::<Self, GetAllItemsByUserIdResponse>::Call(
                GetItemsUseCase::AwaitingItems,
                StoreCall::ListItemsOfUser(user_id, category),
            ),
    {
        Step::Call(GetItemsUseCase::AwaitingItems, StoreCall::ListItemsOfUser(user_id, category))
    }

    /// Decides the outcome from the store's reply.
    pub fn execute(self, reply: StoreReply) -> (r: Step<Self, GetAllItemsByUserIdResponse>)
        ensures
            Self::last(reply, r),
    {
        match reply {
            StoreReply::Items(items) => {
                let mut shown: Vec<ItemDto> = Vec::new();
                let mut k: usize = 0;
                while k < items.len()
                    invariant
                        k <= items.len(),
                        show_all(shown@, items@.take(k as int)),
                    decreases items.len() - k,
                {
                    shown.push(ItemDto::of(&items[k]));
                    k += 1;
                }
                proof {
                    assert(items@.take(k as int) =~= items@);
                }
                Step::Finish(Ok(GetAllItemsByUserIdResponse { items: shown }))
            },
            _ => Step::Finish(Err(AppError::InternalServerError)),
        }
    }
}

/// The showing of one item to its owner.
#[derive(Debug)]
pub enum GetItemUseCase {
    /// The item was asked for, by the user `user`, under the text `asked`.
    AwaitingItem { user: UserId, asked: String },
}

impl GetItemUseCase {
    /// `r` is the first step, given what the item identifier parsed to.
    pub open spec fn first(user: UserId, asked: Seq<char>, parsed: Option<ItemId>, r: Step<
        Self,
        ItemDto,
    >) -> bool {
        match parsed {
            Some(item_id) => r matches Step::Call(GetItemUseCase::AwaitingItem { user: who, asked: text }, call)
                && who == user && text@ == asked && call == StoreCall::FindItem(item_id),
            None => r == Step::<Self, ItemDto>::Finish(Err(AppError::GetItemFailed)),
        }
    }

    /// `r` is the outcome on `reply`: the item as it is shown, if it is the
    /// user's own.
    pub open spec fn last(self, reply: StoreReply, r: Step<Self, ItemDto>) -> bool {
        match reply {
            StoreReply::Item(Some(item)) => if item.user_id.value == self->user.value {
                r matches Step::Finish(Ok(shown)) && shown.shows(item)
            } else {
                r matches Step::Finish(Err(AppError::ItemDoesNotBelongToUser(what, whose))) && what
                    == self->asked && whose@ == text_of_uuid(self->user.value)
            },
            _ => r == Step::<Self, ItemDto>::Finish(Err(AppError::GetItemFailed)),
        }
    }

    /// Starts the showing once the item identifier has been parsed.
    pub fn start(user: UserId, item_id: &str, parsed: Option<ItemId>) -> (r: Step<Self, ItemDto>)
        ensures
            Self::first(user, item_id@, parsed, r),
    {
        match parsed {
            Some(id) => Step::Call(
                GetItemUseCase::AwaitingItem { user, asked: item_id.to_owned() },
                StoreCall::FindItem(id),
            ),
            None => Step::Finish(Err(AppError::GetItemFailed)),
        }
    }

    /// Starts the showing of an item to `current_user`.
    pub fn begin(current_user: &User, item_id: &str) -> (r: Step<Self, ItemDto>)
        ensures
            Self::first(current_user.id, item_id@, ItemId::of_text(item_id@), r),
    {
        let parsed: Option<ItemId> = Id::try_from(item_id);
        Self::start(current_user.id, item_id, parsed)
    }

    /// Decides the outcome from the store's reply.
    pub fn execute(self, reply: StoreReply) -> (r: Step<Self, ItemDto>)
        ensures
            self.last(reply, r),
    {
        match self {
            GetItemUseCase::AwaitingItem { user, asked } => match reply {
                StoreReply::Item(Some(item)) => {
                    if item.user_id.same(&user) {
                        Step::Finish(Ok(ItemDto::from(item)))
                    } else {
                        Step::Finish(Err(AppError::ItemDoesNotBelongToUser(asked, user.to_text())))
                    }
                },
                _ => Step::Finish(Err(AppError::GetItemFailed)),
            },
        }
    }
}

/// The showing of an item's picture: to the owner at any time, to anyone
/// while the item is up for auction.
#[derive(Debug)]
pub enum GetItemImageUseCase {
    /// The item was asked for.
    AwaitingItem { user: UserId, item_id: ItemId, asked: String },
    /// The ongoing auction on the item, if any, was asked for.
    AwaitingAuction { user: UserId, asked: String, owner: UserId, picture: Vec<u8> },
}

impl GetItemImageUseCase {
    /// `r` is the first step, given what the item identifier parsed to.
    pub open spec fn first(user: UserId, asked: Seq<char>, parsed: Option<ItemId>, r: Step<
        Self,
        Vec<u8>,
    >) -> bool {
        match parsed {
            Some(item_id) => r matches Step::Call(
                GetItemImageUseCase::AwaitingItem { user: who, item_id: which, asked: text },
                call,
            ) && who == user && which == item_id && text@ == asked && call == StoreCall::FindItem(
                item_id,
            ),
            None => r == Step::<Self, Vec<u8>>::Finish(Err(AppError::GetItemImageFailed)),
        }
    }

    /// `r` is the step that follows `reply`.
    pub open spec fn next(self, reply: StoreReply, r: Step<Self, Vec<u8>>) -> bool {
        match self {
            GetItemImageUseCase::AwaitingItem { user, item_id, asked } => match reply {
                StoreReply::Item(Some(item)) => r == Step::<Self, Vec<u8>>::Call(
                    GetItemImageUseCase::AwaitingAuction {
                        user,
                        asked,
                        owner: item.user_id,
                        picture: item.picture,
                    },
                    StoreCall::FindOngoingAuctionForItem(item_id),
                ),
                _ => r == Step::<Self, Vec<u8>>::Finish(Err(AppError::GetItemImageFailed)),
            },
            GetItemImageUseCase::AwaitingAuction { user, asked, owner, picture } => match reply {
                StoreReply::Auction(ongoing) => if owner.value == user.value || ongoing is Some {
                    r == Step::<Self, Vec<u8>>::Finish(Ok(picture))
                } else {
                    r matches Step::Finish(Err(AppError::ItemDoesNotBelongToUser(what, whose)))
                        && what == asked && whose@ == text_of_uuid(user.value)
                },
                _ => r == Step::<Self, Vec<u8>>::Finish(Err(AppError::GetItemImageFailed)),
            },
        }
    }

    /// Starts the showing once the item identifier has been parsed.
    pub fn start(user: UserId, item_id: &str, parsed: Option<ItemId>) -> (r: Step<Self, Vec<u8>>)
        ensures
            Self::first(user, item_id@, parsed, r),
    {
        match parsed {
            Some(id) => Step::Call(
                GetItemImageUseCase::AwaitingItem { user, item_id: id, asked: item_id.to_owned() },
                StoreCall::FindItem(id),
            ),
            None => Step::Finish(Err(AppError::GetItemImageFailed)),
        }
    }

    /// Starts the showing of an item's picture to `current_user`.
    pub fn begin(current_user: &User, item_id: &str) -> (r: Step<Self, Vec<u8>>)
        ensures
            Self::first(current_user.id, item_id@, ItemId::of_text(item_id@), r),
    {
        let parsed: Option<ItemId> = Id::try_from(item_id);
        Self::start(current_user.id, item_id, parsed)
    }

    /// Takes the store's reply and decides the next step.
    pub fn execute(self, reply: StoreReply) -> (r: Step<Self, Vec<u8>>)
        ensures
            self.next(reply, r),
    {
        match self {
            GetItemImageUseCase::AwaitingItem { user, item_id, asked } => match reply {
                StoreReply::Item(Some(item)) => Step::Call(
                    GetItemImageUseCase::AwaitingAuction {
                        user,
                        asked,
                        owner: item.user_id,
                        picture: item.picture,
                    },
                    StoreCall::FindOngoingAuctionForItem(item_id),
                ),
                _ => Step::Finish(Err(AppError::GetItemImageFailed)),
            },
            GetItemImageUseCase::AwaitingAuction { user, asked, owner, picture } => match reply {
                StoreReply::Auction(ongoing) => {
                    if owner.same(&user) || ongoing.is_some() {
                        Step::Finish(Ok(picture))
                    } else {
                        Step::Finish(Err(AppError::ItemDoesNotBelongToUser(asked, user.to_text())))
                    }
                },
                _ => Step::Finish(Err(AppError::GetItemImageFailed)),
            },
        }
    }
}

/// The recording of a new item.
#[derive(Debug)]
pub enum CreateItemUseCase {
    /// The item was handed to the store.
    AwaitingInsert,
}

impl CreateItemUseCase {
    /// The first step: the item goes to the store as the acting user's own,
    /// under the identifier `fresh`.
    pub open spec fn first(user: UserId, request: CreateItemRequest, fresh: ItemId) -> Step<
        Self,
        (),
    > {
        Step::Call(
            CreateItemUseCase::AwaitingInsert,
            StoreCall::InsertItem(
                Item {
                    id: fresh,
                    brief: request.brief,
                    description: request.description,
                    picture: request.picture,
                    user_id: user,
                    category: Category::named(request.category@),
                },
            ),
        )
    }

    /// The outcome on `reply`.
    pub open spec fn last(self, reply: StoreReply) -> Step<Self, ()> {
        match reply {
            StoreReply::Item(Some(_)) => Step::Finish(Ok(())),
            _ => Step::Finish(Err(AppError::CreateItemFailed)),
        }
    }

    /// Starts the recording with the identifier of the new item at hand.
    pub fn start(user: UserId, request: CreateItemRequest, fresh: ItemId) -> (r: Step<Self, ()>)
        ensures
            r == Self::first(user, request, fresh),
    {
        let category = Category::from(request.category);
        Step::Call(
            CreateItemUseCase::AwaitingInsert,
            StoreCall::InsertItem(
                Item::with_id(
                    fresh,
                    request.brief,
                    request.description,
                    request.picture,
                    user,
                    category,
                ),
            ),
        )
    }

    /// Starts the recording of an item for `current_user`, drawing its
    /// identifier.
    pub fn begin(current_user: &User, request: CreateItemRequest) -> (r: Step<Self, ()>)
        ensures
            exists|fresh: ItemId| r == Self::first(current_user.id, request, fresh),
    {
        let fresh: ItemId = Id::gen();
        Self::start(current_user.id, request, fresh)
    }

    /// Decides the outcome from the store's reply.
    pub fn execute(self, reply: StoreReply) -> (r: Step<Self, ()>)
        ensures
            r == self.last(reply),
    {
        match reply {
            StoreReply::Item(Some(_)) => Step::Finish(Ok(())),
            _ => Step::Finish(Err(AppError::CreateItemFailed)),
        }
    }
}

} // verus!
