//! Type-tagged identifiers.

use std::marker::PhantomData;
use vstd::prelude::*;

verus! {

/// The number that `uuid::Uuid::parse_str` reads out of a text, or `None`
/// where it rejects the text.
pub uninterp spec fn uuid_of_text(text: Seq<char>) -> Option<u128>;

/// The text that `uuid::Uuid` displays for a 128-bit value.
pub uninterp spec fn text_of_uuid(value: u128) -> Seq<char>;

/// Calls `uuid::Uuid::parse_str` and hands back the parsed identifier as its
/// 128-bit number. The result is a function of the text alone.
#[verifier::external_body]
fn parse_uuid(text: &str) -> (r: Option<u128>)
    ensures
        r == uuid_of_text(text@),
{
    match uuid::Uuid::parse_str(text) {
        Ok(parsed) => Some(parsed.as_u128()),
        Err(_) => None,
    }
}

/// The number is that of a random identifier as the standard lays one out:
/// the four version bits say 4, and the two variant bits say 1 and 0. The
/// other 122 bits are free.
pub open spec fn is_random_layout(value: u128) -> bool {
    value & 0x0000_0000_0000_f000_c000_0000_0000_0000u128
        == 0x0000_0000_0000_4000_8000_0000_0000_0000u128
}

/// Calls `uuid::Uuid::new_v4`, which draws a random identifier. Whatever is
/// drawn, `new_v4` sets the version and variant bits before it hands the
/// identifier out; nothing is promised of the other bits.
#[verifier::external_body]
fn random_uuid() -> (r: u128)
    ensures
        is_random_layout(r),
{
    uuid::Uuid::new_v4().as_u128()
}

/// Formats a 128-bit value the way `uuid::Uuid` displays it (lower-case
/// hyphenated hexadecimal).
#[verifier::external_body]
fn format_uuid(value: u128) -> (r: String)
    ensures
        r@ == text_of_uuid(value),
{
    uuid::Uuid::from_u128(value).to_string()
}

/// An identifier tagged with the kind of entity it names, so that an item
/// identifier cannot be passed where an auction identifier is wanted.
#[derive(Debug)]
pub struct Id<T> {
    pub value: u128,
    pub marker: PhantomData<T>,
}

impl<T> Clone for Id<T> {
    fn clone(&self) -> (r: Self)
        ensures
            r == *self,
    {
        Id { value: self.value, marker: PhantomData }
    }
}

impl<T> Copy for Id<T> {

}

impl<T> Id<T> {
    /// The identifier with the given number.
    pub open spec fn of(value: u128) -> Self {
        Id { value, marker: PhantomData }
    }

    /// The identifier that a text stands for, if it stands for one.
    pub open spec fn of_text(text: Seq<char>) -> Option<Self> {
        match uuid_of_text(text) {
            Some(value) => Some(Self::of(value)),
            None => None,
        }
    }

    /// The identifier with the given number.
    pub fn new(value: u128) -> (r: Self)
        ensures
            r == Self::of(value),
    {
        Id { value, marker: PhantomData }
    }

    /// A random identifier, drawn anew at every call: a version 4
    /// identifier, with all the bits that the version leaves free drawn at
    /// random.
    pub fn gen() -> (r: Self)
        ensures
            is_random_layout(r.value),
    {
        Id::new(random_uuid())
    }

    /// Parses the textual form of an identifier.
    pub fn try_from(text: &str) -> (r: Option<Self>)
        ensures
            r == Self::of_text(text@),
    {
        Self::from_parsed(parse_uuid(text))
    }

    /// Wraps a parsed number, if there is one.
    pub fn from_parsed(number: Option<u128>) -> (r: Option<Self>)
        ensures
            r == match number {
                Some(value) => Some(Self::of(value)),
                None => None,
            },
    {
        match number {
            Some(value) => Some(Id::new(value)),
            None => None,
        }
    }

    /// Whether two identifiers name the same entity.
    pub fn same(&self, other: &Self) -> (r: bool)
        ensures
            r == (self.value == other.value),
    {
        self.value == other.value
    }

    /// The textual form of the identifier.
    pub fn to_text(&self) -> (r: String)
        ensures
            r@ == text_of_uuid(self.value),
    {
        format_uuid(self.value)
    }
}

/// Tag of user identifiers.
#[derive(Debug)]
pub struct UserKind;

/// Tag of item identifiers.
#[derive(Debug)]
pub struct ItemKind;

/// Tag of auction identifiers.
#[derive(Debug)]
pub struct AuctionKind;

/// Tag of bid identifiers.
#[derive(Debug)]
pub struct BidKind;

pub type UserId = Id<UserKind>;

pub type ItemId = Id<ItemKind>;

pub type AuctionId = Id<AuctionKind>;

pub type BidId = Id<BidKind>;

} // verus!
