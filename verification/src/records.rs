//! The record types of the engine: creator profiles, content items, and the
//! outcomes of mutating calls and access queries.
//!
//! Account identifiers are opaque handles: the engine never interprets them,
//! it only compares them for equality, exactly as the host platform's
//! authenticated addresses are only ever compared. They are carried as
//! plain 64-bit values.

use vstd::prelude::*;

verus! {

/// An opaque handle for an authenticated caller account.
pub type AccountId = u64;

/// A content identifier, assigned sequentially starting at 1.
pub type ContentId = u64;

/// A creator profile: an opaque pointer to off-chain profile metadata and a
/// monthly subscription price (its monetary unit lives off-chain).
#[derive(Debug)]
pub struct Creator {
    /// Opaque URI of the creator's off-chain profile metadata.
    pub profile_uri: String,
    /// Monthly subscription price; payment itself is handled off-chain.
    pub subscription_price: i128,
}

/// The mathematical value of a [`Creator`] record.
pub ghost struct CreatorView {
    pub profile_uri: Seq<char>,
    pub subscription_price: i128,
}

impl View for Creator {
    type V = CreatorView;

    open spec fn view(&self) -> CreatorView {
        CreatorView {
            profile_uri: self.profile_uri@,
            subscription_price: self.subscription_price,
        }
    }
}

impl Clone for Creator {
    fn clone(&self) -> (r: Self)
        ensures
            r == *self,
    {
        Creator {
            profile_uri: self.profile_uri.clone(),
            subscription_price: self.subscription_price,
        }
    }
}

/// A published content item. The pointer is to an encrypted blob; the engine
/// never sees plaintext, so returning the pointer to anyone is harmless
/// without the decryption key.
#[derive(Debug)]
pub struct Content {
    /// The account that minted the item; immutable after minting.
    pub creator: AccountId,
    /// Opaque pointer to the encrypted off-chain blob.
    pub encrypted_cid: String,
    /// One-off purchase price; payment itself is handled off-chain.
    pub price: i128,
    /// True if an active subscription to the creator also grants access.
    pub is_for_subscribers: bool,
}

/// The mathematical value of a [`Content`] record.
pub ghost struct ContentView {
    pub creator: AccountId,
    pub encrypted_cid: Seq<char>,
    pub price: i128,
    pub is_for_subscribers: bool,
}

impl View for Content {
    type V = ContentView;

    open spec fn view(&self) -> ContentView {
        ContentView {
            creator: self.creator,
            encrypted_cid: self.encrypted_cid@,
            price: self.price,
            is_for_subscribers: self.is_for_subscribers,
        }
    }
}

impl Clone for Content {
    fn clone(&self) -> (r: Self)
        ensures
            r == *self,
    {
        Content {
            creator: self.creator,
            encrypted_cid: self.encrypted_cid.clone(),
            price: self.price,
            is_for_subscribers: self.is_for_subscribers,
        }
    }
}

/// Why a mutating call failed. A failed call leaves every table exactly as
/// it was.
#[derive(Clone, Copy, Debug, PartialEq, Eq, Structural)]
pub enum HubError {
    /// The caller did not furnish a valid authorization for the claimed
    /// account; the host's signature check is the sole gate on writes.
    AuthorizationFailure,
}

/// The outcome of resolving an access query, kept as an explicit tagged
/// decision so that the precedence of the rules — purchase first, then
/// subscription gating — is visible and testable in isolation.
#[derive(Clone, Copy, Debug, PartialEq, Eq, Structural)]
pub enum AccessDecision {
    /// No rule grants access.
    Denied,
    /// A recorded one-off purchase grants access, regardless of gating.
    GrantedByPurchase,
    /// The item is subscriber-gated and the user holds an unexpired
    /// subscription to the item's creator.
    GrantedBySubscription,
}

} // verus!
