//! The abstract model of the engine: the mathematical value of the four
//! tables, and one transition function per entry point.
//!
//! Every executable entry point promises, in its contract, that its effect
//! on the state is exactly one of these transitions, so all the general
//! properties of the engine are stated and proved over this model alone.

use crate::records::{AccessDecision, AccountId, ContentId, ContentView, CreatorView};
use vstd::prelude::*;

verus! {

/// Seconds in one subscription month: a calendar approximation of 30 days
/// of 24 hours, not a true calendar month.
pub const SECONDS_PER_MONTH: u64 = 30 * 24 * 3600;

/// The mathematical value of the whole engine state: the four tables.
///
/// - `creators`: account of the creator, to profile.
/// - `contents`: the item with identifier `id` sits at index `id - 1`;
///   identifiers are dense and start at 1, so the sequence is the catalog.
/// - `subscriptions`: pair (subscriber, creator), to expiry instant in
///   seconds of ledger time.
/// - `purchases`: the set of recorded (buyer, content identifier) pairs.
#[verifier::ext_equal]
pub ghost struct HubView {
    pub creators: Map<AccountId, CreatorView>,
    pub contents: Seq<ContentView>,
    pub subscriptions: Map<(AccountId, AccountId), u64>,
    pub purchases: Set<(AccountId, ContentId)>,
}

/// The state of a freshly deployed engine: four empty tables.
pub open spec fn empty_hub() -> HubView {
    HubView {
        creators: Map::empty(),
        contents: Seq::empty(),
        subscriptions: Map::empty(),
        purchases: Set::empty(),
    }
}

/// Registering writes or overwrites the caller's profile; no other table
/// moves.
pub open spec fn spec_register_creator(
    v: HubView,
    creator: AccountId,
    profile_uri: Seq<char>,
    price: i128,
) -> HubView {
    HubView {
        creators: v.creators.insert(
            creator,
            CreatorView { profile_uri, subscription_price: price },
        ),
        ..v
    }
}

/// Updating overwrites the caller's profile if one exists and otherwise is
/// a silent no-op: deliberately permissive, never an error.
pub open spec fn spec_update_creator(
    v: HubView,
    creator: AccountId,
    new_uri: Seq<char>,
    new_price: i128,
) -> HubView {
    if v.creators.contains_key(creator) {
        spec_register_creator(v, creator, new_uri, new_price)
    } else {
        v
    }
}

/// The profile recorded for an account, if any; a public read.
pub open spec fn spec_get_creator(v: HubView, creator: AccountId) -> Option<CreatorView> {
    if v.creators.contains_key(creator) {
        Some(v.creators[creator])
    } else {
        None
    }
}

/// The identifier the next minted item receives: the current catalog
/// cardinality plus one. Safe exactly because nothing is ever deleted.
pub open spec fn spec_next_content_id(v: HubView) -> int {
    v.contents.len() as int + 1
}

/// Minting appends the new item to the catalog; no other table moves.
/// Minting does not require a creator-registry entry for the caller.
pub open spec fn spec_mint_content(
    v: HubView,
    creator: AccountId,
    encrypted_cid: Seq<char>,
    price: i128,
    is_for_subscribers: bool,
) -> HubView {
    HubView {
        contents: v.contents.push(
            ContentView { creator, encrypted_cid, price, is_for_subscribers },
        ),
        ..v
    }
}

/// The item recorded under a content identifier, if any; a public read.
pub open spec fn spec_get_content(v: HubView, content_id: ContentId) -> Option<ContentView> {
    if 1 <= content_id && content_id <= v.contents.len() {
        Some(v.contents[content_id - 1])
    } else {
        None
    }
}

/// The expiry instant a subscription taken out at `now` for `months`
/// months receives. The executable entry point only runs where this fits
/// in 64 bits, so the truncating cast is exact there.
pub open spec fn spec_expiry(now: u64, months: u32) -> u64 {
    ((now + (months as u64) * SECONDS_PER_MONTH) as u64)
}

/// Subscribing overwrites any prior expiry for the pair — remaining time
/// is discarded, never added — and touches no other table. Neither the
/// creator's existence nor `months > 0` is checked.
pub open spec fn spec_subscribe(
    v: HubView,
    subscriber: AccountId,
    creator: AccountId,
    now: u64,
    months: u32,
) -> HubView {
    HubView {
        subscriptions: v.subscriptions.insert((subscriber, creator), spec_expiry(now, months)),
        ..v
    }
}

/// A subscription is active iff an expiry is recorded for the pair and it
/// is strictly greater than the current ledger time: an expiry equal to
/// now is already inactive.
pub open spec fn spec_is_subscribed(
    v: HubView,
    user: AccountId,
    creator: AccountId,
    now: u64,
) -> bool {
    &&& v.subscriptions.contains_key((user, creator))
    &&& v.subscriptions[(user, creator)] > now
}

/// Buying records the (buyer, item) pair unconditionally — the item need
/// not exist and payment is a concern of an external collaborator — and is
/// idempotent. No other table moves.
pub open spec fn spec_buy_content(v: HubView, buyer: AccountId, content_id: ContentId) -> HubView {
    HubView { purchases: v.purchases.insert((buyer, content_id)), ..v }
}

/// The access decision, in fixed rule order: unknown content is denied;
/// a recorded purchase grants access regardless of gating; otherwise a
/// subscriber-gated item grants access on an active subscription to the
/// item's creator; otherwise denied. In particular an ungated item with no
/// purchase is denied to everyone, its own creator included.
pub open spec fn spec_access_decision(
    v: HubView,
    user: AccountId,
    content_id: ContentId,
    now: u64,
) -> AccessDecision {
    match spec_get_content(v, content_id) {
        None => AccessDecision::Denied,
        Some(c) => if v.purchases.contains((user, content_id)) {
            AccessDecision::GrantedByPurchase
        } else if c.is_for_subscribers && spec_is_subscribed(v, user, c.creator, now) {
            AccessDecision::GrantedBySubscription
        } else {
            AccessDecision::Denied
        },
    }
}

/// Access is granted iff the decision is not a denial.
pub open spec fn spec_has_access(
    v: HubView,
    user: AccountId,
    content_id: ContentId,
    now: u64,
) -> bool {
    spec_access_decision(v, user, content_id, now) != AccessDecision::Denied
}

/// The single pointer-releasing query: the encrypted pointer where access
/// is granted, absent where it is denied — the pointer never leaks on a
/// denial.
pub open spec fn spec_cid_for_user(
    v: HubView,
    user: AccountId,
    content_id: ContentId,
    now: u64,
) -> Option<Seq<char>> {
    if spec_has_access(v, user, content_id, now) {
        Some(spec_get_content(v, content_id).unwrap().encrypted_cid)
    } else {
        None
    }
}

} // verus!
