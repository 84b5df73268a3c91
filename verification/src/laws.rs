//! The laws of the engine: the general properties that hold of every
//! state, proved once over the abstract model of [`crate::model`].
//!
//! Each executable entry point promises in its contract that it moves the
//! state by the matching transition function, so these lemmas carry over to
//! every run of the engine.

use crate::model::{
    spec_access_decision, spec_buy_content, spec_cid_for_user, spec_get_content, spec_get_creator,
    spec_has_access, spec_is_subscribed, spec_mint_content, spec_next_content_id,
    spec_register_creator, spec_subscribe, spec_update_creator, HubView, SECONDS_PER_MONTH,
};
use crate::records::{AccessDecision, AccountId, ContentId, ContentView, CreatorView};
use vstd::prelude::*;

verus! {

/// Registering and then reading the same account returns exactly the
/// submitted profile.
pub proof fn lemma_register_then_get(v: HubView, a: AccountId, uri: Seq<char>, price: i128)
    ensures
        spec_get_creator(spec_register_creator(v, a, uri, price), a) == Some(
            CreatorView { profile_uri: uri, subscription_price: price },
        ),
{
}

/// Re-registering an account overwrites the prior profile entirely: the
/// state is the same as if only the second registration had happened, so
/// nothing of the old profile — its price included — is retained anywhere.
pub proof fn lemma_reregister_overwrites(
    v: HubView,
    a: AccountId,
    uri1: Seq<char>,
    price1: i128,
    uri2: Seq<char>,
    price2: i128,
)
    ensures
        spec_register_creator(spec_register_creator(v, a, uri1, price1), a, uri2, price2)
            == spec_register_creator(v, a, uri2, price2),
{
    assert(spec_register_creator(spec_register_creator(v, a, uri1, price1), a, uri2, price2)
        =~= spec_register_creator(v, a, uri2, price2));
}

/// Updating an unregistered account leaves the whole state unchanged: no
/// record is created.
pub proof fn lemma_update_unregistered_is_noop(
    v: HubView,
    a: AccountId,
    uri: Seq<char>,
    price: i128,
)
    requires
        !v.creators.contains_key(a),
    ensures
        spec_update_creator(v, a, uri, price) == v,
{
}

/// Minting assigns identifiers 1, 2, 3, … in strict call order: the new
/// item gets the current cardinality plus one, reading that identifier
/// back returns exactly the submitted fields, the next mint gets the
/// successor identifier, and every previously assigned identifier still
/// maps to its old record — in particular an item's creator never changes
/// after minting.
pub proof fn lemma_mint_assigns_sequential_ids(
    v: HubView,
    creator: AccountId,
    cid: Seq<char>,
    price: i128,
    gated: bool,
)
    requires
        spec_next_content_id(v) <= u64::MAX,
    ensures
        spec_get_content(
            spec_mint_content(v, creator, cid, price, gated),
            spec_next_content_id(v) as u64,
        ) == Some(
            ContentView { creator, encrypted_cid: cid, price, is_for_subscribers: gated },
        ),
        spec_next_content_id(spec_mint_content(v, creator, cid, price, gated))
            == spec_next_content_id(v) + 1,
        forall|id: ContentId|
            1 <= id <= v.contents.len() ==> spec_get_content(
                spec_mint_content(v, creator, cid, price, gated),
                id,
            ) == spec_get_content(v, id),
{
}

/// Subscribing for one month is active at once and for every instant
/// strictly before `now + 30 * 24 * 3600`, and inactive from that boundary
/// instant on — at the boundary itself the expiry is not strictly greater,
/// so the subscription is already inactive.
pub proof fn lemma_subscribe_then_is_subscribed(
    v: HubView,
    u: AccountId,
    c: AccountId,
    now: u64,
    t: u64,
)
    requires
        now + SECONDS_PER_MONTH <= u64::MAX,
    ensures
        spec_is_subscribed(spec_subscribe(v, u, c, now, 1), u, c, t) <==> t < now
            + SECONDS_PER_MONTH,
{
    assert((1u32 as u64) * SECONDS_PER_MONTH == SECONDS_PER_MONTH);
    assert(((now + SECONDS_PER_MONTH) as u64) == now + SECONDS_PER_MONTH);
}

/// Subscribing for zero months yields an expiry equal to `now`, which is
/// not strictly greater than `now`: the subscription is inactive at once.
pub proof fn lemma_subscribe_zero_months_inactive(v: HubView, u: AccountId, c: AccountId, now: u64)
    ensures
        !spec_is_subscribed(spec_subscribe(v, u, c, now, 0), u, c, now),
{
    assert((0u32 as u64) * SECONDS_PER_MONTH == 0);
    assert(((now + 0) as u64) == now);
}

/// Re-subscribing overwrites the prior expiry for the pair entirely: the
/// state is the same as if only the second subscription had been taken
/// out, so remaining time is discarded, never accumulated.
pub proof fn lemma_resubscribe_overwrites(
    v: HubView,
    u: AccountId,
    c: AccountId,
    now1: u64,
    months1: u32,
    now2: u64,
    months2: u32,
)
    ensures
        spec_subscribe(spec_subscribe(v, u, c, now1, months1), u, c, now2, months2)
            == spec_subscribe(v, u, c, now2, months2),
{
    assert(spec_subscribe(spec_subscribe(v, u, c, now1, months1), u, c, now2, months2)
        =~= spec_subscribe(v, u, c, now2, months2));
}

/// Buying the same item twice leaves the state exactly as one purchase
/// does: the purchase ledger is a set of pairs, so recording is
/// idempotent.
pub proof fn lemma_buy_idempotent(v: HubView, buyer: AccountId, content_id: ContentId)
    ensures
        spec_buy_content(spec_buy_content(v, buyer, content_id), buyer, content_id)
            == spec_buy_content(v, buyer, content_id),
{
    assert(spec_buy_content(spec_buy_content(v, buyer, content_id), buyer, content_id)
        =~= spec_buy_content(v, buyer, content_id));
}

/// Buying an existing item grants access to the buyer, whatever the
/// item's gating flag says: purchase always wins.
pub proof fn lemma_purchase_grants_access(
    v: HubView,
    buyer: AccountId,
    content_id: ContentId,
    now: u64,
)
    requires
        spec_get_content(v, content_id) is Some,
    ensures
        spec_access_decision(spec_buy_content(v, buyer, content_id), buyer, content_id, now)
            == AccessDecision::GrantedByPurchase,
        spec_has_access(spec_buy_content(v, buyer, content_id), buyer, content_id, now),
{
}

/// An item that is not subscriber-gated and has no purchase on record for
/// a user is denied to that user — every user, the item's own creator
/// included: the rules never special-case the creator.
pub proof fn lemma_ungated_unpurchased_denied(
    v: HubView,
    user: AccountId,
    content_id: ContentId,
    now: u64,
)
    requires
        spec_get_content(v, content_id) matches Some(c) && !c.is_for_subscribers,
        !v.purchases.contains((user, content_id)),
    ensures
        !spec_has_access(v, user, content_id, now),
        spec_cid_for_user(v, user, content_id, now) is None,
{
}

/// For a subscriber-gated item and a user with no purchase on record,
/// access stands or falls with an unexpired subscription to the item's
/// creator, and the pointer-releasing query returns the encrypted pointer
/// exactly in the passing case.
pub proof fn lemma_gated_access_follows_subscription(
    v: HubView,
    user: AccountId,
    content_id: ContentId,
    now: u64,
)
    requires
        spec_get_content(v, content_id) matches Some(c) && c.is_for_subscribers,
        !v.purchases.contains((user, content_id)),
    ensures
        spec_has_access(v, user, content_id, now) <==> spec_is_subscribed(
            v,
            user,
            spec_get_content(v, content_id).unwrap().creator,
            now,
        ),
        spec_is_subscribed(v, user, spec_get_content(v, content_id).unwrap().creator, now)
            ==> spec_cid_for_user(v, user, content_id, now) == Some(
            spec_get_content(v, content_id).unwrap().encrypted_cid,
        ),
        !spec_is_subscribed(v, user, spec_get_content(v, content_id).unwrap().creator, now)
            ==> spec_cid_for_user(v, user, content_id, now) is None,
{
}

/// A content identifier outside the catalog is denied to every account,
/// and the pointer-releasing query returns nothing for it.
pub proof fn lemma_unknown_content_denied(
    v: HubView,
    user: AccountId,
    content_id: ContentId,
    now: u64,
)
    requires
        spec_get_content(v, content_id) is None,
    ensures
        spec_access_decision(v, user, content_id, now) == AccessDecision::Denied,
        !spec_has_access(v, user, content_id, now),
        spec_cid_for_user(v, user, content_id, now) is None,
{
}

} // verus!

