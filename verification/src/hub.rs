//! The engine state and its entry points.
//!
//! The four tables live in plain vectors: the creator registry and the
//! subscription ledger as key-unique entry lists, the purchase ledger as a
//! pair list, and the content catalog as a dense sequence whose item with
//! identifier `id` sits at index `id - 1`. Every entry point is a
//! read-modify-write of one table, and its contract says that the state
//! moves by exactly the matching transition of [`crate::model`].
//!
//! The host platform's two contributions — the signature check on the
//! claimed caller account and the ledger clock — enter as plain arguments:
//! `auth` is the host's verdict for the claimed account, `now` the current
//! ledger time in seconds. A mutating call with a failed verdict returns
//! [`HubError::AuthorizationFailure`] and leaves the state untouched.

use crate::model::{
    empty_hub, spec_access_decision, spec_buy_content, spec_cid_for_user, spec_get_content,
    spec_get_creator, spec_has_access, spec_is_subscribed, spec_mint_content,
    spec_next_content_id, spec_register_creator, spec_subscribe, spec_update_creator, HubView,
    SECONDS_PER_MONTH,
};
use crate::records::{
    AccessDecision, AccountId, Content, ContentId, ContentView, Creator, CreatorView, HubError,
};
use vstd::prelude::*;

verus! {

/// One row of the creator registry.
pub struct CreatorEntry {
    pub account: AccountId,
    pub profile: Creator,
}

/// One row of the subscription ledger.
pub struct SubscriptionEntry {
    pub subscriber: AccountId,
    pub creator: AccountId,
    pub expiry: u64,
}

/// One row of the purchase ledger.
pub struct PurchaseEntry {
    pub buyer: AccountId,
    pub content_id: ContentId,
}

/// The registry rows as a map from account to profile; a later row for the
/// same account would win, but the state keeps at most one row per account.
pub open spec fn creators_model(s: Seq<CreatorEntry>) -> Map<AccountId, CreatorView>
    decreases s.len(),
{
    if s.len() == 0 {
        Map::empty()
    } else {
        creators_model(s.drop_last()).insert(s.last().account, s.last().profile@)
    }
}

/// The ledger rows as a map from (subscriber, creator) to expiry.
pub open spec fn subscriptions_model(s: Seq<SubscriptionEntry>) -> Map<(AccountId, AccountId), u64>
    decreases s.len(),
{
    if s.len() == 0 {
        Map::empty()
    } else {
        subscriptions_model(s.drop_last()).insert(
            (s.last().subscriber, s.last().creator),
            s.last().expiry,
        )
    }
}

/// The purchase rows as the set of recorded (buyer, item) pairs.
pub open spec fn purchases_model(s: Seq<PurchaseEntry>) -> Set<(AccountId, ContentId)>
    decreases s.len(),
{
    if s.len() == 0 {
        Set::empty()
    } else {
        purchases_model(s.drop_last()).insert((s.last().buyer, s.last().content_id))
    }
}

/// The catalog rows as the sequence of their mathematical values.
pub open spec fn contents_model(s: Seq<Content>) -> Seq<ContentView> {
    Seq::new(s.len(), |i: int| s[i]@)
}

/// No two registry rows share an account.
pub open spec fn creator_keys_unique(s: Seq<CreatorEntry>) -> bool {
    forall|i: int, j: int| 0 <= i < j < s.len() ==> s[i].account != s[j].account
}

/// No two ledger rows share a (subscriber, creator) pair.
pub open spec fn subscription_keys_unique(s: Seq<SubscriptionEntry>) -> bool {
    forall|i: int, j: int|
        0 <= i < j < s.len() ==> (s[i].subscriber, s[i].creator) != (
            s[j].subscriber,
            s[j].creator,
        )
}

proof fn lemma_creator_keys_unique_drop_last(s: Seq<CreatorEntry>)
    requires
        creator_keys_unique(s),
        s.len() > 0,
    ensures
        creator_keys_unique(s.drop_last()),
{
    assert forall|i: int, j: int|
        0 <= i < j < s.drop_last().len() implies s.drop_last()[i].account
        != s.drop_last()[j].account by {
        assert(s[i].account != s[j].account);
    }
}

proof fn lemma_creators_model_contains(s: Seq<CreatorEntry>, a: AccountId)
    ensures
        creators_model(s).contains_key(a) <==> exists|i: int|
            0 <= i < s.len() && s[i].account == a,
    decreases s.len(),
{
    if s.len() > 0 {
        lemma_creators_model_contains(s.drop_last(), a);
        if s.last().account == a {
            assert(s[s.len() - 1].account == a);
        } else {
            if exists|i: int| 0 <= i < s.drop_last().len() && s.drop_last()[i].account == a {
                let i = choose|i: int|
                    0 <= i < s.drop_last().len() && s.drop_last()[i].account == a;
                assert(s[i].account == a);
            }
            if exists|i: int| 0 <= i < s.len() && s[i].account == a {
                let i = choose|i: int| 0 <= i < s.len() && s[i].account == a;
                assert(s.drop_last()[i].account == a);
            }
        }
    }
}

proof fn lemma_creators_model_index(s: Seq<CreatorEntry>, i: int)
    requires
        creator_keys_unique(s),
        0 <= i < s.len(),
    ensures
        creators_model(s).contains_key(s[i].account),
        creators_model(s)[s[i].account] == s[i].profile@,
    decreases s.len(),
{
    if i < s.len() - 1 {
        lemma_creator_keys_unique_drop_last(s);
        lemma_creators_model_index(s.drop_last(), i);
        assert(s.drop_last()[i] == s[i]);
        assert(s[i].account != s.last().account);
    }
}

proof fn lemma_creators_model_update(s: Seq<CreatorEntry>, i: int, e: CreatorEntry)
    requires
        creator_keys_unique(s),
        0 <= i < s.len(),
        s[i].account == e.account,
    ensures
        creators_model(s.update(i, e)) == creators_model(s).insert(e.account, e.profile@),
        creator_keys_unique(s.update(i, e)),
    decreases s.len(),
{
    let t = s.update(i, e);
    assert forall|x: int, y: int| 0 <= x < y < t.len() implies t[x].account != t[y].account by {
        assert(s[x].account != s[y].account);
    }
    if i == s.len() - 1 {
        assert(t.drop_last() =~= s.drop_last());
        assert(creators_model(t) =~= creators_model(s).insert(e.account, e.profile@));
    } else {
        lemma_creator_keys_unique_drop_last(s);
        lemma_creators_model_update(s.drop_last(), i, e);
        assert(t.drop_last() =~= s.drop_last().update(i, e));
        assert(t.last() == s.last());
        assert(e.account != s.last().account);
        assert(creators_model(t) =~= creators_model(s).insert(e.account, e.profile@));
    }
}

proof fn lemma_creators_model_push(s: Seq<CreatorEntry>, e: CreatorEntry)
    requires
        creator_keys_unique(s),
        forall|i: int| 0 <= i < s.len() ==> s[i].account != e.account,
    ensures
        creators_model(s.push(e)) == creators_model(s).insert(e.account, e.profile@),
        creator_keys_unique(s.push(e)),
{
    let t = s.push(e);
    assert(t.drop_last() =~= s);
    assert(t.last() == e);
    assert forall|x: int, y: int| 0 <= x < y < t.len() implies t[x].account != t[y].account by {
        if y < t.len() - 1 {
            assert(s[x].account != s[y].account);
        } else {
            assert(s[x].account != e.account);
        }
    }
}

proof fn lemma_subscription_keys_unique_drop_last(s: Seq<SubscriptionEntry>)
    requires
        subscription_keys_unique(s),
        s.len() > 0,
    ensures
        subscription_keys_unique(s.drop_last()),
{
    assert forall|i: int, j: int|
        0 <= i < j < s.drop_last().len() implies (
        s.drop_last()[i].subscriber,
        s.drop_last()[i].creator,
    ) != (s.drop_last()[j].subscriber, s.drop_last()[j].creator) by {
        assert((s[i].subscriber, s[i].creator) != (s[j].subscriber, s[j].creator));
    }
}

proof fn lemma_subscriptions_model_contains(s: Seq<SubscriptionEntry>, k: (AccountId, AccountId))
    ensures
        subscriptions_model(s).contains_key(k) <==> exists|i: int|
            0 <= i < s.len() && (s[i].subscriber, s[i].creator) == k,
    decreases s.len(),
{
    if s.len() > 0 {
        lemma_subscriptions_model_contains(s.drop_last(), k);
        if (s.last().subscriber, s.last().creator) == k {
            assert((s[s.len() - 1].subscriber, s[s.len() - 1].creator) == k);
        } else {
            if exists|i: int|
                0 <= i < s.drop_last().len() && (
                s.drop_last()[i].subscriber,
                s.drop_last()[i].creator,
            ) == k {
                let i = choose|i: int|
                    0 <= i < s.drop_last().len() && (
                    s.drop_last()[i].subscriber,
                    s.drop_last()[i].creator,
                    ) == k;
                assert((s[i].subscriber, s[i].creator) == k);
            }
            if exists|i: int| 0 <= i < s.len() && (s[i].subscriber, s[i].creator) == k {
                let i = choose|i: int| 0 <= i < s.len() && (s[i].subscriber, s[i].creator) == k;
                assert((s.drop_last()[i].subscriber, s.drop_last()[i].creator) == k);
            }
        }
    }
}

proof fn lemma_subscriptions_model_index(s: Seq<SubscriptionEntry>, i: int)
    requires
        subscription_keys_unique(s),
        0 <= i < s.len(),
    ensures
        subscriptions_model(s).contains_key((s[i].subscriber, s[i].creator)),
        subscriptions_model(s)[(s[i].subscriber, s[i].creator)] == s[i].expiry,
    decreases s.len(),
{
    if i < s.len() - 1 {
        lemma_subscription_keys_unique_drop_last(s);
        lemma_subscriptions_model_index(s.drop_last(), i);
        assert(s.drop_last()[i] == s[i]);
        assert((s[i].subscriber, s[i].creator) != (s.last().subscriber, s.last().creator));
    }
}

proof fn lemma_subscriptions_model_update(s: Seq<SubscriptionEntry>, i: int, e: SubscriptionEntry)
    requires
        subscription_keys_unique(s),
        0 <= i < s.len(),
        (s[i].subscriber, s[i].creator) == (e.subscriber, e.creator),
    ensures
        subscriptions_model(s.update(i, e)) == subscriptions_model(s).insert(
            (e.subscriber, e.creator),
            e.expiry,
        ),
        subscription_keys_unique(s.update(i, e)),
    decreases s.len(),
{
    let t = s.update(i, e);
    assert forall|x: int, y: int|
        0 <= x < y < t.len() implies (t[x].subscriber, t[x].creator) != (
        t[y].subscriber,
        t[y].creator,
    ) by {
        assert((s[x].subscriber, s[x].creator) != (s[y].subscriber, s[y].creator));
    }
    if i == s.len() - 1 {
        assert(t.drop_last() =~= s.drop_last());
        assert(subscriptions_model(t) =~= subscriptions_model(s).insert(
            (e.subscriber, e.creator),
            e.expiry,
        ));
    } else {
        lemma_subscription_keys_unique_drop_last(s);
        lemma_subscriptions_model_update(s.drop_last(), i, e);
        assert(t.drop_last() =~= s.drop_last().update(i, e));
        assert(t.last() == s.last());
        assert((e.subscriber, e.creator) != (s.last().subscriber, s.last().creator));
        assert(subscriptions_model(t) =~= subscriptions_model(s).insert(
            (e.subscriber, e.creator),
            e.expiry,
        ));
    }
}

proof fn lemma_subscriptions_model_push(s: Seq<SubscriptionEntry>, e: SubscriptionEntry)
    requires
        subscription_keys_unique(s),
        forall|i: int|
            0 <= i < s.len() ==> (s[i].subscriber, s[i].creator) != (e.subscriber, e.creator),
    ensures
        subscriptions_model(s.push(e)) == subscriptions_model(s).insert(
            (e.subscriber, e.creator),
            e.expiry,
        ),
        subscription_keys_unique(s.push(e)),
{
    let t = s.push(e);
    assert(t.drop_last() =~= s);
    assert(t.last() == e);
    assert forall|x: int, y: int|
        0 <= x < y < t.len() implies (t[x].subscriber, t[x].creator) != (
        t[y].subscriber,
        t[y].creator,
    ) by {
        if y < t.len() - 1 {
            assert((s[x].subscriber, s[x].creator) != (s[y].subscriber, s[y].creator));
        } else {
            assert((s[x].subscriber, s[x].creator) != (e.subscriber, e.creator));
        }
    }
}

proof fn lemma_purchases_model_contains(s: Seq<PurchaseEntry>, p: (AccountId, ContentId))
    ensures
        purchases_model(s).contains(p) <==> exists|i: int|
            0 <= i < s.len() && (s[i].buyer, s[i].content_id) == p,
    decreases s.len(),
{
    if s.len() > 0 {
        lemma_purchases_model_contains(s.drop_last(), p);
        if (s.last().buyer, s.last().content_id) == p {
            assert((s[s.len() - 1].buyer, s[s.len() - 1].content_id) == p);
        } else {
            if exists|i: int|
                0 <= i < s.drop_last().len() && (
                s.drop_last()[i].buyer,
                s.drop_last()[i].content_id,
            ) == p {
                let i = choose|i: int|
                    0 <= i < s.drop_last().len() && (
                    s.drop_last()[i].buyer,
                    s.drop_last()[i].content_id,
                    ) == p;
                assert((s[i].buyer, s[i].content_id) == p);
            }
            if exists|i: int| 0 <= i < s.len() && (s[i].buyer, s[i].content_id) == p {
                let i = choose|i: int| 0 <= i < s.len() && (s[i].buyer, s[i].content_id) == p;
                assert((s.drop_last()[i].buyer, s.drop_last()[i].content_id) == p);
            }
        }
    }
}

proof fn lemma_purchases_model_push(s: Seq<PurchaseEntry>, e: PurchaseEntry)
    ensures
        purchases_model(s.push(e)) == purchases_model(s).insert((e.buyer, e.content_id)),
{
    let t = s.push(e);
    assert(t.drop_last() =~= s);
    assert(t.last() == e);
}

/// The engine state: the four tables of the data plane.
pub struct CreatorHub {
    creators: Vec<CreatorEntry>,
    contents: Vec<Content>,
    subscriptions: Vec<SubscriptionEntry>,
    purchases: Vec<PurchaseEntry>,
}

impl View for CreatorHub {
    type V = HubView;

    closed spec fn view(&self) -> HubView {
        HubView {
            creators: creators_model(self.creators@),
            contents: contents_model(self.contents@),
            subscriptions: subscriptions_model(self.subscriptions@),
            purchases: purchases_model(self.purchases@),
        }
    }
}

impl CreatorHub {
    /// Well-formedness: the two keyed tables hold at most one row per key,
    /// so registering and subscribing overwrite rather than duplicate.
    pub closed spec fn wf(&self) -> bool {
        &&& creator_keys_unique(self.creators@)
        &&& subscription_keys_unique(self.subscriptions@)
    }

    /// A freshly deployed engine: four empty tables.
    pub fn new() -> (r: CreatorHub)
        ensures
            r.wf(),
            r@ == empty_hub(),
    {
        let r = CreatorHub {
            creators: Vec::new(),
            contents: Vec::new(),
            subscriptions: Vec::new(),
            purchases: Vec::new(),
        };
        proof {
            assert(r@ =~= empty_hub());
        }
        r
    }

    /// The index of the registry row for `account`, if one exists.
    fn find_creator(&self, account: AccountId) -> (r: Option<usize>)
        ensures
            match r {
                Some(i) => i < self.creators@.len() && self.creators@[i as int].account == account,
                None => forall|j: int|
                    0 <= j < self.creators@.len() ==> self.creators@[j].account != account,
            },
    {
        let mut i: usize = 0;
        while i < self.creators.len()
            invariant
                i <= self.creators@.len(),
                forall|j: int| 0 <= j < i ==> self.creators@[j].account != account,
            decreases self.creators@.len() - i,
        {
            if self.creators[i].account == account {
                return Some(i);
            }
            i += 1;
        }
        None
    }

    /// The index of the ledger row for (subscriber, creator), if one exists.
    fn find_subscription(&self, subscriber: AccountId, creator: AccountId) -> (r: Option<usize>)
        ensures
            match r {
                Some(i) => i < self.subscriptions@.len() && (
                    self.subscriptions@[i as int].subscriber,
                    self.subscriptions@[i as int].creator,
                ) == (subscriber, creator),
                None => forall|j: int|
                    0 <= j < self.subscriptions@.len() ==> (
                        self.subscriptions@[j].subscriber,
                        self.subscriptions@[j].creator,
                    ) != (subscriber, creator),
            },
    {
        let mut i: usize = 0;
        while i < self.subscriptions.len()
            invariant
                i <= self.subscriptions@.len(),
                forall|j: int|
                    0 <= j < i ==> (
                        self.subscriptions@[j].subscriber,
                        self.subscriptions@[j].creator,
                    ) != (subscriber, creator),
            decreases self.subscriptions@.len() - i,
        {
            if self.subscriptions[i].subscriber == subscriber && self.subscriptions[i].creator
                == creator {
                return Some(i);
            }
            i += 1;
        }
        None
    }

    /// The index of the purchase row for (buyer, item), if one exists.
    fn find_purchase(&self, buyer: AccountId, content_id: ContentId) -> (r: Option<usize>)
        ensures
            match r {
                Some(i) => i < self.purchases@.len() && (
                    self.purchases@[i as int].buyer,
                    self.purchases@[i as int].content_id,
                ) == (buyer, content_id),
                None => forall|j: int|
                    0 <= j < self.purchases@.len() ==> (
                        self.purchases@[j].buyer,
                        self.purchases@[j].content_id,
                    ) != (buyer, content_id),
            },
    {
        let mut i: usize = 0;
        while i < self.purchases.len()
            invariant
                i <= self.purchases@.len(),
                forall|j: int|
                    0 <= j < i ==> (self.purchases@[j].buyer, self.purchases@[j].content_id) != (
                        buyer,
                        content_id,
                    ),
            decreases self.purchases@.len() - i,
        {
            if self.purchases[i].buyer == buyer && self.purchases[i].content_id == content_id {
                return Some(i);
            }
            i += 1;
        }
        None
    }

    /// Opens or overwrites the caller's creator profile. `auth` is the host
    /// platform's signature verdict for `creator`; on a failed verdict the
    /// call returns the authorization error and changes nothing.
    pub fn register_creator(
        &mut self,
        creator: AccountId,
        auth: bool,
        profile_uri: String,
        price: i128,
    ) -> (r: Result<(), HubError>)
        requires
            old(self).wf(),
        ensures
            final(self).wf(),
            auth ==> r == Ok::<(), HubError>(()) && final(self)@ == spec_register_creator(
                old(self)@,
                creator,
                profile_uri@,
                price,
            ),
            !auth ==> r == Err::<(), HubError>(HubError::AuthorizationFailure) && *final(self)
                == *old(self),
    {
        if !auth {
            return Err(HubError::AuthorizationFailure);
        }
        let entry = CreatorEntry {
            account: creator,
            profile: Creator { profile_uri, subscription_price: price },
        };
        let ghost e = entry;
        match self.find_creator(creator) {
            Some(i) => {
                proof {
                    lemma_creators_model_update(self.creators@, i as int, e);
                }
                self.creators[i] = entry;
            },
            None => {
                proof {
                    lemma_creators_model_push(self.creators@, e);
                }
                self.creators.push(entry);
            },
        }
        proof {
            assert(self@ =~= spec_register_creator(
                old(self)@,
                creator,
                e.profile@.profile_uri,
                price,
            ));
        }
        Ok(())
    }

    /// Overwrites the caller's profile if one exists; a silent no-op — by
    /// design, not by accident — if the caller never registered. `auth` is
    /// the host platform's signature verdict for `creator`.
    pub fn update_creator(
        &mut self,
        creator: AccountId,
        auth: bool,
        new_uri: String,
        new_price: i128,
    ) -> (r: Result<(), HubError>)
        requires
            old(self).wf(),
        ensures
            final(self).wf(),
            auth ==> r == Ok::<(), HubError>(()) && final(self)@ == spec_update_creator(
                old(self)@,
                creator,
                new_uri@,
                new_price,
            ),
            !auth ==> r == Err::<(), HubError>(HubError::AuthorizationFailure) && *final(self)
                == *old(self),
    {
        if !auth {
            return Err(HubError::AuthorizationFailure);
        }
        match self.find_creator(creator) {
            Some(i) => {
                let entry = CreatorEntry {
                    account: creator,
                    profile: Creator { profile_uri: new_uri, subscription_price: new_price },
                };
                let ghost e = entry;
                proof {
                    lemma_creators_model_index(self.creators@, i as int);
                    lemma_creators_model_update(self.creators@, i as int, e);
                }
                self.creators[i] = entry;
                proof {
                    assert(self@ =~= spec_update_creator(
                        old(self)@,
                        creator,
                        e.profile@.profile_uri,
                        new_price,
                    ));
                }
            },
            None => {
                proof {
                    lemma_creators_model_contains(self.creators@, creator);
                    assert(self@ =~= spec_update_creator(old(self)@, creator, new_uri@, new_price));
                }
            },
        }
        Ok(())
    }

    /// The profile recorded for an account, if any; a public read, no
    /// authorization involved.
    pub fn get_creator(&self, creator: AccountId) -> (r: Option<Creator>)
        requires
            self.wf(),
        ensures
            (match r {
                Some(c) => Some(c@),
                None => None::<CreatorView>,
            }) == spec_get_creator(self@, creator),
    {
        match self.find_creator(creator) {
            Some(i) => {
                proof {
                    lemma_creators_model_index(self.creators@, i as int);
                }
                Some(self.creators[i].profile.clone())
            },
            None => {
                proof {
                    lemma_creators_model_contains(self.creators@, creator);
                }
                None
            },
        }
    }

    /// Publishes a content item and returns its identifier: the current
    /// catalog cardinality plus one, so identifiers run 1, 2, 3, … in call
    /// order. Minting deliberately does not require a registry entry for
    /// the caller. `auth` is the host platform's signature verdict for
    /// `creator`.
    pub fn mint_content(
        &mut self,
        creator: AccountId,
        auth: bool,
        encrypted_cid: String,
        price: i128,
        is_for_subscribers: bool,
    ) -> (r: Result<ContentId, HubError>)
        requires
            old(self).wf(),
            auth ==> old(self)@.contents.len() < u64::MAX,
        ensures
            final(self).wf(),
            auth ==> r == Ok::<ContentId, HubError>(spec_next_content_id(old(self)@) as u64)
                && final(self)@ == spec_mint_content(
                old(self)@,
                creator,
                encrypted_cid@,
                price,
                is_for_subscribers,
            ),
            !auth ==> r == Err::<ContentId, HubError>(HubError::AuthorizationFailure)
                && *final(self) == *old(self),
    {
        if !auth {
            return Err(HubError::AuthorizationFailure);
        }
        let next_id: u64 = (self.contents.len() as u64) + 1;
        let item = Content { creator, encrypted_cid, price, is_for_subscribers };
        let ghost c = item;
        self.contents.push(item);
        proof {
            assert(contents_model(self.contents@) =~= contents_model(old(self).contents@).push(
                c@,
            ));
            assert(self@ =~= spec_mint_content(
                old(self)@,
                creator,
                c@.encrypted_cid,
                price,
                is_for_subscribers,
            ));
        }
        Ok(next_id)
    }

    /// The item recorded under a content identifier, if any; a public read.
    /// The pointer it carries is still encrypted, so exposing it is safe.
    pub fn get_content(&self, content_id: ContentId) -> (r: Option<Content>)
        ensures
            (match r {
                Some(c) => Some(c@),
                None => None::<ContentView>,
            }) == spec_get_content(self@, content_id),
    {
        if 1 <= content_id && content_id <= self.contents.len() as u64 {
            let idx: usize = (content_id - 1) as usize;
            Some(self.contents[idx].clone())
        } else {
            None
        }
    }

    /// Records a subscription of `subscriber` to `creator` for `months`
    /// months of 30 days from `now`, the current ledger time, overwriting
    /// any prior expiry for the pair — remaining time is discarded, never
    /// added. Neither the creator's existence nor `months > 0` is checked.
    /// `auth` is the host platform's signature verdict for `subscriber`.
    pub fn subscribe(
        &mut self,
        subscriber: AccountId,
        creator: AccountId,
        auth: bool,
        months: u32,
        now: u64,
    ) -> (r: Result<(), HubError>)
        requires
            old(self).wf(),
            auth ==> now + (months as u64) * SECONDS_PER_MONTH <= u64::MAX,
        ensures
            final(self).wf(),
            auth ==> r == Ok::<(), HubError>(()) && final(self)@ == spec_subscribe(
                old(self)@,
                subscriber,
                creator,
                now,
                months,
            ),
            !auth ==> r == Err::<(), HubError>(HubError::AuthorizationFailure) && *final(self)
                == *old(self),
    {
        if !auth {
            return Err(HubError::AuthorizationFailure);
        }
        let duration: u64 = (months as u64) * SECONDS_PER_MONTH;
        let expiry: u64 = now + duration;
        let entry = SubscriptionEntry { subscriber, creator, expiry };
        let ghost e = entry;
        match self.find_subscription(subscriber, creator) {
            Some(i) => {
                proof {
                    lemma_subscriptions_model_update(self.subscriptions@, i as int, e);
                }
                self.subscriptions[i] = entry;
            },
            None => {
                proof {
                    lemma_subscriptions_model_push(self.subscriptions@, e);
                }
                self.subscriptions.push(entry);
            },
        }
        proof {
            assert(self@ =~= spec_subscribe(old(self)@, subscriber, creator, now, months));
        }
        Ok(())
    }

    /// Whether `user` holds an unexpired subscription to `creator` at
    /// ledger time `now`: the recorded expiry must be strictly greater
    /// than `now`, so an expiry equal to `now` is already inactive.
    pub fn is_subscribed(&self, user: AccountId, creator: AccountId, now: u64) -> (r: bool)
        requires
            self.wf(),
        ensures
            r == spec_is_subscribed(self@, user, creator, now),
    {
        match self.find_subscription(user, creator) {
            Some(i) => {
                proof {
                    lemma_subscriptions_model_index(self.subscriptions@, i as int);
                }
                self.subscriptions[i].expiry > now
            },
            None => {
                proof {
                    lemma_subscriptions_model_contains(self.subscriptions@, (user, creator));
                }
                false
            },
        }
    }

    /// Records that `buyer` purchased the item, unconditionally: the item
    /// need not exist in the catalog and payment verification belongs to an
    /// external collaborator. Buying twice is idempotent. `auth` is the
    /// host platform's signature verdict for `buyer`.
    pub fn buy_content(
        &mut self,
        buyer: AccountId,
        auth: bool,
        content_id: ContentId,
    ) -> (r: Result<(), HubError>)
        requires
            old(self).wf(),
        ensures
            final(self).wf(),
            auth ==> r == Ok::<(), HubError>(()) && final(self)@ == spec_buy_content(
                old(self)@,
                buyer,
                content_id,
            ),
            !auth ==> r == Err::<(), HubError>(HubError::AuthorizationFailure) && *final(self)
                == *old(self),
    {
        if !auth {
            return Err(HubError::AuthorizationFailure);
        }
        match self.find_purchase(buyer, content_id) {
            Some(i) => {
                proof {
                    lemma_purchases_model_contains(self.purchases@, (buyer, content_id));
                    assert((self.purchases@[i as int].buyer, self.purchases@[i as int].content_id)
                        == (buyer, content_id));
                    assert(self@.purchases.insert((buyer, content_id)) =~= self@.purchases);
                }
            },
            None => {
                let entry = PurchaseEntry { buyer, content_id };
                let ghost e = entry;
                proof {
                    lemma_purchases_model_push(self.purchases@, e);
                }
                self.purchases.push(entry);
            },
        }
        proof {
            assert(self@ =~= spec_buy_content(old(self)@, buyer, content_id));
        }
        Ok(())
    }

    /// Resolves an access query at ledger time `now` into an explicit
    /// decision, applying the rules in fixed order: unknown content is
    /// denied; a recorded purchase grants access regardless of gating;
    /// otherwise a subscriber-gated item grants access on an unexpired
    /// subscription to the item's creator; otherwise the query is denied.
    pub fn access_decision(&self, user: AccountId, content_id: ContentId, now: u64) -> (r:
        AccessDecision)
        requires
            self.wf(),
        ensures
            r == spec_access_decision(self@, user, content_id, now),
    {
        let content = match self.get_content(content_id) {
            None => {
                return AccessDecision::Denied;
            },
            Some(c) => c,
        };
        if self.has_purchase(user, content_id) {
            return AccessDecision::GrantedByPurchase;
        }
        if content.is_for_subscribers && self.is_subscribed(user, content.creator, now) {
            return AccessDecision::GrantedBySubscription;
        }
        AccessDecision::Denied
    }

    /// May `user` decrypt the item? True iff the access decision is not a
    /// denial. Note the asymmetry this inherits: an item that is not
    /// subscriber-gated is reachable only through a purchase — there is no
    /// free tier, and the item's own creator is not special-cased.
    pub fn has_access(&self, user: AccountId, content_id: ContentId, now: u64) -> (r: bool)
        requires
            self.wf(),
        ensures
            r == spec_has_access(self@, user, content_id, now),
    {
        let decision = self.access_decision(user, content_id, now);
        !matches!(decision, AccessDecision::Denied)
    }

    /// The single pointer-releasing entry point: returns the encrypted
    /// pointer iff access is granted at ledger time `now`, and never leaks
    /// it on a denial.
    pub fn get_encrypted_cid_for_user(&self, user: AccountId, content_id: ContentId, now: u64) -> (r:
        Option<String>)
        requires
            self.wf(),
        ensures
            (match r {
                Some(cid) => Some(cid@),
                None => None::<Seq<char>>,
            }) == spec_cid_for_user(self@, user, content_id, now),
    {
        if !self.has_access(user, content_id, now) {
            return None;
        }
        match self.get_content(content_id) {
            Some(c) => Some(c.encrypted_cid),
            None => None,
        }
    }

    /// The registry rows, for a host adapter that persists the tables.
    pub fn creator_rows(&self) -> (r: &Vec<CreatorEntry>)
        ensures
            creators_model(r@) == self@.creators,
    {
        &self.creators
    }

    /// The catalog rows in identifier order, for a host adapter that
    /// persists the tables.
    pub fn content_rows(&self) -> (r: &Vec<Content>)
        ensures
            contents_model(r@) == self@.contents,
    {
        &self.contents
    }

    /// The ledger rows, for a host adapter that persists the tables.
    pub fn subscription_rows(&self) -> (r: &Vec<SubscriptionEntry>)
        ensures
            subscriptions_model(r@) == self@.subscriptions,
    {
        &self.subscriptions
    }

    /// The purchase rows, for a host adapter that persists the tables.
    pub fn purchase_rows(&self) -> (r: &Vec<PurchaseEntry>)
        ensures
            purchases_model(r@) == self@.purchases,
    {
        &self.purchases
    }

    /// Whether a purchase of the item by `buyer` is on record.
    fn has_purchase(&self, buyer: AccountId, content_id: ContentId) -> (r: bool)
        ensures
            r == self@.purchases.contains((buyer, content_id)),
    {
        match self.find_purchase(buyer, content_id) {
            Some(i) => {
                proof {
                    lemma_purchases_model_contains(self.purchases@, (buyer, content_id));
                    assert((self.purchases@[i as int].buyer, self.purchases@[i as int].content_id)
                        == (buyer, content_id));
                }
                true
            },
            None => {
                proof {
                    lemma_purchases_model_contains(self.purchases@, (buyer, content_id));
                }
                false
            },
        }
    }
}

} // verus!
