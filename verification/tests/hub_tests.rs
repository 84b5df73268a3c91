use creator_hub::{AccessDecision, CreatorHub, HubError};

const SECONDS_PER_MONTH: u64 = 30 * 24 * 3600;

#[test]
fn test_register_creator() {
    let mut hub = CreatorHub::new();
    let creator: u64 = 1;

    let r = hub.register_creator(creator, true, "ipfs://profile".to_string(), 100);
    assert!(r.is_ok());

    assert!(hub.get_creator(creator).is_some());
}

#[test]
fn test_mint_content() {
    let mut hub = CreatorHub::new();
    let creator: u64 = 1;

    let id = hub
        .mint_content(creator, true, "cid-hash".to_string(), 50, true)
        .unwrap();

    assert!(hub.get_content(id).is_some());
}

#[test]
fn register_then_get_returns_exact_profile() {
    let mut hub = CreatorHub::new();
    let creator: u64 = 11;

    hub.register_creator(creator, true, "ipfs://profile".to_string(), 100)
        .unwrap();

    let profile = hub.get_creator(creator).unwrap();
    assert_eq!(profile.profile_uri, "ipfs://profile");
    assert_eq!(profile.subscription_price, 100);
}

#[test]
fn reregister_overwrites_whole_profile() {
    let mut hub = CreatorHub::new();
    let creator: u64 = 11;

    hub.register_creator(creator, true, "ipfs://old".to_string(), 100)
        .unwrap();
    hub.register_creator(creator, true, "ipfs://new".to_string(), 250)
        .unwrap();

    let profile = hub.get_creator(creator).unwrap();
    assert_eq!(profile.profile_uri, "ipfs://new");
    assert_eq!(profile.subscription_price, 250);
}

#[test]
fn update_creator_on_unregistered_account_is_noop() {
    let mut hub = CreatorHub::new();
    let stranger: u64 = 77;

    let r = hub.update_creator(stranger, true, "ipfs://ghost".to_string(), 9);
    assert!(r.is_ok());
    assert!(hub.get_creator(stranger).is_none());
}

#[test]
fn update_creator_overwrites_registered_profile() {
    let mut hub = CreatorHub::new();
    let creator: u64 = 3;

    hub.register_creator(creator, true, "ipfs://v1".to_string(), 10)
        .unwrap();
    hub.update_creator(creator, true, "ipfs://v2".to_string(), 20)
        .unwrap();

    let profile = hub.get_creator(creator).unwrap();
    assert_eq!(profile.profile_uri, "ipfs://v2");
    assert_eq!(profile.subscription_price, 20);
}

#[test]
fn mint_assigns_sequential_ids_and_exact_fields() {
    let mut hub = CreatorHub::new();
    let creator: u64 = 5;

    let first = hub
        .mint_content(creator, true, "cid-a".to_string(), 1, false)
        .unwrap();
    let second = hub
        .mint_content(creator, true, "cid-b".to_string(), 2, true)
        .unwrap();
    let third = hub
        .mint_content(creator, true, "cid-c".to_string(), 3, false)
        .unwrap();

    assert_eq!(first, 1);
    assert_eq!(second, 2);
    assert_eq!(third, 3);

    let item = hub.get_content(second).unwrap();
    assert_eq!(item.creator, creator);
    assert_eq!(item.encrypted_cid, "cid-b");
    assert_eq!(item.price, 2);
    assert!(item.is_for_subscribers);
}

#[test]
fn subscribe_one_month_is_active_until_strict_expiry() {
    let mut hub = CreatorHub::new();
    let user: u64 = 8;
    let creator: u64 = 9;
    let now: u64 = 1_000;
    let expiry: u64 = now + SECONDS_PER_MONTH;

    hub.subscribe(user, creator, true, 1, now).unwrap();

    assert!(hub.is_subscribed(user, creator, now));
    assert!(hub.is_subscribed(user, creator, expiry - 1));
    assert!(!hub.is_subscribed(user, creator, expiry));
    assert!(!hub.is_subscribed(user, creator, expiry + 1));
}

#[test]
fn subscribe_zero_months_is_inactive_immediately() {
    let mut hub = CreatorHub::new();
    let user: u64 = 8;
    let creator: u64 = 9;
    let now: u64 = 5_000;

    hub.subscribe(user, creator, true, 0, now).unwrap();

    assert!(!hub.is_subscribed(user, creator, now));
}

#[test]
fn resubscribing_overwrites_rather_than_extends() {
    let mut hub = CreatorHub::new();
    let user: u64 = 8;
    let creator: u64 = 9;
    let now: u64 = 1_000;

    hub.subscribe(user, creator, true, 12, now).unwrap();
    hub.subscribe(user, creator, true, 1, now).unwrap();

    assert!(hub.is_subscribed(user, creator, now));
    assert!(!hub.is_subscribed(user, creator, now + SECONDS_PER_MONTH));
}

#[test]
fn purchase_grants_access_to_ungated_content() {
    let mut hub = CreatorHub::new();
    let creator: u64 = 2;
    let buyer: u64 = 4;
    let now: u64 = 0;

    let id = hub
        .mint_content(creator, true, "cid-open".to_string(), 30, false)
        .unwrap();
    hub.buy_content(buyer, true, id).unwrap();

    assert!(hub.has_access(buyer, id, now));
    assert_eq!(
        hub.access_decision(buyer, id, now),
        AccessDecision::GrantedByPurchase
    );
}

#[test]
fn purchase_wins_over_subscription_gating() {
    let mut hub = CreatorHub::new();
    let creator: u64 = 2;
    let buyer: u64 = 4;
    let now: u64 = 0;

    let id = hub
        .mint_content(creator, true, "cid-gated".to_string(), 30, true)
        .unwrap();
    hub.buy_content(buyer, true, id).unwrap();

    assert_eq!(
        hub.access_decision(buyer, id, now),
        AccessDecision::GrantedByPurchase
    );
}

#[test]
fn ungated_unpurchased_content_is_denied_even_to_its_creator() {
    let mut hub = CreatorHub::new();
    let creator: u64 = 2;
    let stranger: u64 = 6;
    let now: u64 = 0;

    let id = hub
        .mint_content(creator, true, "cid-open".to_string(), 30, false)
        .unwrap();

    assert!(!hub.has_access(stranger, id, now));
    assert!(!hub.has_access(creator, id, now));
    assert_eq!(hub.access_decision(creator, id, now), AccessDecision::Denied);
}

#[test]
fn gated_content_follows_subscription_state() {
    let mut hub = CreatorHub::new();
    let creator: u64 = 2;
    let subscriber: u64 = 4;
    let outsider: u64 = 6;
    let now: u64 = 100;

    let id = hub
        .mint_content(creator, true, "cid-gated".to_string(), 30, true)
        .unwrap();
    hub.subscribe(subscriber, creator, true, 1, now).unwrap();

    assert!(hub.has_access(subscriber, id, now));
    assert_eq!(
        hub.access_decision(subscriber, id, now),
        AccessDecision::GrantedBySubscription
    );
    assert!(!hub.has_access(outsider, id, now));

    let granted = hub.get_encrypted_cid_for_user(subscriber, id, now);
    assert_eq!(granted.as_deref(), Some("cid-gated"));
    let denied = hub.get_encrypted_cid_for_user(outsider, id, now);
    assert!(denied.is_none());
}

#[test]
fn expired_subscription_no_longer_grants_access() {
    let mut hub = CreatorHub::new();
    let creator: u64 = 2;
    let subscriber: u64 = 4;
    let now: u64 = 100;

    let id = hub
        .mint_content(creator, true, "cid-gated".to_string(), 30, true)
        .unwrap();
    hub.subscribe(subscriber, creator, true, 1, now).unwrap();

    let later: u64 = now + SECONDS_PER_MONTH;
    assert!(!hub.has_access(subscriber, id, later));
    assert!(hub.get_encrypted_cid_for_user(subscriber, id, later).is_none());
}

#[test]
fn unknown_content_id_is_denied_for_everyone() {
    let mut hub = CreatorHub::new();
    let creator: u64 = 2;
    let user: u64 = 4;
    let now: u64 = 0;

    hub.mint_content(creator, true, "cid-a".to_string(), 1, false)
        .unwrap();

    assert!(!hub.has_access(user, 42, now));
    assert_eq!(hub.access_decision(user, 42, now), AccessDecision::Denied);
    assert!(hub.get_encrypted_cid_for_user(user, 42, now).is_none());

    // Buying a non-existent item is recorded but still grants nothing.
    hub.buy_content(user, true, 42).unwrap();
    assert!(!hub.has_access(user, 42, now));
}

#[test]
fn buying_twice_is_idempotent() {
    let mut hub = CreatorHub::new();
    let creator: u64 = 2;
    let buyer: u64 = 4;
    let now: u64 = 0;

    let id = hub
        .mint_content(creator, true, "cid-open".to_string(), 30, false)
        .unwrap();
    hub.buy_content(buyer, true, id).unwrap();
    hub.buy_content(buyer, true, id).unwrap();

    assert!(hub.has_access(buyer, id, now));
}

#[test]
fn unauthorized_mutations_fail_and_change_nothing() {
    let mut hub = CreatorHub::new();
    let creator: u64 = 2;
    let user: u64 = 4;
    let now: u64 = 100;

    hub.register_creator(creator, true, "ipfs://profile".to_string(), 100)
        .unwrap();
    let id = hub
        .mint_content(creator, true, "cid-gated".to_string(), 30, true)
        .unwrap();
    hub.subscribe(user, creator, true, 1, now).unwrap();

    assert_eq!(
        hub.register_creator(creator, false, "ipfs://evil".to_string(), 0),
        Err(HubError::AuthorizationFailure)
    );
    assert_eq!(
        hub.update_creator(creator, false, "ipfs://evil".to_string(), 0),
        Err(HubError::AuthorizationFailure)
    );
    assert_eq!(
        hub.mint_content(creator, false, "cid-evil".to_string(), 0, false),
        Err(HubError::AuthorizationFailure)
    );
    assert_eq!(
        hub.subscribe(user, creator, false, 99, now),
        Err(HubError::AuthorizationFailure)
    );
    assert_eq!(
        hub.buy_content(user, false, id),
        Err(HubError::AuthorizationFailure)
    );

    // Every table reads back exactly as before the failed calls.
    let profile = hub.get_creator(creator).unwrap();
    assert_eq!(profile.profile_uri, "ipfs://profile");
    assert_eq!(profile.subscription_price, 100);

    let item = hub.get_content(id).unwrap();
    assert_eq!(item.encrypted_cid, "cid-gated");
    assert!(hub.get_content(id + 1).is_none());

    assert!(hub.is_subscribed(user, creator, now));
    assert!(!hub.is_subscribed(user, creator, now + SECONDS_PER_MONTH));
    assert!(!hub.has_access(creator, id, now));
}
