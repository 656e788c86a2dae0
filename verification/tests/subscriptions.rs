use trading_engine::engine::StrategyEngine;
use trading_engine::subscriptions::SubscriptionLedger;

#[test]
fn subscriptions_are_only_requested_once() {
    let mut e = StrategyEngine::new(true);
    let keys = vec!["nse_fo|1".to_string(), "nse_fo|2".to_string()];
    assert_eq!(e.newly_subscribed(&keys).len(), 2);
    assert!(e.newly_subscribed(&keys).is_empty(), "already-subscribed keys must not be re-requested");
}

#[test]
fn repeated_keys_in_one_request_are_asked_for_once() {
    let mut l = SubscriptionLedger::new();
    let keys = vec!["a".to_string(), "b".to_string(), "a".to_string(), "c".to_string(), "b".to_string()];
    assert_eq!(l.newly_subscribed(&keys), vec!["a".to_string(), "b".to_string(), "c".to_string()]);
    let more = vec!["c".to_string(), "d".to_string()];
    assert_eq!(l.newly_subscribed(&more), vec!["d".to_string()]);
    assert!(l.newly_subscribed(&["a".to_string()]).is_empty());
    assert_eq!(l.newly_subscribed(&["e".to_string()]), vec!["e".to_string()]);
}

#[test]
fn reset_makes_every_key_new_again() {
    let mut l = SubscriptionLedger::new();
    let keys = vec!["x".to_string()];
    assert_eq!(l.newly_subscribed(&keys).len(), 1);
    l.reset_subscribed();
    assert_eq!(l.newly_subscribed(&keys), keys);
}

#[test]
fn nothing_is_marked_while_the_feed_is_down() {
    let mut e = StrategyEngine::new(false);
    let keys = vec!["nse_cm|Nifty 50".to_string()];
    assert!(e.subscription_requests(false, &keys).is_empty());
    assert_eq!(e.subscription_requests(true, &keys), keys, "a request refused while down is made later");
    assert!(e.subscription_requests(true, &keys).is_empty());
    assert!(e.subscription_requests(true, &[]).is_empty());
    e.reset_subscribed();
    assert_eq!(e.newly_subscribed(&keys), keys);
}
