use dflow_api_client::prediction::websocket::registry::{Registry, SubscriptionEntry};
use dflow_api_client::prediction::websocket::types::Channel;

#[test]
fn registry_starts_empty() {
    let registry = Registry::new();
    assert!(registry.is_empty());
    assert_eq!(registry.len(), 0);
    assert_eq!(registry.get(Channel::Prices), None);
}

#[test]
fn registry_holds_one_entry_for_each_channel() {
    let mut registry = Registry::new();
    assert_eq!(registry.insert(Channel::Prices, 10), None);
    assert_eq!(registry.insert(Channel::Trades, 11), None);
    assert_eq!(registry.insert(Channel::Prices, 12), Some(10));
    assert_eq!(registry.len(), 2);
    assert!(!registry.is_empty());
    assert_eq!(registry.get(Channel::Prices), Some(12));
    assert_eq!(registry.get(Channel::Trades), Some(11));
    assert_eq!(registry.get(Channel::Orderbook), None);
}

#[test]
fn registry_remove_takes_the_entry_out() {
    let mut registry = Registry::new();
    registry.insert(Channel::Prices, 1);
    registry.insert(Channel::Trades, 2);
    registry.insert(Channel::Orderbook, 3);
    assert_eq!(registry.remove(Channel::Trades), Some(2));
    assert_eq!(registry.remove(Channel::Trades), None);
    assert_eq!(registry.len(), 2);
    assert_eq!(registry.get(Channel::Prices), Some(1));
    assert_eq!(registry.get(Channel::Orderbook), Some(3));
}

#[test]
fn registry_drain_hands_out_the_sinks_in_order() {
    let mut registry = Registry::new();
    registry.insert(Channel::Trades, 5);
    registry.insert(Channel::Prices, 6);
    registry.insert(Channel::Trades, 7);
    assert_eq!(registry.drain(), vec![7, 6]);
    assert!(registry.is_empty());
    assert_eq!(registry.drain(), Vec::<u64>::new());
}

#[test]
fn subscription_entry_is_plain_data() {
    let entry = SubscriptionEntry { channel: Channel::Prices, sink: 4 };
    let copy = entry;
    assert_eq!(entry, copy);
    assert_ne!(entry, SubscriptionEntry { channel: Channel::Prices, sink: 5 });
}
