use steam_bridge::adapter::{
    channel, settle, settle_plain, CallbackAdapter, Delivery, Failure, Resolution,
};
use tokio::sync::oneshot::error::TryRecvError;

#[test]
fn fresh_adapter_is_armed() {
    let (adapter, _receiver) = channel::<i32>();
    assert!(adapter.is_armed());
}

#[test]
fn first_delivery_reaches_the_receiver() {
    let (mut adapter, mut receiver) = channel::<i32>();
    assert_eq!(adapter.deliver(7), Delivery::Sent);
    assert!(!adapter.is_armed());
    assert_eq!(receiver.try_recv(), Ok(7));
}

#[test]
fn later_deliveries_are_dropped() {
    let (mut adapter, mut receiver) = channel::<i32>();
    assert_eq!(adapter.deliver(1), Delivery::Sent);
    assert_eq!(adapter.deliver(2), Delivery::Dropped);
    assert_eq!(adapter.deliver(3), Delivery::Dropped);
    assert!(!adapter.is_armed());
    assert_eq!(receiver.try_recv(), Ok(1));
}

#[test]
fn delivery_without_a_receiver_is_unreceived() {
    let (mut adapter, receiver) = channel::<i32>();
    drop(receiver);
    assert_eq!(adapter.deliver(1), Delivery::Unreceived);
    assert!(!adapter.is_armed());
    assert_eq!(adapter.deliver(2), Delivery::Dropped);
}

#[test]
fn nothing_is_received_before_a_delivery() {
    let (adapter, mut receiver) = channel::<i32>();
    assert_eq!(receiver.try_recv(), Err(TryRecvError::Empty));
    assert!(adapter.is_armed());
}

#[test]
fn adapter_wraps_a_given_sender() {
    let (sender, mut receiver) = tokio::sync::oneshot::channel::<&str>();
    let mut adapter = CallbackAdapter::new(sender);
    assert!(adapter.is_armed());
    assert_eq!(adapter.deliver("found"), Delivery::Sent);
    assert_eq!(receiver.try_recv(), Ok("found"));
}

#[test]
fn delivered_result_settles_to_its_value() {
    let (mut adapter, receiver) = channel::<Result<Option<u64>, String>>();
    adapter.deliver(Ok(Some(42)));
    assert_eq!(settle(receiver.blocking_recv()), Resolution::Value(42));
}

#[test]
fn delivered_absence_settles_to_absent() {
    let (mut adapter, receiver) = channel::<Result<Option<u64>, String>>();
    adapter.deliver(Ok(None));
    assert_eq!(settle(receiver.blocking_recv()), Resolution::Absent);
}

#[test]
fn delivered_error_settles_to_platform_failure() {
    let (mut adapter, receiver) = channel::<Result<Option<u64>, String>>();
    adapter.deliver(Err("io failure".to_string()));
    assert_eq!(settle(receiver.blocking_recv()), Resolution::Failed(Failure::Platform));
}

#[test]
fn lost_adapter_settles_to_disconnected() {
    let (adapter, receiver) = channel::<Result<Option<u64>, String>>();
    drop(adapter);
    assert_eq!(settle(receiver.blocking_recv()), Resolution::Failed(Failure::Disconnected));
}

#[test]
fn only_the_first_result_is_settled() {
    let (mut adapter, receiver) = channel::<Result<Option<u64>, String>>();
    adapter.deliver(Ok(None));
    adapter.deliver(Ok(Some(5)));
    assert_eq!(settle(receiver.blocking_recv()), Resolution::Absent);
}

#[test]
fn plain_results_settle_to_value_or_failure() {
    let (mut adapter, receiver) = channel::<Result<Vec<i32>, String>>();
    adapter.deliver(Ok(vec![1, 2]));
    assert_eq!(settle_plain(receiver.blocking_recv()), Resolution::Value(vec![1, 2]));

    let (mut adapter, receiver) = channel::<Result<Vec<i32>, String>>();
    adapter.deliver(Err("io failure".to_string()));
    assert_eq!(settle_plain(receiver.blocking_recv()), Resolution::Failed(Failure::Platform));

    let (adapter, receiver) = channel::<Result<Vec<i32>, String>>();
    drop(adapter);
    assert_eq!(
        settle_plain(receiver.blocking_recv()),
        Resolution::Failed(Failure::Disconnected)
    );
}

#[test]
fn resolution_value_collapses_absence_and_failure() {
    assert_eq!(Resolution::Value(3).into_value(), Some(3));
    assert_eq!(Resolution::<i32>::Absent.into_value(), None);
    assert_eq!(Resolution::<i32>::Failed(Failure::Platform).into_value(), None);
    assert_eq!(Resolution::<i32>::Failed(Failure::Disconnected).into_value(), None);
}
