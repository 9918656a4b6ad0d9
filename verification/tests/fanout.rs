use std::time::Duration;

use opifex::handle::delivered_count;
use opifex::worker::TwoWay;
use opifex::Worker;

fn rt() -> tokio::runtime::Runtime {
    tokio::runtime::Runtime::new().unwrap()
}

#[test]
fn publish_with_zero_subscribers_returns_zero() {
    let (_wk, h) = Worker::<TwoWay<u8, u32>>::create();
    let (_receiver, reply) = h.receiver();
    assert_eq!(reply.post_message(5), 0);
    assert_eq!(reply.post_message(6), 0);
}

#[test]
fn delivered_count_maps_the_publish_outcome() {
    assert_eq!(delivered_count(Some(5)), 5);
    assert_eq!(delivered_count(Some(1)), 1);
    assert_eq!(delivered_count(None), 0);
}

#[test]
fn late_subscriber_never_observes_earlier_publishes() {
    rt().block_on(async {
        let (wk, h) = Worker::<TwoWay<u8, u32>>::create();
        let (_receiver, reply) = h.receiver();
        assert_eq!(reply.post_message(1), 0);
        assert_eq!(reply.post_message(2), 0);
        let (_sub_wk, sub_h) = wk.subscribe();
        let (mut events, _iso) = sub_h.receiver();
        assert_eq!(reply.post_message(3), 1);
        let got = tokio::time::timeout(Duration::from_secs(2), events.recv())
            .await
            .unwrap()
            .unwrap();
        assert_eq!(got, 3);
        assert!(events.try_recv().is_err());
    });
}

#[test]
fn subscribers_created_together_observe_independently() {
    rt().block_on(async {
        let (wk, h) = Worker::<TwoWay<u8, u32>>::create();
        let (_receiver, reply) = h.receiver();
        let (sub_wk_a, sub_a) = wk.subscribe();
        let (_sub_wk_b, sub_b) = wk.subscribe();
        let (mut events_a, _iso_a) = sub_a.receiver();
        let (mut events_b, _iso_b) = sub_b.receiver();
        assert_eq!(reply.post_message(10), 2);
        assert_eq!(reply.post_message(20), 2);
        assert_eq!(events_b.recv().await.unwrap(), 10);
        assert_eq!(events_b.recv().await.unwrap(), 20);
        assert_eq!(events_a.recv().await.unwrap(), 10);
        assert_eq!(events_a.recv().await.unwrap(), 20);
        sub_wk_a.terminate();
        assert_eq!(reply.post_message(30), 2);
        assert_eq!(events_b.recv().await.unwrap(), 30);
    });
}

#[test]
fn slow_subscriber_drops_oldest_without_stalling_the_publisher() {
    rt().block_on(async {
        let (wk, h) = Worker::<TwoWay<u8, u32>>::create();
        let (_receiver, reply) = h.receiver();
        let (_sub_wk, sub_h) = wk.subscribe();
        let (mut events, _iso) = sub_h.receiver();
        let mut i: u32 = 0;
        while i < 1030 {
            assert_eq!(reply.post_message(i), 1);
            i += 1;
        }
        let first = events.recv().await;
        assert!(matches!(
            first,
            Err(tokio::sync::broadcast::error::RecvError::Lagged(_))
        ));
        let next = events.recv().await.unwrap();
        assert_eq!(next, 6);
    });
}
