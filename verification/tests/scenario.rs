use std::time::Duration;

use opifex::worker::TwoWay;
use opifex::Worker;

#[derive(Clone, Debug, PartialEq)]
struct Sum {
    a: i32,
    b: i32,
}

#[derive(Clone, Debug, PartialEq)]
struct Outcome {
    sum: i32,
}

#[test]
fn adder_task_with_late_subscriber() {
    let runtime = tokio::runtime::Runtime::new().unwrap();
    runtime.block_on(async {
        let (wk, h) = Worker::<TwoWay<Sum, Outcome>>::create();
        let (mut sums, reply) = h.receiver();
        let adder = tokio::spawn(async move {
            let mut count: usize = 0;
            while let Some(Sum { a, b }) = sums.recv().await {
                count += 1;
                reply.post_message(Outcome { sum: a.saturating_add(b) });
            }
            reply.terminated().await;
            count
        });

        let (sub_wk, sub_h) = wk.subscribe();
        let (mut results, _iso) = sub_h.receiver();

        let sender = wk.sender();
        sender.send(Sum { a: 24, b: 28 }).await.unwrap();
        sender.send(Sum { a: 123, b: 45 }).await.unwrap();

        // Terminating the subscriber's own worker touches only that
        // relationship: the adder keeps consuming.
        sub_wk.terminate();
        sender.send(Sum { a: 100, b: 196 }).await.unwrap();
        drop(sender);

        // Terminating the two-way worker lets the adder wind down; it has
        // seen every message, in order, with no loss.
        wk.terminate();
        let count = tokio::time::timeout(Duration::from_secs(5), adder)
            .await
            .expect("the adder must observe termination and stop")
            .unwrap();
        assert_eq!(count, 3);

        // Events queued to the subscriber before the terminations are
        // still delivered, in publish order.
        assert_eq!(results.recv().await.unwrap(), Outcome { sum: 52 });
        assert_eq!(results.recv().await.unwrap(), Outcome { sum: 168 });
        assert_eq!(results.recv().await.unwrap(), Outcome { sum: 296 });
    });
}
