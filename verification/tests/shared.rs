use kestrel::state::cell::State;
use kestrel::state::wait::{WaitPhase, Waiter};
use std::sync::Arc;
use std::time::Duration;
use tokio::sync::{Notify, RwLock};

/// A cell shared between tasks: tokio's lock hands out the borrows, tokio's
/// notify carries the wake signal.
#[derive(Clone)]
struct Shared {
    cell: Arc<RwLock<State<String>>>,
    notify: Arc<Notify>,
}

impl Shared {
    fn new() -> Self {
        Shared { cell: Arc::new(RwLock::new(State::new())), notify: Arc::new(Notify::new()) }
    }

    async fn set(&self, value: String) {
        let mut cell = self.cell.write().await;
        cell.write().set(value);
        self.notify.notify_waiters();
    }

    async fn step(&self, waiter: &mut Waiter) -> Option<String> {
        let cell = self.cell.read().await;
        cell.read().wait_step(waiter)
    }

    /// Waits for the value, pausing for `pause` before every step so that the
    /// store can fall between any two steps.
    async fn wait_forever(&self, pause: Duration) -> String {
        let mut waiter = Waiter::new();
        let mut notified = None;
        loop {
            tokio::time::sleep(pause).await;
            match waiter.phase {
                WaitPhase::Checking | WaitPhase::Rechecking => {
                    if let Some(value) = self.step(&mut waiter).await {
                        return value;
                    }
                }
                WaitPhase::Subscribing => {
                    notified = Some(Box::pin(self.notify.notified()));
                    let _ = self.step(&mut waiter).await;
                }
                WaitPhase::Suspended => {
                    if let Some(signal) = notified.take() {
                        signal.await;
                    }
                    let _ = self.step(&mut waiter).await;
                }
                WaitPhase::Done => unreachable!(),
            }
        }
    }
}

#[test]
fn readers_on_the_runtime_all_return_the_value() {
    let runtime = tokio::runtime::Builder::new_multi_thread().worker_threads(4).enable_all().build().unwrap();
    runtime.block_on(async {
        for round in 0..20u64 {
            let shared = Shared::new();
            let mut readers = Vec::new();
            for n in 0..12u64 {
                let reader = shared.clone();
                let pause = Duration::from_micros((n * 37 + round * 11) % 400);
                readers.push(tokio::spawn(async move { reader.wait_forever(pause).await }));
            }
            tokio::time::sleep(Duration::from_micros(150 + round * 20)).await;
            shared.set("X".to_string()).await;
            for n in 0..4u64 {
                let reader = shared.clone();
                readers.push(tokio::spawn(async move {
                    reader.wait_forever(Duration::from_micros(n * 50)).await
                }));
            }
            for reader in readers {
                let value = tokio::time::timeout(Duration::from_secs(5), reader).await;
                assert_eq!(value.unwrap().unwrap(), "X");
            }
        }
    });
}
