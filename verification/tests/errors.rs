use ractor::ActorErr;
use ractor::MessagingErr;
use ractor::SpawnErr;

#[test]
fn startup_panic_rendering_interpolates_description() {
    let e = SpawnErr::StartupPanic(String::from("boom"));
    assert_eq!(e.render(), "Actor panicked during startup 'boom'");
}

#[test]
fn startup_panic_rendering_keeps_description_verbatim() {
    let e = SpawnErr::StartupPanic(String::from("index out of bounds: the len is 0"));
    let r = e.render();
    assert!(r.contains("index out of bounds: the len is 0"));
    assert_eq!(r, "Actor panicked during startup 'index out of bounds: the len is 0'");
}

#[test]
fn startup_panic_rendering_with_empty_description() {
    let e = SpawnErr::StartupPanic(String::new());
    assert_eq!(e.render(), "Actor panicked during startup ''");
}

#[test]
fn startup_cancelled_rendering_is_fixed_text() {
    let e = SpawnErr::StartupCancelled;
    assert_eq!(
        e.render(),
        "Actor failed to startup due to processing task being cancelled"
    );
}

#[test]
fn already_started_rendering_is_fixed_text() {
    let e = SpawnErr::ActorAlreadyStarted;
    assert_eq!(e.render(), "Actor cannot be re-started more than once");
}

#[test]
fn second_start_signals_already_started_only() {
    // A second start on the same handle is reported as the usage error, never
    // as a panic and never as a cancellation.
    let e = SpawnErr::ActorAlreadyStarted;
    assert!(matches!(e, SpawnErr::ActorAlreadyStarted));
    assert!(!matches!(e, SpawnErr::StartupPanic(_)));
    assert!(!matches!(e, SpawnErr::StartupCancelled));
}

#[test]
fn actor_panic_rendering_interpolates_description() {
    let e = ActorErr::Panic(String::from("boom"));
    assert_eq!(e.render(), "Actor panicked 'boom'");
}

#[test]
fn actor_panic_rendering_with_empty_description() {
    let e = ActorErr::Panic(String::new());
    assert_eq!(e.render(), "Actor panicked ''");
}

#[test]
fn actor_cancelled_rendering_is_fixed_text() {
    let e = ActorErr::Cancelled;
    assert_eq!(e.render(), "Actor operation cancelled");
}

#[test]
fn cancellation_variants_render_distinct() {
    // A cancelled startup and a cancelled run loop are reported by different
    // families and never read alike in a log.
    let s = SpawnErr::StartupCancelled.render();
    let a = ActorErr::Cancelled.render();
    assert_ne!(s, a);
}

#[test]
fn spawn_renderings_are_pairwise_distinct() {
    let p = SpawnErr::StartupPanic(String::from("boom")).render();
    let c = SpawnErr::StartupCancelled.render();
    let a = SpawnErr::ActorAlreadyStarted.render();
    assert_ne!(p, c);
    assert_ne!(p, a);
    assert_ne!(c, a);
}

#[test]
fn messaging_rendering_is_fixed_text() {
    let e = MessagingErr::ChannelClosed;
    assert_eq!(e.render(), "Messaging failed because channel is closed");
}

#[test]
fn all_four_conversions_yield_channel_closed() {
    let ordinary = MessagingErr::from(tokio::sync::mpsc::error::SendError(1u32));
    let nonblocking = MessagingErr::from(tokio::sync::mpsc::error::TrySendError::Closed(1u32));
    let broadcast = MessagingErr::from(tokio::sync::broadcast::error::SendError(1u32));
    let watch = MessagingErr::from(tokio::sync::watch::error::SendError(1u32));
    assert_eq!(ordinary, MessagingErr::ChannelClosed);
    assert_eq!(nonblocking, MessagingErr::ChannelClosed);
    assert_eq!(broadcast, MessagingErr::ChannelClosed);
    assert_eq!(watch, MessagingErr::ChannelClosed);
}

#[test]
fn all_four_conversions_render_identically() {
    let expected = "Messaging failed because channel is closed";
    let ordinary = MessagingErr::from(tokio::sync::mpsc::error::SendError(7i64));
    let nonblocking = MessagingErr::from(tokio::sync::mpsc::error::TrySendError::Closed(7i64));
    let broadcast = MessagingErr::from(tokio::sync::broadcast::error::SendError(7i64));
    let watch = MessagingErr::from(tokio::sync::watch::error::SendError(7i64));
    assert_eq!(ordinary.render(), expected);
    assert_eq!(nonblocking.render(), expected);
    assert_eq!(broadcast.render(), expected);
    assert_eq!(watch.render(), expected);
}

#[test]
fn full_mailbox_try_send_signal_also_converts() {
    let e = MessagingErr::from(tokio::sync::mpsc::error::TrySendError::Full(3u8));
    assert_eq!(e, MessagingErr::ChannelClosed);
}

#[test]
fn send_to_closed_point_to_point_mailbox() {
    let (tx, rx) = tokio::sync::mpsc::channel::<u32>(4);
    drop(rx);
    let err = tx.blocking_send(5).expect_err("receiver is gone");
    let e = MessagingErr::from(err);
    assert_eq!(e.render(), "Messaging failed because channel is closed");
}

#[test]
fn try_send_to_closed_point_to_point_mailbox() {
    let (tx, rx) = tokio::sync::mpsc::channel::<u32>(4);
    drop(rx);
    let err = tx.try_send(5).expect_err("receiver is gone");
    let e = MessagingErr::from(err);
    assert_eq!(e, MessagingErr::ChannelClosed);
}

#[test]
fn broadcast_send_without_receivers() {
    let (tx, rx) = tokio::sync::broadcast::channel::<u32>(4);
    drop(rx);
    let err = tx.send(5).expect_err("every receiver is gone");
    let e = MessagingErr::from(err);
    assert_eq!(e, MessagingErr::ChannelClosed);
}

#[test]
fn watch_send_after_receiver_dropped() {
    let (tx, rx) = tokio::sync::watch::channel::<u32>(0);
    drop(rx);
    let err = tx.send(5).expect_err("every receiver is gone");
    let e = MessagingErr::from(err);
    assert_eq!(e, MessagingErr::ChannelClosed);
}

#[test]
fn hundred_independent_senders_each_observe_channel_closed() {
    let (tx, rx) = tokio::sync::mpsc::channel::<usize>(1);
    let senders: Vec<_> = (0..100).map(|_| tx.clone()).collect();
    drop(rx);
    for (i, sender) in senders.into_iter().enumerate() {
        // try_send never blocks; on a closed mailbox it never succeeds.
        let err = sender.try_send(i).expect_err("receiver is gone");
        let e = MessagingErr::from(err);
        assert_eq!(e, MessagingErr::ChannelClosed);
        assert_eq!(e.render(), "Messaging failed because channel is closed");
    }
}
