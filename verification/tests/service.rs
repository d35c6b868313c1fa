use counter_service::msg::Msg;
use counter_service::service::{health_check, token_ok, App, ResetError};
use futures::channel::mpsc::TryRecvError;

const SECRET: &str = "P_LEON_KHOD_THEP";

#[test]
fn health_check_is_fixed_text() {
    assert_eq!(health_check(), "OK");
}

#[test]
fn increments_accumulate_per_counter() {
    let mut app = App::default();
    app.increment(1);
    app.increment(1);
    app.increment(1);
    let m = app.get_message();
    assert_eq!(m.to_tuple(), (3, 0, 0, 0));
    app.increment(2);
    app.increment(4);
    let m = app.get_message();
    assert_eq!(m.to_tuple(), (3, 1, 0, 1));
}

#[test]
fn increment_wraps_at_counter_width() {
    let mut app = App::with_counts(u32::MAX, 7, u32::MAX, 0);
    app.increment(1);
    assert_eq!(app.get_message().to_tuple(), (0, 7, u32::MAX, 0));
    app.increment(3);
    assert_eq!(app.get_message().to_tuple(), (0, 7, 0, 0));
}

#[test]
fn reset_all_zeroes_every_counter() {
    let mut app = App::with_counts(5, 0, 12, u32::MAX);
    app.increment(2);
    app.reset_all();
    assert_eq!(app.get_message().to_tuple(), (0, 0, 0, 0));
}

#[test]
fn every_mutation_notifies_the_consumer() {
    let mut app = App::default();
    let mut rx = app.open_stream();
    app.increment(1);
    assert_eq!(app.get_message().to_tuple(), (1, 0, 0, 0));
    assert_eq!(rx.try_recv().unwrap(), (1, 0, 0, 0));
    app.increment(4);
    assert_eq!(rx.try_recv().unwrap(), (1, 0, 0, 1));
    app.reset_all();
    assert_eq!(rx.try_recv().unwrap(), (0, 0, 0, 0));
    assert!(matches!(rx.try_recv(), Err(TryRecvError::Empty)));
}

#[test]
fn second_consumer_replaces_the_first() {
    let mut app = App::default();
    let mut rx1 = app.open_stream();
    app.increment(1);
    assert_eq!(rx1.try_recv().unwrap(), (1, 0, 0, 0));
    let mut rx2 = app.open_stream();
    app.increment(2);
    app.increment(2);
    // Every event after the replacement reaches only the second consumer.
    assert_eq!(rx2.try_recv().unwrap(), (1, 1, 0, 0));
    assert_eq!(rx2.try_recv().unwrap(), (1, 2, 0, 0));
    // The first consumer's channel closed when its sender left the slot and
    // carries nothing beyond what it received before the replacement.
    assert!(matches!(rx1.try_recv(), Err(TryRecvError::Closed)));
}

#[test]
fn dropped_consumer_is_a_silent_sink() {
    let mut app = App::default();
    let rx = app.open_stream();
    drop(rx);
    // Delivery fails now, and that is dropped silently; counting goes on.
    app.increment(3);
    app.increment(3);
    assert_eq!(app.get_message().to_tuple(), (0, 0, 2, 0));
}

#[test]
fn snapshots_while_nobody_listens_are_dropped() {
    let mut app = App::default();
    app.increment(1);
    app.increment(2);
    let mut rx = app.open_stream();
    // No replay of history: the stream starts empty.
    assert!(matches!(rx.try_recv(), Err(TryRecvError::Empty)));
    app.increment(1);
    assert_eq!(rx.try_recv().unwrap(), (2, 1, 0, 0));
}

#[test]
fn stream_opened_late_sees_only_new_snapshots() {
    let mut app = App::default();
    app.increment(1);
    app.increment(1);
    app.increment(1);
    app.increment(2);
    let mut rx = app.open_stream();
    assert!(matches!(rx.try_recv(), Err(TryRecvError::Empty)));
    app.increment(3);
    assert_eq!(rx.try_recv().unwrap(), (3, 1, 1, 0));
}

#[test]
fn reset_with_wrong_token_changes_nothing() {
    let mut app = App::with_counts(4, 2, 0, 9);
    let mut rx = app.open_stream();
    assert_eq!(app.reset(""), Err(ResetError::InvalidToken));
    assert_eq!(app.reset("p_leon_khod_thep"), Err(ResetError::InvalidToken));
    assert_eq!(app.reset("P_LEON_KHOD_THEP "), Err(ResetError::InvalidToken));
    // No counter change and no notification came out of the refusals.
    assert_eq!(app.get_message().to_tuple(), (4, 2, 0, 9));
    assert!(matches!(rx.try_recv(), Err(TryRecvError::Empty)));
}

#[test]
fn reset_with_correct_token_zeroes_and_notifies_once() {
    let mut app = App::with_counts(4, 2, 0, 9);
    let mut rx = app.open_stream();
    assert_eq!(app.reset(SECRET), Ok(()));
    assert_eq!(app.get_message().to_tuple(), (0, 0, 0, 0));
    assert_eq!(rx.try_recv().unwrap(), (0, 0, 0, 0));
    assert!(matches!(rx.try_recv(), Err(TryRecvError::Empty)));
}

#[test]
fn token_check_is_exact() {
    assert!(token_ok(SECRET));
    assert!(!token_ok(""));
    assert!(!token_ok("P_LEON_KHOD_THE"));
    assert!(!token_ok("P_LEON_KHOD_THEPP"));
    assert!(!token_ok("Q_LEON_KHOD_THEP"));
}

#[test]
fn fresh_service_reads_zero() {
    let app = App::default();
    assert_eq!(app.get_message().to_tuple(), (0, 0, 0, 0));
}

#[test]
fn set_writer_registers_the_given_sender() {
    let mut app = App::default();
    let (tx, mut rx) = futures::channel::mpsc::unbounded();
    app.set_writer(tx);
    app.increment(2);
    assert_eq!(rx.try_recv().unwrap(), (0, 1, 0, 0));
}

#[test]
fn snapshot_tuple_round_trip() {
    let m = Msg { score_1: 1, score_2: 2, score_3: 3, score_4: 4 };
    let t = m.to_tuple();
    assert_eq!(t, (1, 2, 3, 4));
    assert_eq!(Msg::from_tuple(t), m);
}
