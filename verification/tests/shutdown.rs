use dns_bootstrap::shutdown::CancellationToken;
use dns_bootstrap::shutdown::ShutdownAction;
use dns_bootstrap::shutdown::ShutdownCoordinator;

#[test]
fn token_starts_unset() {
    let token = CancellationToken::new();
    assert!(!token.is_cancelled());
}

#[test]
fn cancel_twice_is_cancel_once() {
    let mut once = CancellationToken::new();
    once.cancel();
    let mut twice = CancellationToken::new();
    twice.cancel();
    assert!(twice.is_cancelled());
    twice.cancel();
    assert!(twice.is_cancelled());
    assert_eq!(once, twice);
}

#[test]
fn first_signal_cancels_later_ones_do_nothing() {
    let mut coordinator = ShutdownCoordinator::new();
    assert!(coordinator.keep_serving());
    assert_eq!(coordinator.on_signal(), ShutdownAction::Cancel);
    assert!(!coordinator.keep_serving());
    assert_eq!(coordinator.on_signal(), ShutdownAction::Nothing);
    assert_eq!(coordinator.on_signal(), ShutdownAction::Nothing);
    assert!(!coordinator.keep_serving());
    assert!(coordinator.token.is_cancelled());
}
