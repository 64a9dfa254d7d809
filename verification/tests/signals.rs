use signal_hook::consts::signal::{SIGHUP, SIGINT, SIGQUIT, SIGTERM, SIGUSR1};
use wixet_bootstrap::signals::{classify, signal_set, SignalKind};

#[test]
fn classify_recognises_the_four_signals() {
    assert_eq!(classify(SIGHUP), Some(SignalKind::Reload));
    assert_eq!(classify(SIGTERM), Some(SignalKind::Terminate));
    assert_eq!(classify(SIGINT), Some(SignalKind::Interrupt));
    assert_eq!(classify(SIGQUIT), Some(SignalKind::Quit));
}

#[test]
fn classify_by_number() {
    assert_eq!(classify(1), Some(SignalKind::Reload));
    assert_eq!(classify(2), Some(SignalKind::Interrupt));
    assert_eq!(classify(3), Some(SignalKind::Quit));
    assert_eq!(classify(15), Some(SignalKind::Terminate));
}

#[test]
fn classify_rejects_other_numbers() {
    assert_eq!(classify(SIGUSR1), None);
    assert_eq!(classify(0), None);
    assert_eq!(classify(4), None);
    assert_eq!(classify(14), None);
    assert_eq!(classify(16), None);
    assert_eq!(classify(-1), None);
    assert_eq!(classify(i32::MAX), None);
    assert_eq!(classify(i32::MIN), None);
}

#[test]
fn signal_set_is_the_four_signals_in_order() {
    assert_eq!(signal_set(), vec![SIGHUP, SIGTERM, SIGINT, SIGQUIT]);
    assert_eq!(signal_set(), vec![1, 15, 2, 3]);
}

#[test]
fn every_member_of_the_set_is_classified() {
    for raw in signal_set() {
        assert!(classify(raw).is_some());
    }
}

#[test]
fn raw_gives_the_signal_number() {
    assert_eq!(SignalKind::Reload.raw(), SIGHUP);
    assert_eq!(SignalKind::Terminate.raw(), SIGTERM);
    assert_eq!(SignalKind::Interrupt.raw(), SIGINT);
    assert_eq!(SignalKind::Quit.raw(), SIGQUIT);
}

#[test]
fn classify_inverts_raw() {
    for kind in [
        SignalKind::Reload,
        SignalKind::Terminate,
        SignalKind::Interrupt,
        SignalKind::Quit,
    ] {
        assert_eq!(classify(kind.raw()), Some(kind));
    }
}

#[test]
fn only_reload_is_not_terminating() {
    assert!(!SignalKind::Reload.is_terminating());
    assert!(SignalKind::Terminate.is_terminating());
    assert!(SignalKind::Interrupt.is_terminating());
    assert!(SignalKind::Quit.is_terminating());
}
