use benchmark_proxy::height::{height_from_notification, parse_block_number, secondary_lags};
use benchmark_proxy::tracker::{watch_step, WatchAction, WatchEvent, WatchPhase};

#[test]
fn unknown_primary_is_never_behind() {
    assert!(!secondary_lags(None, Some(1), 5));
    assert!(!secondary_lags(None, None, 5));
}

#[test]
fn unknown_secondary_is_behind() {
    assert!(secondary_lags(Some(100), None, 5));
}

#[test]
fn within_tolerance_is_not_behind() {
    assert!(!secondary_lags(Some(100), Some(95), 5));
    assert!(!secondary_lags(Some(100), Some(100), 5));
    assert!(!secondary_lags(Some(100), Some(120), 5));
}

#[test]
fn beyond_tolerance_is_behind() {
    assert!(secondary_lags(Some(100), Some(90), 5));
    assert!(secondary_lags(Some(100), Some(94), 5));
    assert!(secondary_lags(Some(1), Some(0), 0));
}

#[test]
fn parses_hex_block_numbers() {
    assert_eq!(parse_block_number("0x1b4"), Some(436));
    assert_eq!(parse_block_number("0x0"), Some(0));
    assert_eq!(parse_block_number("ff"), Some(255));
    assert_eq!(parse_block_number("0xABC"), Some(2748));
    assert_eq!(parse_block_number("0x0x10"), Some(16));
    assert_eq!(parse_block_number("+1f"), Some(31));
    assert_eq!(parse_block_number("0xffffffffffffffff"), Some(u64::MAX));
}

#[test]
fn rejects_bad_block_numbers() {
    assert_eq!(parse_block_number(""), None);
    assert_eq!(parse_block_number("0x"), None);
    assert_eq!(parse_block_number("0xg1"), None);
    assert_eq!(parse_block_number("+"), None);
    assert_eq!(parse_block_number("-1"), None);
    assert_eq!(parse_block_number("0x10000000000000000"), None);
}

#[test]
fn only_subscription_notifications_carry_heights() {
    assert_eq!(height_from_notification("eth_subscription", "0x10"), Some(16));
    assert_eq!(height_from_notification("eth_subscribe", "0x10"), None);
    assert_eq!(height_from_notification("eth_subscription", "nope"), None);
}

#[test]
fn feed_connects_subscribes_and_reads() {
    let (p, a) = watch_step(WatchPhase::Connecting, WatchEvent::Connected);
    assert_eq!((p, a), (WatchPhase::Subscribing, WatchAction::SendSubscribe));
    let (p, a) = watch_step(p, WatchEvent::SubscribeSent);
    assert_eq!((p, a), (WatchPhase::Reading, WatchAction::ReadFrame));
    let (p, a) = watch_step(p, WatchEvent::Height(42));
    assert_eq!((p, a), (WatchPhase::Reading, WatchAction::StoreHeight(42)));
    let (p, a) = watch_step(p, WatchEvent::OtherFrame);
    assert_eq!((p, a), (WatchPhase::Reading, WatchAction::ReadFrame));
}

#[test]
fn feed_reconnects_after_failures() {
    assert_eq!(
        watch_step(WatchPhase::Reading, WatchEvent::StreamClosed),
        (WatchPhase::Waiting, WatchAction::SleepBeforeReconnect)
    );
    assert_eq!(
        watch_step(WatchPhase::Connecting, WatchEvent::ConnectFailed),
        (WatchPhase::Waiting, WatchAction::SleepBeforeReconnect)
    );
    assert_eq!(
        watch_step(WatchPhase::Subscribing, WatchEvent::SubscribeFailed),
        (WatchPhase::Waiting, WatchAction::SleepBeforeReconnect)
    );
    assert_eq!(watch_step(WatchPhase::Waiting, WatchEvent::DelayElapsed), (WatchPhase::Connecting, WatchAction::Connect));
}

#[test]
fn feed_stops_on_shutdown() {
    assert_eq!(watch_step(WatchPhase::Reading, WatchEvent::Shutdown), (WatchPhase::Stopped, WatchAction::CloseAndExit));
    assert_eq!(watch_step(WatchPhase::Subscribing, WatchEvent::Shutdown), (WatchPhase::Stopped, WatchAction::CloseAndExit));
    assert_eq!(watch_step(WatchPhase::Connecting, WatchEvent::Shutdown), (WatchPhase::Stopped, WatchAction::Exit));
    assert_eq!(watch_step(WatchPhase::Waiting, WatchEvent::Shutdown), (WatchPhase::Stopped, WatchAction::Exit));
    assert_eq!(watch_step(WatchPhase::Stopped, WatchEvent::Connected), (WatchPhase::Stopped, WatchAction::Exit));
}
