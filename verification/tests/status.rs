use zally_wallet::circuit_breaker::CircuitBreakerState;
use zally_wallet::domain::{BlockHeight, Network};
use zally_wallet::event::{event_from_delivery, EventDelivery, WalletEvent};
use zally_wallet::metrics::WalletMetrics;
use zally_wallet::status::{
    compute_lag_blocks, observer_count, sync_status_from_heights, RecordedHeights, SyncStatus,
    WalletStatus,
};

#[test]
fn sync_status_reports_not_started_without_heights() {
    assert_eq!(sync_status_from_heights(None, None), SyncStatus::NotStarted);
    assert_eq!(compute_lag_blocks(None, None), None);
}

#[test]
fn sync_status_reports_lag_when_tip_is_ahead() {
    assert_eq!(
        sync_status_from_heights(Some(BlockHeight::from(7)), Some(BlockHeight::from(10))),
        SyncStatus::CatchingUp {
            scanned_height: BlockHeight::from(7),
            target_height: BlockHeight::from(10),
            lag_blocks: 3,
        }
    );
    assert_eq!(
        compute_lag_blocks(Some(BlockHeight::from(7)), Some(BlockHeight::from(10))),
        Some(3)
    );
}

#[test]
fn sync_status_reports_tip_regress_without_negative_lag() {
    assert_eq!(
        sync_status_from_heights(Some(BlockHeight::from(10)), Some(BlockHeight::from(7))),
        SyncStatus::TipRegressed {
            scanned_height: BlockHeight::from(10),
            chain_tip_height: BlockHeight::from(7),
        }
    );
    assert_eq!(
        compute_lag_blocks(Some(BlockHeight::from(10)), Some(BlockHeight::from(7))),
        None
    );
}

#[test]
fn sync_status_of_half_known_and_equal_heights() {
    let ten = BlockHeight::from(10);
    assert_eq!(
        sync_status_from_heights(Some(ten), None),
        SyncStatus::WaitingForTip {
            scanned_height: ten
        }
    );
    assert_eq!(
        sync_status_from_heights(None, Some(ten)),
        SyncStatus::Starting { target_height: ten }
    );
    assert_eq!(
        sync_status_from_heights(Some(ten), Some(ten)),
        SyncStatus::AtTip { tip_height: ten }
    );
    assert_eq!(compute_lag_blocks(Some(ten), Some(ten)), Some(0));
}

#[test]
fn a_status_feeds_the_metrics() {
    let status = WalletStatus::from_heights(
        Network::Testnet,
        RecordedHeights {
            scanned_height: Some(BlockHeight::from(7)),
            chain_tip_height: Some(BlockHeight::from(10)),
            settled_tip_height: Some(BlockHeight::from(9)),
        },
        4,
        CircuitBreakerState::Open,
    );
    assert_eq!(status.lag_blocks, Some(3));
    assert_eq!(status.account_count, 1);
    assert_eq!(status.settled_tip_height, Some(BlockHeight::from(9)));
    let metrics = WalletMetrics::from_status(&status);
    assert_eq!(metrics.network, Network::Testnet);
    assert_eq!(metrics.lag_blocks, Some(3));
    assert_eq!(metrics.event_subscriber_count, 4);
    assert_eq!(metrics.circuit_breaker, CircuitBreakerState::Open);
}

#[test]
fn observers_and_missed_events_are_counted() {
    assert_eq!(observer_count(3), 3);
    assert!(matches!(
        event_from_delivery(EventDelivery::Missed(9)),
        WalletEvent::Lagged { dropped_count: 9 }
    ));
    let progress = EventDelivery::Event(WalletEvent::ScanProgress {
        scanned_height: BlockHeight::from(1),
        target_height: BlockHeight::from(2),
    });
    assert!(matches!(
        event_from_delivery(progress),
        WalletEvent::ScanProgress { .. }
    ));
}
