use zally_wallet::boundary_error::{
    ChainSourceError, ChainSourceErrorKind, FailurePosture, StorageError, StorageErrorKind,
    UtxoSetDefect,
};
use zally_wallet::domain::{AccountId, BlockHeight, TxId, Zatoshis};
use zally_wallet::error::WalletError;
use zally_wallet::event::WalletEvent;
use zally_wallet::outpoint_set::OutPointSet;
use zally_wallet::sync::attempt::ChainEpoch;
use zally_wallet::transparent_utxo_refresh::{
    validate_transparent_utxo_batch, RefreshAction, RefreshLoop, RefreshWake, RefreshWalk,
    TransparentReceiverRow, TransparentUtxo, TransparentUtxoBatch,
};

fn transparent_test_epoch() -> ChainEpoch {
    ChainEpoch {
        id: 1,
        visible_tip: BlockHeight::from(10),
        settled_tip: BlockHeight::from(10),
    }
}

fn transparent_receiver(id: u128, script: &[u8]) -> TransparentReceiverRow {
    TransparentReceiverRow::new(AccountId(id), script.to_vec())
}

fn transparent_utxo(tx_byte: u8, script: &[u8], height: u32) -> TransparentUtxo {
    TransparentUtxo {
        tx_id: TxId::from_bytes([tx_byte; 32]),
        output_index: 0,
        value_zat: Zatoshis::from_u64(1).unwrap_or(Zatoshis::zero()),
        confirmed_at_height: BlockHeight::from(height),
        script_pub_key_bytes: script.to_vec(),
    }
}

fn defect_of(error: WalletError) -> UtxoSetDefect {
    match error {
        WalletError::ChainSource(ChainSourceError {
            kind: ChainSourceErrorKind::MalformedTransparentUtxoSet { defect },
            ..
        }) => defect,
        other => panic!("expected a malformed UTXO set, got {other:?}"),
    }
}

#[test]
fn malformed_receiver_yields_no_storage_batch() {
    let mut seen = OutPointSet::new();
    let receiver = transparent_receiver(1, &[1]);
    let result = validate_transparent_utxo_batch(
        transparent_test_epoch(),
        &receiver,
        vec![transparent_utxo(1, &[1], 11)],
        &mut seen,
    );
    assert!(matches!(
        defect_of(result.expect_err("confirmed above the tip")),
        UtxoSetDefect::ConfirmedAboveTip { .. }
    ));
}

#[test]
fn cross_receiver_duplicate_yields_no_storage_batch() {
    let mut seen = OutPointSet::new();
    let duplicate = transparent_utxo(1, &[1], 9);
    let first_receiver = transparent_receiver(1, &[1]);
    let first = validate_transparent_utxo_batch(
        transparent_test_epoch(),
        &first_receiver,
        vec![duplicate.clone()],
        &mut seen,
    );
    assert!(first.is_ok(), "the first receiver's read is well-formed");

    let second_receiver = transparent_receiver(2, &[1]);
    let second = validate_transparent_utxo_batch(
        transparent_test_epoch(),
        &second_receiver,
        vec![duplicate],
        &mut seen,
    );
    assert!(matches!(
        defect_of(second.expect_err("reported twice")),
        UtxoSetDefect::Repeated { .. }
    ));
}

#[test]
fn script_mismatch_yields_no_storage_batch() {
    let mut seen = OutPointSet::new();
    let receiver = transparent_receiver(1, &[1]);
    let result = validate_transparent_utxo_batch(
        transparent_test_epoch(),
        &receiver,
        vec![transparent_utxo(1, &[2], 9)],
        &mut seen,
    );
    assert!(matches!(
        defect_of(result.expect_err("another script")),
        UtxoSetDefect::ScriptMismatch { .. }
    ));
}

#[test]
fn well_formed_batch_yields_one_row_per_utxo() {
    let mut seen = OutPointSet::new();
    let receiver = transparent_receiver(1, &[1]);
    let rows = validate_transparent_utxo_batch(
        transparent_test_epoch(),
        &receiver,
        vec![transparent_utxo(1, &[1], 9), transparent_utxo(2, &[1], 10)],
        &mut seen,
    )
    .expect("well-formed batch validates");
    assert_eq!(rows.len(), 2);
    assert_eq!(rows[1].mined_height, BlockHeight::from(10));
    assert_eq!(rows[1].script_pub_key_bytes, vec![1]);
    assert_eq!(seen.len(), 2);
}

/// Storage that rejects a batch pinned above its scanned frontier.
fn record_at_frontier(
    frontier: BlockHeight,
    batch: &TransparentUtxoBatch,
) -> Result<u64, StorageError> {
    match batch.min_scanned_height {
        Some(floor) if frontier < floor => Err(StorageError::scan_frontier_receded()),
        _ => Ok(batch.rows.len() as u64),
    }
}

/// A reorg rewind landing between one receiver's chain read and its commit must reject the
/// commit rather than write UTXOs against blocks the wallet no longer attests.
#[test]
fn reorg_rewind_mid_walk_prevents_the_commit() {
    let walk = RefreshWalk::start(
        transparent_test_epoch(),
        Some(BlockHeight::from(50)),
        vec![transparent_receiver(1, &[1])],
    );
    let fetch = match walk {
        RefreshWalk::Fetch(fetch) => fetch,
        other => panic!("one receiver is to be fetched, got {other:?}"),
    };
    let rewound_to = BlockHeight::from(10);
    let (_commit, batch) = fetch.fetched(Vec::new()).expect("an empty set is sound");
    let result = record_at_frontier(rewound_to, &batch).map_err(WalletError::from);
    assert!(matches!(
        result,
        Err(WalletError::Storage(StorageError {
            kind: StorageErrorKind::ScanFrontierReceded,
            posture: FailurePosture::Restartable,
        }))
    ));
}

#[test]
fn a_walk_visits_every_receiver_and_counts_what_was_recorded() {
    let mut walk = RefreshWalk::start(
        transparent_test_epoch(),
        None,
        vec![
            transparent_receiver(1, &[1]),
            transparent_receiver(1, &[2]),
        ],
    );
    let mut scripts = Vec::new();
    let finished = loop {
        walk = match walk {
            RefreshWalk::Fetch(fetch) => {
                assert_eq!(fetch.epoch(), transparent_test_epoch());
                let script = fetch.script_pub_key_bytes().clone();
                let utxo = transparent_utxo(script[0], &script, 9);
                scripts.push(script);
                let (commit, batch) = fetch.fetched(vec![utxo]).expect("sound");
                assert_eq!(batch.min_scanned_height, None);
                commit.recorded(batch.rows.len() as u64)
            }
            RefreshWalk::Finished(finished) => {
                assert_eq!(scripts, vec![vec![1], vec![2]]);
                let outcome = finished.outcome(77);
                break outcome;
            }
        };
    };
    assert_eq!(finished.receivers_visited, 2);
    assert_eq!(finished.utxo_count, 2);
    assert_eq!(finished.completed_at_ms, 77);
}

#[test]
fn a_repeat_under_another_receiver_aborts_the_walk() {
    let walk = RefreshWalk::start(
        transparent_test_epoch(),
        None,
        vec![
            transparent_receiver(1, &[1]),
            transparent_receiver(2, &[1]),
        ],
    );
    let RefreshWalk::Fetch(first) = walk else {
        panic!("two receivers are to be fetched");
    };
    let (commit, _) = first
        .fetched(vec![transparent_utxo(4, &[1], 9)])
        .expect("sound");
    let RefreshWalk::Fetch(second) = commit.recorded(1) else {
        panic!("one receiver is left");
    };
    let error = second
        .fetched(vec![transparent_utxo(4, &[1], 9)])
        .expect_err("the outpoint was seen");
    assert!(matches!(defect_of(error), UtxoSetDefect::Repeated { .. }));
}

#[test]
fn the_refresh_loop_waits_first_and_counts_its_failures() {
    let (mut refresh, first) = RefreshLoop::start(30_000, 12);
    assert_eq!(first, RefreshAction::Sleep { interval_ms: 30_000 });
    let (event, action) = refresh.woken(RefreshWake::Slept);
    assert!(event.is_none());
    assert_eq!(action, RefreshAction::Attempt { timeout_seconds: 12 });
    let (event, action) = refresh.woken(RefreshWake::Failed {
        error: WalletError::ProposalRejected {
            reason: "down".into(),
        },
    });
    assert_eq!(action, RefreshAction::Sleep { interval_ms: 30_000 });
    assert!(matches!(
        event,
        Some(WalletEvent::TransparentUtxoRefreshFaulted { consecutive_failures: 1, reason })
            if reason == "proposal rejected: down"
    ));
    let (event, _) = refresh.woken(RefreshWake::TimedOut);
    assert!(matches!(
        event,
        Some(WalletEvent::TransparentUtxoRefreshFaulted { consecutive_failures: 2, reason })
            if reason == "transparent UTXO refresh exceeded 12 seconds"
    ));
    let (event, _) = refresh.woken(RefreshWake::Completed);
    assert!(event.is_none());
    assert_eq!(refresh.consecutive_failures, 0);
    let (_, action) = refresh.woken(RefreshWake::Closed);
    assert_eq!(action, RefreshAction::Stop);
}
