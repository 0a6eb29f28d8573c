//! What a transparent UTXO refresh records, and how its loop goes on.

use crate::boundary_error::UtxoSetDefect;
use crate::domain::{BlockHeight, OutPoint};
use crate::error::WalletError;
use crate::transparent_utxo_refresh::{
    RefreshAction, RefreshLoop, RefreshWake, RefreshWalk, TransparentReceiverRow, TransparentUtxo,
    TransparentUtxoRow, WalkState,
};
use vstd::prelude::*;

verus! {

/// A row records a UTXO exactly if it carries the UTXO's own transaction, index, value, height,
/// and script.
pub proof fn a_row_records_the_reported_output(row: TransparentUtxoRow, utxo: TransparentUtxo)
    ensures
        row.records(utxo) <==> {
            &&& row.tx_id == utxo.tx_id
            &&& row.output_index == utxo.output_index
            &&& row.value_zat == utxo.value_zat
            &&& row.mined_height == utxo.confirmed_at_height
            &&& row.script_pub_key_bytes@ == utxo.script_pub_key_bytes@
        },
{
}

/// Total value of reported outputs, in zatoshis.
pub open spec fn reported_value(utxos: Seq<TransparentUtxo>) -> int
    decreases utxos.len(),
{
    if utxos.len() == 0 {
        0
    } else {
        reported_value(utxos.drop_last()) + utxos.last().value_zat@
    }
}

/// Total value of rows, in zatoshis.
pub open spec fn recorded_value(rows: Seq<TransparentUtxoRow>) -> int
    decreases rows.len(),
{
    if rows.len() == 0 {
        0
    } else {
        recorded_value(rows.drop_last()) + rows.last().value_zat@
    }
}

/// No value is lost or made up: rows that record the reported outputs, one for one, are worth
/// together exactly what the source reported.
pub proof fn a_refresh_keeps_the_reported_value(
    utxos: Seq<TransparentUtxo>,
    rows: Seq<TransparentUtxoRow>,
)
    requires
        rows.len() == utxos.len(),
        forall|i: int| 0 <= i < utxos.len() ==> (#[trigger] rows[i]).records(utxos[i]),
    ensures
        recorded_value(rows) == reported_value(utxos),
    decreases utxos.len(),
{
    if utxos.len() > 0 {
        let last = utxos.len() - 1;
        assert(rows[last].records(utxos[last]));
        assert forall|i: int| 0 <= i < utxos.drop_last().len() implies (
        #[trigger] rows.drop_last()[i]).records(utxos.drop_last()[i]) by {
            assert(rows[i].records(utxos[i]));
        }
        a_refresh_keeps_the_reported_value(utxos.drop_last(), rows.drop_last());
    }
}

/// Two outputs share their place on chain exactly if they come from the same transaction at the
/// same index.
pub proof fn an_output_is_its_transaction_and_index(a: TransparentUtxo, b: TransparentUtxo)
    ensures
        a.outpoint() == b.outpoint() <==> a.tx_id == b.tx_id && a.output_index == b.output_index,
        a.outpoint().tx_id == a.tx_id,
        a.outpoint().output_index == a.output_index,
{
}

/// The places of outputs are theirs, one for one and in order.
pub proof fn each_output_keeps_its_place(utxos: Seq<TransparentUtxo>, index: int)
    requires
        0 <= index < utxos.len(),
    ensures
        crate::transparent_utxo_refresh::utxo_points(utxos).len() == utxos.len(),
        crate::transparent_utxo_refresh::utxo_points(utxos)[index].tx_id == utxos[index].tx_id,
        crate::transparent_utxo_refresh::utxo_points(utxos)[index].output_index
            == utxos[index].output_index,
{
}

/// An output is refused exactly if it is confirmed above the tip, was seen before, or does not
/// pay the receiver; the defect says which, and names the output.
pub proof fn a_defect_says_what_is_wrong(
    visible_tip: BlockHeight,
    receiver: TransparentReceiverRow,
    utxo: TransparentUtxo,
    seen: Seq<OutPoint>,
)
    ensures
        ({
            let point = OutPoint { tx_id: utxo.tx_id, output_index: utxo.output_index };
            let above = utxo.confirmed_at_height.0 > visible_tip.0;
            let repeated = seen.contains(point);
            let strays = utxo.script_pub_key_bytes@ != receiver.script_pub_key_bytes@;
            let defect = crate::transparent_utxo_refresh::utxo_defect(
                visible_tip,
                receiver,
                utxo,
                seen,
            );
            &&& defect is None <==> !above && !repeated && !strays
            &&& above ==> defect == Some(
                UtxoSetDefect::ConfirmedAboveTip {
                    outpoint: point,
                    confirmed_at_height: utxo.confirmed_at_height,
                    visible_tip,
                },
            )
            &&& !above && repeated ==> defect == Some(UtxoSetDefect::Repeated { outpoint: point })
            &&& !above && !repeated && strays ==> defect == Some(
                UtxoSetDefect::ScriptMismatch {
                    outpoint: point,
                    account_id: receiver.account_id,
                },
            )
        }),
{
}

/// A batch with any output that is confirmed above the tip or pays another script is refused,
/// and so is one that names a place twice or a place seen before.
pub proof fn a_batch_is_accepted_only_as_a_whole(
    visible_tip: BlockHeight,
    receiver: TransparentReceiverRow,
    utxos: Seq<TransparentUtxo>,
    seen: Seq<OutPoint>,
    i: int,
    j: int,
)
    requires
        crate::transparent_utxo_refresh::is_sound_batch(visible_tip, receiver, utxos, seen),
        0 <= i < j < utxos.len(),
    ensures
        utxos[i].confirmed_at_height.0 <= visible_tip.0,
        utxos[j].confirmed_at_height.0 <= visible_tip.0,
        utxos[i].script_pub_key_bytes@ == receiver.script_pub_key_bytes@,
        utxos[j].script_pub_key_bytes@ == receiver.script_pub_key_bytes@,
        utxos[i].tx_id != utxos[j].tx_id || utxos[i].output_index != utxos[j].output_index,
        !seen.contains(OutPoint { tx_id: utxos[i].tx_id, output_index: utxos[i].output_index }),
{
    crate::transparent_utxo_refresh::a_sound_batch_has_no_defect_of_any_kind(
        visible_tip,
        receiver,
        utxos,
        seen,
    );
    assert(utxos[i].outpoint() != utxos[j].outpoint());
}

/// The first defect of a batch is the defect of its first faulty output.
pub proof fn the_first_defect_decides(
    visible_tip: BlockHeight,
    receiver: TransparentReceiverRow,
    utxos: Seq<TransparentUtxo>,
    seen: Seq<OutPoint>,
    index: int,
    defect: UtxoSetDefect,
)
    requires
        crate::transparent_utxo_refresh::is_first_defect(
            visible_tip,
            receiver,
            utxos,
            seen,
            index,
            defect,
        ),
    ensures
        0 <= index < utxos.len(),
        !crate::transparent_utxo_refresh::is_sound_batch(visible_tip, receiver, utxos, seen),
        forall|i: int|
            0 <= i < index ==> (#[trigger] utxos[i]).confirmed_at_height.0 <= visible_tip.0
                && utxos[i].script_pub_key_bytes@ == receiver.script_pub_key_bytes@,
        defect matches UtxoSetDefect::ConfirmedAboveTip {
            confirmed_at_height,
            ..
        } ==> confirmed_at_height == utxos[index].confirmed_at_height && confirmed_at_height.0
            > visible_tip.0,
        match defect {
            UtxoSetDefect::ConfirmedAboveTip { outpoint, .. } => outpoint
                == utxos[index].outpoint(),
            UtxoSetDefect::Repeated { outpoint } => outpoint == utxos[index].outpoint(),
            UtxoSetDefect::ScriptMismatch { outpoint, account_id } => outpoint
                == utxos[index].outpoint() && account_id == receiver.account_id,
        },
{
    assert(crate::transparent_utxo_refresh::defect_at(
        visible_tip,
        receiver,
        utxos,
        seen,
        index,
    ) is Some);
    assert forall|i: int| 0 <= i < index implies (#[trigger] utxos[i]).confirmed_at_height.0
        <= visible_tip.0 && utxos[i].script_pub_key_bytes@ == receiver.script_pub_key_bytes@ by {
        assert(crate::transparent_utxo_refresh::defect_at(visible_tip, receiver, utxos, seen, i)
            is None);
    }
}

/// A walk fetches the receiver at its position while one is left, under everything it pinned,
/// and is over exactly when every receiver was visited; its summary counts them all.
pub proof fn a_walk_goes_on_while_receivers_are_left(walk: RefreshWalk, state: WalkState)
    requires
        walk.goes_on_from(state),
        state.visited <= state.receivers@.len(),
    ensures
        walk is Fetch <==> state.visited < state.receivers@.len(),
        walk matches RefreshWalk::Fetch(fetch) ==> fetch.state_spec() == state,
        walk matches RefreshWalk::Finished(finished) ==> finished.receivers_spec()
            == state.receivers@.len() && finished.count_spec() == state.utxo_count,
{
}

/// What a walk recorded adds up, held at what a `u64` can say.
pub proof fn recorded_outputs_add_up(so_far: u64, recorded: u64)
    ensures
        so_far + recorded <= u64::MAX ==> crate::transparent_utxo_refresh::saturated_sum(
            so_far,
            recorded,
        ) == so_far + recorded,
        so_far + recorded > u64::MAX ==> crate::transparent_utxo_refresh::saturated_sum(
            so_far,
            recorded,
        ) == u64::MAX,
{
}

/// The refresh loop alternates: after its interval it attempts a refresh bounded to its
/// timeout, after every attempt it waits its interval again, and it stops only when closed.
pub proof fn the_refresh_loop_alternates(refresh: RefreshLoop, error: WalletError)
    ensures
        refresh.action_after(RefreshWake::Slept) == (RefreshAction::Attempt {
            timeout_seconds: refresh.timeout_seconds,
        }),
        refresh.action_after(RefreshWake::Completed) == (RefreshAction::Sleep {
            interval_ms: refresh.interval_ms,
        }),
        refresh.action_after(RefreshWake::Failed { error }) == (RefreshAction::Sleep {
            interval_ms: refresh.interval_ms,
        }),
        refresh.action_after(RefreshWake::TimedOut) == (RefreshAction::Sleep {
            interval_ms: refresh.interval_ms,
        }),
        refresh.action_after(RefreshWake::Closed) is Stop,
{
}

/// A failed or timed-out attempt adds one to the failure count, as far as it goes, a completed
/// one resets it, and waiting or closing leaves it alone.
pub proof fn failures_are_counted_one_by_one(refresh: RefreshLoop, error: WalletError)
    ensures
        refresh.failures_after(RefreshWake::Completed) == 0,
        refresh.failures_after(RefreshWake::Slept) == refresh.consecutive_failures,
        refresh.failures_after(RefreshWake::Closed) == refresh.consecutive_failures,
        refresh.consecutive_failures < u32::MAX ==> refresh.failures_after(RefreshWake::TimedOut)
            == refresh.consecutive_failures + 1,
        refresh.failures_after(RefreshWake::Failed { error }) == refresh.failures_after(
            RefreshWake::TimedOut,
        ),
        refresh.consecutive_failures == u32::MAX ==> refresh.failures_after(RefreshWake::TimedOut)
            == u32::MAX,
{
}

/// An attempt that ran into its bound says how many seconds it was given.
pub proof fn a_timeout_says_its_bound(timeout_seconds: u64)
    ensures
        crate::transparent_utxo_refresh::timeout_reason(timeout_seconds)
            == "transparent UTXO refresh exceeded "@ + crate::text::decimal_text(
            timeout_seconds as nat,
        ) + " seconds"@,
{
}

} // verus!
