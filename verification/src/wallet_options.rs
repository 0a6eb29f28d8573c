//! Open-time configuration for a wallet.

use vstd::prelude::*;

verus! {

/// Wallet open-time configuration.
///
/// Options stay private to the wallet instance; nothing is persisted to storage.
#[derive(Clone, Copy, Debug, PartialEq, Eq, Structural)]
pub struct WalletOptions {
    /// How long after a successful broadcast a wallet-owned transaction's transparent inputs
    /// stay excluded from new input selection. The same value bounds how far back the snapshot
    /// of pending transparent inputs reaches.
    pub pending_broadcast_window_ms: u64,
}

impl WalletOptions {
    /// Default inflight window for pending wallet-owned broadcasts: 2 hours.
    pub const DEFAULT_PENDING_BROADCAST_WINDOW_MS: u64 = 7_200_000;

    /// A copy with `pending_broadcast_window_ms` set to `window_ms`.
    pub fn with_pending_broadcast_window_ms(self, window_ms: u64) -> (options: WalletOptions)
        ensures
            options == (WalletOptions { pending_broadcast_window_ms: window_ms }),
    {
        WalletOptions { pending_broadcast_window_ms: window_ms }
    }
}

impl Default for WalletOptions {
    fn default() -> (options: Self)
        ensures
            options.pending_broadcast_window_ms == 2 * 60 * 60 * 1000,
    {
        WalletOptions {
            pending_broadcast_window_ms: WalletOptions::DEFAULT_PENDING_BROADCAST_WINDOW_MS,
        }
    }
}

} // verus!
