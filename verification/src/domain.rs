//! Domain vocabulary shared by every wallet module.

use vstd::prelude::*;

verus! {

/// Largest amount of value that can exist on chain, in zatoshis.
pub const MAX_MONEY: u64 = 2_100_000_000_000_000;

/// Zcash network a value is bound to.
#[derive(Clone, Copy, Debug, PartialEq, Eq, Structural, Hash)]
pub enum Network {
    /// Production network.
    Mainnet,
    /// Public test network.
    Testnet,
    /// Local regression-test network.
    Regtest,
}

impl Network {
    /// The local regression-test network.
    pub fn regtest() -> (network: Network)
        ensures
            network == Network::Regtest,
    {
        Network::Regtest
    }
}

/// Height of a block in the chain.
#[derive(Clone, Copy, Debug, PartialEq, Eq, Structural, PartialOrd, Ord, Hash)]
pub struct BlockHeight(pub u32);

impl BlockHeight {
    /// The height as an integer.
    pub fn as_u32(self) -> (height: u32)
        ensures
            height == self.0,
    {
        self.0
    }

    /// The higher of two heights.
    pub fn higher_of(self, other: BlockHeight) -> (height: BlockHeight)
        ensures
            height.0 == if self.0 >= other.0 {
                self.0
            } else {
                other.0
            },
    {
        if self.0 >= other.0 {
            self
        } else {
            other
        }
    }
}

impl From<u32> for BlockHeight {
    fn from(height: u32) -> (block_height: Self) {
        BlockHeight(height)
    }
}

impl vstd::std_specs::convert::FromSpecImpl<u32> for BlockHeight {
    open spec fn obeys_from_spec() -> bool {
        true
    }

    open spec fn from_spec(height: u32) -> Self {
        BlockHeight(height)
    }
}

/// Transaction identifier.
#[derive(Clone, Copy, Debug, Hash)]
pub struct TxId {
    bytes: [u8; 32],
}

impl TxId {
    /// The identifier made of `bytes`.
    pub fn from_bytes(bytes: [u8; 32]) -> (tx_id: TxId)
        ensures
            tx_id@ == bytes@,
    {
        TxId { bytes }
    }

    /// The identifier's bytes.
    pub fn to_bytes(self) -> (bytes: [u8; 32])
        ensures
            bytes@ == self@,
    {
        self.bytes
    }
}

impl View for TxId {
    type V = Seq<u8>;

    closed spec fn view(&self) -> Seq<u8> {
        self.bytes@
    }
}

/// Whether two 32-byte values hold the same bytes.
pub fn same_bytes(a: &[u8; 32], b: &[u8; 32]) -> (same: bool)
    ensures
        same == (*a == *b),
        same == (a@ == b@),
{
    let mut index: usize = 0;
    while index < 32
        invariant
            index <= 32,
            forall|i: int| 0 <= i < index ==> a@[i] == b@[i],
        decreases 32 - index,
    {
        if a[index] != b[index] {
            return false;
        }
        index += 1;
    }
    assert(*a =~= *b);
    true
}

impl PartialEq for TxId {
    fn eq(&self, other: &TxId) -> (same: bool) {
        same_bytes(&self.bytes, &other.bytes)
    }
}

impl vstd::std_specs::cmp::PartialEqSpecImpl for TxId {
    open spec fn obeys_eq_spec() -> bool {
        true
    }

    open spec fn eq_spec(&self, other: &TxId) -> bool {
        *self == *other
    }
}

impl Eq for TxId {

}

/// Two identifiers made of the same bytes are the same identifier.
pub proof fn tx_id_is_its_bytes(a: TxId, b: TxId)
    requires
        a@ == b@,
    ensures
        a == b,
{
    assert(a.bytes =~= b.bytes);
}

/// One output of one transaction.
#[derive(Clone, Copy, Debug, Hash)]
pub struct OutPoint {
    /// Transaction that created the output.
    pub tx_id: TxId,
    /// Position of the output in that transaction.
    pub output_index: u32,
}

impl PartialEq for OutPoint {
    fn eq(&self, other: &OutPoint) -> (same: bool) {
        self.output_index == other.output_index && self.tx_id == other.tx_id
    }
}

impl vstd::std_specs::cmp::PartialEqSpecImpl for OutPoint {
    open spec fn obeys_eq_spec() -> bool {
        true
    }

    open spec fn eq_spec(&self, other: &OutPoint) -> bool {
        *self == *other
    }
}

impl Eq for OutPoint {

}

/// Wallet account identifier (a UUID, as its 128-bit value).
#[derive(Clone, Copy, Debug, PartialEq, Eq, Structural, Hash)]
pub struct AccountId(pub u128);

/// Caller-supplied key under which one submission is remembered.
#[derive(Debug, Hash)]
pub struct IdempotencyKey {
    /// The key's text.
    pub text: String,
}

impl Clone for IdempotencyKey {
    fn clone(&self) -> (key: IdempotencyKey)
        ensures
            key == *self,
    {
        IdempotencyKey { text: self.text.clone() }
    }
}

/// Identifier the wallet issues for a dispense reservation (a UUID, as its 128-bit value).
#[derive(Clone, Copy, Debug, PartialEq, Eq, Structural, Hash)]
pub struct ReservationId(pub u128);

/// Shielded pool as a chain source names it.
#[derive(Clone, Copy, Debug, PartialEq, Eq, Structural, Hash)]
pub enum ShieldedPool {
    /// Sapling pool.
    Sapling,
    /// Orchard pool.
    Orchard,
    /// Ironwood pool.
    Ironwood,
    /// A pool that this release does not know.
    Unrecognised,
}

/// Shielded pool as the protocol layer names it.
#[derive(Clone, Copy, Debug, PartialEq, Eq, Structural, Hash)]
pub enum ProtocolPool {
    /// Sapling pool.
    Sapling,
    /// Orchard pool.
    Orchard,
    /// Ironwood pool.
    Ironwood,
}

/// The chain-source name of a protocol pool.
pub fn shielded_pool_for(protocol: ProtocolPool) -> (pool: ShieldedPool)
    ensures
        pool == shielded_pool_of(protocol),
{
    match protocol {
        ProtocolPool::Sapling => ShieldedPool::Sapling,
        ProtocolPool::Orchard => ShieldedPool::Orchard,
        ProtocolPool::Ironwood => ShieldedPool::Ironwood,
    }
}

/// What `shielded_pool_for` returns.
pub open spec fn shielded_pool_of(protocol: ProtocolPool) -> ShieldedPool {
    match protocol {
        ProtocolPool::Sapling => ShieldedPool::Sapling,
        ProtocolPool::Orchard => ShieldedPool::Orchard,
        ProtocolPool::Ironwood => ShieldedPool::Ironwood,
    }
}

/// An amount of value that can exist on chain, in zatoshis: never above `MAX_MONEY`.
#[derive(Clone, Copy, Debug, PartialEq, Eq, Structural, PartialOrd, Ord, Hash)]
pub struct Zatoshis {
    value: u64,
}

impl View for Zatoshis {
    type V = int;

    closed spec fn view(&self) -> int {
        self.value as int
    }
}

/// The lesser of two integers.
pub open spec fn lesser(a: int, b: int) -> int {
    if a <= b {
        a
    } else {
        b
    }
}

impl Zatoshis {
    #[verifier::type_invariant]
    spec fn in_range(self) -> bool {
        self.value <= MAX_MONEY
    }

    /// No value at all.
    pub fn zero() -> (amount: Zatoshis)
        ensures
            amount@ == 0,
    {
        Zatoshis { value: 0 }
    }

    /// The amount of `value` zatoshis, or `None` when no such amount can exist.
    pub fn from_u64(value: u64) -> (amount: Option<Zatoshis>)
        ensures
            amount is Some <==> value <= MAX_MONEY,
            amount matches Some(a) ==> a@ == value,
    {
        if value <= MAX_MONEY {
            Some(Zatoshis { value })
        } else {
            None
        }
    }

    /// The amount as an integer.
    pub fn as_u64(self) -> (value: u64)
        ensures
            value == self@,
            value <= MAX_MONEY,
    {
        proof {
            use_type_invariant(self);
        }
        self.value
    }

    /// The sum of two amounts, held at `MAX_MONEY`.
    pub fn saturating_add(self, other: Zatoshis) -> (sum: Zatoshis)
        ensures
            sum@ == lesser(self@ + other@, MAX_MONEY as int),
            0 <= self@ <= MAX_MONEY,
            0 <= other@ <= MAX_MONEY,
    {
        proof {
            use_type_invariant(self);
            use_type_invariant(other);
        }
        let total: u64 = self.value + other.value;
        if total <= MAX_MONEY {
            Zatoshis { value: total }
        } else {
            Zatoshis { value: MAX_MONEY }
        }
    }
}

/// Two amounts of the same number of zatoshis are the same amount.
pub proof fn zatoshis_are_their_count(a: Zatoshis, b: Zatoshis)
    requires
        a@ == b@,
    ensures
        a == b,
{
}

} // verus!
