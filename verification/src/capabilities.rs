//! Wallet capability descriptor.

use crate::circuit_breaker::CircuitBreakerState;
use crate::domain::Network;
use crate::text::{contains, ends_with};
use vstd::prelude::*;

verus! {

/// Sealing implementation in use.
#[derive(Clone, Copy, Debug, PartialEq, Eq, Structural)]
pub enum SealingCapability {
    /// Seed sealed in an age-encrypted file.
    AgeFile,
    /// Seed held in memory only.
    InMemory,
    /// Seed stored in plaintext; never for production.
    Plaintext,
    /// Any other implementation.
    Custom,
}

/// Storage backend in use.
#[derive(Clone, Copy, Debug, PartialEq, Eq, Structural)]
pub enum StorageCapability {
    /// The SQLite backend.
    Sqlite,
    /// Any other backend.
    Custom,
}

/// A protocol capability advertised by a wallet.
#[derive(Clone, Copy, Debug, PartialEq, Eq, Structural, Hash, PartialOrd, Ord)]
pub enum Capability {
    /// ZIP-316 Unified Addresses.
    Zip316UnifiedAddresses,
    /// ZIP-302 memo encoding and the memo-on-transparent guard.
    Zip302Memos,
    /// ZIP-320 TEX address recognition at the API boundary.
    Zip320TexAddresses,
    /// ZIP-317 conventional-fee default.
    Zip317ConventionalFee,
    /// Incremental sync is available.
    SyncIncremental,
    /// A driver for caller-owned continuous sync is available.
    SyncDriver,
    /// The event stream is available.
    EventStream,
    /// Sends honour the caller-supplied idempotency key.
    IdempotentSend,
    /// PCZT v0.6 export and import.
    PcztV06,
    /// Typed metrics snapshots.
    MetricsSnapshot,
    /// Typed status snapshots.
    StatusSnapshot,
    /// The wallet's circuit breaker has tripped open.
    CircuitBroken,
}

impl Capability {
    /// Position of the capability in the order in which capabilities are listed.
    pub open spec fn rank_spec(self) -> u8 {
        match self {
            Capability::Zip316UnifiedAddresses => 0,
            Capability::Zip302Memos => 1,
            Capability::Zip320TexAddresses => 2,
            Capability::Zip317ConventionalFee => 3,
            Capability::SyncIncremental => 4,
            Capability::SyncDriver => 5,
            Capability::EventStream => 6,
            Capability::IdempotentSend => 7,
            Capability::PcztV06 => 8,
            Capability::MetricsSnapshot => 9,
            Capability::StatusSnapshot => 10,
            Capability::CircuitBroken => 11,
        }
    }

    fn rank(self) -> (rank: u8)
        ensures
            rank == self.rank_spec(),
    {
        match self {
            Capability::Zip316UnifiedAddresses => 0,
            Capability::Zip302Memos => 1,
            Capability::Zip320TexAddresses => 2,
            Capability::Zip317ConventionalFee => 3,
            Capability::SyncIncremental => 4,
            Capability::SyncDriver => 5,
            Capability::EventStream => 6,
            Capability::IdempotentSend => 7,
            Capability::PcztV06 => 8,
            Capability::MetricsSnapshot => 9,
            Capability::StatusSnapshot => 10,
            Capability::CircuitBroken => 11,
        }
    }
}

/// `items` are listed in order and none twice.
pub open spec fn is_listing(items: Seq<Capability>) -> bool {
    forall|i: int, j: int|
        0 <= i < j < items.len() ==> (#[trigger] items[i]).rank_spec() < (
        #[trigger] items[j]).rank_spec()
}

/// A set of capabilities.
#[derive(Debug, PartialEq, Eq)]
pub struct CapabilitySet {
    items: Vec<Capability>,
}

impl View for CapabilitySet {
    type V = Set<Capability>;

    closed spec fn view(&self) -> Set<Capability> {
        self.items@.to_set()
    }
}

impl CapabilitySet {
    #[verifier::type_invariant]
    closed spec fn is_listed(self) -> bool {
        is_listing(self.items@)
    }

    /// The empty set.
    pub fn new() -> (set: CapabilitySet)
        ensures
            set@ == Set::<Capability>::empty(),
    {
        let items: Vec<Capability> = Vec::new();
        assert(items@.to_set() =~= Set::<Capability>::empty());
        CapabilitySet { items }
    }

    /// Number of capabilities in the set.
    pub fn len(&self) -> (count: usize)
        ensures
            count == self@.len(),
    {
        proof {
            use_type_invariant(self);
            self.items@.unique_seq_to_set();
        }
        self.items.len()
    }

    /// Whether the set holds `capability`.
    pub fn contains(&self, capability: Capability) -> (found: bool)
        ensures
            found == self@.contains(capability),
    {
        let mut index: usize = 0;
        while index < self.items.len()
            invariant
                index <= self.items@.len(),
                forall|i: int| 0 <= i < index ==> self.items@[i] != capability,
            decreases self.items@.len() - index,
        {
            if self.items[index] == capability {
                assert(self.items@[index as int] == capability);
                return true;
            }
            index += 1;
        }
        false
    }

    /// The capabilities, in order and none twice.
    pub fn items(&self) -> (items: &Vec<Capability>)
        ensures
            is_listing(items@),
            items@.to_set() == self@,
    {
        proof {
            use_type_invariant(self);
        }
        &self.items
    }

    /// Adds `capability`; says whether it was new.
    pub fn insert(&mut self, capability: Capability) -> (is_new: bool)
        ensures
            is_new == !old(self)@.contains(capability),
            final(self)@ == old(self)@.insert(capability),
    {
        proof {
            use_type_invariant(&*self);
        }
        let ghost before = self.items@;
        let mut place: usize = 0;
        while place < self.items.len() && self.items[place].rank() < capability.rank()
            invariant
                self.items@ == before,
                place <= before.len(),
                forall|i: int|
                    0 <= i < place ==> (#[trigger] before[i]).rank_spec()
                        < capability.rank_spec(),
            decreases before.len() - place,
        {
            place += 1;
        }
        if place < self.items.len() && self.items[place] == capability {
            assert(before[place as int] == capability);
            assert(before.to_set().insert(capability) =~= before.to_set());
            return false;
        }
        let mut items: Vec<Capability> = Vec::new();
        std::mem::swap(&mut items, &mut self.items);
        items.insert(place, capability);
        proof {
            let after = before.insert(place as int, capability);
            assert forall|i: int| place <= i < before.len() implies (
            #[trigger] before[i]).rank_spec() > capability.rank_spec() by {
                if before[i].rank_spec() == capability.rank_spec() {
                    assert(before[i] == capability);
                }
            }
            assert(!before.contains(capability));
            assert forall|i: int, j: int| 0 <= i < j < after.len() implies (
            #[trigger] after[i]).rank_spec() < (#[trigger] after[j]).rank_spec() by {
                if i < place && j > place {
                    assert(before[i].rank_spec() < before[j - 1].rank_spec());
                } else if i == place {
                    assert(before[j - 1].rank_spec() > capability.rank_spec());
                } else if i > place {
                    assert(before[i - 1].rank_spec() < before[j - 1].rank_spec());
                } else if j < place {
                    assert(before[i].rank_spec() < before[j].rank_spec());
                }
            }
            assert forall|c: Capability| after.to_set().contains(c)
                == before.to_set().insert(capability).contains(c) by {
                if before.contains(c) {
                    let k = choose|k: int| 0 <= k < before.len() && before[k] == c;
                    if k < place {
                        assert(after[k] == c);
                    } else {
                        assert(after[k + 1] == c);
                    }
                }
                if c == capability {
                    assert(after[place as int] == c);
                }
                if after.contains(c) && c != capability {
                    let k = choose|k: int| 0 <= k < after.len() && after[k] == c;
                    if k < place {
                        assert(before[k] == c);
                    } else {
                        assert(before[k - 1] == c);
                    }
                }
            }
            assert(after.to_set() =~= before.to_set().insert(capability));
        }
        self.items = items;
        true
    }
}

impl Clone for CapabilitySet {
    fn clone(&self) -> (copy: Self)
        ensures
            copy@ == self@,
    {
        proof {
            use_type_invariant(self);
        }
        let items = self.items.clone();
        assert(items@ =~= self.items@);
        CapabilitySet { items }
    }
}

/// Runtime descriptor of supported wallet features.
#[derive(Debug, PartialEq, Eq)]
pub struct WalletCapabilities {
    /// Network the wallet is bound to.
    pub network: Network,
    /// Sealing implementation in use.
    pub sealing: SealingCapability,
    /// Storage backend in use.
    pub storage: StorageCapability,
    /// Protocol features advertised by this wallet build.
    pub features: CapabilitySet,
}

impl Clone for WalletCapabilities {
    fn clone(&self) -> (copy: Self)
        ensures
            copy.describes(self.network, self.sealing, self.storage, self.features@),
    {
        WalletCapabilities {
            network: self.network,
            sealing: self.sealing,
            storage: self.storage,
            features: self.features.clone(),
        }
    }
}

/// The features that every wallet advertises: all but the tripped breaker.
pub open spec fn base_features() -> Set<Capability> {
    Set::new(|c: Capability| c != Capability::CircuitBroken)
}

impl WalletCapabilities {
    /// The descriptor says exactly this.
    pub open spec fn describes(
        self,
        network: Network,
        sealing: SealingCapability,
        storage: StorageCapability,
        features: Set<Capability>,
    ) -> bool {
        &&& self.network == network
        &&& self.sealing == sealing
        &&& self.storage == storage
        &&& self.features@ == features
    }

    /// The descriptor as observers see it: it advertises the tripped breaker while the breaker
    /// is open.
    pub fn observed(&self, breaker: CircuitBreakerState) -> (snapshot: WalletCapabilities)
        ensures
            snapshot.describes(
                self.network,
                self.sealing,
                self.storage,
                if breaker is Open {
                    self.features@.insert(Capability::CircuitBroken)
                } else {
                    self.features@
                },
            ),
    {
        let mut features = self.features.clone();
        match breaker {
            CircuitBreakerState::Open => {
                let _ = features.insert(Capability::CircuitBroken);
            },
            _ => {},
        }
        WalletCapabilities {
            network: self.network,
            sealing: self.sealing,
            storage: self.storage,
            features,
        }
    }
}

/// The descriptor of a wallet on `network` with these backends.
pub fn build_capabilities(
    network: Network,
    sealing: SealingCapability,
    storage: StorageCapability,
) -> (capabilities: WalletCapabilities)
    ensures
        capabilities.describes(network, sealing, storage, base_features()),
{
    let mut features = CapabilitySet::new();
    let _ = features.insert(Capability::Zip316UnifiedAddresses);
    let _ = features.insert(Capability::Zip302Memos);
    let _ = features.insert(Capability::Zip320TexAddresses);
    let _ = features.insert(Capability::Zip317ConventionalFee);
    let _ = features.insert(Capability::SyncIncremental);
    let _ = features.insert(Capability::SyncDriver);
    let _ = features.insert(Capability::EventStream);
    let _ = features.insert(Capability::IdempotentSend);
    let _ = features.insert(Capability::PcztV06);
    let _ = features.insert(Capability::MetricsSnapshot);
    let _ = features.insert(Capability::StatusSnapshot);
    assert(features@ =~= base_features());
    WalletCapabilities { network, sealing, storage, features }
}

/// A wallet built by [`build_capabilities`] advertises the tripped breaker exactly while the
/// breaker is open, and every other feature always.
pub proof fn only_an_open_breaker_is_advertised(features: Set<Capability>, is_open: bool)
    requires
        features == base_features(),
    ensures
        ({
            let observed = if is_open {
                features.insert(Capability::CircuitBroken)
            } else {
                features
            };
            &&& observed.contains(Capability::CircuitBroken) <==> is_open
            &&& forall|c: Capability|
                c != Capability::CircuitBroken ==> #[trigger] observed.contains(c)
        }),
{
}

/// A full type name ends in the type's own name, or holds it followed by parameters.
pub open spec fn names_type(name: Seq<char>, plain: Seq<char>, generic: Seq<char>) -> bool {
    crate::text::has_suffix(name, plain) || crate::text::occurs_in(name, generic)
}

/// The sealing capability of a type by its full name. Plaintext sealing is only recognised in
/// builds that allow it.
pub open spec fn sealing_named(name: Seq<char>, allows_plaintext: bool) -> SealingCapability {
    if names_type(name, "AgeFileSealing"@, "::AgeFileSealing<"@) {
        SealingCapability::AgeFile
    } else if names_type(name, "InMemorySealing"@, "::InMemorySealing<"@) {
        SealingCapability::InMemory
    } else if allows_plaintext && names_type(name, "PlaintextSealing"@, "::PlaintextSealing<"@) {
        SealingCapability::Plaintext
    } else {
        SealingCapability::Custom
    }
}

fn is_type(name: &str, plain: &str, generic: &str) -> (found: bool)
    ensures
        found == names_type(name@, plain@, generic@),
{
    ends_with(name, plain) || contains(name, generic)
}

/// The sealing capability of a type by its full name.
pub fn capability_for_sealing(name: &str, allows_plaintext: bool) -> (sealing: SealingCapability)
    ensures
        sealing == sealing_named(name@, allows_plaintext),
{
    if is_type(name, "AgeFileSealing", "::AgeFileSealing<") {
        SealingCapability::AgeFile
    } else if is_type(name, "InMemorySealing", "::InMemorySealing<") {
        SealingCapability::InMemory
    } else if allows_plaintext && is_type(name, "PlaintextSealing", "::PlaintextSealing<") {
        SealingCapability::Plaintext
    } else {
        SealingCapability::Custom
    }
}

/// The storage capability of a type by its full name.
pub fn capability_for_storage(name: &str) -> (storage: StorageCapability)
    ensures
        storage == if names_type(name@, "SqliteWalletStorage"@, "::SqliteWalletStorage<"@) {
            StorageCapability::Sqlite
        } else {
            StorageCapability::Custom
        },
{
    if is_type(name, "SqliteWalletStorage", "::SqliteWalletStorage<") {
        StorageCapability::Sqlite
    } else {
        StorageCapability::Custom
    }
}

/// Whether opening the wallet warns of plaintext sealing.
pub fn warns_of_plaintext(capabilities: &WalletCapabilities, allows_plaintext: bool) -> (warns:
    bool)
    ensures
        warns == (allows_plaintext && capabilities.sealing == SealingCapability::Plaintext),
{
    allows_plaintext && capabilities.sealing == SealingCapability::Plaintext
}

} // verus!
