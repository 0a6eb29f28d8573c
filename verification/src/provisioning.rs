//! Provisioning of a wallet: creating it, opening it, and opening it with its account created
//! from the sealed seed.
//!
//! [`Provisioning`] decides; its caller performs each [`ProvisionRequest`] and hands back the
//! [`ProvisionEvent`] it led to.

use crate::boundary_error::{SealingError, SealingErrorKind};
use crate::domain::{AccountId, BlockHeight, Network};
use crate::error::WalletError;
use crate::sync::scan::prior_height;
use vstd::prelude::*;

verus! {

/// What is provisioned.
#[derive(Clone, Copy, Debug, PartialEq, Eq, Structural)]
pub enum ProvisionIntent {
    /// A new wallet: a fresh seed and its account.
    Create {
        /// Height from which the account is scanned.
        birthday: BlockHeight,
    },
    /// An existing wallet.
    Open,
    /// An existing wallet, or its account created anew from the sealed seed.
    OpenOrCreateAccount {
        /// Height from which a new account is scanned.
        birthday: BlockHeight,
    },
}

/// How provisioning ended.
#[derive(Debug)]
pub enum ProvisionEnd {
    /// The wallet is open with this account.
    Provisioned {
        /// The wallet's account.
        account_id: AccountId,
    },
    /// Provisioning failed.
    Failed(WalletError),
}

/// What provisioning asks its caller to do next.
#[derive(Debug)]
pub enum ProvisionRequest {
    /// Open the storage, creating it if needed.
    OpenStorage,
    /// Unseal the seed.
    Unseal,
    /// Find the account that matches the unsealed seed.
    FindAccount,
    /// Generate a mnemonic, derive its seed, and seal it.
    SealFreshSeed,
    /// Fetch the chain's tree state at exactly this height.
    FetchTreeState {
        /// Height before the birthday.
        height: BlockHeight,
    },
    /// Create the account for the seed from the fetched tree state.
    CreateAccount,
    /// Provisioning is over.
    Finish(ProvisionEnd),
}

/// What came of a request.
#[derive(Debug)]
pub enum ProvisionEvent {
    /// The request was done.
    Done,
    /// Whether a sealed seed could be unsealed.
    Unsealed(Result<(), SealingError>),
    /// The account that matches the seed, if any.
    Account(Option<AccountId>),
    /// The created account.
    Created(AccountId),
    /// The request failed.
    Failed(WalletError),
}

/// Where provisioning stands between two events.
#[derive(Clone, Copy, Debug, PartialEq, Eq, Structural)]
pub enum ProvisionStage {
    /// Waiting for the storage.
    OpeningStorage,
    /// Waiting for the seed.
    Unsealing,
    /// Waiting for the account lookup.
    FindingAccount,
    /// Waiting for the fresh seed.
    SealingFreshSeed,
    /// Waiting for the tree state.
    FetchingTreeState,
    /// Waiting for the account.
    CreatingAccount,
    /// Provisioning is over.
    Finished,
}

/// One provisioning of a wallet.
#[derive(Clone, Copy, Debug, PartialEq, Eq, Structural)]
pub struct Provisioning {
    /// What is provisioned.
    pub intent: ProvisionIntent,
    /// Where provisioning stands.
    pub stage: ProvisionStage,
}

/// The move of a provisioning that fails.
pub open spec fn failing(error: WalletError) -> (ProvisionStage, ProvisionRequest) {
    (ProvisionStage::Finished, ProvisionRequest::Finish(ProvisionEnd::Failed(error)))
}

/// The move of a provisioning that succeeds.
pub open spec fn succeeding(account_id: AccountId) -> (ProvisionStage, ProvisionRequest) {
    (
        ProvisionStage::Finished,
        ProvisionRequest::Finish(ProvisionEnd::Provisioned { account_id }),
    )
}

/// The move to the tree state before a birthday.
pub open spec fn fetching(birthday: BlockHeight) -> (ProvisionStage, ProvisionRequest) {
    (
        ProvisionStage::FetchingTreeState,
        ProvisionRequest::FetchTreeState {
            height: crate::sync::scan::prior_height_spec(birthday),
        },
    )
}

fn fail(error: WalletError) -> (next: (ProvisionStage, ProvisionRequest))
    ensures
        next == failing(error),
{
    (ProvisionStage::Finished, ProvisionRequest::Finish(ProvisionEnd::Failed(error)))
}

fn succeed(account_id: AccountId) -> (next: (ProvisionStage, ProvisionRequest))
    ensures
        next == succeeding(account_id),
{
    (
        ProvisionStage::Finished,
        ProvisionRequest::Finish(ProvisionEnd::Provisioned { account_id }),
    )
}

fn fetch(birthday: BlockHeight) -> (next: (ProvisionStage, ProvisionRequest))
    ensures
        next == fetching(birthday),
{
    (
        ProvisionStage::FetchingTreeState,
        ProvisionRequest::FetchTreeState { height: prior_height(birthday) },
    )
}

impl ProvisionIntent {
    /// The birthday of the account to create.
    pub open spec fn birthday_spec(self) -> BlockHeight {
        match self {
            ProvisionIntent::Create { birthday } => birthday,
            ProvisionIntent::OpenOrCreateAccount { birthday } => birthday,
            ProvisionIntent::Open => BlockHeight(0),
        }
    }

    fn birthday(self) -> (birthday: BlockHeight)
        ensures
            birthday == self.birthday_spec(),
    {
        match self {
            ProvisionIntent::Create { birthday } => birthday,
            ProvisionIntent::OpenOrCreateAccount { birthday } => birthday,
            ProvisionIntent::Open => BlockHeight(0),
        }
    }
}

/// The networks that `intent` reads are `network`: the storage's, and the chain source's where
/// an account may be created.
pub open spec fn networks_agree(
    intent: ProvisionIntent,
    network: Network,
    chain_network: Network,
    storage_network: Network,
) -> bool {
    storage_network == network && (intent is Open || chain_network == network)
}

impl Provisioning {
    /// Begins a provisioning: the chain source's network is checked first where an account may
    /// be created, and the storage's next.
    pub fn begin(
        intent: ProvisionIntent,
        network: Network,
        chain_network: Network,
        storage_network: Network,
    ) -> (begun: Result<(Provisioning, ProvisionRequest), WalletError>)
        ensures
            begun is Ok <==> networks_agree(intent, network, chain_network, storage_network),
            begun matches Ok((provisioning, request)) ==> {
                &&& provisioning == (Provisioning { intent, stage: ProvisionStage::OpeningStorage })
                &&& request is OpenStorage
            },
            begun matches Err(error) ==> error == (WalletError::NetworkMismatch {
                storage: if !(intent is Open) && chain_network != network {
                    chain_network
                } else {
                    storage_network
                },
                requested: network,
            }),
    {
        let reads_chain = match intent {
            ProvisionIntent::Open => false,
            _ => true,
        };
        if reads_chain && chain_network != network {
            return Err(
                WalletError::NetworkMismatch { storage: chain_network, requested: network },
            );
        }
        if storage_network != network {
            return Err(
                WalletError::NetworkMismatch { storage: storage_network, requested: network },
            );
        }
        Ok(
            (
                Provisioning { intent, stage: ProvisionStage::OpeningStorage },
                ProvisionRequest::OpenStorage,
            ),
        )
    }

    /// Whether provisioning waits for an event of this kind.
    pub open spec fn expects(self, event: ProvisionEvent) -> bool {
        match event {
            ProvisionEvent::Done => self.stage is OpeningStorage || self.stage is SealingFreshSeed
                || self.stage is FetchingTreeState,
            ProvisionEvent::Unsealed(_) => self.stage is Unsealing,
            ProvisionEvent::Account(_) => self.stage is FindingAccount,
            ProvisionEvent::Created(_) => self.stage is CreatingAccount,
            ProvisionEvent::Failed(_) => !(self.stage is Finished) && !(self.stage is Unsealing),
        }
    }

    /// Whether provisioning waits for an event of this kind.
    pub fn accepts(&self, event: &ProvisionEvent) -> (accepted: bool)
        ensures
            accepted == self.expects(*event),
    {
        match (self.stage, event) {
            (ProvisionStage::Unsealing, ProvisionEvent::Unsealed(_)) => true,
            (ProvisionStage::Unsealing, _) => false,
            (ProvisionStage::Finished, _) => false,
            (_, ProvisionEvent::Failed(_)) => true,
            (ProvisionStage::OpeningStorage, ProvisionEvent::Done) => true,
            (ProvisionStage::SealingFreshSeed, ProvisionEvent::Done) => true,
            (ProvisionStage::FetchingTreeState, ProvisionEvent::Done) => true,
            (ProvisionStage::FindingAccount, ProvisionEvent::Account(_)) => true,
            (ProvisionStage::CreatingAccount, ProvisionEvent::Created(_)) => true,
            _ => false,
        }
    }

    /// The stage and request that an event leads to.
    pub open spec fn moved(self, event: ProvisionEvent) -> (ProvisionStage, ProvisionRequest) {
        match (self.stage, event) {
            (_, ProvisionEvent::Failed(error)) => failing(error),
            (ProvisionStage::OpeningStorage, ProvisionEvent::Done) => (
                ProvisionStage::Unsealing,
                ProvisionRequest::Unseal,
            ),
            (ProvisionStage::Unsealing, ProvisionEvent::Unsealed(Ok(_))) => (
                ProvisionStage::FindingAccount,
                ProvisionRequest::FindAccount,
            ),
            (ProvisionStage::Unsealing, ProvisionEvent::Unsealed(Err(error))) => {
                if !(error.kind is NoSealedSeed) {
                    failing(WalletError::Sealing(error))
                } else if self.intent is Create {
                    (ProvisionStage::SealingFreshSeed, ProvisionRequest::SealFreshSeed)
                } else {
                    failing(WalletError::NoSealedSeed)
                }
            },
            (ProvisionStage::FindingAccount, ProvisionEvent::Account(found)) => {
                match (self.intent, found) {
                    (ProvisionIntent::Create { .. }, _) => failing(WalletError::AccountAlreadyExists),
                    (_, Some(account_id)) => succeeding(account_id),
                    (ProvisionIntent::Open, None) => failing(WalletError::AccountNotFound),
                    (ProvisionIntent::OpenOrCreateAccount { birthday }, None) => fetching(
                        birthday,
                    ),
                }
            },
            (ProvisionStage::SealingFreshSeed, ProvisionEvent::Done) => fetching(
                self.intent.birthday_spec(),
            ),
            (ProvisionStage::FetchingTreeState, ProvisionEvent::Done) => (
                ProvisionStage::CreatingAccount,
                ProvisionRequest::CreateAccount,
            ),
            (ProvisionStage::CreatingAccount, ProvisionEvent::Created(account_id)) => succeeding(
                account_id,
            ),
            (stage, _) => (stage, ProvisionRequest::OpenStorage),
        }
    }

    /// Takes in an event and decides what follows.
    pub fn step(self, event: ProvisionEvent) -> (next: (Provisioning, ProvisionRequest))
        requires
            self.expects(event),
        ensures
            next.0 == (Provisioning { stage: self.moved(event).0, ..self }),
            next.1 == self.moved(event).1,
    {
        let (stage, request) = match (self.stage, event) {
            (_, ProvisionEvent::Failed(error)) => fail(error),
            (ProvisionStage::OpeningStorage, ProvisionEvent::Done) => (
                ProvisionStage::Unsealing,
                ProvisionRequest::Unseal,
            ),
            (ProvisionStage::Unsealing, ProvisionEvent::Unsealed(Ok(_))) => (
                ProvisionStage::FindingAccount,
                ProvisionRequest::FindAccount,
            ),
            (ProvisionStage::Unsealing, ProvisionEvent::Unsealed(Err(error))) => {
                let is_missing = match &error.kind {
                    SealingErrorKind::NoSealedSeed => true,
                    SealingErrorKind::Other { .. } => false,
                };
                if !is_missing {
                    fail(WalletError::Sealing(error))
                } else {
                    match self.intent {
                        ProvisionIntent::Create { .. } => (
                            ProvisionStage::SealingFreshSeed,
                            ProvisionRequest::SealFreshSeed,
                        ),
                        _ => fail(WalletError::NoSealedSeed),
                    }
                }
            },
            (ProvisionStage::FindingAccount, ProvisionEvent::Account(found)) => {
                match (self.intent, found) {
                    (ProvisionIntent::Create { .. }, _) => fail(WalletError::AccountAlreadyExists),
                    (_, Some(account_id)) => succeed(account_id),
                    (ProvisionIntent::Open, None) => fail(WalletError::AccountNotFound),
                    (ProvisionIntent::OpenOrCreateAccount { birthday }, None) => fetch(birthday),
                }
            },
            (ProvisionStage::SealingFreshSeed, ProvisionEvent::Done) => fetch(
                self.intent.birthday(),
            ),
            (ProvisionStage::FetchingTreeState, ProvisionEvent::Done) => (
                ProvisionStage::CreatingAccount,
                ProvisionRequest::CreateAccount,
            ),
            (ProvisionStage::CreatingAccount, ProvisionEvent::Created(account_id)) => succeed(
                account_id,
            ),
            (stage, _) => (stage, ProvisionRequest::OpenStorage),
        };
        (Provisioning { intent: self.intent, stage }, request)
    }

    /// The provisioning after `events`, one after the other.
    pub open spec fn after(self, events: Seq<ProvisionEvent>) -> Provisioning
        decreases events.len(),
    {
        if events.len() == 0 {
            self
        } else {
            let before = self.after(events.drop_last());
            Provisioning { stage: before.moved(events.last()).0, ..before }
        }
    }

    /// Each of `events` was waited for.
    pub open spec fn awaits_each(self, events: Seq<ProvisionEvent>) -> bool {
        forall|i: int|
            0 <= i < events.len() ==> self.after(events.take(i)).expects(#[trigger] events[i])
    }
}

/// A fresh seed is sealed only where none was sealed before: an existing seed is never
/// overwritten.
pub proof fn a_sealed_seed_is_never_overwritten(provisioning: Provisioning, event: ProvisionEvent)
    requires
        provisioning.expects(event),
        provisioning.moved(event).1 is SealFreshSeed,
    ensures
        provisioning.intent is Create,
        provisioning.stage is Unsealing,
        event matches ProvisionEvent::Unsealed(Err(error)) && error.kind is NoSealedSeed,
{
}

/// Opening never seals a seed and never creates an account: whatever happens, it ends with an
/// account that storage already had, or fails.
pub proof fn opening_creates_nothing(provisioning: Provisioning, events: Seq<ProvisionEvent>)
    requires
        provisioning == (Provisioning {
            intent: ProvisionIntent::Open,
            stage: ProvisionStage::OpeningStorage,
        }),
        provisioning.awaits_each(events),
    ensures
        ({
            let stage = provisioning.after(events).stage;
            stage is OpeningStorage || stage is Unsealing || stage is FindingAccount
                || stage is Finished
        }),
        provisioning.after(events).intent is Open,
    decreases events.len(),
{
    if events.len() > 0 {
        let earlier = events.drop_last();
        assert forall|i: int| 0 <= i < earlier.len() implies provisioning.after(
            earlier.take(i),
        ).expects(#[trigger] earlier[i]) by {
            assert(earlier.take(i) =~= events.take(i));
            assert(events[i] == earlier[i]);
        }
        opening_creates_nothing(provisioning, earlier);
        assert(events.take(events.len() - 1) =~= earlier);
        assert(provisioning.after(events.take(events.len() - 1)).expects(
            events[events.len() - 1],
        ));
    }
}

/// Once the account exists, opening or creating gives it back and the birthday is ignored.
pub proof fn an_existing_account_is_reused(
    birthday: BlockHeight,
    other_birthday: BlockHeight,
    account_id: AccountId,
)
    ensures
        (Provisioning {
            intent: ProvisionIntent::OpenOrCreateAccount { birthday },
            stage: ProvisionStage::FindingAccount,
        }).moved(ProvisionEvent::Account(Some(account_id))) == succeeding(account_id),
        (Provisioning {
            intent: ProvisionIntent::OpenOrCreateAccount { birthday },
            stage: ProvisionStage::FindingAccount,
        }).moved(ProvisionEvent::Account(Some(account_id))) == (Provisioning {
            intent: ProvisionIntent::OpenOrCreateAccount { birthday: other_birthday },
            stage: ProvisionStage::FindingAccount,
        }).moved(ProvisionEvent::Account(Some(account_id))),
{
}

/// A new wallet is refused wherever a seed is sealed already, with or without an account.
pub proof fn creating_over_a_seed_is_refused(birthday: BlockHeight, found: Option<AccountId>)
    ensures
        (Provisioning {
            intent: ProvisionIntent::Create { birthday },
            stage: ProvisionStage::FindingAccount,
        }).moved(ProvisionEvent::Account(found)) == failing(WalletError::AccountAlreadyExists),
{
}

} // verus!
