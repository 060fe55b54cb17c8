//! Plain models of the chain-facing data the engine decides over: contract
//! templates, fetched account state, and the transaction records forwarded to
//! the observer.

use vstd::prelude::*;

verus! {

/// Deployment template of the tracked wallet; fixed when the subscription is
/// created and determines how the account address is derived from the public
/// key.
#[derive(Debug, Clone, Copy, PartialEq, Eq, Structural)]
pub enum ContractType {
    SafeMultisig,
    SafeMultisig24h,
    SetcodeMultisig,
    Surf,
    WalletV3,
}

/// Concrete multisig template selected by a multisig contract type.
#[derive(Debug, Clone, Copy, PartialEq, Eq, Structural)]
pub enum MultisigType {
    SafeMultisigWallet,
    SafeMultisigWallet24h,
    SetcodeMultisigWallet,
    SurfWallet,
}

/// The wallet family a contract type belongs to: one of the multisig
/// templates, or the single-owner v3 wallet.
#[derive(Debug, Clone, Copy, PartialEq, Eq, Structural)]
pub enum WalletKind {
    Multisig(MultisigType),
    WalletV3,
}

/// The wallet family each contract type maps to.
pub open spec fn wallet_kind_of(t: ContractType) -> WalletKind {
    match t {
        ContractType::SafeMultisig => WalletKind::Multisig(MultisigType::SafeMultisigWallet),
        ContractType::SafeMultisig24h => WalletKind::Multisig(
            MultisigType::SafeMultisigWallet24h,
        ),
        ContractType::SetcodeMultisig => WalletKind::Multisig(
            MultisigType::SetcodeMultisigWallet,
        ),
        ContractType::Surf => WalletKind::Multisig(MultisigType::SurfWallet),
        ContractType::WalletV3 => WalletKind::WalletV3,
    }
}

impl From<ContractType> for WalletKind {
    fn from(t: ContractType) -> (k: WalletKind) {
        match t {
            ContractType::SafeMultisig => WalletKind::Multisig(MultisigType::SafeMultisigWallet),
            ContractType::SafeMultisig24h => WalletKind::Multisig(
                MultisigType::SafeMultisigWallet24h,
            ),
            ContractType::SetcodeMultisig => WalletKind::Multisig(
                MultisigType::SetcodeMultisigWallet,
            ),
            ContractType::Surf => WalletKind::Multisig(MultisigType::SurfWallet),
            ContractType::WalletV3 => WalletKind::WalletV3,
        }
    }
}

impl vstd::std_specs::convert::FromSpecImpl<ContractType> for WalletKind {
    open spec fn obeys_from_spec() -> bool {
        true
    }

    open spec fn from_spec(t: ContractType) -> WalletKind {
        wallet_kind_of(t)
    }
}

/// What the transport reports of an account that exists on chain: its balance
/// in nanotokens, whether contract code is deployed, and the logical time of
/// its last transaction.
#[derive(Debug, Clone, Copy, PartialEq, Eq, Structural)]
pub struct AccountSnapshot {
    pub balance: u64,
    pub is_deployed: bool,
    pub last_trans_lt: u64,
}

/// Contract state fetched fresh from the transport for every operation that
/// needs it.
#[derive(Debug, Clone, Copy, PartialEq, Eq, Structural)]
pub enum ContractState {
    NotExists,
    Exists(AccountSnapshot),
}

/// The cached view of the tracked account held by a wallet subscription.
#[derive(Debug, Clone, Copy, PartialEq, Eq, Structural)]
pub struct AccountState {
    pub balance: u64,
    pub is_deployed: bool,
    pub last_trans_lt: u64,
}

/// The cached account state a fetched contract state collapses to; an absent
/// account reads as empty and undeployed.
pub open spec fn account_state_of(c: ContractState) -> AccountState {
    match c {
        ContractState::NotExists => AccountState {
            balance: 0,
            is_deployed: false,
            last_trans_lt: 0,
        },
        ContractState::Exists(s) => AccountState {
            balance: s.balance,
            is_deployed: s.is_deployed,
            last_trans_lt: s.last_trans_lt,
        },
    }
}

impl ContractState {
    /// Collapses a fetched state to the cached account view.
    pub fn to_account_state(&self) -> (r: AccountState)
        ensures
            r == account_state_of(*self),
    {
        match self {
            ContractState::NotExists => AccountState {
                balance: 0,
                is_deployed: false,
                last_trans_lt: 0,
            },
            ContractState::Exists(s) => AccountState {
                balance: s.balance,
                is_deployed: s.is_deployed,
                last_trans_lt: s.last_trans_lt,
            },
        }
    }
}

/// The decision a prepared transfer starts from: an account that has no code
/// on chain must be deployed before its transfer message is valid; otherwise
/// the transfer message can be built and signed right away.
#[derive(Debug, Clone, Copy, PartialEq, Eq, Structural)]
pub enum TransferAction {
    DeployFirst,
    Sign,
}

/// The transfer action a fetched snapshot warrants.
pub open spec fn transfer_action_of(snap: AccountSnapshot) -> TransferAction {
    if snap.is_deployed {
        TransferAction::Sign
    } else {
        TransferAction::DeployFirst
    }
}

/// Decides, from the sender's fresh snapshot, whether a deploy must precede
/// the transfer. The submission engine makes the same decision when the
/// fetched state arrives.
pub fn prepare_transfer(snap: &AccountSnapshot) -> (r: TransferAction)
    ensures
        r == transfer_action_of(*snap),
{
    if snap.is_deployed {
        TransferAction::Sign
    } else {
        TransferAction::DeployFirst
    }
}

/// An in-flight transfer awaiting confirmation, identified by the hash of the
/// message that created it and bounded by its expiration time.
#[derive(Debug, Clone)]
pub struct PendingTransaction {
    pub message_hash: Vec<u8>,
    pub expire_at: u32,
}

/// A finalized transaction record, forwarded verbatim to the observer.
#[derive(Debug, Clone)]
pub struct Transaction {
    pub lt: u64,
    pub in_msg_hash: Vec<u8>,
    pub value: u64,
}

/// Compares two byte slices for equality of contents.
pub fn byte_slices_eq(a: &[u8], b: &[u8]) -> (r: bool)
    ensures
        r == (a@ == b@),
{
    if a.len() != b.len() {
        return false;
    }
    let n = a.len();
    let mut i: usize = 0;
    while i < n
        invariant
            i <= n,
            n == a@.len(),
            a@.len() == b@.len(),
            forall|j: int| 0 <= j < i ==> a@[j] == b@[j],
        decreases n - i,
    {
        if a[i] != b[i] {
            return false;
        }
        i += 1;
    }
    proof {
        assert(a@ =~= b@);
    }
    true
}

/// Compares two byte strings for equality of contents.
pub fn bytes_eq(a: &Vec<u8>, b: &Vec<u8>) -> (r: bool)
    ensures
        r == (a@ == b@),
{
    byte_slices_eq(a.as_slice(), b.as_slice())
}

/// Compares two text strings for equality of contents; two strings are equal
/// exactly when their UTF-8 bytes are.
pub fn str_eq(a: &str, b: &str) -> (r: bool)
    ensures
        r == (a@ == b@),
{
    let r = byte_slices_eq(a.as_bytes(), b.as_bytes());
    proof {
        vstd::utf8::encode_utf8_decode_utf8(a@);
        vstd::utf8::encode_utf8_decode_utf8(b@);
    }
    r
}

/// Range description of a batch of transactions delivered together.
#[derive(Debug, Clone, Copy, PartialEq, Eq, Structural)]
pub struct TransactionsBatchInfo {
    pub min_lt: u64,
    pub max_lt: u64,
    pub old: bool,
}

} // verus!
