//! The observer side of a subscription: an opaque one-way port handle, and
//! the handler that turns wallet events into the exact payloads posted to the
//! host.

use vstd::prelude::*;

use crate::models::{AccountState, PendingTransaction, Transaction, TransactionsBatchInfo};
use crate::subscription::WalletEvent;

verus! {

/// An opaque handle of a one-way, fire-and-forget notification channel; the
/// driver owns the actual posting.
#[derive(Debug, Clone, Copy, PartialEq, Eq, Structural)]
pub struct SendPort {
    pub port: i64,
}

impl SendPort {
    pub fn new(port: i64) -> (r: SendPort)
        ensures
            r.port == port,
    {
        SendPort { port }
    }
}

/// The record posted when an in-flight transfer is found executed.
#[derive(Debug, Clone)]
pub struct OnMessageSent {
    pub pending_transaction: PendingTransaction,
    pub transaction: Option<Transaction>,
}

/// The record posted when a batch of finalized transactions arrives.
#[derive(Debug, Clone)]
pub struct OnTransactionsFound {
    pub transactions: Vec<Transaction>,
    pub batch_info: TransactionsBatchInfo,
}

/// The record posted when the cached account state changes.
#[derive(Debug, Clone, Copy, PartialEq, Eq, Structural)]
pub struct OnStateChanged {
    pub new_state: AccountState,
}

/// A payload ready to be serialized and posted on the observer port; every
/// event travels whole, the state change with the full new account state.
#[derive(Debug, Clone)]
pub enum PortMessage {
    MessageSent(OnMessageSent),
    MessageExpired(PendingTransaction),
    StateChanged(OnStateChanged),
    TransactionsFound(OnTransactionsFound),
}

/// The payload each wallet event is posted as.
pub open spec fn port_message_of(ev: WalletEvent) -> PortMessage {
    match ev {
        WalletEvent::MessageSent { pending, transaction } => PortMessage::MessageSent(
            OnMessageSent { pending_transaction: pending, transaction },
        ),
        WalletEvent::MessageExpired { pending } => PortMessage::MessageExpired(pending),
        WalletEvent::StateChanged { new_state } => PortMessage::StateChanged(
            OnStateChanged { new_state },
        ),
        WalletEvent::TransactionsFound { transactions, batch_info } => {
            PortMessage::TransactionsFound(OnTransactionsFound { transactions, batch_info })
        },
    }
}

/// The observer handler of one subscription, bound to its port.
#[derive(Debug, Clone, Copy, PartialEq, Eq, Structural)]
pub struct TonWalletSubscriptionHandler {
    pub port: SendPort,
}

impl TonWalletSubscriptionHandler {
    pub fn new(port: i64) -> (r: TonWalletSubscriptionHandler)
        ensures
            r.port.port == port,
    {
        TonWalletSubscriptionHandler { port: SendPort::new(port) }
    }

    /// Turns one wallet event into the exact payload due on the port: every
    /// record passes through verbatim, the state change carrying the full new
    /// account state.
    pub fn handle_event(&self, ev: WalletEvent) -> (r: PortMessage)
        ensures
            r == port_message_of(ev),
    {
        match ev {
            WalletEvent::MessageSent { pending, transaction } => PortMessage::MessageSent(
                OnMessageSent { pending_transaction: pending, transaction },
            ),
            WalletEvent::MessageExpired { pending } => PortMessage::MessageExpired(pending),
            WalletEvent::StateChanged { new_state } => PortMessage::StateChanged(
                OnStateChanged { new_state },
            ),
            WalletEvent::TransactionsFound { transactions, batch_info } => {
                PortMessage::TransactionsFound(OnTransactionsFound { transactions, batch_info })
            },
        }
    }
}

} // verus!
