//! The wallet subscription: the live view of one on-chain account. It caches
//! the account state, tracks in-flight transfers, and turns every refresh
//! into the exact observer events the change warrants — so refreshing twice
//! against an unchanged chain emits nothing the second time.

use vstd::prelude::*;

use crate::address::Address;
use crate::keys::PublicKey;
use crate::models::{
    account_state_of, AccountState, ContractState, ContractType, PendingTransaction, Transaction,
    TransactionsBatchInfo,
};

verus! {

/// A structured change notification delivered to the observer.
#[derive(Debug, Clone)]
pub enum WalletEvent {
    /// An in-flight transfer was found executed on chain.
    MessageSent { pending: PendingTransaction, transaction: Option<Transaction> },
    /// An in-flight transfer expired before it was executed.
    MessageExpired { pending: PendingTransaction },
    /// The cached account state changed.
    StateChanged { new_state: AccountState },
    /// A batch of finalized transactions was delivered.
    TransactionsFound { transactions: Vec<Transaction>, batch_info: TransactionsBatchInfo },
}

/// The live, tracked view of one account: fixed identity (address, key,
/// contract type), the cached state, and the transfers still awaiting
/// confirmation.
#[derive(Debug, Clone)]
pub struct TonWalletSubscription {
    pub address: Address,
    pub public_key: PublicKey,
    pub contract_type: ContractType,
    pub account_state: AccountState,
    pub pending: Vec<PendingTransaction>,
}

/// The pending transfers still alive at `now`, in their original order.
pub open spec fn retained_pendings(ps: Seq<PendingTransaction>, now: u32) -> Seq<
    PendingTransaction,
>
    decreases ps.len(),
{
    if ps.len() == 0 {
        Seq::empty()
    } else {
        retained_pendings(ps.drop_last(), now) + (if ps.last().expire_at > now {
            seq![ps.last()]
        } else {
            Seq::empty()
        })
    }
}

/// The expiry events a refresh at `now` emits, one per expired pending
/// transfer, in their original order.
pub open spec fn expired_events(ps: Seq<PendingTransaction>, now: u32) -> Seq<WalletEvent>
    decreases ps.len(),
{
    if ps.len() == 0 {
        Seq::empty()
    } else {
        expired_events(ps.drop_last(), now) + (if ps.last().expire_at <= now {
            seq![WalletEvent::MessageExpired { pending: ps.last() }]
        } else {
            Seq::empty()
        })
    }
}

/// Every event one refresh emits: a state-change notification exactly when
/// the fetched state differs from the cache, then one expiry per expired
/// pending transfer.
pub open spec fn refresh_events(
    cached: AccountState,
    ps: Seq<PendingTransaction>,
    fetched: ContractState,
    now: u32,
) -> Seq<WalletEvent> {
    (if account_state_of(fetched) != cached {
        seq![WalletEvent::StateChanged { new_state: account_state_of(fetched) }]
    } else {
        Seq::empty()
    }) + expired_events(ps, now)
}

impl TonWalletSubscription {
    /// Creates the subscription after the subscribe handshake: the identity
    /// is fixed, the cache holds the initial fetch, and nothing is pending.
    /// The same inputs always produce the same subscription.
    pub fn subscribe(
        address: Address,
        public_key: PublicKey,
        contract_type: ContractType,
        initial: ContractState,
    ) -> (w: TonWalletSubscription)
        ensures
            w.address == address,
            w.public_key == public_key,
            w.contract_type == contract_type,
            w.account_state == account_state_of(initial),
            w.pending@ == Seq::<PendingTransaction>::empty(),
    {
        TonWalletSubscription {
            address,
            public_key,
            contract_type,
            account_state: initial.to_account_state(),
            pending: Vec::new(),
        }
    }

    /// Applies one refresh: the cache takes the freshly fetched state,
    /// expired pending transfers are dropped, and the returned events are
    /// exactly what the change warrants — a state change only on an actual
    /// difference, one expiry per dropped transfer.
    pub fn apply_refresh(self, fetched: ContractState, now: u32) -> (r: (
        TonWalletSubscription,
        Vec<WalletEvent>,
    ))
        ensures
            r.0.address == self.address,
            r.0.public_key == self.public_key,
            r.0.contract_type == self.contract_type,
            r.0.account_state == account_state_of(fetched),
            r.0.pending@ == retained_pendings(self.pending@, now),
            r.1@ == refresh_events(self.account_state, self.pending@, fetched, now),
    {
        let TonWalletSubscription {
            address,
            public_key,
            contract_type,
            account_state,
            mut pending,
        } = self;
        let ghost ps = pending@;
        let new_state = fetched.to_account_state();
        let mut evs: Vec<WalletEvent> = Vec::new();
        if new_state != account_state {
            evs.push(WalletEvent::StateChanged { new_state });
        }
        let ghost head = evs@;
        let mut retained: Vec<PendingTransaction> = Vec::new();
        let n = pending.len();
        let mut i: usize = 0;
        proof {
            assert(ps.take(0) =~= Seq::<PendingTransaction>::empty());
            assert(ps.skip(0) =~= ps);
            assert(head + Seq::<WalletEvent>::empty() =~= head);
        }
        while i < n
            invariant
                i <= n,
                n == ps.len(),
                pending@ == ps.skip(i as int),
                retained@ == retained_pendings(ps.take(i as int), now),
                evs@ == head + expired_events(ps.take(i as int), now),
            decreases n - i,
        {
            let p = pending.remove(0);
            proof {
                assert(ps.skip(i as int)[0] == ps[i as int]);
                assert(ps.skip(i as int).remove(0) =~= ps.skip(i + 1));
                assert(ps.take(i + 1).drop_last() =~= ps.take(i as int));
                assert(ps.take(i + 1).last() == ps[i as int]);
            }
            if p.expire_at > now {
                retained.push(p);
                proof {
                    assert(retained@ =~= retained_pendings(ps.take(i + 1), now));
                    assert(evs@ =~= head + expired_events(ps.take(i + 1), now));
                }
            } else {
                evs.push(WalletEvent::MessageExpired { pending: p });
                proof {
                    assert(retained@ =~= retained_pendings(ps.take(i + 1), now));
                    assert(evs@ =~= head + expired_events(ps.take(i + 1), now));
                }
            }
            i += 1;
        }
        proof {
            assert(ps.take(n as int) =~= ps);
        }
        (
            TonWalletSubscription {
                address,
                public_key,
                contract_type,
                account_state: new_state,
                pending: retained,
            },
            evs,
        )
    }

    /// Records the side effect of a successful send: the broadcast message
    /// joins the pending transfers awaiting confirmation, under its hash and
    /// expiration; everything else stays untouched.
    pub fn register_pending(&mut self, message_hash: Vec<u8>, expire_at: u32)
        ensures
            final(self).address == old(self).address,
            final(self).public_key == old(self).public_key,
            final(self).contract_type == old(self).contract_type,
            final(self).account_state == old(self).account_state,
            final(self).pending@ == old(self).pending@.push(
                PendingTransaction { message_hash, expire_at },
            ),
    {
        self.pending.push(PendingTransaction { message_hash, expire_at });
    }

    /// The position of the first pending transfer created by the message with
    /// this hash, if any.
    pub open spec fn spec_find_pending(ps: Seq<PendingTransaction>, hash: Seq<u8>) -> int
        decreases ps.len(),
    {
        if ps.len() == 0 {
            -1
        } else if ps[0].message_hash@ == hash {
            0
        } else {
            let r = Self::spec_find_pending(ps.skip(1), hash);
            if r < 0 {
                -1
            } else {
                r + 1
            }
        }
    }

    /// Marks the pending transfer executed by this transaction as confirmed:
    /// the first pending entry whose message hash matches the transaction's
    /// incoming message is removed and reported as sent; without a match,
    /// nothing changes and no event is due.
    pub fn confirm_pending(self, tx: Transaction) -> (r: (
        TonWalletSubscription,
        Option<WalletEvent>,
    ))
        ensures
            r.0.address == self.address,
            r.0.public_key == self.public_key,
            r.0.contract_type == self.contract_type,
            r.0.account_state == self.account_state,
            ({
                let at = Self::spec_find_pending(self.pending@, tx.in_msg_hash@);
                if at < 0 {
                    &&& r.0.pending@ == self.pending@
                    &&& r.1 is None
                } else {
                    &&& r.0.pending@ == self.pending@.remove(at)
                    &&& r.1 == Some(
                        WalletEvent::MessageSent {
                            pending: self.pending@[at],
                            transaction: Some(tx),
                        },
                    )
                }
            }),
    {
        let TonWalletSubscription {
            address,
            public_key,
            contract_type,
            account_state,
            mut pending,
        } = self;
        let ghost ps = pending@;
        let n = pending.len();
        let mut i: usize = 0;
        while i < n
            invariant
                i <= n,
                n == ps.len(),
                pending@ == ps,
                ps == self.pending@,
                address == self.address,
                public_key == self.public_key,
                contract_type == self.contract_type,
                account_state == self.account_state,
                forall|j: int| 0 <= j < i ==> ps[j].message_hash@ != tx.in_msg_hash@,
            decreases n - i,
        {
            if crate::models::bytes_eq(&pending[i].message_hash, &tx.in_msg_hash) {
                let p = pending.remove(i);
                proof {
                    Self::lemma_find_pending_here(ps, tx.in_msg_hash@, i as int);
                }
                return (
                    TonWalletSubscription {
                        address,
                        public_key,
                        contract_type,
                        account_state,
                        pending,
                    },
                    Some(WalletEvent::MessageSent { pending: p, transaction: Some(tx) }),
                );
            }
            proof {
                Self::lemma_find_pending_beyond(ps, tx.in_msg_hash@, i as int);
            }
            i += 1;
        }
        proof {
            Self::lemma_find_pending_none(ps, tx.in_msg_hash@);
        }
        (
            TonWalletSubscription { address, public_key, contract_type, account_state, pending },
            None,
        )
    }

    /// If every entry before `i` mismatches and entry `i` matches, the first
    /// match is at `i`.
    proof fn lemma_find_pending_here(ps: Seq<PendingTransaction>, hash: Seq<u8>, i: int)
        requires
            0 <= i < ps.len(),
            forall|j: int| 0 <= j < i ==> ps[j].message_hash@ != hash,
            ps[i].message_hash@ == hash,
        ensures
            Self::spec_find_pending(ps, hash) == i,
        decreases i,
    {
        if i > 0 {
            Self::lemma_find_pending_here(ps.skip(1), hash, i - 1);
        }
    }

    /// If every entry up to and including `i` mismatches, the first match —
    /// if any — lies beyond `i`.
    proof fn lemma_find_pending_beyond(ps: Seq<PendingTransaction>, hash: Seq<u8>, i: int)
        requires
            0 <= i < ps.len(),
            forall|j: int| 0 <= j <= i ==> ps[j].message_hash@ != hash,
        ensures
            Self::spec_find_pending(ps, hash) < 0 || Self::spec_find_pending(ps, hash) > i,
        decreases i,
    {
        if i > 0 {
            Self::lemma_find_pending_beyond(ps.skip(1), hash, i - 1);
        }
    }

    /// If every entry mismatches, there is no first match.
    proof fn lemma_find_pending_none(ps: Seq<PendingTransaction>, hash: Seq<u8>)
        requires
            forall|j: int| 0 <= j < ps.len() ==> ps[j].message_hash@ != hash,
        ensures
            Self::spec_find_pending(ps, hash) == -1,
        decreases ps.len(),
    {
        if ps.len() > 0 {
            Self::lemma_find_pending_none(ps.skip(1), hash);
        }
    }
}

/// What one refresh keeps pending has, by construction, not expired.
proof fn lemma_retained_alive(ps: Seq<PendingTransaction>, now: u32)
    ensures
        forall|i: int|
            0 <= i < retained_pendings(ps, now).len() ==> #[trigger] retained_pendings(
                ps,
                now,
            )[i].expire_at > now,
    decreases ps.len(),
{
    if ps.len() > 0 {
        lemma_retained_alive(ps.drop_last(), now);
        let r = retained_pendings(ps, now);
        let rl = retained_pendings(ps.drop_last(), now);
        assert forall|i: int| 0 <= i < r.len() implies r[i].expire_at > now by {
            if i < rl.len() {
                assert(r[i] == rl[i]);
            } else {
                assert(r[i] == ps.last());
            }
        }
    }
}

/// A pending list in which nothing has expired produces no expiry events.
proof fn lemma_no_expired_no_events(ps: Seq<PendingTransaction>, now: u32)
    requires
        forall|i: int| 0 <= i < ps.len() ==> #[trigger] ps[i].expire_at > now,
    ensures
        expired_events(ps, now) == Seq::<WalletEvent>::empty(),
    decreases ps.len(),
{
    if ps.len() > 0 {
        lemma_no_expired_no_events(ps.drop_last(), now);
        assert(expired_events(ps.drop_last(), now) + Seq::<WalletEvent>::empty() =~= Seq::<
            WalletEvent,
        >::empty());
    }
}

/// Refresh is idempotent: a second refresh against the same fetched state and
/// clock emits no event at all, and leaves the cache and the pending list as
/// the first refresh left them.
pub proof fn lemma_refresh_idempotent(
    cached: AccountState,
    ps: Seq<PendingTransaction>,
    fetched: ContractState,
    now: u32,
)
    ensures
        ({
            // what the first refresh leaves behind
            let state1 = account_state_of(fetched);
            let pending1 = retained_pendings(ps, now);
            &&& refresh_events(state1, pending1, fetched, now) == Seq::<WalletEvent>::empty()
            &&& account_state_of(fetched) == state1
            &&& retained_pendings(pending1, now) == pending1
        }),
{
    let pending1 = retained_pendings(ps, now);
    lemma_retained_alive(ps, now);
    lemma_no_expired_no_events(pending1, now);
    assert(Seq::<WalletEvent>::empty() + Seq::<WalletEvent>::empty() =~= Seq::<
        WalletEvent,
    >::empty());
    lemma_retained_of_alive(pending1, now);
}

/// A pending list in which nothing has expired is kept whole.
proof fn lemma_retained_of_alive(ps: Seq<PendingTransaction>, now: u32)
    requires
        forall|i: int| 0 <= i < ps.len() ==> #[trigger] ps[i].expire_at > now,
    ensures
        retained_pendings(ps, now) == ps,
    decreases ps.len(),
{
    if ps.len() > 0 {
        lemma_retained_of_alive(ps.drop_last(), now);
        assert(ps.drop_last() + seq![ps.last()] =~= ps);
    }
}

} // verus!
