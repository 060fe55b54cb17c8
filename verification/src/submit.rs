//! The transaction submission engine, written as a state machine: every
//! decision of one `submit` call is a transition from the current state and an
//! observed event (a fetched contract state, a signing result, a broadcast
//! result, a polled balance, a timeout) to the next state and the single
//! action the driver must perform next.
//!
//! The driver performs the actions — it talks to the transport and to the key
//! store — and feeds the outcome back as the next event; everything it must
//! decide is decided here. `spec_step` is the full transition relation, and
//! the executable [`Submitter::step`] is proved to follow it exactly, so the
//! engine's guarantees (no broadcast for an absent sender, deploy before
//! transfer, a fresh signature before every broadcast) are theorems about
//! `spec_step` traces.

use vstd::prelude::*;

use crate::errors::SendError;
use crate::models::ContractState;

verus! {

/// A message that has been signed and may be broadcast exactly once: its raw
/// bytes, the hash that identifies it, and its expiration timestamp.
#[derive(Debug, Clone)]
pub struct SignedMessage {
    pub raw: Vec<u8>,
    pub hash: Vec<u8>,
    pub expire_at: u32,
}

/// Which of the two messages of a submission an action refers to: the deploy
/// message that must precede the transfer when the sender has no code, or the
/// transfer itself.
#[derive(Debug, Clone, Copy, PartialEq, Eq, Structural)]
pub enum MessageKind {
    Deploy,
    Transfer,
}

/// An observation the driver feeds back into the engine.
#[derive(Debug, Clone)]
pub enum SubmitEvent {
    /// The sender's contract state, fetched fresh from the transport.
    StateFetched(ContractState),
    /// The state fetch failed with the transport's message.
    FetchFailed(String),
    /// The message of the current attempt was re-timestamped, hashed and
    /// signed.
    Signed(SignedMessage),
    /// The signing backend refused (bad credential, unknown key, corrupt
    /// record).
    SignFailed,
    /// The broadcast was accepted by the transport.
    BroadcastOk,
    /// The broadcast failed with the transport's message.
    BroadcastFailed(String),
    /// A confirmation poll observed this balance.
    Balance(u64),
    /// A confirmation poll failed with the transport's message.
    PollFailed(String),
    /// The bounded window around the current sign-and-send attempt elapsed;
    /// the payload describes the timeout.
    AttemptTimedOut(String),
}

/// The single next action the engine asks of its driver.
#[derive(Debug)]
pub enum SubmitAction {
    /// Fetch the sender's contract state.
    FetchState,
    /// Refresh the timeout of the named message, hash it and sign it.
    Sign(MessageKind),
    /// Broadcast the signed message; the engine emits each signed message at
    /// most once.
    Broadcast(SignedMessage, MessageKind),
    /// Poll the sender's balance once (sleeping the poll interval first when
    /// confirming).
    PollBalance,
    /// The call is over: post this outcome on the result port. Terminal.
    Report(Result<(), SendError>),
}

/// Where one submission stands.
#[derive(Debug, Clone)]
pub enum SubmitPhase {
    /// Waiting for the sender's contract state.
    FetchingState,
    /// Waiting for the current message to be signed.
    Signing,
    /// Waiting for the pre-send balance reading.
    Measuring,
    /// Waiting for the broadcast result.
    Broadcasting,
    /// Polling until the balance differs from the pre-send reading.
    Confirming,
    /// The transfer was confirmed. Terminal.
    Done,
    /// The submission failed. Terminal.
    Failed(SendError),
}

/// How many sign-and-send attempts one submission may make before it fails;
/// each retry re-timestamps and re-signs the message.
pub const SUBMIT_MAX_ATTEMPTS: u64 = 5;

/// The state of one submission.
#[derive(Debug, Clone)]
pub struct Submitter {
    pub phase: SubmitPhase,
    /// The message the current sign-and-send attempt is about.
    pub kind: MessageKind,
    /// The fetched sender state had no code, so a deploy must precede the
    /// transfer. Never cleared once set.
    pub needs_deploy: bool,
    /// The deploy message was broadcast and confirmed. Never cleared once
    /// set.
    pub deploy_done: bool,
    /// Balance recorded immediately before the broadcast of the current
    /// attempt.
    pub pre_balance: u64,
    /// A message signed in the current attempt and not yet handed out for
    /// broadcast.
    pub signed: Option<SignedMessage>,
    /// Timed-out sign-and-send attempts of the current message so far.
    pub attempts: u64,
}

/// The state a submission starts in.
pub open spec fn submit_init() -> Submitter {
    Submitter {
        phase: SubmitPhase::FetchingState,
        kind: MessageKind::Transfer,
        needs_deploy: false,
        deploy_done: false,
        pre_balance: 0,
        signed: None,
        attempts: 0,
    }
}

/// A terminal failure: the held message is dropped and the outcome is
/// reported once.
pub open spec fn spec_fail(s: Submitter, e: SendError) -> (Submitter, Option<SubmitAction>) {
    (
        Submitter { phase: SubmitPhase::Failed(e), signed: None, ..s },
        Some(SubmitAction::Report(Err(e))),
    )
}

/// The error a terminal transport-class failure maps to: inside the deploy
/// sub-procedure the whole submission aborts as a deploy failure, otherwise
/// the transport's message is carried out.
pub open spec fn spec_transport_fail(s: Submitter, m: String) -> (Submitter, Option<
    SubmitAction,
>) {
    match s.kind {
        MessageKind::Deploy => spec_fail(s, SendError::DeployError),
        MessageKind::Transfer => spec_fail(s, SendError::TransportError(m)),
    }
}

/// A timed-out attempt: the unsent message is discarded and the whole
/// sub-procedure restarts with a fresh timestamp and signature, until the
/// attempt bound is exhausted.
pub open spec fn spec_retry(s: Submitter, m: String) -> (Submitter, Option<SubmitAction>) {
    if s.attempts >= SUBMIT_MAX_ATTEMPTS - 1 {
        spec_transport_fail(s, m)
    } else {
        (
            Submitter {
                phase: SubmitPhase::Signing,
                signed: None,
                attempts: (s.attempts + 1) as u64,
                ..s
            },
            Some(SubmitAction::Sign(s.kind)),
        )
    }
}

/// The complete transition relation of one submission. Total: an event that
/// the current phase does not expect (which a driver that performs exactly
/// the requested actions never produces) leaves the state unchanged and asks
/// nothing, and terminal states absorb every event.
pub open spec fn spec_step(s: Submitter, e: SubmitEvent) -> (Submitter, Option<SubmitAction>) {
    match s.phase {
        SubmitPhase::FetchingState => match e {
            SubmitEvent::StateFetched(cs) => match cs {
                ContractState::NotExists => spec_fail(s, SendError::ContractDoesntExist),
                ContractState::Exists(snap) => if snap.is_deployed {
                    (
                        Submitter {
                            phase: SubmitPhase::Signing,
                            kind: MessageKind::Transfer,
                            ..s
                        },
                        Some(SubmitAction::Sign(MessageKind::Transfer)),
                    )
                } else {
                    (
                        Submitter {
                            phase: SubmitPhase::Signing,
                            kind: MessageKind::Deploy,
                            needs_deploy: true,
                            ..s
                        },
                        Some(SubmitAction::Sign(MessageKind::Deploy)),
                    )
                },
            },
            SubmitEvent::FetchFailed(m) => spec_fail(s, SendError::TransportError(m)),
            _ => (s, None),
        },
        SubmitPhase::Signing => match e {
            SubmitEvent::Signed(m) => (
                Submitter { phase: SubmitPhase::Measuring, signed: Some(m), ..s },
                Some(SubmitAction::PollBalance),
            ),
            SubmitEvent::SignFailed => spec_fail(s, SendError::SignError),
            SubmitEvent::AttemptTimedOut(m) => spec_retry(s, m),
            _ => (s, None),
        },
        SubmitPhase::Measuring => match e {
            SubmitEvent::Balance(b) => match s.signed {
                Some(m) => (
                    Submitter {
                        phase: SubmitPhase::Broadcasting,
                        pre_balance: b,
                        signed: None,
                        ..s
                    },
                    Some(SubmitAction::Broadcast(m, s.kind)),
                ),
                None => (s, None),
            },
            SubmitEvent::PollFailed(m) => spec_transport_fail(s, m),
            SubmitEvent::AttemptTimedOut(m) => spec_retry(s, m),
            _ => (s, None),
        },
        SubmitPhase::Broadcasting => match e {
            SubmitEvent::BroadcastOk => (
                Submitter { phase: SubmitPhase::Confirming, ..s },
                Some(SubmitAction::PollBalance),
            ),
            SubmitEvent::BroadcastFailed(m) => spec_transport_fail(s, m),
            SubmitEvent::AttemptTimedOut(m) => spec_retry(s, m),
            _ => (s, None),
        },
        SubmitPhase::Confirming => match e {
            SubmitEvent::Balance(b) => if b != s.pre_balance {
                match s.kind {
                    MessageKind::Deploy => (
                        Submitter {
                            phase: SubmitPhase::Signing,
                            kind: MessageKind::Transfer,
                            deploy_done: true,
                            attempts: 0,
                            ..s
                        },
                        Some(SubmitAction::Sign(MessageKind::Transfer)),
                    ),
                    MessageKind::Transfer => (
                        Submitter { phase: SubmitPhase::Done, ..s },
                        Some(SubmitAction::Report(Ok(()))),
                    ),
                }
            } else {
                (s, Some(SubmitAction::PollBalance))
            },
            SubmitEvent::PollFailed(m) => spec_transport_fail(s, m),
            SubmitEvent::AttemptTimedOut(m) => spec_retry(s, m),
            _ => (s, None),
        },
        SubmitPhase::Done => (s, None),
        SubmitPhase::Failed(_) => (s, None),
    }
}

impl Submitter {
    /// Starts a submission: the state awaits the sender's contract state and
    /// the driver's first duty is to fetch it.
    pub fn new() -> (r: (Submitter, SubmitAction))
        ensures
            r.0 == submit_init(),
            r.1 == SubmitAction::FetchState,
    {
        (
            Submitter {
                phase: SubmitPhase::FetchingState,
                kind: MessageKind::Transfer,
                needs_deploy: false,
                deploy_done: false,
                pre_balance: 0,
                signed: None,
                attempts: 0,
            },
            SubmitAction::FetchState,
        )
    }

    /// Performs one transition: consumes the state and the observed event,
    /// returns the next state and the next action, exactly as `spec_step`
    /// prescribes.
    pub fn step(self, e: SubmitEvent) -> (r: (Submitter, Option<SubmitAction>))
        ensures
            r == spec_step(self, e),
    {
        let Submitter { phase, kind, needs_deploy, deploy_done, pre_balance, signed, attempts } =
            self;
        match phase {
            SubmitPhase::FetchingState => match e {
                SubmitEvent::StateFetched(cs) => match cs {
                    ContractState::NotExists => (
                        Submitter {
                            phase: SubmitPhase::Failed(SendError::ContractDoesntExist),
                            kind,
                            needs_deploy,
                            deploy_done,
                            pre_balance,
                            signed: None,
                            attempts,
                        },
                        Some(SubmitAction::Report(Err(SendError::ContractDoesntExist))),
                    ),
                    ContractState::Exists(snap) => if snap.is_deployed {
                        (
                            Submitter {
                                phase: SubmitPhase::Signing,
                                kind: MessageKind::Transfer,
                                needs_deploy,
                                deploy_done,
                                pre_balance,
                                signed,
                                attempts,
                            },
                            Some(SubmitAction::Sign(MessageKind::Transfer)),
                        )
                    } else {
                        (
                            Submitter {
                                phase: SubmitPhase::Signing,
                                kind: MessageKind::Deploy,
                                needs_deploy: true,
                                deploy_done,
                                pre_balance,
                                signed,
                                attempts,
                            },
                            Some(SubmitAction::Sign(MessageKind::Deploy)),
                        )
                    },
                },
                SubmitEvent::FetchFailed(m) => {
                    let m2 = m.clone();
                    (
                        Submitter {
                            phase: SubmitPhase::Failed(SendError::TransportError(m)),
                            kind,
                            needs_deploy,
                            deploy_done,
                            pre_balance,
                            signed: None,
                            attempts,
                        },
                        Some(SubmitAction::Report(Err(SendError::TransportError(m2)))),
                    )
                },
                other => (
                    Submitter {
                        phase: SubmitPhase::FetchingState,
                        kind,
                        needs_deploy,
                        deploy_done,
                        pre_balance,
                        signed,
                        attempts,
                    },
                    Self::ignore(other),
                ),
            },
            SubmitPhase::Signing => match e {
                SubmitEvent::Signed(m) => (
                    Submitter {
                        phase: SubmitPhase::Measuring,
                        kind,
                        needs_deploy,
                        deploy_done,
                        pre_balance,
                        signed: Some(m),
                        attempts,
                    },
                    Some(SubmitAction::PollBalance),
                ),
                SubmitEvent::SignFailed => (
                    Submitter {
                        phase: SubmitPhase::Failed(SendError::SignError),
                        kind,
                        needs_deploy,
                        deploy_done,
                        pre_balance,
                        signed: None,
                        attempts,
                    },
                    Some(SubmitAction::Report(Err(SendError::SignError))),
                ),
                SubmitEvent::AttemptTimedOut(m) => Self::retry(
                    kind,
                    needs_deploy,
                    deploy_done,
                    pre_balance,
                    attempts,
                    m,
                ),
                other => (
                    Submitter {
                        phase: SubmitPhase::Signing,
                        kind,
                        needs_deploy,
                        deploy_done,
                        pre_balance,
                        signed,
                        attempts,
                    },
                    Self::ignore(other),
                ),
            },
            SubmitPhase::Measuring => match e {
                SubmitEvent::Balance(b) => match signed {
                    Some(m) => (
                        Submitter {
                            phase: SubmitPhase::Broadcasting,
                            kind,
                            needs_deploy,
                            deploy_done,
                            pre_balance: b,
                            signed: None,
                            attempts,
                        },
                        Some(SubmitAction::Broadcast(m, kind)),
                    ),
                    None => (
                        Submitter {
                            phase: SubmitPhase::Measuring,
                            kind,
                            needs_deploy,
                            deploy_done,
                            pre_balance,
                            signed: None,
                            attempts,
                        },
                        None,
                    ),
                },
                SubmitEvent::PollFailed(m) => Self::transport_fail(
                    kind,
                    needs_deploy,
                    deploy_done,
                    pre_balance,
                    attempts,
                    m,
                ),
                SubmitEvent::AttemptTimedOut(m) => Self::retry(
                    kind,
                    needs_deploy,
                    deploy_done,
                    pre_balance,
                    attempts,
                    m,
                ),
                other => (
                    Submitter {
                        phase: SubmitPhase::Measuring,
                        kind,
                        needs_deploy,
                        deploy_done,
                        pre_balance,
                        signed,
                        attempts,
                    },
                    Self::ignore(other),
                ),
            },
            SubmitPhase::Broadcasting => match e {
                SubmitEvent::BroadcastOk => (
                    Submitter {
                        phase: SubmitPhase::Confirming,
                        kind,
                        needs_deploy,
                        deploy_done,
                        pre_balance,
                        signed,
                        attempts,
                    },
                    Some(SubmitAction::PollBalance),
                ),
                SubmitEvent::BroadcastFailed(m) => Self::transport_fail(
                    kind,
                    needs_deploy,
                    deploy_done,
                    pre_balance,
                    attempts,
                    m,
                ),
                SubmitEvent::AttemptTimedOut(m) => Self::retry(
                    kind,
                    needs_deploy,
                    deploy_done,
                    pre_balance,
                    attempts,
                    m,
                ),
                other => (
                    Submitter {
                        phase: SubmitPhase::Broadcasting,
                        kind,
                        needs_deploy,
                        deploy_done,
                        pre_balance,
                        signed,
                        attempts,
                    },
                    Self::ignore(other),
                ),
            },
            SubmitPhase::Confirming => match e {
                SubmitEvent::Balance(b) => if b != pre_balance {
                    match kind {
                        MessageKind::Deploy => (
                            Submitter {
                                phase: SubmitPhase::Signing,
                                kind: MessageKind::Transfer,
                                needs_deploy,
                                deploy_done: true,
                                pre_balance,
                                signed,
                                attempts: 0,
                            },
                            Some(SubmitAction::Sign(MessageKind::Transfer)),
                        ),
                        MessageKind::Transfer => (
                            Submitter {
                                phase: SubmitPhase::Done,
                                kind,
                                needs_deploy,
                                deploy_done,
                                pre_balance,
                                signed,
                                attempts,
                            },
                            Some(SubmitAction::Report(Ok(()))),
                        ),
                    }
                } else {
                    (
                        Submitter {
                            phase: SubmitPhase::Confirming,
                            kind,
                            needs_deploy,
                            deploy_done,
                            pre_balance,
                            signed,
                            attempts,
                        },
                        Some(SubmitAction::PollBalance),
                    )
                },
                SubmitEvent::PollFailed(m) => Self::transport_fail(
                    kind,
                    needs_deploy,
                    deploy_done,
                    pre_balance,
                    attempts,
                    m,
                ),
                SubmitEvent::AttemptTimedOut(m) => Self::retry(
                    kind,
                    needs_deploy,
                    deploy_done,
                    pre_balance,
                    attempts,
                    m,
                ),
                other => (
                    Submitter {
                        phase: SubmitPhase::Confirming,
                        kind,
                        needs_deploy,
                        deploy_done,
                        pre_balance,
                        signed,
                        attempts,
                    },
                    Self::ignore(other),
                ),
            },
            SubmitPhase::Done => (
                Submitter {
                    phase: SubmitPhase::Done,
                    kind,
                    needs_deploy,
                    deploy_done,
                    pre_balance,
                    signed,
                    attempts,
                },
                None,
            ),
            SubmitPhase::Failed(err) => (
                Submitter {
                    phase: SubmitPhase::Failed(err),
                    kind,
                    needs_deploy,
                    deploy_done,
                    pre_balance,
                    signed,
                    attempts,
                },
                None,
            ),
        }
    }

    /// An event the current phase does not expect asks nothing of the driver.
    fn ignore(e: SubmitEvent) -> (r: Option<SubmitAction>)
        ensures
            r is None,
    {
        let _ = e;
        None
    }

    /// The terminal transport-class failure of the running attempt.
    fn transport_fail(
        kind: MessageKind,
        needs_deploy: bool,
        deploy_done: bool,
        pre_balance: u64,
        attempts: u64,
        m: String,
    ) -> (r: (Submitter, Option<SubmitAction>))
        ensures
            r == spec_transport_fail(
                Submitter {
                    phase: SubmitPhase::Measuring,
                    kind,
                    needs_deploy,
                    deploy_done,
                    pre_balance,
                    signed: None,
                    attempts,
                },
                m,
            ),
    {
        match kind {
            MessageKind::Deploy => (
                Submitter {
                    phase: SubmitPhase::Failed(SendError::DeployError),
                    kind,
                    needs_deploy,
                    deploy_done,
                    pre_balance,
                    signed: None,
                    attempts,
                },
                Some(SubmitAction::Report(Err(SendError::DeployError))),
            ),
            MessageKind::Transfer => {
                let m2 = m.clone();
                (
                    Submitter {
                        phase: SubmitPhase::Failed(SendError::TransportError(m)),
                        kind,
                        needs_deploy,
                        deploy_done,
                        pre_balance,
                        signed: None,
                        attempts,
                    },
                    Some(SubmitAction::Report(Err(SendError::TransportError(m2)))),
                )
            },
        }
    }

    /// Retries the sign-and-send sub-procedure after a timeout, or gives up
    /// once the attempt bound is reached.
    fn retry(
        kind: MessageKind,
        needs_deploy: bool,
        deploy_done: bool,
        pre_balance: u64,
        attempts: u64,
        m: String,
    ) -> (r: (Submitter, Option<SubmitAction>))
        ensures
            r == spec_retry(
                Submitter {
                    phase: SubmitPhase::Signing,
                    kind,
                    needs_deploy,
                    deploy_done,
                    pre_balance,
                    signed: None,
                    attempts,
                },
                m,
            ),
    {
        if attempts >= SUBMIT_MAX_ATTEMPTS - 1 {
            Self::transport_fail(kind, needs_deploy, deploy_done, pre_balance, attempts, m)
        } else {
            (
                Submitter {
                    phase: SubmitPhase::Signing,
                    kind,
                    needs_deploy,
                    deploy_done,
                    pre_balance,
                    signed: None,
                    attempts: attempts + 1,
                },
                Some(SubmitAction::Sign(kind)),
            )
        }
    }
}

/// Whether a submission has ended, successfully or not.
pub open spec fn is_terminal(p: SubmitPhase) -> bool {
    p is Done || p is Failed
}

/// The actions one transition contributes to the trace.
pub open spec fn emitted(a: Option<SubmitAction>) -> Seq<SubmitAction> {
    match a {
        Some(act) => seq![act],
        None => Seq::empty(),
    }
}

/// Runs the engine over a whole event sequence, collecting every action it
/// asks for, in order.
pub open spec fn spec_run(s: Submitter, evs: Seq<SubmitEvent>) -> (Submitter, Seq<SubmitAction>)
    decreases evs.len(),
{
    if evs.len() == 0 {
        (s, Seq::empty())
    } else {
        let first = spec_step(s, evs[0]);
        let rest = spec_run(first.0, evs.skip(1));
        (rest.0, emitted(first.1) + rest.1)
    }
}

/// Whether an action broadcasts exactly the message `m`.
pub open spec fn is_broadcast_of(a: SubmitAction, m: SignedMessage) -> bool {
    match a {
        SubmitAction::Broadcast(mm, _) => mm == m,
        _ => false,
    }
}

/// Whether an action broadcasts a message of kind `k`.
pub open spec fn is_broadcast_kind(a: SubmitAction, k: MessageKind) -> bool {
    match a {
        SubmitAction::Broadcast(_, kk) => kk == k,
        _ => false,
    }
}

/// How many actions of the trace broadcast exactly the message `m`.
pub open spec fn count_broadcasts_of(acts: Seq<SubmitAction>, m: SignedMessage) -> nat
    decreases acts.len(),
{
    if acts.len() == 0 {
        0
    } else {
        (if is_broadcast_of(acts[0], m) {
            1nat
        } else {
            0nat
        }) + count_broadcasts_of(acts.skip(1), m)
    }
}

/// How many actions of the trace broadcast a message of kind `k`.
pub open spec fn count_broadcasts_kind(acts: Seq<SubmitAction>, k: MessageKind) -> nat
    decreases acts.len(),
{
    if acts.len() == 0 {
        0
    } else {
        (if is_broadcast_kind(acts[0], k) {
            1nat
        } else {
            0nat
        }) + count_broadcasts_kind(acts.skip(1), k)
    }
}

/// How many actions of the trace report an outcome on the result port.
pub open spec fn count_reports(acts: Seq<SubmitAction>) -> nat
    decreases acts.len(),
{
    if acts.len() == 0 {
        0
    } else {
        (if acts[0] is Report {
            1nat
        } else {
            0nat
        }) + count_reports(acts.skip(1))
    }
}

/// How many events of the trace deliver exactly the freshly signed message
/// `m`.
pub open spec fn count_signed_of(evs: Seq<SubmitEvent>, m: SignedMessage) -> nat
    decreases evs.len(),
{
    if evs.len() == 0 {
        0
    } else {
        (if evs[0] == SubmitEvent::Signed(m) {
            1nat
        } else {
            0nat
        }) + count_signed_of(evs.skip(1), m)
    }
}

/// Broadcast counts of a given message add up over concatenated traces.
proof fn lemma_count_broadcasts_of_append(a: Seq<SubmitAction>, b: Seq<SubmitAction>, m: SignedMessage)
    ensures
        count_broadcasts_of(a + b, m) == count_broadcasts_of(a, m) + count_broadcasts_of(b, m),
    decreases a.len(),
{
    if a.len() == 0 {
        assert(a + b =~= b);
    } else {
        assert((a + b).skip(1) =~= a.skip(1) + b);
        lemma_count_broadcasts_of_append(a.skip(1), b, m);
    }
}

/// Broadcast counts of a given kind add up over concatenated traces.
proof fn lemma_count_broadcasts_kind_append(
    a: Seq<SubmitAction>,
    b: Seq<SubmitAction>,
    k: MessageKind,
)
    ensures
        count_broadcasts_kind(a + b, k) == count_broadcasts_kind(a, k) + count_broadcasts_kind(
            b,
            k,
        ),
    decreases a.len(),
{
    if a.len() == 0 {
        assert(a + b =~= b);
    } else {
        assert((a + b).skip(1) =~= a.skip(1) + b);
        lemma_count_broadcasts_kind_append(a.skip(1), b, k);
    }
}

/// A message held, unsent, by the state counts as one budgeted broadcast.
pub open spec fn held_count(s: Submitter, m: SignedMessage) -> nat {
    if s.signed == Some(m) {
        1nat
    } else {
        0nat
    }
}

/// The signed-delivery count of a one-event trace, in closed form.
proof fn lemma_count_signed_of_singleton(e: SubmitEvent, m: SignedMessage)
    ensures
        count_signed_of(seq![e], m) == (if e == SubmitEvent::Signed(m) {
            1nat
        } else {
            0nat
        }),
{
    reveal_with_fuel(count_signed_of, 2);
    assert(seq![e].skip(1) =~= Seq::<SubmitEvent>::empty());
}

/// The broadcast count of what one transition emits, in closed form.
proof fn lemma_count_broadcasts_of_emitted(a: Option<SubmitAction>, m: SignedMessage)
    ensures
        count_broadcasts_of(emitted(a), m) == (match a {
            Some(act) => if is_broadcast_of(act, m) {
                1nat
            } else {
                0nat
            },
            None => 0nat,
        }),
{
    reveal_with_fuel(count_broadcasts_of, 2);
    match a {
        Some(act) => {
            assert(seq![act].skip(1) =~= Seq::<SubmitAction>::empty());
        },
        None => {},
    }
}

/// The per-kind broadcast count of what one transition emits, in closed form.
proof fn lemma_count_broadcasts_kind_emitted(a: Option<SubmitAction>, k: MessageKind)
    ensures
        count_broadcasts_kind(emitted(a), k) == (match a {
            Some(act) => if is_broadcast_kind(act, k) {
                1nat
            } else {
                0nat
            },
            None => 0nat,
        }),
{
    reveal_with_fuel(count_broadcasts_kind, 2);
    match a {
        Some(act) => {
            assert(seq![act].skip(1) =~= Seq::<SubmitAction>::empty());
        },
        None => {},
    }
}

/// The report count of what one transition emits, in closed form.
proof fn lemma_count_reports_emitted(a: Option<SubmitAction>)
    ensures
        count_reports(emitted(a)) == (match a {
            Some(act) => if act is Report {
                1nat
            } else {
                0nat
            },
            None => 0nat,
        }),
{
    reveal_with_fuel(count_reports, 2);
    match a {
        Some(act) => {
            assert(seq![act].skip(1) =~= Seq::<SubmitAction>::empty());
        },
        None => {},
    }
}

/// One transition never broadcasts a message it was not handed: the broadcast
/// it may emit plus the message it may still hold are covered by what it held
/// before plus what this event freshly signed.
proof fn lemma_step_signature_budget(s: Submitter, e: SubmitEvent, m: SignedMessage)
    ensures
        ({
            let r = spec_step(s, e);
            count_broadcasts_of(emitted(r.1), m) + held_count(r.0, m) <= held_count(s, m)
                + count_signed_of(seq![e], m)
        }),
{
    let r = spec_step(s, e);
    lemma_count_signed_of_singleton(e, m);
    lemma_count_broadcasts_of_emitted(r.1, m);
}

/// Over a whole run, broadcasts of any given message are budgeted by the
/// times it was freshly signed, plus one if the starting state already held
/// it.
proof fn lemma_run_signature_budget(s: Submitter, evs: Seq<SubmitEvent>, m: SignedMessage)
    ensures
        ({
            let r = spec_run(s, evs);
            count_broadcasts_of(r.1, m) + held_count(r.0, m) <= held_count(s, m) + count_signed_of(
                evs,
                m,
            )
        }),
    decreases evs.len(),
{
    if evs.len() == 0 {
    } else {
        let first = spec_step(s, evs[0]);
        lemma_step_signature_budget(s, evs[0], m);
        lemma_count_signed_of_singleton(evs[0], m);
        lemma_run_signature_budget(first.0, evs.skip(1), m);
        lemma_count_broadcasts_of_append(emitted(first.1), spec_run(first.0, evs.skip(1)).1, m);
    }
}

/// A signed message is never broadcast twice by one submit call: the engine
/// broadcasts any given message at most as often as the driver delivered it
/// freshly signed, so under retry it always re-signs before re-broadcasting.
pub proof fn lemma_no_double_broadcast(evs: Seq<SubmitEvent>, m: SignedMessage)
    ensures
        count_broadcasts_of(spec_run(submit_init(), evs).1, m) <= count_signed_of(evs, m),
{
    lemma_run_signature_budget(submit_init(), evs, m);
}

/// A terminal state absorbs every further event without acting.
proof fn lemma_terminal_absorbs(s: Submitter, evs: Seq<SubmitEvent>)
    requires
        is_terminal(s.phase),
    ensures
        spec_run(s, evs) == (s, Seq::<SubmitAction>::empty()),
    decreases evs.len(),
{
    if evs.len() == 0 {
    } else {
        lemma_terminal_absorbs(s, evs.skip(1));
        assert(emitted(spec_step(s, evs[0]).1) + Seq::<SubmitAction>::empty() =~= Seq::<
            SubmitAction,
        >::empty());
    }
}

/// A sender whose account does not exist on chain always fails with
/// `ContractDoesntExist`: the run reports that error exactly once and never
/// asks for any broadcast, whatever happens afterwards.
pub proof fn lemma_absent_sender_never_broadcasts(evs: Seq<SubmitEvent>)
    requires
        evs.len() > 0,
        evs[0] == SubmitEvent::StateFetched(ContractState::NotExists),
    ensures
        ({
            let r = spec_run(submit_init(), evs);
            &&& r.0.phase == SubmitPhase::Failed(SendError::ContractDoesntExist)
            &&& r.1 == seq![SubmitAction::Report(Err(SendError::ContractDoesntExist))]
            &&& count_broadcasts_kind(r.1, MessageKind::Deploy) == 0
            &&& count_broadcasts_kind(r.1, MessageKind::Transfer) == 0
            &&& count_reports(r.1) == 1
        }),
{
    let first = spec_step(submit_init(), evs[0]);
    lemma_terminal_absorbs(first.0, evs.skip(1));
    let acts = spec_run(submit_init(), evs).1;
    assert(acts =~= seq![SubmitAction::Report(Err(SendError::ContractDoesntExist))]);
    lemma_count_broadcasts_kind_emitted(first.1, MessageKind::Deploy);
    lemma_count_broadcasts_kind_emitted(first.1, MessageKind::Transfer);
    lemma_count_reports_emitted(first.1);
    assert(emitted(first.1) =~= acts);
    lemma_count_broadcasts_kind_append(acts, Seq::<SubmitAction>::empty(), MessageKind::Deploy);
}

/// Bookkeeping a deploy-first submission maintains, phrased over the running
/// counts of deploy and transfer broadcasts: once the sender was seen without
/// code, a transfer is broadcast only after the deploy was broadcast and
/// confirmed.
pub open spec fn deploy_order_inv(s: Submitter, cd: nat, ct: nat) -> bool {
    &&& s.needs_deploy
    &&& !(s.phase is FetchingState)
    &&& (s.deploy_done ==> cd >= 1)
    &&& (s.deploy_done ==> s.kind == MessageKind::Transfer)
    &&& (!s.deploy_done && !is_terminal(s.phase) ==> s.kind == MessageKind::Deploy)
    &&& ((s.phase is Broadcasting || s.phase is Confirming) && s.kind == MessageKind::Deploy
        ==> cd >= 1)
    &&& (ct > 0 ==> s.deploy_done)
}

/// One transition preserves the deploy-before-transfer bookkeeping.
proof fn lemma_step_deploy_order(s: Submitter, e: SubmitEvent, cd: nat, ct: nat)
    requires
        deploy_order_inv(s, cd, ct),
    ensures
        ({
            let r = spec_step(s, e);
            deploy_order_inv(
                r.0,
                cd + count_broadcasts_kind(emitted(r.1), MessageKind::Deploy),
                ct + count_broadcasts_kind(emitted(r.1), MessageKind::Transfer),
            )
        }),
{
    let r = spec_step(s, e);
    lemma_count_broadcasts_kind_emitted(r.1, MessageKind::Deploy);
    lemma_count_broadcasts_kind_emitted(r.1, MessageKind::Transfer);
}

/// A whole run preserves the deploy-before-transfer bookkeeping.
proof fn lemma_run_deploy_order(s: Submitter, evs: Seq<SubmitEvent>, cd: nat, ct: nat)
    requires
        deploy_order_inv(s, cd, ct),
    ensures
        ({
            let r = spec_run(s, evs);
            deploy_order_inv(
                r.0,
                cd + count_broadcasts_kind(r.1, MessageKind::Deploy),
                ct + count_broadcasts_kind(r.1, MessageKind::Transfer),
            )
        }),
    decreases evs.len(),
{
    if evs.len() == 0 {
    } else {
        let first = spec_step(s, evs[0]);
        let rest = spec_run(first.0, evs.skip(1));
        lemma_step_deploy_order(s, evs[0], cd, ct);
        lemma_run_deploy_order(
            first.0,
            evs.skip(1),
            cd + count_broadcasts_kind(emitted(first.1), MessageKind::Deploy),
            ct + count_broadcasts_kind(emitted(first.1), MessageKind::Transfer),
        );
        lemma_count_broadcasts_kind_append(emitted(first.1), rest.1, MessageKind::Deploy);
        lemma_count_broadcasts_kind_append(emitted(first.1), rest.1, MessageKind::Transfer);
    }
}

/// For a sender seen without code, the engine broadcasts a deploy message
/// before any transfer message: whatever the events, a trace that contains a
/// transfer broadcast also contains an earlier, completed deploy broadcast.
pub proof fn lemma_deploy_broadcast_precedes_transfer(
    snap: crate::models::AccountSnapshot,
    evs: Seq<SubmitEvent>,
)
    requires
        evs.len() > 0,
        evs[0] == SubmitEvent::StateFetched(ContractState::Exists(snap)),
        !snap.is_deployed,
    ensures
        ({
            let acts = spec_run(submit_init(), evs).1;
            count_broadcasts_kind(acts, MessageKind::Transfer) > 0 ==> count_broadcasts_kind(
                acts,
                MessageKind::Deploy,
            ) >= 1
        }),
{
    let first = spec_step(submit_init(), evs[0]);
    let rest = spec_run(first.0, evs.skip(1));
    assert(deploy_order_inv(first.0, 0, 0));
    lemma_run_deploy_order(first.0, evs.skip(1), 0, 0);
    lemma_count_broadcasts_kind_emitted(first.1, MessageKind::Deploy);
    lemma_count_broadcasts_kind_emitted(first.1, MessageKind::Transfer);
    lemma_count_broadcasts_kind_append(emitted(first.1), rest.1, MessageKind::Deploy);
    lemma_count_broadcasts_kind_append(emitted(first.1), rest.1, MessageKind::Transfer);
}

/// One transition reports exactly when it makes the submission terminal.
proof fn lemma_step_reports_once(s: Submitter, e: SubmitEvent)
    requires
        !is_terminal(s.phase),
    ensures
        ({
            let r = spec_step(s, e);
            count_reports(emitted(r.1)) == (if is_terminal(r.0.phase) {
                1nat
            } else {
                0nat
            })
        }),
{
    let r = spec_step(s, e);
    lemma_count_reports_emitted(r.1);
}

/// Over a whole run from a live state, the reports count the terminations.
proof fn lemma_run_reports_once(s: Submitter, evs: Seq<SubmitEvent>)
    requires
        !is_terminal(s.phase),
    ensures
        ({
            let r = spec_run(s, evs);
            count_reports(r.1) == (if is_terminal(r.0.phase) {
                1nat
            } else {
                0nat
            })
        }),
    decreases evs.len(),
{
    if evs.len() == 0 {
    } else {
        let first = spec_step(s, evs[0]);
        let rest = spec_run(first.0, evs.skip(1));
        lemma_step_reports_once(s, evs[0]);
        if is_terminal(first.0.phase) {
            lemma_terminal_absorbs(first.0, evs.skip(1));
        } else {
            lemma_run_reports_once(first.0, evs.skip(1));
        }
        lemma_count_reports_append(emitted(first.1), rest.1);
    }
}

/// Report counts add up over concatenated traces.
proof fn lemma_count_reports_append(a: Seq<SubmitAction>, b: Seq<SubmitAction>)
    ensures
        count_reports(a + b) == count_reports(a) + count_reports(b),
    decreases a.len(),
{
    if a.len() == 0 {
        assert(a + b =~= b);
    } else {
        assert((a + b).skip(1) =~= a.skip(1) + b);
        lemma_count_reports_append(a.skip(1), b);
    }
}

/// No outcome is ever swallowed and none is reported twice: a submission
/// posts exactly one report on the result port when it ends — success or the
/// typed error — and posts nothing as long as it still runs.
pub proof fn lemma_exactly_one_report(evs: Seq<SubmitEvent>)
    ensures
        ({
            let r = spec_run(submit_init(), evs);
            count_reports(r.1) == (if is_terminal(r.0.phase) {
                1nat
            } else {
                0nat
            })
        }),
{
    lemma_run_reports_once(submit_init(), evs);
}

/// Whether an action reports success on the result port.
pub open spec fn is_ok_report(a: SubmitAction) -> bool {
    match a {
        SubmitAction::Report(r) => r is Ok,
        _ => false,
    }
}

/// Whether an action reports a failure on the result port.
pub open spec fn is_err_report(a: SubmitAction) -> bool {
    match a {
        SubmitAction::Report(r) => r is Err,
        _ => false,
    }
}

/// How many actions of the trace report success.
pub open spec fn count_ok_reports(acts: Seq<SubmitAction>) -> nat
    decreases acts.len(),
{
    if acts.len() == 0 {
        0
    } else {
        (if is_ok_report(acts[0]) {
            1nat
        } else {
            0nat
        }) + count_ok_reports(acts.skip(1))
    }
}

/// How many actions of the trace report a failure.
pub open spec fn count_err_reports(acts: Seq<SubmitAction>) -> nat
    decreases acts.len(),
{
    if acts.len() == 0 {
        0
    } else {
        (if is_err_report(acts[0]) {
            1nat
        } else {
            0nat
        }) + count_err_reports(acts.skip(1))
    }
}

/// The success-report count of what one transition emits, in closed form.
proof fn lemma_count_ok_reports_emitted(a: Option<SubmitAction>)
    ensures
        count_ok_reports(emitted(a)) == (match a {
            Some(act) => if is_ok_report(act) {
                1nat
            } else {
                0nat
            },
            None => 0nat,
        }),
{
    reveal_with_fuel(count_ok_reports, 2);
    match a {
        Some(act) => {
            assert(seq![act].skip(1) =~= Seq::<SubmitAction>::empty());
        },
        None => {},
    }
}

/// The failure-report count of what one transition emits, in closed form.
proof fn lemma_count_err_reports_emitted(a: Option<SubmitAction>)
    ensures
        count_err_reports(emitted(a)) == (match a {
            Some(act) => if is_err_report(act) {
                1nat
            } else {
                0nat
            },
            None => 0nat,
        }),
{
    reveal_with_fuel(count_err_reports, 2);
    match a {
        Some(act) => {
            assert(seq![act].skip(1) =~= Seq::<SubmitAction>::empty());
        },
        None => {},
    }
}

/// Success-report counts add up over concatenated traces.
proof fn lemma_count_ok_reports_append(a: Seq<SubmitAction>, b: Seq<SubmitAction>)
    ensures
        count_ok_reports(a + b) == count_ok_reports(a) + count_ok_reports(b),
    decreases a.len(),
{
    if a.len() == 0 {
        assert(a + b =~= b);
    } else {
        assert((a + b).skip(1) =~= a.skip(1) + b);
        lemma_count_ok_reports_append(a.skip(1), b);
    }
}

/// Failure-report counts add up over concatenated traces.
proof fn lemma_count_err_reports_append(a: Seq<SubmitAction>, b: Seq<SubmitAction>)
    ensures
        count_err_reports(a + b) == count_err_reports(a) + count_err_reports(b),
    decreases a.len(),
{
    if a.len() == 0 {
        assert(a + b =~= b);
    } else {
        assert((a + b).skip(1) =~= a.skip(1) + b);
        lemma_count_err_reports_append(a.skip(1), b);
    }
}

/// The outcome bookkeeping a run maintains: the success and failure reports
/// posted so far count the terminal state reached, and success presupposes a
/// transfer broadcast.
pub open spec fn outcome_inv(s: Submitter, co: nat, ce: nat, ct: nat) -> bool {
    &&& co == (if s.phase is Done {
        1nat
    } else {
        0nat
    })
    &&& ce == (if s.phase is Failed {
        1nat
    } else {
        0nat
    })
    &&& ((s.phase is Broadcasting || s.phase is Confirming) && s.kind == MessageKind::Transfer
        ==> ct >= 1)
    &&& (s.phase is Done ==> ct >= 1)
}

/// One transition preserves the outcome bookkeeping.
proof fn lemma_step_outcome(s: Submitter, e: SubmitEvent, co: nat, ce: nat, ct: nat)
    requires
        outcome_inv(s, co, ce, ct),
    ensures
        ({
            let r = spec_step(s, e);
            outcome_inv(
                r.0,
                co + count_ok_reports(emitted(r.1)),
                ce + count_err_reports(emitted(r.1)),
                ct + count_broadcasts_kind(emitted(r.1), MessageKind::Transfer),
            )
        }),
{
    let r = spec_step(s, e);
    lemma_count_ok_reports_emitted(r.1);
    lemma_count_err_reports_emitted(r.1);
    lemma_count_broadcasts_kind_emitted(r.1, MessageKind::Transfer);
}

/// A whole run preserves the outcome bookkeeping.
proof fn lemma_run_outcome_inv(s: Submitter, evs: Seq<SubmitEvent>, co: nat, ce: nat, ct: nat)
    requires
        outcome_inv(s, co, ce, ct),
    ensures
        ({
            let r = spec_run(s, evs);
            outcome_inv(
                r.0,
                co + count_ok_reports(r.1),
                ce + count_err_reports(r.1),
                ct + count_broadcasts_kind(r.1, MessageKind::Transfer),
            )
        }),
    decreases evs.len(),
{
    if evs.len() == 0 {
    } else {
        let first = spec_step(s, evs[0]);
        let rest = spec_run(first.0, evs.skip(1));
        lemma_step_outcome(s, evs[0], co, ce, ct);
        lemma_run_outcome_inv(
            first.0,
            evs.skip(1),
            co + count_ok_reports(emitted(first.1)),
            ce + count_err_reports(emitted(first.1)),
            ct + count_broadcasts_kind(emitted(first.1), MessageKind::Transfer),
        );
        lemma_count_ok_reports_append(emitted(first.1), rest.1);
        lemma_count_err_reports_append(emitted(first.1), rest.1);
        lemma_count_broadcasts_kind_append(emitted(first.1), rest.1, MessageKind::Transfer);
    }
}

/// For every event schedule: a submission that reached `Done` has posted
/// exactly one success report, no failure report, and has broadcast the
/// transfer; one that failed has posted exactly one failure report and no
/// success; one still running has posted nothing.
pub proof fn lemma_run_outcome(evs: Seq<SubmitEvent>)
    ensures
        ({
            let r = spec_run(submit_init(), evs);
            &&& count_ok_reports(r.1) == (if r.0.phase is Done {
                1nat
            } else {
                0nat
            })
            &&& count_err_reports(r.1) == (if r.0.phase is Failed {
                1nat
            } else {
                0nat
            })
            &&& (r.0.phase is Done ==> count_broadcasts_kind(r.1, MessageKind::Transfer) >= 1)
        }),
{
    lemma_run_outcome_inv(submit_init(), evs, 0, 0, 0);
}

/// Whether no deploy broadcast follows a transfer broadcast anywhere in the
/// trace.
pub open spec fn deploys_precede_transfers(acts: Seq<SubmitAction>) -> bool {
    forall|i: int, j: int|
        0 <= i < j < acts.len() ==> !(is_broadcast_kind(#[trigger] acts[i], MessageKind::Transfer)
            && is_broadcast_kind(#[trigger] acts[j], MessageKind::Deploy))
}

/// Once the engine works on the transfer, it never signs or broadcasts a
/// deploy again: the state of the fetch phase is never re-entered, and only
/// that phase selects the deploy message.
proof fn lemma_transfer_kind_is_final(s: Submitter, evs: Seq<SubmitEvent>)
    requires
        !(s.phase is FetchingState),
        s.kind == MessageKind::Transfer,
    ensures
        count_broadcasts_kind(spec_run(s, evs).1, MessageKind::Deploy) == 0,
    decreases evs.len(),
{
    if evs.len() == 0 {
    } else {
        let first = spec_step(s, evs[0]);
        let rest = spec_run(first.0, evs.skip(1));
        lemma_count_broadcasts_kind_emitted(first.1, MessageKind::Deploy);
        lemma_transfer_kind_is_final(first.0, evs.skip(1));
        lemma_count_broadcasts_kind_append(emitted(first.1), rest.1, MessageKind::Deploy);
    }
}

/// A trace with no deploy broadcast at all has none at any position.
proof fn lemma_count_deploy_zero(acts: Seq<SubmitAction>)
    requires
        count_broadcasts_kind(acts, MessageKind::Deploy) == 0,
    ensures
        forall|i: int|
            0 <= i < acts.len() ==> !is_broadcast_kind(
                #[trigger] acts[i],
                MessageKind::Deploy,
            ),
    decreases acts.len(),
{
    if acts.len() > 0 {
        lemma_count_deploy_zero(acts.skip(1));
        assert forall|i: int|
            0 <= i < acts.len() implies !is_broadcast_kind(
            #[trigger] acts[i],
            MessageKind::Deploy,
        ) by {
            if i > 0 {
                assert(acts[i] == acts.skip(1)[i - 1]);
            }
        }
    }
}

/// Every deploy broadcast of a run comes before every transfer broadcast.
proof fn lemma_run_ordered(s: Submitter, evs: Seq<SubmitEvent>)
    ensures
        deploys_precede_transfers(spec_run(s, evs).1),
    decreases evs.len(),
{
    if evs.len() == 0 {
    } else {
        let first = spec_step(s, evs[0]);
        let rest = spec_run(first.0, evs.skip(1));
        let acts = spec_run(s, evs).1;
        lemma_run_ordered(first.0, evs.skip(1));
        if first.1 matches Some(act) && is_broadcast_kind(act, MessageKind::Transfer) {
            // the one arm that broadcasts uses the current kind and leaves
            // the fetch phase behind for good
            assert(first.0.kind == MessageKind::Transfer);
            assert(!(first.0.phase is FetchingState));
            lemma_transfer_kind_is_final(first.0, evs.skip(1));
            lemma_count_deploy_zero(rest.1);
        }
        assert forall|i: int, j: int|
            0 <= i < j < acts.len() implies !(is_broadcast_kind(
            #[trigger] acts[i],
            MessageKind::Transfer,
        ) && is_broadcast_kind(#[trigger] acts[j], MessageKind::Deploy)) by {
            let e = emitted(first.1).len() as int;
            if i >= e {
                assert(acts[i] == rest.1[i - e]);
                assert(acts[j] == rest.1[j - e]);
            } else {
                assert(acts[i] == emitted(first.1)[i]);
                assert(acts[j] == rest.1[j - e]);
            }
        }
    }
}

/// In every trace of one submission, every deploy broadcast comes strictly
/// before every transfer broadcast: after the transfer is first handed out,
/// no deploy message is ever broadcast again.
pub proof fn lemma_no_deploy_after_transfer_broadcast(evs: Seq<SubmitEvent>)
    ensures
        deploys_precede_transfers(spec_run(submit_init(), evs).1),
{
    lemma_run_ordered(submit_init(), evs);
}

/// The engine's first signing request follows the prepare-transfer decision:
/// a snapshot that warrants a deploy makes the engine sign the deploy message
/// first, and one that does not makes it sign the transfer right away.
pub proof fn lemma_engine_follows_prepare_transfer(snap: crate::models::AccountSnapshot)
    ensures
        ({
            let r = spec_step(
                submit_init(),
                SubmitEvent::StateFetched(ContractState::Exists(snap)),
            );
            match crate::models::transfer_action_of(snap) {
                crate::models::TransferAction::DeployFirst => r.1 == Some(
                    SubmitAction::Sign(MessageKind::Deploy),
                ) && r.0.needs_deploy,
                crate::models::TransferAction::Sign => r.1 == Some(
                    SubmitAction::Sign(MessageKind::Transfer),
                ) && !r.0.needs_deploy,
            }
        }),
{
}

/// A deployed sender with a confirming balance change reaches `Done`, and the
/// result port receives exactly one success report: the engine asks for a
/// signature, measures the balance, broadcasts the one signed message, polls,
/// and reports success once.
pub proof fn lemma_submit_happy_path(
    snap: crate::models::AccountSnapshot,
    m: SignedMessage,
    b0: u64,
    b1: u64,
)
    requires
        snap.is_deployed,
        b0 != b1,
    ensures
        ({
            let evs = seq![
                SubmitEvent::StateFetched(ContractState::Exists(snap)),
                SubmitEvent::Signed(m),
                SubmitEvent::Balance(b0),
                SubmitEvent::BroadcastOk,
                SubmitEvent::Balance(b1),
            ];
            let r = spec_run(submit_init(), evs);
            &&& r.0.phase is Done
            &&& r.1 == seq![
                SubmitAction::Sign(MessageKind::Transfer),
                SubmitAction::PollBalance,
                SubmitAction::Broadcast(m, MessageKind::Transfer),
                SubmitAction::PollBalance,
                SubmitAction::Report(Ok(())),
            ]
            &&& count_reports(r.1) == 1
        }),
{
    reveal_with_fuel(spec_run, 7);
    reveal_with_fuel(count_reports, 7);
    let evs = seq![
        SubmitEvent::StateFetched(ContractState::Exists(snap)),
        SubmitEvent::Signed(m),
        SubmitEvent::Balance(b0),
        SubmitEvent::BroadcastOk,
        SubmitEvent::Balance(b1),
    ];
    let r = spec_run(submit_init(), evs);
    let expect = seq![
        SubmitAction::Sign(MessageKind::Transfer),
        SubmitAction::PollBalance,
        SubmitAction::Broadcast(m, MessageKind::Transfer),
        SubmitAction::PollBalance,
        SubmitAction::Report(Ok(())),
    ];
    assert(r.1 =~= expect);
    assert(count_reports(expect) == 1) by {
        reveal_with_fuel(count_reports, 7);
        assert(expect.skip(1).skip(1).skip(1).skip(1).skip(1) =~= Seq::<SubmitAction>::empty());
    }
}

/// A sender without code, on the happy path, has exactly one deploy message
/// broadcast, and it comes before the one transfer broadcast; the run then
/// reaches `Done` with exactly one success report.
pub proof fn lemma_deploy_then_transfer_happy_path(
    snap: crate::models::AccountSnapshot,
    dm: SignedMessage,
    tm: SignedMessage,
    b0: u64,
    b1: u64,
    c0: u64,
    c1: u64,
)
    requires
        !snap.is_deployed,
        b0 != b1,
        c0 != c1,
    ensures
        ({
            let evs = seq![
                SubmitEvent::StateFetched(ContractState::Exists(snap)),
                SubmitEvent::Signed(dm),
                SubmitEvent::Balance(b0),
                SubmitEvent::BroadcastOk,
                SubmitEvent::Balance(b1),
                SubmitEvent::Signed(tm),
                SubmitEvent::Balance(c0),
                SubmitEvent::BroadcastOk,
                SubmitEvent::Balance(c1),
            ];
            let r = spec_run(submit_init(), evs);
            &&& r.0.phase is Done
            &&& r.1 == seq![
                SubmitAction::Sign(MessageKind::Deploy),
                SubmitAction::PollBalance,
                SubmitAction::Broadcast(dm, MessageKind::Deploy),
                SubmitAction::PollBalance,
                SubmitAction::Sign(MessageKind::Transfer),
                SubmitAction::PollBalance,
                SubmitAction::Broadcast(tm, MessageKind::Transfer),
                SubmitAction::PollBalance,
                SubmitAction::Report(Ok(())),
            ]
            &&& count_broadcasts_kind(r.1, MessageKind::Deploy) == 1
            &&& count_reports(r.1) == 1
        }),
{
    reveal_with_fuel(spec_run, 11);
    reveal_with_fuel(count_reports, 11);
    reveal_with_fuel(count_broadcasts_kind, 11);
    let evs = seq![
        SubmitEvent::StateFetched(ContractState::Exists(snap)),
        SubmitEvent::Signed(dm),
        SubmitEvent::Balance(b0),
        SubmitEvent::BroadcastOk,
        SubmitEvent::Balance(b1),
        SubmitEvent::Signed(tm),
        SubmitEvent::Balance(c0),
        SubmitEvent::BroadcastOk,
        SubmitEvent::Balance(c1),
    ];
    let r = spec_run(submit_init(), evs);
    let expect = seq![
        SubmitAction::Sign(MessageKind::Deploy),
        SubmitAction::PollBalance,
        SubmitAction::Broadcast(dm, MessageKind::Deploy),
        SubmitAction::PollBalance,
        SubmitAction::Sign(MessageKind::Transfer),
        SubmitAction::PollBalance,
        SubmitAction::Broadcast(tm, MessageKind::Transfer),
        SubmitAction::PollBalance,
        SubmitAction::Report(Ok(())),
    ];
    assert(r.1 =~= expect);
    assert(expect.skip(1).skip(1).skip(1).skip(1).skip(1).skip(1).skip(1).skip(1).skip(1) =~= Seq::<
        SubmitAction,
    >::empty());
}

} // verus!
