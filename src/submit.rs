use vstd::prelude::*;

use solana_sdk::transaction::Transaction;

use crate::address::{base58_encode, base58_encoded};
use crate::error::BubblegumError;
use crate::instruction::{required_signers, InstructionDescriptor};
use crate::keys::{key_set, sign_transaction, KeyMaterial};

verus! {

/// Where a submission stands.
#[derive(Debug, Clone, Copy, PartialEq, Eq, Structural)]
pub enum Phase {
    /// Waiting for a freshness token (recent blockhash).
    AwaitingToken,
    /// Signed and handed to the network; waiting for its verdict.
    AwaitingConfirmation,
    /// Done, with a signature or an error.
    Finished,
}

/// What the network side reports back.
#[derive(Debug, Clone, Copy)]
pub enum ChainEvent {
    /// A fresh token arrived.
    TokenReceived([u8; 32]),
    /// The token could not be fetched.
    TokenUnavailable,
    /// The network confirmed the transaction.
    Confirmed,
    /// The network evaluated the transaction and refused it.
    Rejected,
    /// Submission or confirmation failed in transport.
    TransportFailed,
    /// The caller's time bound ran out.
    TimedOut,
}

/// What the network side is asked to do next.
pub enum SubmitAction {
    /// Fetch a freshness token and report it.
    FetchToken,
    /// Send the signed transaction and report the verdict.
    Send,
    /// Stop: the submission is over with this result.
    Finish(Result<String, BubblegumError>),
}

/// The kind of an action, without its payload.
#[derive(Debug, Clone, Copy, PartialEq, Eq, Structural)]
pub enum ActionKind {
    FetchToken,
    Send,
    Finish,
}

/// The kind of an action.
pub open spec fn kind_of(a: SubmitAction) -> ActionKind {
    match a {
        SubmitAction::FetchToken => ActionKind::FetchToken,
        SubmitAction::Send => ActionKind::Send,
        SubmitAction::Finish(_) => ActionKind::Finish,
    }
}

/// A result with its text as characters.
pub open spec fn result_view(r: Result<String, BubblegumError>) -> Result<Seq<char>, BubblegumError> {
    match r {
        Ok(s) => Ok(s@),
        Err(e) => Err(e),
    }
}

/// The result an action finishes with, if it finishes.
pub open spec fn finish_view(a: SubmitAction) -> Option<Result<Seq<char>, BubblegumError>> {
    match a {
        SubmitAction::Finish(r) => Some(result_view(r)),
        _ => None,
    }
}

/// The phase after an event. Events that do not fit the phase change nothing.
pub open spec fn next_phase(p: Phase, e: ChainEvent) -> Phase {
    match p {
        Phase::AwaitingToken => match e {
            ChainEvent::TokenReceived(_) => Phase::AwaitingConfirmation,
            ChainEvent::TokenUnavailable | ChainEvent::TransportFailed | ChainEvent::TimedOut => Phase::Finished,
            _ => Phase::AwaitingToken,
        },
        Phase::AwaitingConfirmation => match e {
            ChainEvent::Confirmed | ChainEvent::Rejected | ChainEvent::TransportFailed
            | ChainEvent::TimedOut => Phase::Finished,
            _ => Phase::AwaitingConfirmation,
        },
        Phase::Finished => Phase::Finished,
    }
}

/// The action that a phase asks for.
pub open spec fn pending_kind(p: Phase) -> ActionKind {
    match p {
        Phase::AwaitingToken => ActionKind::FetchToken,
        Phase::AwaitingConfirmation => ActionKind::Send,
        Phase::Finished => ActionKind::Finish,
    }
}

/// The error an event ends a running submission with, if any.
pub open spec fn failure_of(p: Phase, e: ChainEvent) -> Option<BubblegumError> {
    match p {
        Phase::AwaitingToken => match e {
            ChainEvent::TokenUnavailable | ChainEvent::TransportFailed => Some(
                BubblegumError::NetworkError,
            ),
            ChainEvent::TimedOut => Some(BubblegumError::Timeout),
            _ => None,
        },
        Phase::AwaitingConfirmation => match e {
            ChainEvent::Rejected => Some(BubblegumError::TransactionRejected),
            ChainEvent::TransportFailed => Some(BubblegumError::NetworkError),
            ChainEvent::TimedOut => Some(BubblegumError::Timeout),
            _ => None,
        },
        Phase::Finished => None,
    }
}

/// The phase after a run of events.
pub open spec fn phase_after(p: Phase, events: Seq<ChainEvent>) -> Phase
    decreases events.len(),
{
    if events.len() == 0 {
        p
    } else {
        phase_after(next_phase(p, events[0]), events.drop_first())
    }
}

/// A finished submission stays finished, whatever is reported later.
pub proof fn lemma_finished_stays(events: Seq<ChainEvent>)
    ensures
        phase_after(Phase::Finished, events) == Phase::Finished,
    decreases events.len(),
{
    if events.len() > 0 {
        lemma_finished_stays(events.drop_first());
    }
}

/// When the freshness token cannot be fetched, the submission ends with
/// `NetworkError`, and no later report ever leads to sending.
pub proof fn lemma_token_failure_never_sends(events: Seq<ChainEvent>)
    ensures
        failure_of(Phase::AwaitingToken, ChainEvent::TokenUnavailable) == Some(
            BubblegumError::NetworkError,
        ),
        forall|i: int|
            0 <= i <= events.len() ==> pending_kind(
                phase_after(
                    next_phase(Phase::AwaitingToken, ChainEvent::TokenUnavailable),
                    #[trigger] events.take(i),
                ),
            ) == ActionKind::Finish,
{
    assert forall|i: int| 0 <= i <= events.len() implies pending_kind(
        phase_after(
            next_phase(Phase::AwaitingToken, ChainEvent::TokenUnavailable),
            #[trigger] events.take(i),
        ),
    ) == ActionKind::Finish by {
        lemma_finished_stays(events.take(i));
    }
}

/// Once the transaction is sent, a refusal, a transport failure or an
/// expired bound ends the submission with `TransactionRejected`,
/// `NetworkError` or `Timeout`, and it stays finished.
pub proof fn lemma_failed_confirmation_is_final(e: ChainEvent, events: Seq<ChainEvent>)
    requires
        e is Rejected || e is TransportFailed || e is TimedOut,
    ensures
        next_phase(Phase::AwaitingConfirmation, e) == Phase::Finished,
        failure_of(Phase::AwaitingConfirmation, e) == Some(
            if e is Rejected {
                BubblegumError::TransactionRejected
            } else if e is TransportFailed {
                BubblegumError::NetworkError
            } else {
                BubblegumError::Timeout
            },
        ),
        phase_after(next_phase(Phase::AwaitingConfirmation, e), events) == Phase::Finished,
{
    lemma_finished_stays(events);
}

/// One transaction on its way to the network: the instruction, the keys
/// that sign it, and how far it has come.
pub struct Submission {
    instruction: InstructionDescriptor,
    payer: KeyMaterial,
    other: Option<KeyMaterial>,
    phase: Phase,
    transaction: Option<Transaction>,
    signature: Option<String>,
    outcome: Option<Result<String, BubblegumError>>,
}

impl Submission {
    /// Where the submission stands.
    pub closed spec fn phase_of(&self) -> Phase {
        self.phase
    }

    /// The base58 signature, once the transaction is signed.
    pub closed spec fn signature_text(&self) -> Option<Seq<char>> {
        match self.signature {
            Some(s) => Some(s@),
            None => None,
        }
    }

    /// The result, once finished.
    pub closed spec fn outcome_of(&self) -> Option<Result<Seq<char>, BubblegumError>> {
        match self.outcome {
            Some(r) => Some(result_view(r)),
            None => None,
        }
    }

    /// The program of the instruction the submission carries.
    pub closed spec fn program_of(&self) -> crate::address::Address {
        self.instruction.program
    }

    /// The accounts of the instruction.
    pub closed spec fn accounts_of(&self) -> Seq<crate::instruction::AccountEntry> {
        self.instruction.accounts@
    }

    /// The serialized arguments of the instruction.
    pub closed spec fn data_of(&self) -> Seq<u8> {
        self.instruction.data@
    }

    /// Who pays.
    pub closed spec fn payer_addr(&self) -> crate::address::Address {
        self.payer.addr()
    }

    /// The co-signer's address, if any.
    pub closed spec fn other_addr(&self) -> Option<crate::address::Address> {
        match self.other {
            Some(k) => Some(k.addr()),
            None => None,
        }
    }

    /// The keys are exactly the signers the transaction needs, and each
    /// phase holds what it stands for.
    pub closed spec fn wf(&self) -> bool {
        &&& required_signers(&self.instruction, self.payer.addr()) == key_set(
            self.payer.addr(),
            self.other_addr(),
        )
        &&& self.phase == Phase::AwaitingToken ==> self.outcome is None
        &&& self.phase == Phase::AwaitingConfirmation ==> self.signature is Some
            && self.transaction is Some && self.outcome is None
        &&& self.phase == Phase::Finished ==> self.outcome is Some
    }

    /// A submission of `instruction` paid by `payer`, co-signed by `other`
    /// when given. The keys must be exactly the signers it needs.
    pub fn new(instruction: InstructionDescriptor, payer: KeyMaterial, other: Option<KeyMaterial>) -> (r: Submission)
        requires
            required_signers(&instruction, payer.addr()) == key_set(
                payer.addr(),
                match other {
                    Some(k) => Some(k.addr()),
                    None => None,
                },
            ),
        ensures
            r.wf(),
            r.phase_of() == Phase::AwaitingToken,
            r.signature_text() is None,
            r.program_of() == instruction.program,
            r.accounts_of() == instruction.accounts@,
            r.data_of() == instruction.data@,
            r.payer_addr() == payer.addr(),
            r.other_addr() == match other {
                Some(k) => Some(k.addr()),
                None => None::<crate::address::Address>,
            },
    {
        Submission {
            instruction,
            payer,
            other,
            phase: Phase::AwaitingToken,
            transaction: None,
            signature: None,
            outcome: None,
        }
    }

    /// The action that the current phase asks for: the first one to perform,
    /// or the one still pending.
    pub fn start(&self) -> (a: SubmitAction)
        requires
            self.wf(),
        ensures
            kind_of(a) == pending_kind(self.phase_of()),
            self.phase_of() == Phase::Finished ==> finish_view(a) == self.outcome_of(),
    {
        match self.phase {
            Phase::AwaitingToken => SubmitAction::FetchToken,
            Phase::AwaitingConfirmation => SubmitAction::Send,
            Phase::Finished => match &self.outcome {
                Some(Ok(s)) => SubmitAction::Finish(Ok(s.clone())),
                Some(Err(e)) => SubmitAction::Finish(Err(*e)),
                None => SubmitAction::Finish(Err(BubblegumError::NetworkError)),
            },
        }
    }

    fn finish(&mut self, r: Result<String, BubblegumError>) -> (a: SubmitAction)
        requires
            old(self).wf(),
        ensures
            final(self).wf(),
            final(self).phase_of() == Phase::Finished,
            final(self).outcome_of() == Some(result_view(r)),
            finish_view(a) == Some(result_view(r)),
            kind_of(a) == ActionKind::Finish,
            final(self).signature_text() == old(self).signature_text(),
    {
        let copy = match &r {
            Ok(s) => Ok(s.clone()),
            Err(e) => Err(*e),
        };
        self.phase = Phase::Finished;
        self.outcome = Some(r);
        SubmitAction::Finish(copy)
    }

    /// Takes in what the network side reported and says what to do next.
    ///
    /// A token signs the transaction and asks for it to be sent; confirmation
    /// finishes with the transaction's signature. A failed token fetch ends
    /// with `NetworkError` before anything is sent; after sending, a refusal
    /// ends with `TransactionRejected`, a transport failure with
    /// `NetworkError` and an expired bound with `Timeout`. A finished
    /// submission stays as it is.
    pub fn step(&mut self, event: ChainEvent) -> (a: SubmitAction)
        requires
            old(self).wf(),
        ensures
            final(self).wf(),
            final(self).phase_of() == next_phase(old(self).phase_of(), event),
            kind_of(a) == pending_kind(final(self).phase_of()),
            failure_of(old(self).phase_of(), event) matches Some(e) ==> finish_view(a) == Some(
                Err::<Seq<char>, BubblegumError>(e),
            ),
            old(self).phase_of() == Phase::AwaitingConfirmation && event is Confirmed ==> finish_view(a)
                == Some(Ok::<Seq<char>, BubblegumError>(old(self).signature_text()->Some_0)),
            old(self).phase_of() == Phase::AwaitingToken && event is TokenReceived
                ==> final(self).signature_text() is Some,
            old(self).phase_of() != Phase::AwaitingToken
                ==> final(self).signature_text() == old(self).signature_text(),
            final(self).phase_of() == Phase::Finished ==> finish_view(a) == final(self).outcome_of(),
            old(self).phase_of() == Phase::Finished ==> final(self).outcome_of() == old(self).outcome_of(),
    {
        match self.phase {
            Phase::AwaitingToken => match event {
                ChainEvent::TokenReceived(token) => {
                    let (tx, sig) = match &self.other {
                        Some(k) => sign_transaction(&self.instruction, &self.payer, Some(k), token),
                        None => sign_transaction(&self.instruction, &self.payer, None, token),
                    };
                    let text = base58_encode(sig.as_slice());
                    self.transaction = Some(tx);
                    self.signature = Some(text);
                    self.phase = Phase::AwaitingConfirmation;
                    SubmitAction::Send
                },
                ChainEvent::TokenUnavailable | ChainEvent::TransportFailed => self.finish(
                    Err(BubblegumError::NetworkError),
                ),
                ChainEvent::TimedOut => self.finish(Err(BubblegumError::Timeout)),
                _ => self.start(),
            },
            Phase::AwaitingConfirmation => match event {
                ChainEvent::Confirmed => {
                    let s = match &self.signature {
                        Some(s) => s.clone(),
                        None => String::new(),
                    };
                    self.finish(Ok(s))
                },
                ChainEvent::Rejected => self.finish(Err(BubblegumError::TransactionRejected)),
                ChainEvent::TransportFailed => self.finish(Err(BubblegumError::NetworkError)),
                ChainEvent::TimedOut => self.finish(Err(BubblegumError::Timeout)),
                _ => self.start(),
            },
            Phase::Finished => self.start(),
        }
    }

    /// Where the submission stands.
    pub fn phase(&self) -> (r: Phase)
        ensures
            r == self.phase_of(),
    {
        self.phase
    }

    /// The base58 signature, once the transaction is signed.
    pub fn signature(&self) -> (r: Option<String>)
        ensures
            r is Some <==> self.signature_text() is Some,
            r is Some ==> r->Some_0@ == self.signature_text()->Some_0,
    {
        match &self.signature {
            Some(s) => Some(s.clone()),
            None => None,
        }
    }

    /// The signed transaction, once there is one, for the network side to send.
    pub fn transaction(&self) -> (r: Option<&Transaction>)
        requires
            self.wf(),
        ensures
            self.phase_of() == Phase::AwaitingConfirmation ==> r is Some,
    {
        match &self.transaction {
            Some(t) => Some(t),
            None => None,
        }
    }
}

} // verus!
