use vstd::prelude::*;

use crate::codec::{decode, decode_session, encode, encode_session, lemma_decode_encode};
use crate::error::SignError;
use crate::message::{all_of_kind, all_unicast, batch_is_unicast, batch_of_kind, Message, MsgKind};

verus! {

/// Position in the round sequence, with the round's own payload: the engine's
/// encoded pre-signature, then its encoded partial signature.
#[derive(Clone, Debug)]
pub enum Round {
    Init,
    WaitMsg1,
    WaitMsg2,
    WaitMsg3,
    Pre(Vec<u8>),
    WaitMsg4(Vec<u8>),
    Failed,
    Finished,
}

/// Mathematical model of a round.
pub enum RoundView {
    Init,
    WaitMsg1,
    WaitMsg2,
    WaitMsg3,
    Pre(Seq<u8>),
    WaitMsg4(Seq<u8>),
    Failed,
    Finished,
}

impl View for Round {
    type V = RoundView;

    open spec fn view(&self) -> RoundView {
        match self {
            Round::Init => RoundView::Init,
            Round::WaitMsg1 => RoundView::WaitMsg1,
            Round::WaitMsg2 => RoundView::WaitMsg2,
            Round::WaitMsg3 => RoundView::WaitMsg3,
            Round::Pre(p) => RoundView::Pre(p@),
            Round::WaitMsg4(p) => RoundView::WaitMsg4(p@),
            Round::Failed => RoundView::Failed,
            Round::Finished => RoundView::Finished,
        }
    }
}

/// Mathematical model of a session: the engine's encoded state and the round.
pub struct SessionView {
    pub state: Seq<u8>,
    pub round: RoundView,
}

/// What the engine answered to one of the three message rounds.
pub enum RoundReply {
    /// Rounds one and two: the engine's next state and the outbound batch.
    Messages { state: Vec<u8>, msgs: Vec<Message> },
    /// Round three: the engine's next state and the encoded pre-signature.
    PreSignature { state: Vec<u8>, pre: Vec<u8> },
    /// The engine rejected the inbound batch, with its reason.
    Rejected(String),
}

/// The engine call that an operation needs in the session's current round.
#[derive(Debug)]
pub enum EngineCall {
    GenerateMsg1,
    HandleMsg1,
    HandleMsg2,
    HandleMsg3,
    /// Create the partial signature from this encoded pre-signature.
    CreatePartialSignature(Vec<u8>),
    /// Combine this encoded partial signature with the peers' last messages.
    CombineSignatures(Vec<u8>),
}

/// An operation a caller asks of the session, with its inputs.
pub enum Request {
    CreateFirstMessage,
    HandleMessages(Vec<Message>),
    LastMessage(Vec<u8>),
    Combine(Vec<Message>),
}

/// A final signature: its two 32-byte components.
#[derive(Clone, Copy, Debug, PartialEq, Eq)]
pub struct Signature {
    pub r: [u8; 32],
    pub s: [u8; 32],
}

/// Length of a message digest.
pub const DIGEST_LEN: usize = 32;

/// Error of `create_first_message` in round `r`, if any.
pub open spec fn create_first_error(r: RoundView) -> Option<SignError> {
    match r {
        RoundView::Init => None,
        RoundView::Failed => Some(SignError::SessionFailed),
        _ => Some(SignError::InvalidState),
    }
}

/// Kind of inbound message that round `r` handles, if it handles any.
pub open spec fn inbound_kind(r: RoundView) -> Option<MsgKind> {
    match r {
        RoundView::WaitMsg1 => Some(MsgKind::Msg1),
        RoundView::WaitMsg2 => Some(MsgKind::Msg2),
        RoundView::WaitMsg3 => Some(MsgKind::Msg3),
        RoundView::WaitMsg4(_) => Some(MsgKind::Msg4),
        _ => None,
    }
}

/// Error of `handle_messages` in round `r` on batch `msgs`, decided before the engine runs.
pub open spec fn handle_error(r: RoundView, msgs: Seq<Message>) -> Option<SignError> {
    match r {
        RoundView::WaitMsg1 | RoundView::WaitMsg2 | RoundView::WaitMsg3 => {
            if all_of_kind(msgs, inbound_kind(r).unwrap()) {
                None
            } else {
                Some(SignError::DecodeError)
            }
        },
        RoundView::Failed => Some(SignError::SessionFailed),
        _ => Some(SignError::InvalidState),
    }
}

/// Error of `last_message` in round `r` on a digest of `len` bytes, if any.
/// A failed session refuses first; otherwise the digest length is checked before
/// the round.
pub open spec fn last_message_error(r: RoundView, len: nat) -> Option<SignError> {
    if r == RoundView::Failed {
        Some(SignError::SessionFailed)
    } else if len != DIGEST_LEN {
        Some(SignError::InvalidInput)
    } else {
        match r {
            RoundView::Pre(_) => None,
            _ => Some(SignError::InvalidState),
        }
    }
}

/// Error of `combine_partial_signature` in round `r` on batch `msgs`, decided before
/// the engine runs.
pub open spec fn combine_error(r: RoundView, msgs: Seq<Message>) -> Option<SignError> {
    match r {
        RoundView::WaitMsg4(_) => {
            if all_of_kind(msgs, MsgKind::Msg4) {
                None
            } else {
                Some(SignError::DecodeError)
            }
        },
        RoundView::Failed => Some(SignError::SessionFailed),
        _ => Some(SignError::InvalidState),
    }
}

/// The round that follows a successful message round `r`, for round-three payload `pre`.
pub open spec fn next_round(r: RoundView, pre: Seq<u8>) -> RoundView {
    match r {
        RoundView::WaitMsg1 => RoundView::WaitMsg2,
        RoundView::WaitMsg2 => RoundView::WaitMsg3,
        _ => RoundView::Pre(pre),
    }
}

/// Whether `reply` has the shape that the engine gives in message round `r`.
pub open spec fn reply_fits(r: RoundView, reply: RoundReply) -> bool {
    match reply {
        RoundReply::Messages { msgs, .. } => all_unicast(msgs@) && ((r == RoundView::WaitMsg1
            && all_of_kind(msgs@, MsgKind::Msg2)) || (r == RoundView::WaitMsg2 && all_of_kind(
            msgs@,
            MsgKind::Msg3,
        ))),
        RoundReply::PreSignature { .. } => r == RoundView::WaitMsg3,
        RoundReply::Rejected(_) => true,
    }
}

/// Whether `m` is a broadcast message of kind `k`.
pub open spec fn broadcast_of(m: Message, k: MsgKind) -> bool {
    m.kind == k && m.to_id is None
}

/// Error of request `req` in round `r`, decided before the engine runs.
pub open spec fn request_error(r: RoundView, req: Request) -> Option<SignError> {
    match req {
        Request::CreateFirstMessage => create_first_error(r),
        Request::HandleMessages(msgs) => handle_error(r, msgs@),
        Request::LastMessage(digest) => last_message_error(r, digest@.len()),
        Request::Combine(msgs) => combine_error(r, msgs@),
    }
}

/// Whether `call` is the engine call that round `r` needs.
pub open spec fn due_call(call: EngineCall, r: RoundView) -> bool {
    match r {
        RoundView::Init => call is GenerateMsg1,
        RoundView::WaitMsg1 => call is HandleMsg1,
        RoundView::WaitMsg2 => call is HandleMsg2,
        RoundView::WaitMsg3 => call is HandleMsg3,
        RoundView::Pre(pre) => match call {
            EngineCall::CreatePartialSignature(p) => p@ == pre,
            _ => false,
        },
        RoundView::WaitMsg4(partial) => match call {
            EngineCall::CombineSignatures(p) => p@ == partial,
            _ => false,
        },
        _ => false,
    }
}

/// Whether `handle_messages` succeeds in round `r` on batch `msgs` and engine reply `reply`.
pub open spec fn handle_succeeds(r: RoundView, msgs: Seq<Message>, reply: RoundReply) -> bool {
    handle_error(r, msgs) is None && reply_fits(r, reply) && !(reply is Rejected)
}

/// The round after `handle_messages` in round `r` on batch `msgs` and engine reply `reply`.
pub open spec fn round_after_handle(r: RoundView, msgs: Seq<Message>, reply: RoundReply) -> RoundView {
    if handle_error(r, msgs) is Some || !reply_fits(r, reply) {
        r
    } else {
        match reply {
            RoundReply::Rejected(_) => RoundView::Failed,
            RoundReply::Messages { .. } => next_round(r, Seq::empty()),
            RoundReply::PreSignature { pre, .. } => RoundView::Pre(pre@),
        }
    }
}

/// Check that `m` is a broadcast message of kind `k`.
fn is_broadcast_of(m: &Message, k: MsgKind) -> (r: bool)
    ensures
        r == broadcast_of(*m, k),
{
    m.kind == k && m.to_id.is_none()
}

/// One party's signing session: the engine's encoded state and the round cursor.
pub struct SignSessionOTVariant {
    state: Vec<u8>,
    round: Round,
}

impl View for SignSessionOTVariant {
    type V = SessionView;

    closed spec fn view(&self) -> SessionView {
        SessionView { state: self.state@, round: self.round@ }
    }
}

impl SignSessionOTVariant {
    /// A new session in round `Init` over the engine's freshly created state.
    pub fn new(state: Vec<u8>) -> (r: Self)
        ensures
            r@ == (SessionView { state: state@, round: RoundView::Init }),
    {
        SignSessionOTVariant { state, round: Round::Init }
    }

    /// A session made of its two parts.
    pub fn from_parts(state: Vec<u8>, round: Round) -> (r: Self)
        ensures
            r@ == (SessionView { state: state@, round: round@ }),
    {
        SignSessionOTVariant { state, round }
    }

    /// Serialize the session: `decode_session` gives it back from the result.
    pub fn to_bytes(&self) -> (r: Vec<u8>)
        ensures
            r@ == encode_session(self@),
            decode_session(r@) == Some(self@),
    {
        let out = encode(&self.state, &self.round);
        // Both lengths fit in a usize, so in the 8-byte length prefixes.
        let _state_len: usize = self.state.len();
        let _payload_len: usize = match &self.round {
            Round::Pre(p) => p.len(),
            Round::WaitMsg4(p) => p.len(),
            _ => 0,
        };
        proof {
            lemma_decode_encode(self@);
        }
        out
    }

    /// Restore a session from its bytes; anything but exactly the bytes of a session is
    /// refused with `DecodeError`.
    pub fn from_bytes(bytes: &[u8]) -> (r: Result<Self, SignError>)
        ensures
            match decode_session(bytes@) {
                None => r == Err::<Self, SignError>(SignError::DecodeError),
                Some(v) => r is Ok && r->Ok_0@ == v,
            },
    {
        match decode(bytes) {
            None => Err(SignError::DecodeError),
            Some((state, round)) => Ok(SignSessionOTVariant { state, round }),
        }
    }

    /// The engine's encoded state.
    pub fn engine_state(&self) -> (r: &Vec<u8>)
        ensures
            r@ == self@.state,
    {
        &self.state
    }

    /// The current round.
    pub fn round(&self) -> (r: &Round)
        ensures
            r@ == self@.round,
    {
        &self.round
    }

    /// `Some(SessionFailed)` exactly when the session has failed.
    pub fn error(&self) -> (r: Option<SignError>)
        ensures
            r == (if self@.round == RoundView::Failed {
                Some(SignError::SessionFailed)
            } else {
                None::<SignError>
            }),
    {
        match &self.round {
            Round::Failed => Some(SignError::SessionFailed),
            _ => None,
        }
    }

    /// The engine call that request `req` needs now, or the error that the request
    /// meets in the current round without any engine work.
    pub fn engine_call(&self, req: &Request) -> (r: Result<EngineCall, SignError>)
        ensures
            match request_error(self@.round, *req) {
                Some(e) => r == Err::<EngineCall, SignError>(e),
                None => r is Ok && due_call(r->Ok_0, self@.round),
            },
    {
        let err = match req {
            Request::CreateFirstMessage => self.create_first_check(),
            Request::HandleMessages(msgs) => self.handle_check(msgs),
            Request::LastMessage(digest) => self.last_message_check(digest.as_slice()),
            Request::Combine(msgs) => self.combine_check(msgs),
        };
        match err {
            Some(e) => Err(e),
            None => match &self.round {
                Round::Init => Ok(EngineCall::GenerateMsg1),
                Round::WaitMsg1 => Ok(EngineCall::HandleMsg1),
                Round::WaitMsg2 => Ok(EngineCall::HandleMsg2),
                Round::WaitMsg3 => Ok(EngineCall::HandleMsg3),
                Round::Pre(pre) => {
                    let p = pre.clone();
                    assert(p@ =~= pre@);
                    Ok(EngineCall::CreatePartialSignature(p))
                },
                Round::WaitMsg4(partial) => {
                    let p = partial.clone();
                    assert(p@ =~= partial@);
                    Ok(EngineCall::CombineSignatures(p))
                },
                _ => Err(SignError::InvalidState),
            },
        }
    }

    fn create_first_check(&self) -> (r: Option<SignError>)
        ensures
            r == create_first_error(self@.round),
    {
        match &self.round {
            Round::Init => None,
            Round::Failed => Some(SignError::SessionFailed),
            _ => Some(SignError::InvalidState),
        }
    }

    fn handle_check(&self, msgs: &Vec<Message>) -> (r: Option<SignError>)
        ensures
            r == handle_error(self@.round, msgs@),
    {
        let kind = match &self.round {
            Round::WaitMsg1 => MsgKind::Msg1,
            Round::WaitMsg2 => MsgKind::Msg2,
            Round::WaitMsg3 => MsgKind::Msg3,
            Round::Failed => {
                return Some(SignError::SessionFailed);
            },
            _ => {
                return Some(SignError::InvalidState);
            },
        };
        if batch_of_kind(msgs, kind) {
            None
        } else {
            Some(SignError::DecodeError)
        }
    }

    fn last_message_check(&self, message_hash: &[u8]) -> (r: Option<SignError>)
        ensures
            r == last_message_error(self@.round, message_hash@.len()),
    {
        if let Round::Failed = &self.round {
            return Some(SignError::SessionFailed);
        }
        if message_hash.len() != DIGEST_LEN {
            return Some(SignError::InvalidInput);
        }
        match &self.round {
            Round::Pre(_) => None,
            _ => Some(SignError::InvalidState),
        }
    }

    fn combine_check(&self, msgs: &Vec<Message>) -> (r: Option<SignError>)
        ensures
            r == combine_error(self@.round, msgs@),
    {
        match &self.round {
            Round::WaitMsg4(_) => {
                if batch_of_kind(msgs, MsgKind::Msg4) {
                    None
                } else {
                    Some(SignError::DecodeError)
                }
            },
            Round::Failed => Some(SignError::SessionFailed),
            _ => Some(SignError::InvalidState),
        }
    }

    /// Move from `Init` to `WaitMsg1`, taking the engine's state after it generated
    /// the first message `msg1`, which is handed back for sending. `msg1` must be a
    /// broadcast message of the first kind.
    pub fn create_first_message(&mut self, state: Vec<u8>, msg1: Message) -> (r: Result<
        Message,
        SignError,
    >)
        ensures
            match create_first_error(old(self)@.round) {
                Some(e) => r == Err::<Message, SignError>(e) && final(self)@ == old(self)@,
                None => if broadcast_of(msg1, MsgKind::Msg1) {
                    r == Ok::<Message, SignError>(msg1) && final(self)@ == (SessionView {
                        state: state@,
                        round: RoundView::WaitMsg1,
                    })
                } else {
                    r == Err::<Message, SignError>(SignError::InvalidInput) && final(self)@
                        == old(self)@
                },
            },
    {
        match self.create_first_check() {
            Some(e) => Err(e),
            None => {
                if !is_broadcast_of(&msg1, MsgKind::Msg1) {
                    return Err(SignError::InvalidInput);
                }
                self.state = state;
                self.round = Round::WaitMsg1;
                Ok(msg1)
            },
        }
    }

    /// Handle the inbound batch `msgs` of a message round, given the engine's `reply`
    /// to it. Rounds one and two hand back the outbound batch, which must be of the
    /// next round's kind and addressed to one party each; round three keeps the pre-signature and hands back nothing. A rejection fails the session for good.
    pub fn handle_messages(&mut self, msgs: &Vec<Message>, reply: RoundReply) -> (r: Result<
        Vec<Message>,
        SignError,
    >)
        ensures
            r is Ok <==> handle_succeeds(old(self)@.round, msgs@, reply),
            final(self)@.round == round_after_handle(old(self)@.round, msgs@, reply),
            match handle_error(old(self)@.round, msgs@) {
                Some(e) => r == Err::<Vec<Message>, SignError>(e) && final(self)@ == old(self)@,
                None => if !reply_fits(old(self)@.round, reply) {
                    r == Err::<Vec<Message>, SignError>(SignError::InvalidInput) && final(self)@
                        == old(self)@
                } else {
                    match reply {
                        RoundReply::Rejected(why) => r == Err::<Vec<Message>, SignError>(
                            SignError::ProtocolError(why),
                        ) && final(self)@ == (SessionView {
                            state: old(self)@.state,
                            round: RoundView::Failed,
                        }),
                        RoundReply::Messages { state, msgs: out } => r == Ok::<
                            Vec<Message>,
                            SignError,
                        >(out) && final(self)@ == (SessionView {
                            state: state@,
                            round: next_round(old(self)@.round, Seq::empty()),
                        }),
                        RoundReply::PreSignature { state, pre } => r is Ok && r->Ok_0@.len()
                            == 0 && final(self)@ == (SessionView {
                            state: state@,
                            round: RoundView::Pre(pre@),
                        }),
                    }
                },
            },
    {
        if let Some(e) = self.handle_check(msgs) {
            return Err(e);
        }
        match reply {
            RoundReply::Rejected(why) => {
                self.round = Round::Failed;
                Err(SignError::ProtocolError(why))
            },
            RoundReply::Messages { state, msgs: out } => {
                let (expected, next) = match &self.round {
                    Round::WaitMsg1 => (MsgKind::Msg2, Round::WaitMsg2),
                    Round::WaitMsg2 => (MsgKind::Msg3, Round::WaitMsg3),
                    _ => {
                        return Err(SignError::InvalidInput);
                    },
                };
                if !batch_of_kind(&out, expected) || !batch_is_unicast(&out) {
                    return Err(SignError::InvalidInput);
                }
                self.round = next;
                self.state = state;
                Ok(out)
            },
            RoundReply::PreSignature { state, pre } => {
                match &self.round {
                    Round::WaitMsg3 => {},
                    _ => {
                        return Err(SignError::InvalidInput);
                    },
                }
                self.state = state;
                self.round = Round::Pre(pre);
                Ok(Vec::new())
            },
        }
    }

    /// Move from `Pre` to `WaitMsg4` for a 32-byte digest, keeping the engine's partial
    /// signature `partial` and handing back its last message `msg4`, which must be a
    /// broadcast message of the last kind. A digest of another length is refused
    /// before the round is looked at.
    pub fn last_message(&mut self, message_hash: &[u8], partial: Vec<u8>, msg4: Message) -> (r:
        Result<Message, SignError>)
        ensures
            match last_message_error(old(self)@.round, message_hash@.len()) {
                Some(e) => r == Err::<Message, SignError>(e) && final(self)@ == old(self)@,
                None => if broadcast_of(msg4, MsgKind::Msg4) {
                    r == Ok::<Message, SignError>(msg4) && final(self)@ == (SessionView {
                        state: old(self)@.state,
                        round: RoundView::WaitMsg4(partial@),
                    })
                } else {
                    r == Err::<Message, SignError>(SignError::InvalidInput) && final(self)@
                        == old(self)@
                },
            },
    {
        match self.last_message_check(message_hash) {
            Some(e) => Err(e),
            None => {
                if !is_broadcast_of(&msg4, MsgKind::Msg4) {
                    return Err(SignError::InvalidInput);
                }
                self.round = Round::WaitMsg4(partial);
                Ok(msg4)
            },
        }
    }

    /// Consume the session to finish it with the peers' last messages `msgs`, given
    /// the engine's combination `reply` of the partial signature with them.
    pub fn combine_partial_signature(self, msgs: &Vec<Message>, reply: Result<
        Signature,
        String,
    >) -> (r: Result<Signature, SignError>)
        ensures
            match combine_error(self@.round, msgs@) {
                Some(e) => r == Err::<Signature, SignError>(e),
                None => match reply {
                    Ok(sig) => r == Ok::<Signature, SignError>(sig),
                    Err(why) => r == Err::<Signature, SignError>(SignError::ProtocolError(why)),
                },
            },
    {
        match self.combine_check(msgs) {
            Some(e) => Err(e),
            None => match reply {
                Ok(sig) => Ok(sig),
                Err(why) => Err(SignError::ProtocolError(why)),
            },
        }
    }
}

} // verus!
