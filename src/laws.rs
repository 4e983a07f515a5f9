use vstd::prelude::*;

use crate::error::SignError;
use crate::message::{Message, MsgKind};
use crate::session::{
    combine_error, create_first_error, handle_error, handle_succeeds, last_message_error,
    round_after_handle, RoundReply, RoundView, DIGEST_LEN,
};

verus! {

/// No round transition can be taken twice: `create_first_message` succeeds only
/// from `Init`, and a second call, from `WaitMsg1`, fails.
pub proof fn lemma_create_first_once(r: RoundView)
    requires
        create_first_error(r) is None,
    ensures
        r == RoundView::Init,
        create_first_error(RoundView::WaitMsg1) is Some,
{
}

/// No round transition can be taken twice: after `handle_messages` succeeds on a
/// non-empty batch, handling the same batch again fails, whatever the engine answers.
pub proof fn lemma_handle_once(
    r: RoundView,
    msgs: Seq<Message>,
    reply: RoundReply,
    again: RoundReply,
)
    requires
        msgs.len() > 0,
        handle_succeeds(r, msgs, reply),
    ensures
        !handle_succeeds(round_after_handle(r, msgs, reply), msgs, again),
{
    let first = msgs[0].kind;
    match r {
        RoundView::WaitMsg1 => {
            assert(first == MsgKind::Msg1);
        },
        RoundView::WaitMsg2 => {
            assert(first == MsgKind::Msg2);
        },
        _ => {},
    }
}

/// No round transition can be taken twice: `last_message` succeeds only from `Pre`
/// with a 32-byte digest, and a second call with the same digest, from `WaitMsg4`,
/// fails.
pub proof fn lemma_last_message_once(r: RoundView, len: nat, partial: Seq<u8>)
    requires
        last_message_error(r, len) is None,
    ensures
        r is Pre,
        len == DIGEST_LEN,
        last_message_error(RoundView::WaitMsg4(partial), len) is Some,
{
}

/// A failed session stays failed: every operation fails with `SessionFailed`, and
/// handling a batch leaves the round at `Failed`.
pub proof fn lemma_failure_is_sticky(msgs: Seq<Message>, reply: RoundReply, len: nat)
    ensures
        create_first_error(RoundView::Failed) == Some(SignError::SessionFailed),
        handle_error(RoundView::Failed, msgs) == Some(SignError::SessionFailed),
        round_after_handle(RoundView::Failed, msgs, reply) == RoundView::Failed,
        last_message_error(RoundView::Failed, len) == Some(SignError::SessionFailed),
        combine_error(RoundView::Failed, msgs) == Some(SignError::SessionFailed),
{
}

/// A digest of any length but 32 is refused with `InvalidInput` in every round but
/// `Failed`, and in `Pre` a digest of 32 bytes is still accepted afterwards.
pub proof fn lemma_digest_length_guard(r: RoundView, len: nat)
    requires
        len != DIGEST_LEN,
        r != RoundView::Failed,
    ensures
        last_message_error(r, len) == Some(SignError::InvalidInput),
        r is Pre ==> last_message_error(r, DIGEST_LEN as nat) is None,
{
}

} // verus!
