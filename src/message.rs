use vstd::prelude::*;

verus! {

/// The four kinds of protocol message exchanged during a signing ceremony.
#[derive(Clone, Copy, Debug, PartialEq, Eq, Structural)]
pub enum MsgKind {
    Msg1,
    Msg2,
    Msg3,
    Msg4,
}

/// Whether messages of kind `k` go to every other party (as opposed to one named party).
pub open spec fn broadcast_kind(k: MsgKind) -> bool {
    k == MsgKind::Msg1 || k == MsgKind::Msg4
}

impl MsgKind {
    /// Routing class of this kind: broadcast for the first and last rounds, unicast otherwise.
    pub fn is_broadcast(&self) -> (r: bool)
        ensures
            r == broadcast_kind(*self),
    {
        match self {
            MsgKind::Msg1 => true,
            MsgKind::Msg2 => false,
            MsgKind::Msg3 => false,
            MsgKind::Msg4 => true,
        }
    }
}

/// A message envelope: the kind of payload, the sender, the recipient (none for a
/// broadcast) and the engine's encoded message.
#[derive(Clone, Debug)]
pub struct Message {
    pub kind: MsgKind,
    pub from_id: u8,
    pub to_id: Option<u8>,
    pub payload: Vec<u8>,
}

impl Message {
    /// Wrap an engine message of kind `kind`, routed by the kind's class: `to_id` is
    /// kept for a unicast kind and dropped for a broadcast kind.
    pub fn new(kind: MsgKind, from_id: u8, to_id: u8, payload: Vec<u8>) -> (r: Message)
        ensures
            r.kind == kind,
            r.from_id == from_id,
            r.to_id == (if broadcast_kind(kind) { None } else { Some(to_id) }),
            r.payload@ == payload@,
    {
        let dst = if kind.is_broadcast() {
            None
        } else {
            Some(to_id)
        };
        Message { kind, from_id, to_id: dst, payload }
    }

    /// Sender's party id.
    pub fn src_party_id(&self) -> (r: u8)
        ensures
            r == self.from_id,
    {
        self.from_id
    }

    /// Recipient's party id, or `None` for a broadcast message.
    pub fn dst_party_id(&self) -> (r: Option<u8>)
        ensures
            r == self.to_id,
    {
        self.to_id
    }
}

/// Whether every message of the batch has kind `k`.
pub open spec fn all_of_kind(msgs: Seq<Message>, k: MsgKind) -> bool {
    forall|i: int| 0 <= i < msgs.len() ==> #[trigger] msgs[i].kind == k
}

/// Check that every message of the batch has kind `k`.
pub fn batch_of_kind(msgs: &Vec<Message>, k: MsgKind) -> (r: bool)
    ensures
        r == all_of_kind(msgs@, k),
{
    let mut i: usize = 0;
    while i < msgs.len()
        invariant
            i <= msgs@.len(),
            all_of_kind(msgs@.subrange(0, i as int), k),
        decreases msgs@.len() - i,
    {
        if msgs[i].kind != k {
            assert(msgs@[i as int].kind != k);
            return false;
        }
        assert(msgs@.subrange(0, i + 1).drop_last() =~= msgs@.subrange(0, i as int));
        i = i + 1;
    }
    assert(msgs@.subrange(0, i as int) =~= msgs@);
    true
}

/// Whether every message of the batch names a recipient.
pub open spec fn all_unicast(msgs: Seq<Message>) -> bool {
    forall|i: int| 0 <= i < msgs.len() ==> (#[trigger] msgs[i]).to_id is Some
}

/// Check that every message of the batch names a recipient.
pub fn batch_is_unicast(msgs: &Vec<Message>) -> (r: bool)
    ensures
        r == all_unicast(msgs@),
{
    let mut i: usize = 0;
    while i < msgs.len()
        invariant
            i <= msgs@.len(),
            all_unicast(msgs@.subrange(0, i as int)),
        decreases msgs@.len() - i,
    {
        if msgs[i].to_id.is_none() {
            assert(msgs@[i as int].to_id is None);
            return false;
        }
        assert(msgs@.subrange(0, i + 1).drop_last() =~= msgs@.subrange(0, i as int));
        i = i + 1;
    }
    assert(msgs@.subrange(0, i as int) =~= msgs@);
    true
}

} // verus!
