use vstd::prelude::*;

use crate::session::{Round, RoundView, SessionView};

verus! {

/// Leading bytes of every serialized session.
pub open spec fn magic() -> Seq<u8> {
    seq![0x44u8, 0x53u8, 0x47u8, 0x01u8]
}

/// Tag byte of each round.
pub open spec fn round_tag(r: RoundView) -> u8 {
    match r {
        RoundView::Init => 0,
        RoundView::WaitMsg1 => 1,
        RoundView::WaitMsg2 => 2,
        RoundView::WaitMsg3 => 3,
        RoundView::Pre(_) => 4,
        RoundView::WaitMsg4(_) => 5,
        RoundView::Failed => 6,
        RoundView::Finished => 7,
    }
}

/// Whether rounds of tag `t` carry a payload.
pub open spec fn tag_has_payload(t: u8) -> bool {
    t == 4 || t == 5
}

/// The payload a round carries (empty for rounds without one).
pub open spec fn round_payload(r: RoundView) -> Seq<u8> {
    match r {
        RoundView::Pre(p) => p,
        RoundView::WaitMsg4(p) => p,
        _ => Seq::empty(),
    }
}

/// The round of tag `t` (at most 7) with payload `p`.
pub open spec fn round_of(t: u8, p: Seq<u8>) -> RoundView {
    if t == 0 {
        RoundView::Init
    } else if t == 1 {
        RoundView::WaitMsg1
    } else if t == 2 {
        RoundView::WaitMsg2
    } else if t == 3 {
        RoundView::WaitMsg3
    } else if t == 4 {
        RoundView::Pre(p)
    } else if t == 5 {
        RoundView::WaitMsg4(p)
    } else if t == 6 {
        RoundView::Failed
    } else {
        RoundView::Finished
    }
}

/// Little-endian bytes of `n`.
pub open spec fn le_bytes(n: u64) -> Seq<u8> {
    seq![
        n as u8,
        (n >> 8u64) as u8,
        (n >> 16u64) as u8,
        (n >> 24u64) as u8,
        (n >> 32u64) as u8,
        (n >> 40u64) as u8,
        (n >> 48u64) as u8,
        (n >> 56u64) as u8,
    ]
}

/// The number whose little-endian bytes are the first eight of `s`.
pub open spec fn from_le(s: Seq<u8>) -> u64 {
    (s[0] as u64) | ((s[1] as u64) << 8u64) | ((s[2] as u64) << 16u64) | ((s[3] as u64) << 24u64)
        | ((s[4] as u64) << 32u64) | ((s[5] as u64) << 40u64) | ((s[6] as u64) << 48u64) | ((
    s[7] as u64) << 56u64)
}

/// A length-prefixed blob.
pub open spec fn blob(d: Seq<u8>) -> Seq<u8> {
    le_bytes(d.len() as u64) + d
}

/// The bytes of a session: the magic, the round's tag, the engine state as a blob,
/// and for a round with a payload, the payload as a blob.
pub open spec fn encode_session(v: SessionView) -> Seq<u8> {
    let head = magic() + seq![round_tag(v.round)] + blob(v.state);
    if tag_has_payload(round_tag(v.round)) {
        head + blob(round_payload(v.round))
    } else {
        head
    }
}

/// The blob that starts at `p` in `b` and the position after it, if `b` holds one there.
pub open spec fn read_blob(b: Seq<u8>, p: int) -> Option<(Seq<u8>, int)> {
    if p < 0 || p + 8 > b.len() {
        None
    } else {
        let n = from_le(b.subrange(p, p + 8));
        if p + 8 + n > b.len() {
            None
        } else {
            Some((b.subrange(p + 8, p + 8 + n), p + 8 + n))
        }
    }
}

/// The session that `b` holds, if `b` is exactly the bytes of one.
pub open spec fn decode_session(b: Seq<u8>) -> Option<SessionView> {
    if b.len() < 5 || b.subrange(0, 4) != magic() || b[4] > 7 {
        None
    } else {
        let t = b[4];
        match read_blob(b, 5) {
            None => None,
            Some((state, p)) => if tag_has_payload(t) {
                match read_blob(b, p) {
                    None => None,
                    Some((payload, q)) => if q == b.len() {
                        Some(SessionView { state, round: round_of(t, payload) })
                    } else {
                        None
                    },
                }
            } else if p == b.len() {
                Some(SessionView { state, round: round_of(t, Seq::empty()) })
            } else {
                None
            },
        }
    }
}

proof fn lemma_le_round_trip(n: u64)
    ensures
        from_le(le_bytes(n)) == n,
{
    let s = le_bytes(n);
    let (b0, b1, b2, b3) = (s[0], s[1], s[2], s[3]);
    let (b4, b5, b6, b7) = (s[4], s[5], s[6], s[7]);
    assert(b0 == n as u8 && b1 == (n >> 8u64) as u8 && b2 == (n >> 16u64) as u8 && b3 == (n
        >> 24u64) as u8 && b4 == (n >> 32u64) as u8 && b5 == (n >> 40u64) as u8 && b6 == (n
        >> 48u64) as u8 && b7 == (n >> 56u64) as u8);
    assert(b0 == n as u8 && b1 == (n >> 8u64) as u8 && b2 == (n >> 16u64) as u8 && b3 == (n
        >> 24u64) as u8 && b4 == (n >> 32u64) as u8 && b5 == (n >> 40u64) as u8 && b6 == (n
        >> 48u64) as u8 && b7 == (n >> 56u64) as u8 ==> (b0 as u64) | ((b1 as u64) << 8u64) | ((
    b2 as u64) << 16u64) | ((b3 as u64) << 24u64) | ((b4 as u64) << 32u64) | ((b5 as u64)
        << 40u64) | ((b6 as u64) << 48u64) | ((b7 as u64) << 56u64) == n) by (bit_vector);
}

/// Reading a blob back at the place where it was written gives the data and the
/// position after it.
proof fn lemma_read_blob(pre: Seq<u8>, d: Seq<u8>, post: Seq<u8>)
    requires
        d.len() <= u64::MAX,
    ensures
        read_blob(pre + blob(d) + post, pre.len() as int) == Some(
            (d, (pre.len() + 8 + d.len()) as int),
        ),
{
    let b = pre + blob(d) + post;
    let p = pre.len() as int;
    assert(b.subrange(p, p + 8) =~= le_bytes(d.len() as u64));
    lemma_le_round_trip(d.len() as u64);
    assert(b.subrange(p + 8, p + 8 + d.len()) =~= d);
}

/// Decoding the bytes of a session gives the session back.
pub proof fn lemma_decode_encode(v: SessionView)
    requires
        v.state.len() <= u64::MAX,
        round_payload(v.round).len() <= u64::MAX,
    ensures
        decode_session(encode_session(v)) == Some(v),
{
    let t = round_tag(v.round);
    let pl = round_payload(v.round);
    let pre = magic() + seq![t];
    let b = encode_session(v);
    assert(pre.len() == 5);
    if tag_has_payload(t) {
        assert(b =~= pre + blob(v.state) + blob(pl));
        lemma_read_blob(pre, v.state, blob(pl));
        assert(b =~= (pre + blob(v.state)) + blob(pl) + Seq::<u8>::empty());
        lemma_read_blob(pre + blob(v.state), pl, Seq::<u8>::empty());
    } else {
        assert(b =~= pre + blob(v.state) + Seq::<u8>::empty());
        lemma_read_blob(pre, v.state, Seq::<u8>::empty());
        assert(pl =~= Seq::<u8>::empty());
    }
    assert(b.subrange(0, 4) =~= magic());
    assert(b[4] == t);
    assert(round_of(t, pl) == v.round);
}

const MAGIC: [u8; 4] = [0x44u8, 0x53u8, 0x47u8, 0x01u8];

fn push_u64(out: &mut Vec<u8>, n: u64)
    ensures
        final(out)@ == old(out)@ + le_bytes(n),
{
    out.push(n as u8);
    out.push((n >> 8u64) as u8);
    out.push((n >> 16u64) as u8);
    out.push((n >> 24u64) as u8);
    out.push((n >> 32u64) as u8);
    out.push((n >> 40u64) as u8);
    out.push((n >> 48u64) as u8);
    out.push((n >> 56u64) as u8);
    assert(final(out)@ =~= old(out)@ + le_bytes(n));
}

fn push_blob(out: &mut Vec<u8>, d: &Vec<u8>)
    ensures
        final(out)@ == old(out)@ + blob(d@),
{
    push_u64(out, d.len() as u64);
    let ghost mid = out@;
    let mut i: usize = 0;
    while i < d.len()
        invariant
            i <= d@.len(),
            out@ == mid + d@.subrange(0, i as int),
        decreases d@.len() - i,
    {
        out.push(d[i]);
        assert(d@.subrange(0, i + 1) =~= d@.subrange(0, i as int).push(d@[i as int]));
        i = i + 1;
    }
    assert(d@.subrange(0, i as int) =~= d@);
    assert(out@ =~= old(out)@ + blob(d@));
}

fn round_tag_of(r: &Round) -> (t: u8)
    ensures
        t == round_tag(r@),
{
    match r {
        Round::Init => 0,
        Round::WaitMsg1 => 1,
        Round::WaitMsg2 => 2,
        Round::WaitMsg3 => 3,
        Round::Pre(_) => 4,
        Round::WaitMsg4(_) => 5,
        Round::Failed => 6,
        Round::Finished => 7,
    }
}

/// The bytes of the session made of engine state `state` and round `round`.
pub fn encode(state: &Vec<u8>, round: &Round) -> (r: Vec<u8>)
    ensures
        r@ == encode_session(SessionView { state: state@, round: round@ }),
{
    let mut out: Vec<u8> = Vec::new();
    let mut i: usize = 0;
    while i < 4
        invariant
            i <= 4,
            out@ == magic().subrange(0, i as int),
        decreases 4 - i,
    {
        out.push(MAGIC[i]);
        assert(magic().subrange(0, i + 1) =~= magic().subrange(0, i as int).push(magic()[i as int]));
        i = i + 1;
    }
    assert(magic().subrange(0, 4) =~= magic());
    out.push(round_tag_of(round));
    push_blob(&mut out, state);
    match round {
        Round::Pre(p) => push_blob(&mut out, p),
        Round::WaitMsg4(p) => push_blob(&mut out, p),
        _ => {},
    }
    out
}

fn read_u64(b: &[u8], p: usize) -> (r: u64)
    requires
        p + 8 <= b@.len(),
    ensures
        r == from_le(b@.subrange(p as int, p + 8)),
{
    let s = Ghost(b@.subrange(p as int, p + 8));
    assert(s@[0] == b@[p as int] && s@[1] == b@[p + 1] && s@[2] == b@[p + 2] && s@[3] == b@[p
        + 3]);
    assert(s@[4] == b@[p + 4] && s@[5] == b@[p + 5] && s@[6] == b@[p + 6] && s@[7] == b@[p
        + 7]);
    (b[p] as u64) | ((b[p + 1] as u64) << 8u64) | ((b[p + 2] as u64) << 16u64) | ((b[p
        + 3] as u64) << 24u64) | ((b[p + 4] as u64) << 32u64) | ((b[p + 5] as u64) << 40u64) | ((
    b[p + 6] as u64) << 48u64) | ((b[p + 7] as u64) << 56u64)
}

fn exec_read_blob(b: &[u8], p: usize) -> (r: Option<(Vec<u8>, usize)>)
    requires
        p <= b@.len(),
    ensures
        match read_blob(b@, p as int) {
            None => r is None,
            Some((d, q)) => match r {
                Some((rd, rq)) => rd@ == d && rq == q,
                None => false,
            },
        },
{
    if b.len() - p < 8 {
        return None;
    }
    let n = read_u64(b, p);
    let rest = b.len() - p - 8;
    if n > rest as u64 {
        return None;
    }
    let end = p + 8 + n as usize;
    let mut d: Vec<u8> = Vec::new();
    let mut i: usize = p + 8;
    while i < end
        invariant
            p + 8 <= i <= end <= b@.len(),
            d@ == b@.subrange(p + 8, i as int),
        decreases end - i,
    {
        d.push(b[i]);
        assert(b@.subrange(p + 8, i + 1) =~= b@.subrange(p + 8, i as int).push(b@[i as int]));
        i = i + 1;
    }
    Some((d, end))
}

/// The engine state and round that `b` holds, if `b` is exactly the bytes of a session.
pub fn decode(b: &[u8]) -> (r: Option<(Vec<u8>, Round)>)
    ensures
        match decode_session(b@) {
            None => r is None,
            Some(v) => match r {
                Some((st, rd)) => st@ == v.state && rd@ == v.round,
                None => false,
            },
        },
{
    if b.len() < 5 {
        return None;
    }
    if b[0] != MAGIC[0] || b[1] != MAGIC[1] || b[2] != MAGIC[2] || b[3] != MAGIC[3] {
        assert(b@.subrange(0, 4)[0] == b@[0] && b@.subrange(0, 4)[1] == b@[1]);
        assert(b@.subrange(0, 4)[2] == b@[2] && b@.subrange(0, 4)[3] == b@[3]);
        return None;
    }
    assert(b@.subrange(0, 4) =~= magic());
    let t = b[4];
    if t > 7 {
        return None;
    }
    let (state, p) = match exec_read_blob(b, 5) {
        None => {
            return None;
        },
        Some(x) => x,
    };
    if t == 4 || t == 5 {
        let (payload, q) = match exec_read_blob(b, p) {
            None => {
                return None;
            },
            Some(x) => x,
        };
        if q != b.len() {
            return None;
        }
        let round = if t == 4 {
            Round::Pre(payload)
        } else {
            Round::WaitMsg4(payload)
        };
        Some((state, round))
    } else {
        if p != b.len() {
            return None;
        }
        let round = if t == 0 {
            Round::Init
        } else if t == 1 {
            Round::WaitMsg1
        } else if t == 2 {
            Round::WaitMsg2
        } else if t == 3 {
            Round::WaitMsg3
        } else if t == 6 {
            Round::Failed
        } else {
            Round::Finished
        };
        Some((state, round))
    }
}

} // verus!
