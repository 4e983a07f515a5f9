use dsg_session::error::SignError;
use dsg_session::message::{Message, MsgKind};
use dsg_session::session::{Round, RoundReply, SignSessionOTVariant};

#[test]
fn init_session_bytes() {
    let s = SignSessionOTVariant::new(vec![0xab, 0xcd]);
    assert_eq!(
        s.to_bytes(),
        vec![0x44, 0x53, 0x47, 0x01, 0, 2, 0, 0, 0, 0, 0, 0, 0, 0xab, 0xcd]
    );
}

#[test]
fn payload_round_bytes() {
    let s = SignSessionOTVariant::from_parts(vec![], Round::WaitMsg4(vec![9, 8, 7]));
    assert_eq!(
        s.to_bytes(),
        vec![
            0x44, 0x53, 0x47, 0x01, 5, 0, 0, 0, 0, 0, 0, 0, 0, 3, 0, 0, 0, 0, 0, 0, 0, 9, 8, 7
        ]
    );
}

#[test]
fn every_round_round_trips() {
    let rounds = vec![
        Round::Init,
        Round::WaitMsg1,
        Round::WaitMsg2,
        Round::WaitMsg3,
        Round::Pre(vec![1, 2, 3]),
        Round::WaitMsg4(vec![]),
        Round::Failed,
        Round::Finished,
    ];
    for r in rounds {
        let s = SignSessionOTVariant::from_parts(vec![5; 300], r);
        let bytes = s.to_bytes();
        let back = SignSessionOTVariant::from_bytes(&bytes).unwrap();
        assert_eq!(back.to_bytes(), bytes);
        assert_eq!(back.engine_state(), &vec![5; 300]);
    }
}

#[test]
fn restored_session_behaves_the_same() {
    let mut s = SignSessionOTVariant::new(vec![1]);
    s.create_first_message(vec![2], Message::new(MsgKind::Msg1, 0, 0, vec![])).unwrap();
    let mut t = SignSessionOTVariant::from_bytes(&s.to_bytes()).unwrap();
    let batch = vec![Message::new(MsgKind::Msg1, 1, 0, vec![3])];
    let reply = || RoundReply::Messages {
        state: vec![4],
        msgs: vec![Message::new(MsgKind::Msg2, 0, 1, vec![5])],
    };
    let a = s.handle_messages(&batch, reply()).unwrap();
    let b = t.handle_messages(&batch, reply()).unwrap();
    assert_eq!(a.len(), b.len());
    assert_eq!(a[0].payload, b[0].payload);
    assert_eq!(s.to_bytes(), t.to_bytes());
}

#[test]
fn corrupt_bytes_are_refused() {
    let good = SignSessionOTVariant::from_parts(vec![1, 2], Round::Pre(vec![3])).to_bytes();
    assert!(SignSessionOTVariant::from_bytes(&good).is_ok());
    let mut bad_magic = good.clone();
    bad_magic[0] = 0;
    let mut bad_tag = good.clone();
    bad_tag[4] = 8;
    let mut trailing = good.clone();
    trailing.push(0);
    let cases: Vec<Vec<u8>> = vec![
        vec![],
        good[..4].to_vec(),
        good[..good.len() - 1].to_vec(),
        bad_magic,
        bad_tag,
        trailing,
    ];
    for c in cases {
        assert_eq!(SignSessionOTVariant::from_bytes(&c).err(), Some(SignError::DecodeError));
    }
}

#[test]
fn huge_length_prefix_is_refused() {
    let bytes = vec![0x44, 0x53, 0x47, 0x01, 0, 0xff, 0xff, 0xff, 0xff, 0xff, 0xff, 0xff, 0xff];
    assert_eq!(
        SignSessionOTVariant::from_bytes(&bytes).err(),
        Some(SignError::DecodeError)
    );
}
