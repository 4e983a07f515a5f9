use dsg_session::chain_path::parse_chain_path;
use dsg_session::error::SignError;
use dsg_session::message::{batch_of_kind, Message, MsgKind};

#[test]
fn first_round_message_is_broadcast() {
    let m = Message::new(MsgKind::Msg1, 2, 5, vec![1, 2, 3]);
    assert_eq!(m.src_party_id(), 2);
    assert_eq!(m.dst_party_id(), None);
    assert_eq!(m.payload, vec![1, 2, 3]);
}

#[test]
fn second_and_third_round_messages_are_unicast() {
    let m2 = Message::new(MsgKind::Msg2, 0, 1, vec![9]);
    let m3 = Message::new(MsgKind::Msg3, 1, 2, vec![]);
    assert_eq!(m2.dst_party_id(), Some(1));
    assert_eq!(m3.src_party_id(), 1);
    assert_eq!(m3.dst_party_id(), Some(2));
}

#[test]
fn last_round_message_is_broadcast() {
    let m = Message::new(MsgKind::Msg4, 3, 0, vec![7]);
    assert_eq!(m.dst_party_id(), None);
}

#[test]
fn routing_classes() {
    assert!(MsgKind::Msg1.is_broadcast());
    assert!(!MsgKind::Msg2.is_broadcast());
    assert!(!MsgKind::Msg3.is_broadcast());
    assert!(MsgKind::Msg4.is_broadcast());
}

#[test]
fn batch_kind_check() {
    let a = Message::new(MsgKind::Msg2, 0, 1, vec![]);
    let b = Message::new(MsgKind::Msg2, 2, 1, vec![]);
    let c = Message::new(MsgKind::Msg1, 2, 1, vec![]);
    assert!(batch_of_kind(&vec![], MsgKind::Msg3));
    assert!(batch_of_kind(&vec![a.clone(), b.clone()], MsgKind::Msg2));
    assert!(!batch_of_kind(&vec![a, b, c], MsgKind::Msg2));
}

#[test]
fn chain_path_parsing() {
    let p = parse_chain_path("m/44'/0'/0").unwrap();
    assert_eq!(p.to_string(), "m/44'/0'/0");
    assert!(parse_chain_path("m").is_ok());
    assert_eq!(parse_chain_path("").err(), Some(SignError::InvalidInput));
    assert_eq!(parse_chain_path("x/1").err(), Some(SignError::InvalidInput));
    assert_eq!(parse_chain_path("m/abc").err(), Some(SignError::InvalidInput));
}

#[test]
fn chain_path_components() {
    assert!(parse_chain_path("m/44'/0'/0'").is_ok());
    assert!(parse_chain_path("m/+5/007").is_ok());
    assert!(parse_chain_path("m/2147483647'").is_ok());
    for bad in ["m/", "m//1", "mx", "m/x", "m/2147483648", "m/'", "m/+", "m/-1", "m/1''", " m/1", "M/1"] {
        assert_eq!(parse_chain_path(bad).err(), Some(SignError::InvalidInput), "{}", bad);
    }
}
