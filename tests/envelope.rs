use elfo_message::any::{Storage, INLINE_CAPACITY};
use elfo_message::net::{Ping, PingReply, Pong, PING_TYPE_ID};
use elfo_message::{AnyMessage, Message, MessageTypeId, MessageVTable, ReprLayout, Request};

#[test]
fn ping_scenario() {
    let env = AnyMessage::new(Ping { id: 7 });
    assert_eq!(env.protocol(), "net");
    assert_eq!(env.name(), "Ping");
    let env = match env.downcast::<Pong>() {
        Ok(_) => panic!("a ping must not come out as a pong"),
        Err(env) => env,
    };
    assert_eq!(env.downcast::<Ping>().ok(), Some(Ping { id: 7 }));
}

#[test]
fn round_trip_keeps_value() {
    for id in [0u32, 1, 255, 256, 65_535, 1 << 24, u32::MAX] {
        let env = AnyMessage::new(Ping { id });
        assert_eq!(env.downcast::<Ping>().ok(), Some(Ping { id }));
    }
    for id in [None, Some(0u32), Some(42), Some(u32::MAX)] {
        let env = AnyMessage::new(PingReply { id });
        assert_eq!(env.downcast::<PingReply>().ok(), Some(PingReply { id }));
    }
}

#[test]
fn downcast_to_other_type_fails() {
    let env = AnyMessage::new(Pong { id: 3 });
    let env = env.downcast::<Ping>().err().expect("a pong is no ping");
    let env = env.downcast::<PingReply>().err().expect("a pong is no reply");
    assert_eq!(env.name(), "Pong");
    assert_eq!(env.downcast::<Pong>().ok(), Some(Pong { id: 3 }));
}

#[test]
fn metadata_matches_value() {
    let ping = Ping { id: 9 };
    let (name, protocol, allowed) = (ping.name(), ping.protocol(), ping.dumping_allowed());
    let labels = ping.labels();
    let env = AnyMessage::new(ping);
    assert_eq!(env.name(), name);
    assert_eq!(env.protocol(), protocol);
    assert_eq!(env.dumping_allowed(), allowed);
    assert_eq!(env.labels(), labels);
    assert_eq!(env.type_id(), MessageTypeId::new(PING_TYPE_ID));
    let reply = PingReply { id: None };
    assert!(!reply.dumping_allowed());
    assert!(!AnyMessage::new(reply).dumping_allowed());
}

#[test]
fn labels_carry_name_and_protocol() {
    let labels = AnyMessage::new(Pong { id: 1 }).labels();
    assert_eq!(labels.len(), 2);
    assert_eq!(labels[0].key(), "message");
    assert_eq!(labels[0].value(), "Pong");
    assert_eq!(labels[1].key(), "protocol");
    assert_eq!(labels[1].value(), "net");
}

#[test]
fn vtable_labels_built_from_parts() {
    let table = MessageVTable {
        type_id: MessageTypeId::new(77),
        name: "Tick",
        protocol: "timer",
        dumping_allowed: true,
        repr_layout: ReprLayout { size: 0, align: 1 },
    };
    let labels = table.labels();
    assert_eq!(labels[0].value(), "Tick");
    assert_eq!(labels[1].value(), "timer");
}

#[test]
fn peek_leaves_envelope() {
    let env = AnyMessage::new(Ping { id: 11 });
    assert_eq!(env.peek::<Ping>(), Some(Ping { id: 11 }));
    assert_eq!(env.peek::<Pong>(), None);
    assert_eq!(env.downcast::<Ping>().ok(), Some(Ping { id: 11 }));
}

#[test]
fn small_values_stay_inline() {
    let env = AnyMessage::new(Ping { id: 5 });
    assert!(env.is_inline());
    assert_eq!(env.as_bytes(), &[5u8, 0, 0, 0][..]);
    let env = AnyMessage::new(PingReply { id: Some(0x0102_0304) });
    assert_eq!(env.as_bytes(), &[1u8, 4, 3, 2, 1][..]);
    assert!(INLINE_CAPACITY >= 5);
}

#[test]
fn envelope_accepts_any_type() {
    assert!(AnyMessage::_is_supertype_of(MessageTypeId::new(12345)));
    assert!(Ping::_is_supertype_of(MessageTypeId::new(PING_TYPE_ID)));
    assert!(!Pong::_is_supertype_of(MessageTypeId::new(PING_TYPE_ID)));
}

#[test]
fn erase_snapshots_value() {
    let ping = Ping { id: 21 };
    let snapshot = ping._erase();
    assert_eq!(snapshot.name(), "Ping");
    assert_eq!(snapshot.protocol(), "net");
    assert_eq!(snapshot.read::<Ping>(), Some(ping));
    assert_eq!(snapshot.read::<Pong>(), None);
}

#[test]
fn unchecked_reads_after_check() {
    let env = AnyMessage::new(Pong { id: 8 });
    assert!(Pong::_is_supertype_of(env.type_id()));
    assert_eq!(Pong::_from_any_ref(&env), Pong { id: 8 });
    assert_eq!(Pong::_from_any(env), Pong { id: 8 });
    let mut out = Vec::new();
    Ping { id: 258 }._write(&mut out);
    assert_eq!(out, vec![2u8, 1, 0, 0]);
    assert_eq!(Ping::_read(&out), Ping { id: 258 });
}

#[test]
fn wrapper_inverse() {
    for response in [None, Some(0u32), Some(17), Some(u32::MAX)] {
        let wrapper = <Ping as Request>::wrap(response);
        assert_eq!(<Ping as Request>::unwrap(wrapper), response);
        let back = <Ping as Request>::wrap(<Ping as Request>::unwrap(wrapper));
        assert_eq!(back, wrapper);
        let env = AnyMessage::new(wrapper);
        let out = env.downcast::<PingReply>().ok().expect("reply comes back");
        assert_eq!(<Ping as Request>::unwrap(out), response);
    }
}

#[test]
fn storage_switches_to_heap_past_capacity() {
    let fits: Vec<u8> = (0..INLINE_CAPACITY as u8).collect();
    let inline = Storage::from_vec(fits.clone());
    assert!(matches!(inline, Storage::Inline { .. }));
    assert_eq!(inline.as_slice(), &fits[..]);
    let big: Vec<u8> = (0..=INLINE_CAPACITY as u8).collect();
    let heap = Storage::from_vec(big.clone());
    assert!(matches!(heap, Storage::Heap(_)));
    assert_eq!(heap.as_slice(), &big[..]);
    let empty = Storage::from_vec(Vec::new());
    assert!(matches!(empty, Storage::Inline { len: 0, .. }));
    assert!(empty.as_slice().is_empty());
}
