use vstd::bytes::{
    lemma_auto_spec_u32_to_from_le_bytes, spec_u32_from_le_bytes, spec_u32_to_le_bytes,
    u32_from_le_bytes, u32_to_le_bytes,
};
use vstd::prelude::*;

use crate::message::{Message, Request};
use crate::vtable::{MessageTypeId, MessageVTable, ReprLayout};

verus! {

pub const PING_TYPE_ID: u64 = 1;

pub const PONG_TYPE_ID: u64 = 2;

pub const PING_REPLY_TYPE_ID: u64 = 3;

/// Appends the four little-endian bytes of `x`.
fn encode_u32(x: u32, out: &mut Vec<u8>)
    ensures
        final(out)@ == old(out)@ + spec_u32_to_le_bytes(x),
{
    let mut b = u32_to_le_bytes(x);
    out.append(&mut b);
}

/// The number whose little-endian bytes are `bytes`, if there are four of them.
fn decode_u32(bytes: &[u8]) -> (r: Option<u32>)
    ensures
        match r {
            Some(x) => spec_u32_to_le_bytes(x) == bytes@,
            None => forall|x: u32| spec_u32_to_le_bytes(x) != bytes@,
        },
{
    proof {
        lemma_auto_spec_u32_to_from_le_bytes();
    }
    if bytes.len() == 4 {
        let x = u32_from_le_bytes(bytes);
        assert(spec_u32_to_le_bytes(spec_u32_from_le_bytes(bytes@)) == bytes@);
        Some(x)
    } else {
        None
    }
}

proof fn lemma_u32_bytes_injective(a: u32, b: u32)
    requires
        spec_u32_to_le_bytes(a) == spec_u32_to_le_bytes(b),
    ensures
        a == b,
{
    lemma_auto_spec_u32_to_from_le_bytes();
    assert(spec_u32_to_le_bytes(a).len() == 4);
    assert(spec_u32_to_le_bytes(b).len() == 4);
    assert(spec_u32_from_le_bytes(spec_u32_to_le_bytes(a)) == a);
    assert(spec_u32_from_le_bytes(spec_u32_to_le_bytes(b)) == b);
}

/// A liveness probe of the `net` protocol.
#[derive(Clone, Copy, Debug, PartialEq, Eq, Structural)]
pub struct Ping {
    pub id: u32,
}

/// The answer to a probe, as a message of its own.
#[derive(Clone, Copy, Debug, PartialEq, Eq, Structural)]
pub struct Pong {
    pub id: u32,
}

/// The reply to a `Ping` request: the probed id, if the peer knew it.
#[derive(Clone, Copy, Debug, PartialEq, Eq, Structural)]
pub struct PingReply {
    pub id: Option<u32>,
}

impl Message for Ping {
    open spec fn vtable_spec() -> MessageVTable {
        MessageVTable {
            type_id: MessageTypeId { id: PING_TYPE_ID },
            name: "Ping",
            protocol: "net",
            dumping_allowed: true,
            repr_layout: ReprLayout { size: 4, align: 1 },
        }
    }

    open spec fn repr(self) -> Seq<u8> {
        spec_u32_to_le_bytes(self.id)
    }

    proof fn lemma_repr_injective(a: Self, b: Self) {
        lemma_u32_bytes_injective(a.id, b.id);
    }

    fn _type_id() -> (r: MessageTypeId) {
        MessageTypeId::new(PING_TYPE_ID)
    }

    fn _vtable(&self) -> (r: MessageVTable) {
        MessageVTable {
            type_id: MessageTypeId::new(PING_TYPE_ID),
            name: "Ping",
            protocol: "net",
            dumping_allowed: true,
            repr_layout: ReprLayout { size: 4, align: 1 },
        }
    }

    fn _encode(&self, out: &mut Vec<u8>) {
        encode_u32(self.id, out);
    }

    fn _decode(bytes: &[u8]) -> (r: Option<Self>) {
        match decode_u32(bytes) {
            Some(id) => Some(Ping { id }),
            None => None,
        }
    }
}

impl Message for Pong {
    open spec fn vtable_spec() -> MessageVTable {
        MessageVTable {
            type_id: MessageTypeId { id: PONG_TYPE_ID },
            name: "Pong",
            protocol: "net",
            dumping_allowed: true,
            repr_layout: ReprLayout { size: 4, align: 1 },
        }
    }

    open spec fn repr(self) -> Seq<u8> {
        spec_u32_to_le_bytes(self.id)
    }

    proof fn lemma_repr_injective(a: Self, b: Self) {
        lemma_u32_bytes_injective(a.id, b.id);
    }

    fn _type_id() -> (r: MessageTypeId) {
        MessageTypeId::new(PONG_TYPE_ID)
    }

    fn _vtable(&self) -> (r: MessageVTable) {
        MessageVTable {
            type_id: MessageTypeId::new(PONG_TYPE_ID),
            name: "Pong",
            protocol: "net",
            dumping_allowed: true,
            repr_layout: ReprLayout { size: 4, align: 1 },
        }
    }

    fn _encode(&self, out: &mut Vec<u8>) {
        encode_u32(self.id, out);
    }

    fn _decode(bytes: &[u8]) -> (r: Option<Self>) {
        match decode_u32(bytes) {
            Some(id) => Some(Pong { id }),
            None => None,
        }
    }
}

impl Message for PingReply {
    open spec fn vtable_spec() -> MessageVTable {
        MessageVTable {
            type_id: MessageTypeId { id: PING_REPLY_TYPE_ID },
            name: "PingReply",
            protocol: "net",
            dumping_allowed: false,
            repr_layout: ReprLayout { size: 5, align: 1 },
        }
    }

    /// A tag byte, then the id when there is one.
    open spec fn repr(self) -> Seq<u8> {
        match self.id {
            Some(x) => seq![1u8] + spec_u32_to_le_bytes(x),
            None => seq![0u8],
        }
    }

    proof fn lemma_repr_injective(a: Self, b: Self) {
        lemma_auto_spec_u32_to_from_le_bytes();
        if a.id is Some && b.id is Some {
            let (x, y) = (a.id->0, b.id->0);
            assert(a.repr().subrange(1, 5) =~= spec_u32_to_le_bytes(x));
            assert(b.repr().subrange(1, 5) =~= spec_u32_to_le_bytes(y));
            lemma_u32_bytes_injective(x, y);
        } else if a.id is Some {
            assert(a.repr().len() == 5);
        } else if b.id is Some {
            assert(b.repr().len() == 5);
        }
    }

    fn _type_id() -> (r: MessageTypeId) {
        MessageTypeId::new(PING_REPLY_TYPE_ID)
    }

    fn _vtable(&self) -> (r: MessageVTable) {
        MessageVTable {
            type_id: MessageTypeId::new(PING_REPLY_TYPE_ID),
            name: "PingReply",
            protocol: "net",
            dumping_allowed: false,
            repr_layout: ReprLayout { size: 5, align: 1 },
        }
    }

    fn _encode(&self, out: &mut Vec<u8>) {
        match self.id {
            Some(x) => {
                out.push(1u8);
                encode_u32(x, out);
                assert(final(out)@ =~= old(out)@ + self.repr());
            },
            None => {
                out.push(0u8);
                assert(final(out)@ =~= old(out)@ + self.repr());
            },
        }
    }

    fn _decode(bytes: &[u8]) -> (r: Option<Self>) {
        proof {
            lemma_auto_spec_u32_to_from_le_bytes();
        }
        if bytes.len() == 1 && bytes[0] == 0 {
            let r = PingReply { id: None };
            assert(bytes@ =~= seq![0u8]);
            assert(r.repr() == bytes@);
            Some(r)
        } else if bytes.len() == 5 && bytes[0] == 1 {
            let rest = vstd::slice::slice_subrange(bytes, 1, 5);
            let x = u32_from_le_bytes(rest);
            assert(spec_u32_to_le_bytes(x) == rest@);
            assert(bytes@ =~= seq![1u8] + rest@);
            let r = PingReply { id: Some(x) };
            assert(r.repr() == bytes@);
            Some(r)
        } else {
            assert forall|v: PingReply| v.repr() != bytes@ by {
                if v.id is Some {
                    assert(v.repr()[0] == 1u8);
                }
            }
            None
        }
    }
}

impl Request for Ping {
    type Response = Option<u32>;

    type Wrapper = PingReply;

    open spec fn wrap_spec(response: Option<u32>) -> PingReply {
        PingReply { id: response }
    }

    open spec fn unwrap_spec(wrapper: PingReply) -> Option<u32> {
        wrapper.id
    }

    proof fn lemma_wrap_unwrap(response: Option<u32>, wrapper: PingReply) {
    }

    fn wrap(response: Option<u32>) -> (r: PingReply) {
        PingReply { id: response }
    }

    fn unwrap(wrapper: PingReply) -> (r: Option<u32>) {
        wrapper.id
    }
}

} // verus!
