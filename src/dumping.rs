use vstd::prelude::*;

use crate::message::Message;
use crate::vtable::MessageVTable;

verus! {

/// A snapshot of a message for diagnostics, with its own allocation and lifetime.
pub struct ErasedMessage {
    vtable: MessageVTable,
    repr: Vec<u8>,
}

impl ErasedMessage {
    pub closed spec fn vtable_view(&self) -> MessageVTable {
        self.vtable
    }

    pub closed spec fn bytes(&self) -> Seq<u8> {
        self.repr@
    }

    pub(crate) fn from_parts(vtable: MessageVTable, repr: Vec<u8>) -> (r: ErasedMessage)
        ensures
            r.vtable_view() == vtable,
            r.bytes() == repr@,
    {
        ErasedMessage { vtable, repr }
    }

    pub fn name(&self) -> (r: &'static str)
        ensures
            r == self.vtable_view().name,
    {
        self.vtable.name
    }

    pub fn protocol(&self) -> (r: &'static str)
        ensures
            r == self.vtable_view().protocol,
    {
        self.vtable.protocol
    }

    /// Reads the snapshot back as a value of `M`, if it is one.
    pub fn read<M: Message>(&self) -> (r: Option<M>)
        ensures
            r is Some <==> (M::vtable_spec().type_id == self.vtable_view().type_id && exists|v: M|
                v.repr() == self.bytes()),
            match r {
                Some(v) => v.repr() == self.bytes(),
                None => true,
            },
    {
        if !M::_is_supertype_of(self.vtable.type_id) {
            return None;
        }
        M::_decode(self.repr.as_slice())
    }
}

} // verus!
