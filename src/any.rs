use vstd::prelude::*;

use crate::message::Message;
use crate::vtable::{labels_spec, MessageTypeId, MessageVTable};

verus! {

/// Representations up to this many bytes are kept inline, without a heap allocation.
pub const INLINE_CAPACITY: usize = 24;

/// The bytes of an erased value: inline when they are few, else in one heap allocation.
pub enum Storage {
    Inline { len: usize, bytes: [u8; INLINE_CAPACITY] },
    Heap(Vec<u8>),
}

impl Storage {
    pub open spec fn bytes(&self) -> Seq<u8> {
        match self {
            Storage::Inline { len, bytes } => bytes@.subrange(0, *len as int),
            Storage::Heap(v) => v@,
        }
    }

    /// Inline storage holds at most `INLINE_CAPACITY` bytes, and only larger
    /// representations go to the heap.
    pub open spec fn wf(&self) -> bool {
        match self {
            Storage::Inline { len, .. } => *len <= INLINE_CAPACITY,
            Storage::Heap(v) => v@.len() > INLINE_CAPACITY,
        }
    }

    pub fn from_vec(v: Vec<u8>) -> (r: Storage)
        ensures
            r.wf(),
            r.bytes() == v@,
            (r is Inline) == (v@.len() <= INLINE_CAPACITY),
    {
        let len = v.len();
        if len <= INLINE_CAPACITY {
            let mut bytes = [0u8; INLINE_CAPACITY];
            let mut i: usize = 0;
            while i < len
                invariant
                    len == v@.len(),
                    len <= INLINE_CAPACITY,
                    i <= len,
                    bytes@.len() == INLINE_CAPACITY,
                    bytes@.subrange(0, i as int) == v@.subrange(0, i as int),
                decreases len - i,
            {
                bytes[i] = v[i];
                assert(bytes@.subrange(0, i + 1) =~= v@.subrange(0, i + 1));
                i = i + 1;
            }
            assert(v@.subrange(0, len as int) =~= v@);
            Storage::Inline { len, bytes }
        } else {
            Storage::Heap(v)
        }
    }

    pub fn as_slice(&self) -> (r: &[u8])
        requires
            self.wf(),
        ensures
            r@ == self.bytes(),
    {
        match self {
            Storage::Inline { len, bytes } => vstd::slice::slice_subrange(bytes.as_slice(), 0, *len),
            Storage::Heap(v) => v.as_slice(),
        }
    }
}

/// The erased envelope: one uniform type for a message of any type, holding the
/// representation of the value and the table of its type.
pub struct AnyMessage {
    vtable: MessageVTable,
    data: Storage,
}

impl AnyMessage {
    /// The table of the type of the value held.
    pub closed spec fn vtable_view(&self) -> MessageVTable {
        self.vtable
    }

    /// The representation of the value held.
    pub closed spec fn bytes(&self) -> Seq<u8> {
        self.data.bytes()
    }

    /// Whether the value is stored inline.
    pub closed spec fn inline_spec(&self) -> bool {
        self.data is Inline
    }

    /// The storage is well formed, and inline exactly when the representation is small.
    pub closed spec fn wf(&self) -> bool {
        &&& self.data.wf()
        &&& self.inline_spec() == (self.bytes().len() <= INLINE_CAPACITY)
    }

    /// Erases a message.
    pub fn new<M: Message>(message: M) -> (r: AnyMessage)
        ensures
            r.wf(),
            r.vtable_view() == M::vtable_spec(),
            r.bytes() == message.repr(),
    {
        message._into_any()
    }

    pub(crate) fn from_parts(vtable: MessageVTable, data: Storage) -> (r: AnyMessage)
        requires
            data.wf(),
            (data is Inline) == (data.bytes().len() <= INLINE_CAPACITY),
        ensures
            r.wf(),
            r.vtable_view() == vtable,
            r.bytes() == data.bytes(),
    {
        AnyMessage { vtable, data }
    }

    /// The representation of the value held.
    pub fn as_bytes(&self) -> (r: &[u8])
        requires
            self.wf(),
        ensures
            r@ == self.bytes(),
    {
        self.data.as_slice()
    }

    pub fn type_id(&self) -> (r: MessageTypeId)
        ensures
            r == self.vtable_view().type_id,
    {
        self.vtable.type_id
    }

    pub fn name(&self) -> (r: &'static str)
        ensures
            r == self.vtable_view().name,
    {
        self.vtable.name
    }

    pub fn protocol(&self) -> (r: &'static str)
        ensures
            r == self.vtable_view().protocol,
    {
        self.vtable.protocol
    }

    pub fn labels(&self) -> (r: Vec<metrics::Label>)
        ensures
            r@ == labels_spec(self.vtable_view().name@, self.vtable_view().protocol@),
    {
        self.vtable.labels()
    }

    pub fn dumping_allowed(&self) -> (r: bool)
        ensures
            r == self.vtable_view().dumping_allowed,
    {
        self.vtable.dumping_allowed
    }

    /// Whether the value is stored inline rather than on the heap.
    pub fn is_inline(&self) -> (r: bool)
        requires
            self.wf(),
        ensures
            r == (self.bytes().len() <= INLINE_CAPACITY),
    {
        match &self.data {
            Storage::Inline { .. } => true,
            Storage::Heap(_) => false,
        }
    }

    /// An envelope can hold a message of any type.
    pub fn _is_supertype_of(type_id: MessageTypeId) -> (r: bool)
        ensures
            r,
    {
        true
    }

    /// What taking a value of type `M` out of the envelope gives: the value that the
    /// bytes represent when the types agree and there is one, else the envelope itself.
    pub open spec fn downcast_spec<M: Message>(self) -> Result<M, AnyMessage> {
        if M::vtable_spec().type_id == self.vtable_view().type_id && exists|v: M|
            v.repr() == self.bytes() {
            Ok(choose|v: M| v.repr() == self.bytes())
        } else {
            Err(self)
        }
    }

    /// Takes the value out if it is of type `M`; else hands the envelope back unchanged.
    pub fn downcast<M: Message>(self) -> (r: Result<M, AnyMessage>)
        requires
            self.wf(),
        ensures
            r == self.downcast_spec::<M>(),
    {
        if !M::_is_supertype_of(self.vtable.type_id) {
            return Err(self);
        }
        match M::_decode(self.data.as_slice()) {
            Some(v) => {
                proof {
                    let w = choose|w: M| w.repr() == self.bytes();
                    M::lemma_repr_injective(v, w);
                }
                Ok(v)
            },
            None => Err(self),
        }
    }

    /// A copy of the value if it is of type `M`; the envelope is left as it is.
    pub fn peek<M: Message>(&self) -> (r: Option<M>)
        requires
            self.wf(),
        ensures
            r == match self.downcast_spec::<M>() {
                Ok(v) => Some(v),
                Err(_) => None::<M>,
            },
    {
        if !M::_is_supertype_of(self.vtable.type_id) {
            return None;
        }
        match M::_decode(self.data.as_slice()) {
            Some(v) => {
                proof {
                    let w = choose|w: M| w.repr() == self.bytes();
                    M::lemma_repr_injective(v, w);
                }
                Some(v)
            },
            None => None,
        }
    }
}

} // verus!
