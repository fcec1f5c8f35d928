use vstd::prelude::*;

use crate::any::{AnyMessage, Storage};
use crate::dumping::ErasedMessage;
use crate::vtable::{labels_spec, MessageTypeId, MessageVTable, ReprLayout};
use vstd::pervasive::unreached;

verus! {

/// A message that can be sent between actors and across nodes.
///
/// A concrete type supplies its table, its identity and its byte representation;
/// everything else is provided on top of those.
pub trait Message: Sized {
    /// The capability table of the type.
    spec fn vtable_spec() -> MessageVTable;

    /// The bytes that stand for a value while it is erased.
    spec fn repr(self) -> Seq<u8>;

    /// Distinct values have distinct representations.
    proof fn lemma_repr_injective(a: Self, b: Self)
        requires
            a.repr() == b.repr(),
        ensures
            a == b,
    ;

    fn _type_id() -> (r: MessageTypeId)
        ensures
            r == Self::vtable_spec().type_id,
    ;

    fn _vtable(&self) -> (r: MessageVTable)
        ensures
            r == Self::vtable_spec(),
    ;

    /// Appends the representation of `self` to `out`.
    fn _encode(&self, out: &mut Vec<u8>)
        ensures
            final(out)@ == old(out)@ + self.repr(),
    ;

    /// Rebuilds the value that `bytes` represents, if there is one.
    fn _decode(bytes: &[u8]) -> (r: Option<Self>)
        ensures
            match r {
                Some(v) => v.repr() == bytes@,
                None => forall|v: Self| v.repr() != bytes@,
            },
    ;

    fn name(&self) -> (r: &'static str)
        ensures
            r == Self::vtable_spec().name,
    {
        self._vtable().name
    }

    fn protocol(&self) -> (r: &'static str)
        ensures
            r == Self::vtable_spec().protocol,
    {
        self._vtable().protocol
    }

    fn labels(&self) -> (r: Vec<metrics::Label>)
        ensures
            r@ == labels_spec(Self::vtable_spec().name@, Self::vtable_spec().protocol@),
    {
        self._vtable().labels()
    }

    fn dumping_allowed(&self) -> (r: bool)
        ensures
            r == Self::vtable_spec().dumping_allowed,
    {
        self._vtable().dumping_allowed
    }

    fn upcast(self) -> (r: AnyMessage)
        ensures
            r.wf(),
            r.vtable_view() == Self::vtable_spec(),
            r.bytes() == self.repr(),
    {
        self._into_any()
    }

    fn _repr_layout(&self) -> (r: ReprLayout)
        ensures
            r == Self::vtable_spec().repr_layout,
    {
        self._vtable().repr_layout
    }

    fn _is_supertype_of(type_id: MessageTypeId) -> (r: bool)
        ensures
            r == (Self::vtable_spec().type_id == type_id),
    {
        Self::_type_id() == type_id
    }

    fn _into_any(self) -> (r: AnyMessage)
        ensures
            r.wf(),
            r.vtable_view() == Self::vtable_spec(),
            r.bytes() == self.repr(),
    {
        let vtable = self._vtable();
        let mut out: Vec<u8> = Vec::new();
        self._write(&mut out);
        assert(out@ =~= self.repr());
        AnyMessage::from_parts(vtable, Storage::from_vec(out))
    }

    /// Takes the value out of an envelope known to hold one of this type.
    fn _from_any(any: AnyMessage) -> (r: Self)
        requires
            any.wf(),
            any.vtable_view().type_id == Self::vtable_spec().type_id,
            exists|v: Self| v.repr() == any.bytes(),
        ensures
            r.repr() == any.bytes(),
    {
        Self::_read(any.as_bytes())
    }

    /// Reads a copy of the value of an envelope known to hold one of this type.
    fn _from_any_ref(any: &AnyMessage) -> (r: Self)
        requires
            any.wf(),
            any.vtable_view().type_id == Self::vtable_spec().type_id,
            exists|v: Self| v.repr() == any.bytes(),
        ensures
            r.repr() == any.bytes(),
    {
        Self::_read(any.as_bytes())
    }

    /// An independent snapshot of the value for diagnostics.
    fn _erase(&self) -> (r: ErasedMessage)
        ensures
            r.vtable_view() == Self::vtable_spec(),
            r.bytes() == self.repr(),
    {
        let mut repr: Vec<u8> = Vec::new();
        self._encode(&mut repr);
        assert(repr@ =~= self.repr());
        ErasedMessage::from_parts(self._vtable(), repr)
    }

    /// Reads a value out of bytes that represent one.
    fn _read(bytes: &[u8]) -> (r: Self)
        requires
            exists|v: Self| v.repr() == bytes@,
        ensures
            r.repr() == bytes@,
    {
        match Self::_decode(bytes) {
            Some(v) => v,
            None => {
                proof {
                    let w = choose|v: Self| v.repr() == bytes@;
                    assert(w.repr() == bytes@);
                }
                unreached()
            },
        }
    }

    /// Moves the value into `out`, as its representation.
    fn _write(self, out: &mut Vec<u8>)
        ensures
            final(out)@ == old(out)@ + self.repr(),
    {
        self._encode(out)
    }
}

/// A request: a message that is answered by a value of `Response`, which travels as a
/// `Wrapper` message.
pub trait Request: Message {
    type Response;

    type Wrapper: Message;

    spec fn wrap_spec(response: Self::Response) -> Self::Wrapper;

    spec fn unwrap_spec(wrapper: Self::Wrapper) -> Self::Response;

    /// Wrapping and unwrapping are inverse to each other.
    proof fn lemma_wrap_unwrap(response: Self::Response, wrapper: Self::Wrapper)
        ensures
            Self::unwrap_spec(Self::wrap_spec(response)) == response,
            Self::wrap_spec(Self::unwrap_spec(wrapper)) == wrapper,
    ;

    fn wrap(response: Self::Response) -> (r: Self::Wrapper)
        ensures
            r == Self::wrap_spec(response),
    ;

    fn unwrap(wrapper: Self::Wrapper) -> (r: Self::Response)
        ensures
            r == Self::unwrap_spec(wrapper),
    ;
}

} // verus!
