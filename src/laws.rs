use vstd::prelude::*;

use crate::any::AnyMessage;
use crate::message::{Message, Request};
use crate::vtable::labels_spec;

verus! {

/// A value put into an envelope comes back out, equal to itself, when the envelope is
/// taken out as the value's own type.
pub proof fn lemma_round_trip<T: Message>(v: T, env: AnyMessage)
    requires
        env.vtable_view() == T::vtable_spec(),
        env.bytes() == v.repr(),
    ensures
        env.downcast_spec::<T>() == Ok::<T, AnyMessage>(v),
{
    let w = choose|w: T| w.repr() == env.bytes();
    T::lemma_repr_injective(v, w);
}

/// An envelope that holds a value of one type never yields a value of a type with
/// another identifier: taking it out as that type hands the envelope back.
pub proof fn lemma_type_safety<A: Message, B: Message>(v: A, env: AnyMessage)
    requires
        env.vtable_view() == A::vtable_spec(),
        env.bytes() == v.repr(),
        A::vtable_spec().type_id != B::vtable_spec().type_id,
    ensures
        env.downcast_spec::<B>() == Err::<B, AnyMessage>(env),
{
}

/// Name, protocol, labels and the diagnostics flag read on an envelope are those read on
/// the value that was put into it.
pub proof fn lemma_metadata_stable<T: Message>(v: T, env: AnyMessage)
    requires
        env.vtable_view() == T::vtable_spec(),
        env.bytes() == v.repr(),
    ensures
        env.vtable_view().name == T::vtable_spec().name,
        env.vtable_view().protocol == T::vtable_spec().protocol,
        env.vtable_view().dumping_allowed == T::vtable_spec().dumping_allowed,
        labels_spec(env.vtable_view().name@, env.vtable_view().protocol@) == labels_spec(
            T::vtable_spec().name@,
            T::vtable_spec().protocol@,
        ),
{
}

/// Turning a response into its wrapper and back gives the response again, and turning a
/// wrapper into its response and back gives the wrapper again.
pub proof fn lemma_wrapper_inverse<R: Request>(response: R::Response, wrapper: R::Wrapper)
    ensures
        R::unwrap_spec(R::wrap_spec(response)) == response,
        R::wrap_spec(R::unwrap_spec(wrapper)) == wrapper,
{
    R::lemma_wrap_unwrap(response, wrapper);
}

} // verus!
