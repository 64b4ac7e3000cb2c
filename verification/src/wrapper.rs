use vstd::prelude::*;

verus! {

/// A scalar wrapper value: exactly one inner value. This is the
/// mathematical shape of every type the validator accepts, and the
/// shape the emitted conversion implementation operates on.
pub struct Wrapper<T> {
    pub inner: T,
}

/// A decode failure as the emitted code reports it: the inner type's
/// own failure, tagged with the wrapper type's declared name for
/// diagnostics.
pub struct TaggedError<E> {
    pub wrapper_name: Seq<char>,
    pub cause: E,
}

/// What the emitted encoder does: unwrap, then delegate to the inner
/// type's encoder.
pub open spec fn encode_wrapper<T, V>(encode_inner: spec_fn(T) -> V, w: Wrapper<T>) -> V {
    encode_inner(w.inner)
}

/// What the emitted decoder does: delegate to the inner type's
/// decoder, then re-wrap; a failure of the inner decoder is propagated
/// tagged with the wrapper's declared name.
pub open spec fn decode_wrapper<T, V, E>(
    name: Seq<char>,
    decode_inner: spec_fn(V) -> Result<T, E>,
    value: V,
) -> Result<Wrapper<T>, TaggedError<E>> {
    match decode_inner(value) {
        Ok(inner) => Ok(Wrapper { inner }),
        Err(cause) => Err(TaggedError { wrapper_name: name, cause }),
    }
}

/// Round trip: encoding a wrapper value and decoding the result gives
/// back the original wrapper value, provided the inner type's own
/// encode/decode pair round-trips.
pub proof fn lemma_wrapper_round_trip<T, V, E>(
    name: Seq<char>,
    encode_inner: spec_fn(T) -> V,
    decode_inner: spec_fn(V) -> Result<T, E>,
    w: Wrapper<T>,
)
    requires
        forall|t: T| #[trigger] decode_inner(encode_inner(t)) == Ok::<T, E>(t),
    ensures
        decode_wrapper(name, decode_inner, encode_wrapper(encode_inner, w)) == Ok::<
            Wrapper<T>,
            TaggedError<E>,
        >(w),
{
    assert(decode_inner(encode_inner(w.inner)) == Ok::<T, E>(w.inner));
    assert(w == Wrapper { inner: w.inner });
}

} // verus!
