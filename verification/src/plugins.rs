//! Decoders that users add to the built-in ones.

use vstd::prelude::*;

verus! {

/// A decoder that a user brings: a function that turns raw bytes into a
/// structured value, or declines with `None`.
pub trait Decoder: Fn(&[u8]) -> Option<serde_json::Value> {

}

impl<F: Fn(&[u8]) -> Option<serde_json::Value>> Decoder for F {

}

/// `decoder` may hand back `r` for the bytes `bytes`.
pub open spec fn may_decode<D: Decoder>(decoder: D, bytes: Seq<u8>, r: Option<serde_json::Value>)
    -> bool {
    exists|s: &[u8]| s@ == bytes && #[trigger] decoder.ensures((s,), r)
}

/// `decoder` is a function in the mathematical sense: it takes every byte
/// sequence, and what it hands back depends on the bytes alone.
pub open spec fn is_function<D: Decoder>(decoder: D) -> bool {
    &&& forall|s: &[u8]| #[trigger] decoder.requires((s,))
    &&& forall|
        s1: &[u8],
        s2: &[u8],
        r1: Option<serde_json::Value>,
        r2: Option<serde_json::Value>,
    |
        s1@ == s2@ && #[trigger] decoder.ensures((s1,), r1) && #[trigger] decoder.ensures((s2,), r2)
            ==> r1 == r2
}

/// What `decoder` makes of `bytes`.
pub open spec fn decoded_by<D: Decoder>(decoder: D, bytes: Seq<u8>) -> Option<serde_json::Value> {
    choose|r: Option<serde_json::Value>| may_decode(decoder, bytes, r)
}

/// What the first of `decoders`, in order, that accepts `bytes` makes of
/// them; `None` where all decline.
pub open spec fn first_decoded<D: Decoder>(decoders: Seq<D>, bytes: Seq<u8>) -> Option<
    serde_json::Value,
>
    decreases decoders.len(),
{
    if decoders.len() == 0 {
        None
    } else if decoded_by(decoders[0], bytes) is Some {
        decoded_by(decoders[0], bytes)
    } else {
        first_decoded(decoders.drop_first(), bytes)
    }
}

/// The registered decoders, in the order of their registration. Decoders are
/// added and never removed.
pub struct DecoderRegistry<D: Decoder> {
    decoders: Vec<D>,
}

impl<D: Decoder> View for DecoderRegistry<D> {
    type V = Seq<D>;

    closed spec fn view(&self) -> Seq<D> {
        self.decoders@
    }
}

impl<D: Decoder> DecoderRegistry<D> {
    /// Every registered decoder is a function.
    pub open spec fn wf(&self) -> bool {
        forall|i: int| 0 <= i < self@.len() ==> is_function(#[trigger] self@[i])
    }

    /// A registry without decoders.
    pub fn new() -> (r: Self)
        ensures
            r.wf(),
            r@ == Seq::<D>::empty(),
    {
        DecoderRegistry { decoders: Vec::new() }
    }

    /// The number of registered decoders.
    pub fn len(&self) -> (n: usize)
        ensures
            n == self@.len(),
    {
        self.decoders.len()
    }
}

/// Registers `decoder` behind those registered before.
pub fn register_decoder<D: Decoder>(registry: &mut DecoderRegistry<D>, decoder: D)
    requires
        old(registry).wf(),
        is_function(decoder),
    ensures
        final(registry).wf(),
        final(registry)@ == old(registry)@.push(decoder),
{
    registry.decoders.push(decoder);
}

/// Decodes `bytes` with the first registered decoder, in registration order,
/// that accepts them.
pub fn decode_with_plugins<D: Decoder>(registry: &DecoderRegistry<D>, bytes: &[u8]) -> (r: Option<
    serde_json::Value,
>)
    requires
        registry.wf(),
    ensures
        r == first_decoded(registry@, bytes@),
{
    let mut i: usize = 0;
    assert(registry.decoders@.skip(0) =~= registry@);
    while i < registry.decoders.len()
        invariant
            i <= registry.decoders@.len(),
            registry.wf(),
            first_decoded(registry@, bytes@) == first_decoded(
                registry.decoders@.skip(i as int),
                bytes@,
            ),
        decreases registry.decoders@.len() - i,
    {
        let decoder = &registry.decoders[i];
        assert(is_function(registry@[i as int]));
        let found = decoder(bytes);
        let ghost rest = registry.decoders@.skip(i as int);
        assert(rest[0] == registry.decoders@[i as int]);
        assert(rest.drop_first() =~= registry.decoders@.skip(i as int + 1));
        assert(may_decode(*decoder, bytes@, found));
        assert(found == decoded_by(*decoder, bytes@));
        if found.is_some() {
            return found;
        }
        i += 1;
    }
    assert(registry.decoders@.skip(i as int).len() == 0);
    None
}

} // verus!
