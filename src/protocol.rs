use vstd::prelude::*;
use crate::circuit::{ATTRIBUTE_COUNT, HashVerificationCircuit, PUBLIC_INPUT_COUNT, inputs_canonical};
use crate::error::ZkError;
use crate::field::{FieldElem, encode_attribute, field_encoding};
use crate::sponge::{SpongeParams, commit, poseidon_digest, values_of};

verus! {

/// The encodings of a list of attributes, in order.
pub open spec fn encodings(attrs: Seq<Vec<u8>>) -> Seq<nat> {
    attrs.map_values(|a: Vec<u8>| field_encoding(a@))
}

/// Encodes each attribute as a field element.
pub fn encode_attributes(attrs: &Vec<Vec<u8>>) -> (r: Vec<FieldElem>)
    ensures
        r@.len() == attrs@.len(),
        forall|i: int| 0 <= i < r@.len() ==> (#[trigger] r@[i]).wf(),
        values_of(r@) == encodings(attrs@),
{
    let mut out: Vec<FieldElem> = Vec::new();
    let mut i: usize = 0;
    while i < attrs.len()
        invariant
            i <= attrs@.len(),
            out@.len() == i,
            forall|k: int| 0 <= k < i ==> (#[trigger] out@[k]).wf(),
            forall|k: int| 0 <= k < i ==> (#[trigger] out@[k]).value() == field_encoding(attrs@[k]@),
        decreases attrs@.len() - i,
    {
        let e = encode_attribute(attrs[i].as_slice());
        out.push(e);
        i = i + 1;
    }
    assert(values_of(out@) =~= encodings(attrs@));
    out
}

/// The public commitment to a list of attributes: the sponge digest of their encodings.
pub fn commitment_of(params: &SpongeParams, attrs: &Vec<Vec<u8>>) -> (r: FieldElem)
    requires
        params.wf(),
    ensures
        r.wf(),
        r.value() == poseidon_digest(params@, encodings(attrs@)),
{
    let encoded = encode_attributes(attrs);
    commit(params, &encoded)
}

/// The statement a prover proves: the encoded attributes as witnesses, with the given
/// commitment and identifier. A wrong number of attributes or unusable parameters are
/// rejected here, before any key or proof is made.
pub fn concrete_statement(
    attrs: &Vec<Vec<u8>>,
    commitment: FieldElem,
    identifier: FieldElem,
    params: SpongeParams,
) -> (r: Result<HashVerificationCircuit, ZkError>)
    ensures
        attrs@.len() != ATTRIBUTE_COUNT ==> r == Err::<HashVerificationCircuit, ZkError>(
            ZkError::WrongAttributeCount),
        attrs@.len() == ATTRIBUTE_COUNT && !params.wf() ==> r == Err::<
            HashVerificationCircuit,
            ZkError,
        >(ZkError::InvalidSpongeParams),
        attrs@.len() == ATTRIBUTE_COUNT && params.wf() && !(commitment.wf() && identifier.wf())
            ==> r == Err::<HashVerificationCircuit, ZkError>(ZkError::NonCanonicalElement),
        attrs@.len() == ATTRIBUTE_COUNT && params.wf() && commitment.wf() && identifier.wf()
            ==> r is Ok,
        r matches Ok(c) ==> {
            &&& c.wf()
            &&& forall|i: int|
                0 <= i < ATTRIBUTE_COUNT ==> (#[trigger] c.field_inputs@[i]) is Some
                    && c.field_inputs@[i]->0.value() == field_encoding(attrs@[i]@)
            &&& c.expected_hash == commitment
            &&& c.expected_degree == identifier
            &&& c.params@ == params@
        },
{
    let encoded = encode_attributes(attrs);
    let mut inputs: Vec<Option<FieldElem>> = Vec::new();
    let mut i: usize = 0;
    while i < encoded.len()
        invariant
            i <= encoded@.len(),
            encoded@.len() == attrs@.len(),
            values_of(encoded@) == encodings(attrs@),
            forall|k: int| 0 <= k < encoded@.len() ==> (#[trigger] encoded@[k]).wf(),
            inputs@.len() == i,
            forall|k: int| 0 <= k < i ==> (#[trigger] inputs@[k]) == Some(encoded@[k]),
        decreases encoded@.len() - i,
    {
        inputs.push(Some(encoded[i]));
        i = i + 1;
    }
    assert forall|k: int| 0 <= k < inputs@.len() && inputs@[k] is Some implies (
    #[trigger] inputs@[k])->0.wf() by {
        assert(inputs@[k] == Some(encoded@[k]));
    }
    assert forall|k: int| 0 <= k < encoded@.len() implies (#[trigger] encoded@[k]).value()
        == field_encoding(attrs@[k]@) by {
        assert(values_of(encoded@)[k] == encodings(attrs@)[k]);
    }
    HashVerificationCircuit::new(inputs, commitment, identifier, params)
}

/// The public inputs of a statement, in the order the circuit declares them: the
/// commitment, then the identifier.
pub fn public_inputs(commitment: FieldElem, identifier: FieldElem) -> (r: Vec<FieldElem>)
    ensures
        r@ == seq![commitment, identifier],
{
    let mut r: Vec<FieldElem> = Vec::new();
    r.push(commitment);
    r.push(identifier);
    assert(r@ =~= seq![commitment, identifier]);
    r
}

/// Checks a list of public inputs against the circuit's schema before verification:
/// it must hold exactly `PUBLIC_INPUT_COUNT` canonical values.
pub fn check_public_inputs(inputs: &[FieldElem]) -> (r: Result<(), ZkError>)
    ensures
        inputs@.len() != PUBLIC_INPUT_COUNT ==> r == Err::<(), ZkError>(
            ZkError::MalformedPublicInput),
        inputs@.len() == PUBLIC_INPUT_COUNT && !(forall|i: int|
            0 <= i < inputs@.len() ==> (#[trigger] inputs@[i]).wf()) ==> r == Err::<(), ZkError>(
            ZkError::NonCanonicalElement),
        r is Ok <==> inputs@.len() == PUBLIC_INPUT_COUNT && forall|i: int|
            0 <= i < inputs@.len() ==> (#[trigger] inputs@[i]).wf(),
{
    if inputs.len() != PUBLIC_INPUT_COUNT {
        return Err(ZkError::MalformedPublicInput);
    }
    let mut i: usize = 0;
    while i < inputs.len()
        invariant
            inputs@.len() == PUBLIC_INPUT_COUNT,
            i <= inputs@.len(),
            forall|k: int| 0 <= k < i ==> (#[trigger] inputs@[k]).wf(),
        decreases inputs@.len() - i,
    {
        if !inputs[i].is_canonical() {
            return Err(ZkError::NonCanonicalElement);
        }
        i = i + 1;
    }
    Ok(())
}

} // verus!
