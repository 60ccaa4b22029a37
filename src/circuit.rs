use vstd::prelude::*;
use crate::constraints::{ConstraintSystem, Mode, Role, equalities_hold, public_values_of};
use crate::error::ZkError;
use crate::field::{FieldElem, field_encoding, lemma_short_encoding_injective, lemma_value_determines_element};
use crate::sponge::{SpongeParams, commit, poseidon_digest, values_of};

verus! {

/// Number of private attributes in the statement.
pub const ATTRIBUTE_COUNT: usize = 4;

/// Position of the attribute that must equal the public identifier.
pub const IDENTIFIER_INDEX: usize = 1;

/// Number of public inputs: the commitment, then the identifier.
pub const PUBLIC_INPUT_COUNT: usize = 2;

/// Handle of the commitment's public variable.
pub const COMMITMENT_VAR: usize = 4;

/// Handle of the identifier's public variable.
pub const IDENTIFIER_VAR: usize = 5;

/// Handle of the witness that carries the digest computed by the prover.
pub const DIGEST_VAR: usize = 6;

/// The roles of the variables that the circuit allocates, in order: one witness per
/// attribute, the commitment and the identifier as public inputs, then the digest.
pub open spec fn circuit_roles() -> Seq<Role> {
    seq![Role::Witness, Role::Witness, Role::Witness, Role::Witness, Role::Public, Role::Public, Role::Witness]
}

/// The equalities that the circuit enforces: digest equals commitment, and the
/// identifier-bearing attribute equals the identifier.
pub open spec fn circuit_equalities() -> Seq<(usize, usize)> {
    seq![(DIGEST_VAR, COMMITMENT_VAR), (IDENTIFIER_INDEX, IDENTIFIER_VAR)]
}

/// Every attribute value is present.
pub open spec fn all_present(inputs: Seq<Option<FieldElem>>) -> bool {
    forall|i: int| 0 <= i < inputs.len() ==> (#[trigger] inputs[i]) is Some
}

/// The attribute values, with absent ones read as zero.
pub open spec fn present_values(inputs: Seq<Option<FieldElem>>) -> Seq<nat> {
    inputs.map_values(|o: Option<FieldElem>| if o is Some { o->0.value() } else { 0nat })
}

/// The statement: private attributes (absent when only the shape is wanted), the public
/// commitment and identifier, and the sponge parameters.
///
/// The digest is computed by the prover with the sponge outside the constraint system and
/// then witnessed; the constraints tie that witness to the commitment, not to the
/// attribute witnesses. A proof therefore shows knowledge of attributes whose
/// identifier-bearing entry equals the identifier, together with a claimed digest equal
/// to the commitment; it does not by itself force the digest to be a function of the
/// attribute witnesses.
#[derive(Debug)]
pub struct HashVerificationCircuit {
    pub field_inputs: Vec<Option<FieldElem>>,
    pub expected_hash: FieldElem,
    pub expected_degree: FieldElem,
    pub params: SpongeParams,
}

/// Every present entry is a canonical element.
pub open spec fn inputs_canonical(inputs: Seq<Option<FieldElem>>) -> bool {
    forall|i: int| 0 <= i < inputs.len() && inputs[i] is Some ==> (#[trigger] inputs[i])->0.wf()
}

impl HashVerificationCircuit {
    pub open spec fn wf(&self) -> bool {
        &&& self.field_inputs@.len() == ATTRIBUTE_COUNT
        &&& inputs_canonical(self.field_inputs@)
        &&& self.expected_hash.wf()
        &&& self.expected_degree.wf()
        &&& self.params.wf()
    }

    /// What a constraint system built from this statement in the given mode holds: the
    /// fixed roles and equalities, and, when concrete, the attributes, commitment,
    /// identifier and the sponge digest of the attributes as values.
    pub open spec fn built(&self, cs: ConstraintSystem, mode: Mode) -> bool {
        &&& cs.wf()
        &&& cs.mode_spec() == mode
        &&& cs.roles() == circuit_roles()
        &&& cs.equalities() == circuit_equalities()
        &&& mode == Mode::Prove ==> {
            &&& cs.values().take(ATTRIBUTE_COUNT as int) == self.field_inputs@
            &&& cs.values()[COMMITMENT_VAR as int] == Some(self.expected_hash)
            &&& cs.values()[IDENTIFIER_VAR as int] == Some(self.expected_degree)
            &&& cs.values()[DIGEST_VAR as int]->0.value() == poseidon_digest(
                self.params@,
                present_values(self.field_inputs@),
            )
        }
    }

    /// Builds a statement, rejecting at once a wrong number of attributes, unusable
    /// sponge parameters, or a non-canonical element.
    pub fn new(
        field_inputs: Vec<Option<FieldElem>>,
        expected_hash: FieldElem,
        expected_degree: FieldElem,
        params: SpongeParams,
    ) -> (r: Result<HashVerificationCircuit, ZkError>)
        ensures
            field_inputs@.len() != ATTRIBUTE_COUNT ==> r == Err::<HashVerificationCircuit, ZkError>(
                ZkError::WrongAttributeCount),
            field_inputs@.len() == ATTRIBUTE_COUNT && !params.wf() ==> r == Err::<
                HashVerificationCircuit,
                ZkError,
            >(ZkError::InvalidSpongeParams),
            field_inputs@.len() == ATTRIBUTE_COUNT && params.wf() && !(inputs_canonical(
                field_inputs@) && expected_hash.wf() && expected_degree.wf()) ==> r == Err::<
                HashVerificationCircuit,
                ZkError,
            >(ZkError::NonCanonicalElement),
            r matches Ok(c) ==> c.wf() && c.field_inputs@ == field_inputs@ && c.expected_hash
                == expected_hash && c.expected_degree == expected_degree && c.params@
                == params@,
            field_inputs@.len() == ATTRIBUTE_COUNT && params.wf() && inputs_canonical(
                field_inputs@) && expected_hash.wf() && expected_degree.wf() ==> r is Ok,
    {
        if field_inputs.len() != ATTRIBUTE_COUNT {
            return Err(ZkError::WrongAttributeCount);
        }
        if !params.is_valid() {
            return Err(ZkError::InvalidSpongeParams);
        }
        if !expected_hash.is_canonical() || !expected_degree.is_canonical() {
            return Err(ZkError::NonCanonicalElement);
        }
        let mut i: usize = 0;
        while i < field_inputs.len()
            invariant
                field_inputs@.len() == ATTRIBUTE_COUNT,
                params.wf(),
                expected_hash.wf(),
                expected_degree.wf(),
                i <= field_inputs@.len(),
                forall|k: int|
                    0 <= k < i && field_inputs@[k] is Some ==> (#[trigger] field_inputs@[k])->0.wf(),
            decreases field_inputs@.len() - i,
        {
            if let Some(e) = field_inputs[i] {
                if !e.is_canonical() {
                    assert(!inputs_canonical(field_inputs@)) by {
                        assert(field_inputs@[i as int] == Some(e));
                    }
                    return Err(ZkError::NonCanonicalElement);
                }
            }
            i = i + 1;
        }
        Ok(HashVerificationCircuit { field_inputs, expected_hash, expected_degree, params })
    }

    /// The same statement with every attribute absent: what setup builds the shape from.
    pub fn shape(&self) -> (r: HashVerificationCircuit)
        requires
            self.wf(),
        ensures
            r.wf(),
            r.field_inputs@ == Seq::new(ATTRIBUTE_COUNT as nat, |i: int| None::<FieldElem>),
            !all_present(r.field_inputs@),
            r.expected_hash == self.expected_hash,
            r.expected_degree == self.expected_degree,
            r.params@ == self.params@,
    {
        let mut inputs: Vec<Option<FieldElem>> = Vec::new();
        let mut i: usize = 0;
        while i < ATTRIBUTE_COUNT
            invariant
                i <= ATTRIBUTE_COUNT,
                inputs@ == Seq::new(i as nat, |k: int| None::<FieldElem>),
            decreases ATTRIBUTE_COUNT - i,
        {
            inputs.push(None);
            assert(inputs@ =~= Seq::new((i + 1) as nat, |k: int| None::<FieldElem>));
            i = i + 1;
        }
        let r = HashVerificationCircuit {
            field_inputs: inputs,
            expected_hash: self.expected_hash,
            expected_degree: self.expected_degree,
            params: self.params.clone_params(),
        };
        assert(r.field_inputs@[0] is None);
        r
    }

    /// Builds the constraint system of this statement in the given mode. The variables
    /// and equalities do not depend on the values; while building concretely an absent
    /// attribute fails with `AssignmentMissing`.
    pub fn generate_constraints(&self, mode: Mode) -> (r: Result<ConstraintSystem, ZkError>)
        requires
            self.wf(),
        ensures
            mode == Mode::Prove && !all_present(self.field_inputs@) ==> r == Err::<
                ConstraintSystem,
                ZkError,
            >(ZkError::AssignmentMissing),
            mode == Mode::Setup || all_present(self.field_inputs@) ==> (r matches Ok(cs)
                && self.built(cs, mode)),
    {
        let mut cs = ConstraintSystem::new(mode);
        let mut i: usize = 0;
        while i < self.field_inputs.len()
            invariant
                self.wf(),
                cs.wf(),
                cs.mode_spec() == mode,
                i <= ATTRIBUTE_COUNT,
                cs.roles() == Seq::new(i as nat, |k: int| Role::Witness),
                cs.equalities() == Seq::<(usize, usize)>::empty(),
                mode == Mode::Prove ==> cs.values() == self.field_inputs@.take(i as int),
                mode == Mode::Prove ==> all_present(self.field_inputs@.take(i as int)),
            decreases ATTRIBUTE_COUNT - i,
        {
            let ghost before = cs.roles();
            let a = cs.allocate(Role::Witness, self.field_inputs[i]);
            if a.is_err() {
                assert(!all_present(self.field_inputs@)) by {
                    assert(self.field_inputs@[i as int] is None);
                }
                return Err(ZkError::AssignmentMissing);
            }
            assert(cs.roles() =~= Seq::new((i + 1) as nat, |k: int| Role::Witness));
            assert(self.field_inputs@.take(i + 1) =~= self.field_inputs@.take(i as int).push(
                self.field_inputs@[i as int],
            ));
            proof {
                if mode == Mode::Prove {
                    assert forall|k: int| 0 <= k < i + 1 implies (#[trigger] self.field_inputs@.take(
                        i + 1,
                    )[k]) is Some by {
                        if k < i {
                            assert(self.field_inputs@.take(i + 1)[k] == self.field_inputs@.take(
                                i as int,
                            )[k]);
                        }
                    }
                }
            }
            i = i + 1;
        }
        assert(self.field_inputs@.take(i as int) =~= self.field_inputs@);
        let commitment = cs.allocate(Role::Public, Some(self.expected_hash));
        let identifier = cs.allocate(Role::Public, Some(self.expected_degree));
        let digest_value = if mode == Mode::Prove {
            let present = unwrap_all(&self.field_inputs);
            Some(commit(&self.params, &present))
        } else {
            None
        };
        let digest = cs.allocate(Role::Witness, digest_value);
        assert(cs.roles() =~= circuit_roles());
        cs.enforce_equal(DIGEST_VAR, COMMITMENT_VAR);
        cs.enforce_equal(IDENTIFIER_INDEX, IDENTIFIER_VAR);
        assert(cs.equalities() =~= circuit_equalities());
        assert(mode == Mode::Prove ==> cs.values().take(ATTRIBUTE_COUNT as int) =~= self.field_inputs@);
        Ok(cs)
    }
}

/// A concrete system built from a complete statement is satisfied exactly when the sponge
/// digest of the attributes equals the commitment and the identifier-bearing attribute
/// equals the identifier.
pub proof fn lemma_satisfied_iff(c: HashVerificationCircuit, cs: ConstraintSystem)
    requires
        c.wf(),
        all_present(c.field_inputs@),
        c.built(cs, Mode::Prove),
    ensures
        equalities_hold(cs.values(), cs.equalities()) <==> (poseidon_digest(
            c.params@,
            present_values(c.field_inputs@),
        ) == c.expected_hash.value() && c.field_inputs@[IDENTIFIER_INDEX as int] == Some(
            c.expected_degree,
        )),
{
    let vals = cs.values();
    assert(vals[IDENTIFIER_INDEX as int] == vals.take(ATTRIBUTE_COUNT as int)[IDENTIFIER_INDEX as int]);
    assert(vals[DIGEST_VAR as int] is Some);
    let digest = vals[DIGEST_VAR as int]->0;
    if poseidon_digest(c.params@, present_values(c.field_inputs@)) == c.expected_hash.value() {
        lemma_value_determines_element(digest, c.expected_hash);
    }
    if equalities_hold(vals, cs.equalities()) {
        assert(cs.equalities()[0] == (DIGEST_VAR, COMMITMENT_VAR));
        assert(cs.equalities()[1] == (IDENTIFIER_INDEX, IDENTIFIER_VAR));
    }
}

/// Completeness of the statement: attributes, their commitment and the identifier they
/// carry give a concrete system in which every equality holds.
pub proof fn lemma_honest_statement_satisfied(c: HashVerificationCircuit, cs: ConstraintSystem)
    requires
        c.wf(),
        all_present(c.field_inputs@),
        c.expected_hash.value() == poseidon_digest(c.params@, present_values(c.field_inputs@)),
        c.field_inputs@[IDENTIFIER_INDEX as int] == Some(c.expected_degree),
        c.built(cs, Mode::Prove),
    ensures
        equalities_hold(cs.values(), cs.equalities()),
{
    lemma_satisfied_iff(c, cs);
}

/// A commitment other than the attributes' digest, or an identifier other than the
/// identifier-bearing attribute, leaves some equality of the concrete system unmet.
pub proof fn lemma_altered_statement_unsatisfied(c: HashVerificationCircuit, cs: ConstraintSystem)
    requires
        c.wf(),
        all_present(c.field_inputs@),
        c.expected_hash.value() != poseidon_digest(c.params@, present_values(c.field_inputs@))
            || c.field_inputs@[IDENTIFIER_INDEX as int] != Some(c.expected_degree),
        c.built(cs, Mode::Prove),
    ensures
        !equalities_hold(cs.values(), cs.equalities()),
{
    lemma_satisfied_iff(c, cs);
}

/// Changing the identifier-bearing attribute to another byte string of the same length
/// (up to 31 bytes) while keeping the identifier leaves the concrete system unsatisfied.
pub proof fn lemma_altered_identifier_attribute_unsatisfied(
    c: HashVerificationCircuit,
    cs: ConstraintSystem,
    original: Seq<u8>,
    altered: Seq<u8>,
)
    requires
        c.wf(),
        all_present(c.field_inputs@),
        c.built(cs, Mode::Prove),
        original.len() == altered.len(),
        original.len() <= 31,
        original != altered,
        c.expected_degree.value() == field_encoding(original),
        c.field_inputs@[IDENTIFIER_INDEX as int]->0.value() == field_encoding(altered),
    ensures
        !equalities_hold(cs.values(), cs.equalities()),
{
    if field_encoding(original) == field_encoding(altered) {
        lemma_short_encoding_injective(original, altered);
    }
    lemma_satisfied_iff(c, cs);
}

/// The allocations and equalities do not depend on the values: a shape built for setup
/// and any concrete system built for proving have the same roles in the same order and
/// the same equalities.
pub proof fn lemma_shape_matches_concrete(
    shape_of: HashVerificationCircuit,
    concrete_of: HashVerificationCircuit,
    shape: ConstraintSystem,
    concrete: ConstraintSystem,
)
    requires
        shape_of.built(shape, Mode::Setup),
        concrete_of.built(concrete, Mode::Prove),
    ensures
        shape.roles() == concrete.roles(),
        shape.equalities() == concrete.equalities(),
{
}

/// The public values of a concrete system are the commitment and then the identifier,
/// exactly `PUBLIC_INPUT_COUNT` of them.
pub proof fn lemma_public_schema(c: HashVerificationCircuit, cs: ConstraintSystem)
    requires
        c.built(cs, Mode::Prove),
    ensures
        public_values_of(cs.roles(), cs.values()) == seq![c.expected_hash, c.expected_degree],
        public_values_of(cs.roles(), cs.values()).len() == PUBLIC_INPUT_COUNT,
{
    let r = cs.roles();
    let v = cs.values();
    reveal_with_fuel(public_values_of, 8);
    assert(r.drop_last() =~= r.take(6));
    assert(r.take(6).drop_last() =~= r.take(5));
    assert(r.take(5).drop_last() =~= r.take(4));
    assert(r.take(4).drop_last() =~= r.take(3));
    assert(r.take(3).drop_last() =~= r.take(2));
    assert(r.take(2).drop_last() =~= r.take(1));
    assert(r.take(1).drop_last() =~= r.take(0));
    assert(v.drop_last() =~= v.take(6));
    assert(v.take(6).drop_last() =~= v.take(5));
    assert(v.take(5).drop_last() =~= v.take(4));
    assert(v.take(4).drop_last() =~= v.take(3));
    assert(v.take(3).drop_last() =~= v.take(2));
    assert(v.take(2).drop_last() =~= v.take(1));
    assert(v.take(1).drop_last() =~= v.take(0));
    assert(public_values_of(r.take(4), v.take(4)) =~= Seq::<FieldElem>::empty());
    assert(public_values_of(r, v) =~= seq![c.expected_hash, c.expected_degree]);
}

/// The values of a sequence whose entries are all present.
fn unwrap_all(inputs: &Vec<Option<FieldElem>>) -> (r: Vec<FieldElem>)
    requires
        all_present(inputs@),
        inputs_canonical(inputs@),
    ensures
        r@.len() == inputs@.len(),
        forall|i: int| 0 <= i < r@.len() ==> Some(#[trigger] r@[i]) == inputs@[i],
        forall|i: int| 0 <= i < r@.len() ==> (#[trigger] r@[i]).wf(),
        values_of(r@) == present_values(inputs@),
{
    let mut out: Vec<FieldElem> = Vec::new();
    let mut i: usize = 0;
    while i < inputs.len()
        invariant
            all_present(inputs@),
            inputs_canonical(inputs@),
            i <= inputs@.len(),
            out@.len() == i,
            forall|k: int| 0 <= k < i ==> Some(#[trigger] out@[k]) == inputs@[k],
            forall|k: int| 0 <= k < i ==> (#[trigger] out@[k]).wf(),
        decreases inputs@.len() - i,
    {
        match inputs[i] {
            Some(e) => {
                out.push(e);
            },
            None => {
                assert(inputs@[i as int] is Some);
            },
        }
        i = i + 1;
    }
    assert(values_of(out@) =~= present_values(inputs@));
    out
}

} // verus!
