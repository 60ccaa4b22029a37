use zk_attest::circuit::{HashVerificationCircuit, ATTRIBUTE_COUNT};
use zk_attest::constraints::{ConstraintSystem, Mode, Role};
use zk_attest::error::ZkError;
use zk_attest::field::{encode_attribute, FieldElem};
use zk_attest::protocol::{
    check_public_inputs, commitment_of, concrete_statement, encode_attributes, public_inputs,
};
use zk_attest::sponge::{commit, SpongeParams};

fn scenario_attributes() -> Vec<Vec<u8>> {
    ["Lukas", "Financial Technologies", "Vilnius", "2025"]
        .iter()
        .map(|s| s.as_bytes().to_vec())
        .collect()
}

fn scenario_statement(attrs: &Vec<Vec<u8>>) -> HashVerificationCircuit {
    let params = SpongeParams::standard();
    let commitment = commitment_of(&params, &scenario_attributes());
    let identifier = encode_attribute(b"Financial Technologies");
    concrete_statement(attrs, commitment, identifier, params).unwrap()
}

#[test]
fn encoding_reads_little_endian() {
    assert_eq!(encode_attribute(b"a"), FieldElem::from_u64(97));
    assert_eq!(encode_attribute(&[1, 2]), FieldElem::from_u64(0x0201));
    assert_eq!(encode_attribute(&[]), FieldElem::zero());
    let e = encode_attribute(&[0, 0, 0, 0, 0, 0, 0, 0, 5]);
    assert_eq!(e.to_limbs(), [0, 5, 0, 0]);
}

#[test]
fn encoding_reduces_modulo_the_field_order() {
    // The field order itself, little-endian, encodes to zero; one more encodes to one.
    let limbs: [u64; 4] = [0x43e1f593f0000001, 0x2833e84879b97091, 0xb85045b68181585d, 0x30644e72e131a029];
    let mut bytes: Vec<u8> = limbs.iter().flat_map(|l| l.to_le_bytes()).collect();
    assert_eq!(encode_attribute(&bytes), FieldElem::zero());
    bytes[0] += 1;
    assert_eq!(encode_attribute(&bytes), FieldElem::from_u64(1));
}

#[test]
fn encoding_is_deterministic() {
    let a = encode_attribute(b"Financial Technologies");
    let b = encode_attribute(b"Financial Technologies");
    assert_eq!(a, b);
    let encoded = encode_attributes(&scenario_attributes());
    assert_eq!(encoded[1], a);
    assert_ne!(encode_attribute(b"Financial Technologiet"), a);
}

#[test]
fn limbs_at_or_above_the_order_are_rejected() {
    let p: [u64; 4] = [0x43e1f593f0000001, 0x2833e84879b97091, 0xb85045b68181585d, 0x30644e72e131a029];
    assert!(FieldElem::from_limbs(p).is_none());
    let below = [p[0] - 1, p[1], p[2], p[3]];
    assert_eq!(FieldElem::from_limbs(below).unwrap().to_limbs(), below);
    assert!(FieldElem::from_limbs([0, 0, 0, u64::MAX]).is_none());
}

#[test]
fn invalid_sponge_params_are_rejected() {
    let s = SpongeParams::standard();
    assert!(s.is_valid());
    let bad_rate = SpongeParams::new(8, 57, 5, s.mds.clone(), s.ark.clone(), 0, 3);
    assert_eq!(bad_rate.unwrap_err(), ZkError::InvalidSpongeParams);
    let short_ark = SpongeParams::new(8, 56, 5, s.mds.clone(), s.ark.clone(), 2, 1);
    assert_eq!(short_ark.unwrap_err(), ZkError::InvalidSpongeParams);
    let mut mds = s.mds.clone();
    mds[1].pop();
    let ragged = SpongeParams::new(8, 57, 5, mds, s.ark.clone(), 2, 1);
    assert_eq!(ragged.unwrap_err(), ZkError::InvalidSpongeParams);
    let ok = SpongeParams::new(8, 57, 5, s.mds.clone(), s.ark.clone(), 2, 1);
    assert!(ok.is_ok());
}

#[test]
fn standard_params_come_from_the_generator() {
    let s = SpongeParams::standard();
    assert_eq!((s.full_rounds, s.partial_rounds, s.alpha, s.rate, s.capacity), (8, 57, 5, 2, 1));
    assert_eq!(s.mds.len(), 3);
    assert!(s.mds.iter().all(|row| row.len() == 3));
    assert_eq!(s.ark.len(), 65);
    assert!(s.ark.iter().all(|row| row.len() == 3));
    assert_ne!(s.mds[0][1], FieldElem::zero());
    assert_ne!(s.ark[0][0], FieldElem::zero());
    assert_ne!(s.ark[0][0], s.ark[1][0]);
}

#[test]
fn commitment_depends_on_the_attributes() {
    let params = SpongeParams::standard();
    let c1 = commitment_of(&params, &scenario_attributes());
    let c2 = commitment_of(&params, &scenario_attributes());
    assert_eq!(c1, c2);
    let mut other = scenario_attributes();
    other[3] = b"2024".to_vec();
    assert_ne!(commitment_of(&params, &other), c1);
    let direct = commit(&params, &encode_attributes(&scenario_attributes()));
    assert_eq!(direct, c1);
    assert_ne!(c1, FieldElem::zero());
}

#[test]
fn wrong_attribute_count_is_rejected() {
    let mut attrs = scenario_attributes();
    attrs.pop();
    let params = SpongeParams::standard();
    let r = concrete_statement(&attrs, FieldElem::zero(), FieldElem::zero(), params);
    assert_eq!(r.unwrap_err(), ZkError::WrongAttributeCount);
}

#[test]
fn non_canonical_public_value_is_rejected() {
    let params = SpongeParams::standard();
    let huge = FieldElem { l0: 0, l1: 0, l2: 0, l3: u64::MAX };
    let r = concrete_statement(&scenario_attributes(), huge, FieldElem::zero(), params);
    assert_eq!(r.unwrap_err(), ZkError::NonCanonicalElement);
}

fn roles(cs: &ConstraintSystem) -> Vec<Role> {
    (0..cs.num_variables()).map(|i| cs.variable(i).role).collect()
}

fn equalities(cs: &ConstraintSystem) -> Vec<(usize, usize)> {
    (0..cs.num_equalities()).map(|k| cs.equality(k)).collect()
}

#[test]
fn shape_and_concrete_systems_agree() {
    let c = scenario_statement(&scenario_attributes());
    let shape = c.shape().generate_constraints(Mode::Setup).unwrap();
    let concrete = c.generate_constraints(Mode::Prove).unwrap();
    assert_eq!(roles(&shape), roles(&concrete));
    assert_eq!(equalities(&shape), equalities(&concrete));
    assert_eq!(
        roles(&concrete),
        vec![Role::Witness, Role::Witness, Role::Witness, Role::Witness, Role::Public, Role::Public, Role::Witness]
    );
    assert_eq!(equalities(&concrete), vec![(6, 4), (1, 5)]);
    assert!(shape.variable(0).value.is_none());
    assert_eq!(shape.is_satisfied().unwrap_err(), ZkError::AssignmentMissing);
}

#[test]
fn missing_witness_fails_when_proving() {
    let c = scenario_statement(&scenario_attributes());
    let shape = c.shape();
    assert_eq!(shape.field_inputs.len(), ATTRIBUTE_COUNT);
    assert_eq!(shape.generate_constraints(Mode::Prove).unwrap_err(), ZkError::AssignmentMissing);
    assert!(shape.generate_constraints(Mode::Setup).is_ok());
}

#[test]
fn builder_allocates_in_order() {
    let mut cs = ConstraintSystem::new(Mode::Prove);
    assert_eq!(cs.allocate(Role::Witness, None).unwrap_err(), ZkError::AssignmentMissing);
    assert_eq!(cs.num_variables(), 0);
    assert_eq!(cs.allocate(Role::Witness, Some(FieldElem::from_u64(3))).unwrap(), 0);
    assert_eq!(cs.allocate(Role::Public, Some(FieldElem::from_u64(3))).unwrap(), 1);
    cs.enforce_equal(0, 1);
    assert_eq!(cs.is_satisfied().unwrap(), true);
    assert_eq!(cs.allocate(Role::Public, Some(FieldElem::from_u64(4))).unwrap(), 2);
    assert_eq!(cs.public_values().unwrap(), vec![FieldElem::from_u64(3), FieldElem::from_u64(4)]);
    cs.enforce_equal(0, 2);
    assert_eq!(cs.is_satisfied().unwrap(), false);
    let mut shape = ConstraintSystem::new(Mode::Setup);
    assert_eq!(shape.allocate(Role::Witness, None).unwrap(), 0);
    assert_eq!(shape.public_values().unwrap_err(), ZkError::AssignmentMissing);
}

#[test]
fn honest_statement_is_satisfied() {
    let c = scenario_statement(&scenario_attributes());
    let cs = c.generate_constraints(Mode::Prove).unwrap();
    assert_eq!(cs.is_satisfied().unwrap(), true);
    assert_eq!(cs.public_values().unwrap(), vec![c.expected_hash, c.expected_degree]);
}

#[test]
fn altered_attribute_is_unsatisfied() {
    let mut attrs = scenario_attributes();
    attrs[3] = b"2024".to_vec();
    let c = scenario_statement(&attrs);
    let cs = c.generate_constraints(Mode::Prove).unwrap();
    assert_eq!(cs.is_satisfied().unwrap(), false);
}

#[test]
fn flipped_attribute_bit_is_unsatisfied() {
    for (index, byte) in [(0usize, 0usize), (2, 3), (3, 0)] {
        let mut attrs = scenario_attributes();
        attrs[index][byte] ^= 1;
        let c = scenario_statement(&attrs);
        let cs = c.generate_constraints(Mode::Prove).unwrap();
        assert_eq!(cs.is_satisfied().unwrap(), false);
    }
}

#[test]
fn altered_identifier_is_unsatisfied() {
    let params = SpongeParams::standard();
    let commitment = commitment_of(&params, &scenario_attributes());
    let identifier = encode_attribute(b"Financial Technologiet");
    let c = concrete_statement(&scenario_attributes(), commitment, identifier, params).unwrap();
    assert_eq!(c.generate_constraints(Mode::Prove).unwrap().is_satisfied().unwrap(), false);
}

#[test]
fn altered_commitment_is_unsatisfied() {
    let params = SpongeParams::standard();
    let mut limbs = commitment_of(&params, &scenario_attributes()).to_limbs();
    limbs[0] ^= 1;
    let commitment = FieldElem::from_limbs(limbs).unwrap();
    let identifier = encode_attribute(b"Financial Technologies");
    let c = concrete_statement(&scenario_attributes(), commitment, identifier, params).unwrap();
    assert_eq!(c.generate_constraints(Mode::Prove).unwrap().is_satisfied().unwrap(), false);
}

#[test]
fn public_input_schema_is_checked() {
    let a = FieldElem::from_u64(1);
    let b = FieldElem::from_u64(2);
    assert_eq!(public_inputs(a, b), vec![a, b]);
    assert!(check_public_inputs(&[a, b]).is_ok());
    assert_eq!(check_public_inputs(&[a]).unwrap_err(), ZkError::MalformedPublicInput);
    assert_eq!(check_public_inputs(&[a, b, a]).unwrap_err(), ZkError::MalformedPublicInput);
    assert_eq!(check_public_inputs(&[]).unwrap_err(), ZkError::MalformedPublicInput);
    let huge = FieldElem { l0: 0, l1: 0, l2: 0, l3: u64::MAX };
    assert_eq!(check_public_inputs(&[a, huge]).unwrap_err(), ZkError::NonCanonicalElement);
}
