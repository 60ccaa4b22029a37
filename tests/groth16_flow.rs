use ark_bn254::{Bn254, Fr};
use ark_ff::BigInt;
use ark_groth16::{Groth16, PreparedVerifyingKey, Proof, ProvingKey};
use ark_r1cs_std::alloc::AllocVar;
use ark_r1cs_std::eq::EqGadget;
use ark_r1cs_std::fields::fp::FpVar;
use ark_relations::r1cs::{ConstraintSynthesizer, ConstraintSystemRef, SynthesisError};
use ark_std::rand::rngs::StdRng;
use ark_std::rand::SeedableRng;
use zk_attest::circuit::HashVerificationCircuit;
use zk_attest::constraints::{Mode, Role};
use zk_attest::error::ZkError;
use zk_attest::field::{encode_attribute, FieldElem};
use zk_attest::protocol::{check_public_inputs, commitment_of, concrete_statement, public_inputs};
use zk_attest::sponge::SpongeParams;

struct Synth(HashVerificationCircuit);

fn to_fr(e: &FieldElem) -> Fr {
    Fr::from(BigInt::new(e.to_limbs()))
}

impl ConstraintSynthesizer<Fr> for Synth {
    fn generate_constraints(self, cs: ConstraintSystemRef<Fr>) -> Result<(), SynthesisError> {
        let mode = if cs.is_in_setup_mode() { Mode::Setup } else { Mode::Prove };
        let model = self.0.generate_constraints(mode).map_err(|_| SynthesisError::AssignmentMissing)?;
        let mut vars: Vec<FpVar<Fr>> = Vec::new();
        for i in 0..model.num_variables() {
            let v = model.variable(i);
            let value = v.value.as_ref().map(to_fr);
            let gen = || value.ok_or(SynthesisError::AssignmentMissing);
            vars.push(match v.role {
                Role::Witness => FpVar::new_witness(cs.clone(), gen)?,
                Role::Public => FpVar::new_input(cs.clone(), gen)?,
            });
        }
        for k in 0..model.num_equalities() {
            let (a, b) = model.equality(k);
            vars[a].enforce_equal(&vars[b])?;
        }
        Ok(())
    }
}

fn attributes(year: &str) -> Vec<Vec<u8>> {
    ["Lukas", "Financial Technologies", "Vilnius", year].iter().map(|s| s.as_bytes().to_vec()).collect()
}

fn setup(c: &HashVerificationCircuit, seed: u64) -> ProvingKey<Bn254> {
    let mut rng = StdRng::seed_from_u64(seed);
    Groth16::<Bn254>::generate_random_parameters_with_reduction(Synth(c.shape()), &mut rng).unwrap()
}

fn prove(c: HashVerificationCircuit, pk: &ProvingKey<Bn254>) -> Proof<Bn254> {
    let mut rng = StdRng::seed_from_u64(99);
    Groth16::<Bn254>::create_random_proof_with_reduction(Synth(c), pk, &mut rng).unwrap()
}

fn verify(pk: &ProvingKey<Bn254>, proof: &Proof<Bn254>, inputs: &[FieldElem]) -> Result<bool, ZkError> {
    check_public_inputs(inputs)?;
    let pvk = PreparedVerifyingKey::from(pk.vk.clone());
    let frs: Vec<Fr> = inputs.iter().map(to_fr).collect();
    Groth16::<Bn254>::verify_proof(&pvk, proof, &frs).map_err(|_| ZkError::MalformedPublicInput)
}

fn statement(attrs: &Vec<Vec<u8>>, commitment: FieldElem, identifier: FieldElem) -> HashVerificationCircuit {
    concrete_statement(attrs, commitment, identifier, SpongeParams::standard()).unwrap()
}

fn honest() -> (FieldElem, FieldElem) {
    let commitment = commitment_of(&SpongeParams::standard(), &attributes("2025"));
    (commitment, encode_attribute(b"Financial Technologies"))
}

#[test]
fn scenario_proof_verifies() {
    let (commitment, identifier) = honest();
    let c = statement(&attributes("2025"), commitment, identifier);
    let pk = setup(&c, 1);
    let proof = prove(c, &pk);
    assert_eq!(verify(&pk, &proof, &public_inputs(commitment, identifier)), Ok(true));
}

#[test]
fn flipped_commitment_fails() {
    let (commitment, identifier) = honest();
    let mut limbs = commitment.to_limbs();
    limbs[0] ^= 1;
    let flipped = FieldElem::from_limbs(limbs).unwrap();
    let c = statement(&attributes("2025"), commitment, identifier);
    let pk = setup(&c, 1);
    let proof = prove(c, &pk);
    assert_eq!(verify(&pk, &proof, &public_inputs(flipped, identifier)), Ok(false));
}

#[test]
fn flipped_identifier_fails() {
    let (commitment, identifier) = honest();
    let mut limbs = identifier.to_limbs();
    limbs[0] ^= 1;
    let flipped = FieldElem::from_limbs(limbs).unwrap();
    let c = statement(&attributes("2025"), commitment, identifier);
    let pk = setup(&c, 1);
    let proof = prove(c, &pk);
    assert_eq!(verify(&pk, &proof, &public_inputs(commitment, flipped)), Ok(false));
}

#[test]
fn proof_fails_under_another_setup() {
    let (commitment, identifier) = honest();
    let c = statement(&attributes("2025"), commitment, identifier);
    let pk1 = setup(&c, 1);
    let pk2 = setup(&c, 2);
    let proof = prove(c, &pk1);
    assert_eq!(verify(&pk2, &proof, &public_inputs(commitment, identifier)), Ok(false));
    assert_eq!(verify(&pk1, &proof, &public_inputs(commitment, identifier)), Ok(true));
}

#[test]
fn wrong_number_of_public_inputs_is_malformed() {
    let (commitment, identifier) = honest();
    let c = statement(&attributes("2025"), commitment, identifier);
    let pk = setup(&c, 1);
    let proof = prove(c, &pk);
    assert_eq!(verify(&pk, &proof, &[commitment]), Err(ZkError::MalformedPublicInput));
    assert_eq!(verify(&pk, &proof, &[commitment, identifier, identifier]), Err(ZkError::MalformedPublicInput));
}
