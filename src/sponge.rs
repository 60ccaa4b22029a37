use vstd::prelude::*;
use ark_bn254::Fr;
use ark_crypto_primitives::sponge::poseidon::{PoseidonConfig, PoseidonSponge, find_poseidon_ark_and_mds};
use ark_crypto_primitives::sponge::CryptographicSponge;
use ark_ff::{BigInt, PrimeField};
use crate::error::ZkError;
use crate::field::FieldElem;

verus! {

/// Values of a sequence of field elements.
pub open spec fn values_of(s: Seq<FieldElem>) -> Seq<nat> {
    s.map_values(|e: FieldElem| e.value())
}

/// Values of a matrix of field elements, row by row.
pub open spec fn matrix_values(m: Seq<Vec<FieldElem>>) -> Seq<Seq<nat>> {
    m.map_values(|row: Vec<FieldElem>| values_of(row@))
}

/// Every entry of the matrix is a canonical field element.
pub open spec fn matrix_canonical(m: Seq<Vec<FieldElem>>) -> bool {
    forall|i: int, j: int| 0 <= i < m.len() && 0 <= j < m[i]@.len() ==> (#[trigger] m[i]@[j]).wf()
}

/// Every row of the matrix has `width` entries.
pub open spec fn rows_have_width(m: Seq<Vec<FieldElem>>, width: nat) -> bool {
    forall|i: int| 0 <= i < m.len() ==> (#[trigger] m[i]@).len() == width
}

/// The parameters of a Poseidon sponge as mathematical values.
pub ghost struct SpongeModel {
    pub full_rounds: nat,
    pub partial_rounds: nat,
    pub alpha: nat,
    pub mds: Seq<Seq<nat>>,
    pub ark: Seq<Seq<nat>>,
    pub rate: nat,
    pub capacity: nat,
}

/// The single element that a Poseidon sponge with the given parameters squeezes after
/// absorbing the given elements, in order, from its initial state.
pub uninterp spec fn poseidon_digest(params: SpongeModel, inputs: Seq<nat>) -> nat;

/// Parameters of the Poseidon sponge: round counts, S-box exponent, mixing matrix,
/// round constants, rate and capacity.
#[derive(Debug)]
pub struct SpongeParams {
    pub full_rounds: usize,
    pub partial_rounds: usize,
    pub alpha: u64,
    pub mds: Vec<Vec<FieldElem>>,
    pub ark: Vec<Vec<FieldElem>>,
    pub rate: usize,
    pub capacity: usize,
}

/// Whether the given parts describe a permutation that can run: a positive rate, a square
/// mixing matrix as wide as the state, one row of round constants per round, as wide as
/// the state, and canonical entries throughout.
pub open spec fn sponge_shape_ok(
    full_rounds: nat,
    partial_rounds: nat,
    mds: Seq<Vec<FieldElem>>,
    ark: Seq<Vec<FieldElem>>,
    rate: nat,
    capacity: nat,
) -> bool {
    &&& rate >= 1
    &&& rate + capacity <= usize::MAX
    &&& full_rounds + partial_rounds <= usize::MAX
    &&& mds.len() == rate + capacity
    &&& rows_have_width(mds, rate + capacity)
    &&& ark.len() == full_rounds + partial_rounds
    &&& rows_have_width(ark, rate + capacity)
    &&& matrix_canonical(mds)
    &&& matrix_canonical(ark)
}

impl View for SpongeParams {
    type V = SpongeModel;

    open spec fn view(&self) -> SpongeModel {
        SpongeModel {
            full_rounds: self.full_rounds as nat,
            partial_rounds: self.partial_rounds as nat,
            alpha: self.alpha as nat,
            mds: matrix_values(self.mds@),
            ark: matrix_values(self.ark@),
            rate: self.rate as nat,
            capacity: self.capacity as nat,
        }
    }
}

/// Whether every row of the matrix has `width` canonical entries.
fn check_rows(m: &Vec<Vec<FieldElem>>, width: usize) -> (r: bool)
    ensures
        r == (rows_have_width(m@, width as nat) && matrix_canonical(m@)),
{
    let mut i: usize = 0;
    while i < m.len()
        invariant
            i <= m@.len(),
            rows_have_width(m@.take(i as int), width as nat),
            matrix_canonical(m@.take(i as int)),
        decreases m@.len() - i,
    {
        let row = &m[i];
        if row.len() != width {
            assert(!rows_have_width(m@, width as nat)) by {
                assert(m@[i as int]@.len() != width);
            }
            return false;
        }
        let mut j: usize = 0;
        while j < row.len()
            invariant
                i < m@.len(),
                row == m@[i as int],
                j <= row@.len(),
                forall|k: int| 0 <= k < j ==> (#[trigger] row@[k]).wf(),
            decreases row@.len() - j,
        {
            if !row[j].is_canonical() {
                assert(!matrix_canonical(m@)) by {
                    assert(!m@[i as int]@[j as int].wf());
                }
                return false;
            }
            j = j + 1;
        }
        assert(m@.take(i + 1) =~= m@.take(i as int).push(m@[i as int]));
        i = i + 1;
    }
    assert(m@.take(i as int) =~= m@);
    true
}

impl SpongeParams {
    /// The parameters are those of a runnable permutation.
    pub open spec fn wf(&self) -> bool {
        sponge_shape_ok(
            self.full_rounds as nat,
            self.partial_rounds as nat,
            self.mds@,
            self.ark@,
            self.rate as nat,
            self.capacity as nat,
        )
    }

    /// Builds sponge parameters, rejecting at once any that would not describe a
    /// runnable permutation.
    pub fn new(
        full_rounds: usize,
        partial_rounds: usize,
        alpha: u64,
        mds: Vec<Vec<FieldElem>>,
        ark: Vec<Vec<FieldElem>>,
        rate: usize,
        capacity: usize,
    ) -> (r: Result<SpongeParams, ZkError>)
        ensures
            sponge_shape_ok(
                full_rounds as nat,
                partial_rounds as nat,
                mds@,
                ark@,
                rate as nat,
                capacity as nat,
            ) ==> r is Ok,
            !sponge_shape_ok(
                full_rounds as nat,
                partial_rounds as nat,
                mds@,
                ark@,
                rate as nat,
                capacity as nat,
            ) ==> r == Err::<SpongeParams, ZkError>(ZkError::InvalidSpongeParams),
            r matches Ok(p) ==> p.wf() && p.full_rounds == full_rounds && p.partial_rounds
                == partial_rounds && p.alpha == alpha && p.mds@ == mds@ && p.ark@ == ark@
                && p.rate == rate && p.capacity == capacity,
    {
        if rate == 0 || capacity > usize::MAX - rate || partial_rounds > usize::MAX - full_rounds {
            return Err(ZkError::InvalidSpongeParams);
        }
        let width = rate + capacity;
        if mds.len() != width || ark.len() != full_rounds + partial_rounds {
            return Err(ZkError::InvalidSpongeParams);
        }
        if !check_rows(&mds, width) || !check_rows(&ark, width) {
            return Err(ZkError::InvalidSpongeParams);
        }
        Ok(SpongeParams { full_rounds, partial_rounds, alpha, mds, ark, rate, capacity })
    }

    /// The fixed parameters the statement is committed under: 8 full and 57 partial
    /// rounds, S-box exponent 5, rate 2 and capacity 1, with the mixing matrix and round
    /// constants that the Poseidon Grain LFSR derives for the field.
    pub fn standard() -> (r: SpongeParams)
        ensures
            r.wf(),
            r.full_rounds == STANDARD_FULL_ROUNDS,
            r.partial_rounds == STANDARD_PARTIAL_ROUNDS,
            r.alpha == 5,
            r.rate == STANDARD_RATE,
            r.capacity == 1,
    {
        let (ark, mds) = poseidon_ark_and_mds(STANDARD_RATE, STANDARD_FULL_ROUNDS, STANDARD_PARTIAL_ROUNDS);
        SpongeParams {
            full_rounds: STANDARD_FULL_ROUNDS,
            partial_rounds: STANDARD_PARTIAL_ROUNDS,
            alpha: 5,
            mds,
            ark,
            rate: STANDARD_RATE,
            capacity: 1,
        }
    }

    /// A copy of the parameters.
    pub fn clone_params(&self) -> (r: SpongeParams)
        ensures
            r@ == self@,
            self.wf() ==> r.wf(),
    {
        let r = SpongeParams {
            full_rounds: self.full_rounds,
            partial_rounds: self.partial_rounds,
            alpha: self.alpha,
            mds: clone_matrix(&self.mds),
            ark: clone_matrix(&self.ark),
            rate: self.rate,
            capacity: self.capacity,
        };
        assert(matrix_values(r.mds@) =~= matrix_values(self.mds@));
        assert(matrix_values(r.ark@) =~= matrix_values(self.ark@));
        r
    }

    /// Whether the parameters are those of a runnable permutation.
    pub fn is_valid(&self) -> (r: bool)
        ensures
            r == self.wf(),
    {
        if self.rate == 0 || self.capacity > usize::MAX - self.rate || self.partial_rounds
            > usize::MAX - self.full_rounds {
            return false;
        }
        let width = self.rate + self.capacity;
        self.mds.len() == width && self.ark.len() == self.full_rounds + self.partial_rounds
            && check_rows(&self.mds, width) && check_rows(&self.ark, width)
    }
}

/// Rate of the fixed parameters.
pub const STANDARD_RATE: usize = 2;

/// Full rounds of the fixed parameters.
pub const STANDARD_FULL_ROUNDS: usize = 8;

/// Partial rounds of the fixed parameters.
pub const STANDARD_PARTIAL_ROUNDS: usize = 57;

/// Relies on `find_poseidon_ark_and_mds` (ark-crypto-primitives) for BN254's `Fr`, with a
/// 254-bit modulus and no skipped matrices: one row of `rate + 1` round constants per round
/// and a square mixing matrix of width `rate + 1`, all field elements. The generator
/// inverts sums of sampled elements and would panic on a zero sum; the requirement pins the
/// one setting this library runs it with.
#[verifier::external_body]
fn poseidon_ark_and_mds(rate: usize, full_rounds: usize, partial_rounds: usize) -> (r: (
    Vec<Vec<FieldElem>>,
    Vec<Vec<FieldElem>>,
))
    requires
        rate == STANDARD_RATE,
        full_rounds == STANDARD_FULL_ROUNDS,
        partial_rounds == STANDARD_PARTIAL_ROUNDS,
    ensures
        r.0@.len() == full_rounds + partial_rounds,
        rows_have_width(r.0@, (rate + 1) as nat),
        matrix_canonical(r.0@),
        r.1@.len() == rate + 1,
        rows_have_width(r.1@, (rate + 1) as nat),
        matrix_canonical(r.1@),
{
    let (ark, mds) = find_poseidon_ark_and_mds::<Fr>(254, rate, full_rounds as u64, partial_rounds as u64, 0);
    let f = |e: &Fr| {
        let l = e.into_bigint().0;
        FieldElem { l0: l[0], l1: l[1], l2: l[2], l3: l[3] }
    };
    let rows = |m: Vec<Vec<Fr>>| m.iter().map(|w| w.iter().map(f).collect()).collect();
    (rows(ark), rows(mds))
}

/// A copy of a matrix of field elements.
fn clone_matrix(m: &Vec<Vec<FieldElem>>) -> (r: Vec<Vec<FieldElem>>)
    ensures
        r@.len() == m@.len(),
        forall|i: int| 0 <= i < m@.len() ==> (#[trigger] r@[i])@ == m@[i]@,
{
    let mut out: Vec<Vec<FieldElem>> = Vec::new();
    let mut i: usize = 0;
    while i < m.len()
        invariant
            i <= m@.len(),
            out@.len() == i,
            forall|k: int| 0 <= k < i ==> (#[trigger] out@[k])@ == m@[k]@,
        decreases m@.len() - i,
    {
        let row = &m[i];
        let mut copy: Vec<FieldElem> = Vec::new();
        let mut j: usize = 0;
        while j < row.len()
            invariant
                j <= row@.len(),
                copy@ == row@.take(j as int),
            decreases row@.len() - j,
        {
            copy.push(row[j]);
            assert(copy@ =~= row@.take(j + 1));
            j = j + 1;
        }
        assert(copy@ =~= row@);
        out.push(copy);
        i = i + 1;
    }
    out
}

/// Relies on ark-crypto-primitives' Poseidon sponge over BN254's `Fr`:
/// `PoseidonConfig::new` (asserts the shapes that `wf` states), `PoseidonSponge::new`,
/// `absorb` of the inputs in order, and `squeeze_field_elements(1)`. The result depends on
/// the parameters and the inputs alone, and is a canonical field element.
#[verifier::external_body]
fn poseidon_squeeze_one(p: &SpongeParams, inputs: &Vec<FieldElem>) -> (r: FieldElem)
    requires
        p.wf(),
        forall|i: int| 0 <= i < inputs@.len() ==> (#[trigger] inputs@[i]).wf(),
    ensures
        r.wf(),
        r.value() == poseidon_digest(p@, values_of(inputs@)),
{
    let f = |e: &FieldElem| Fr::from(BigInt(e.to_limbs()));
    let rows = |m: &Vec<Vec<FieldElem>>| m.iter().map(|w| w.iter().map(f).collect()).collect();
    let mut sponge = PoseidonSponge::new(&PoseidonConfig::new(
        p.full_rounds, p.partial_rounds, p.alpha, rows(&p.mds), rows(&p.ark), p.rate, p.capacity
    ));
    sponge.absorb(&inputs.iter().map(f).collect::<Vec<Fr>>());
    let l = sponge.squeeze_field_elements::<Fr>(1)[0].into_bigint().0;
    FieldElem { l0: l[0], l1: l[1], l2: l[2], l3: l[3] }
}

/// The sponge commitment to a sequence of field elements: absorb them in order, squeeze
/// one element.
pub fn commit(params: &SpongeParams, inputs: &Vec<FieldElem>) -> (r: FieldElem)
    requires
        params.wf(),
        forall|i: int| 0 <= i < inputs@.len() ==> (#[trigger] inputs@[i]).wf(),
    ensures
        r.wf(),
        r.value() == poseidon_digest(params@, values_of(inputs@)),
{
    poseidon_squeeze_one(params, inputs)
}

} // verus!
