use vstd::prelude::*;
use ark_bn254::Fr;
use ark_ff::PrimeField;
use vstd::arithmetic::div_mod::lemma_fundamental_div_mod_converse;

verus! {

/// The order of the scalar field of BN254, the field every circuit value lives in.
pub open spec fn field_modulus() -> nat {
    21888242871839275222246405745257275088548364400416034343698204186575808495617nat
}

/// Reads a byte sequence as an unsigned little-endian integer.
pub open spec fn le_nat(b: Seq<u8>) -> nat
    decreases b.len(),
{
    if b.len() == 0 {
        0
    } else {
        b[0] as nat + 256 * le_nat(b.drop_first())
    }
}

/// The field element that a byte string encodes: its little-endian value reduced
/// modulo the field order.
pub open spec fn field_encoding(b: Seq<u8>) -> nat {
    le_nat(b) % field_modulus()
}

pub open spec fn pow256(n: nat) -> nat
    decreases n,
{
    if n == 0 {
        1
    } else {
        256 * pow256((n - 1) as nat)
    }
}

/// A canonical element of the scalar field, held as four little-endian 64-bit limbs
/// of its integer representative in `0..field_modulus()`.
#[derive(Clone, Copy, Debug, PartialEq, Eq, Structural)]
pub struct FieldElem {
    pub l0: u64,
    pub l1: u64,
    pub l2: u64,
    pub l3: u64,
}

impl FieldElem {
    /// The integer that the limbs spell.
    pub open spec fn value(self) -> nat {
        self.l0 as nat
            + 0x1_0000_0000_0000_0000 * (self.l1 as nat
            + 0x1_0000_0000_0000_0000 * (self.l2 as nat
            + 0x1_0000_0000_0000_0000 * (self.l3 as nat)))
    }

    /// A canonical representative: below the field order.
    pub open spec fn wf(self) -> bool {
        self.value() < field_modulus()
    }

    /// The additive identity.
    pub fn zero() -> (r: FieldElem)
        ensures
            r.wf(),
            r.value() == 0,
    {
        FieldElem { l0: 0, l1: 0, l2: 0, l3: 0 }
    }

    /// The element whose value is a given 64-bit integer.
    pub fn from_u64(x: u64) -> (r: FieldElem)
        ensures
            r.wf(),
            r.value() == x as nat,
    {
        FieldElem { l0: x, l1: 0, l2: 0, l3: 0 }
    }

    /// The limbs, least significant first.
    pub fn to_limbs(&self) -> (r: [u64; 4])
        ensures
            r@ == seq![self.l0, self.l1, self.l2, self.l3],
    {
        [self.l0, self.l1, self.l2, self.l3]
    }

    /// Whether the limbs spell an integer below the field order.
    pub fn is_canonical(&self) -> (r: bool)
        ensures
            r == self.wf(),
    {
        FieldElem::from_limbs(self.to_limbs()).is_some()
    }

    /// The element with the given limbs, least significant first, or `None` where they
    /// spell an integer at or above the field order.
    pub fn from_limbs(limbs: [u64; 4]) -> (r: Option<FieldElem>)
        ensures
            ({
                let e = FieldElem { l0: limbs@[0], l1: limbs@[1], l2: limbs@[2], l3: limbs@[3] };
                r == if e.wf() { Some(e) } else { None::<FieldElem> }
            }),
    {
        let e = FieldElem { l0: limbs[0], l1: limbs[1], l2: limbs[2], l3: limbs[3] };
        if e.l3 < 0x3064_4e72_e131_a029 {
            Some(e)
        } else if e.l3 > 0x3064_4e72_e131_a029 {
            None
        } else if e.l2 < 0xb850_45b6_8181_585d {
            Some(e)
        } else if e.l2 > 0xb850_45b6_8181_585d {
            None
        } else if e.l1 < 0x2833_e848_79b9_7091 {
            Some(e)
        } else if e.l1 > 0x2833_e848_79b9_7091 {
            None
        } else if e.l0 < 0x43e1_f593_f000_0001 {
            Some(e)
        } else {
            None
        }
    }
}

/// Relies on `PrimeField::from_le_bytes_mod_order` (ark-ff) for BN254's `Fr`, which reads
/// the bytes as a little-endian integer and reduces it modulo the field order, and on
/// `PrimeField::into_bigint`, which gives the canonical representative as limbs.
#[verifier::external_body]
fn fr_from_le_bytes_mod_order(bytes: &[u8]) -> (r: FieldElem)
    ensures
        r.wf(),
        r.value() == field_encoding(bytes@),
{
    let l = Fr::from_le_bytes_mod_order(bytes).into_bigint().0;
    FieldElem { l0: l[0], l1: l[1], l2: l[2], l3: l[3] }
}

/// Encodes an attribute as a field element: the bytes read as a little-endian integer,
/// reduced modulo the field order. Total and deterministic; the same function serves
/// every place that needs an attribute's encoding.
pub fn encode_attribute(bytes: &[u8]) -> (r: FieldElem)
    ensures
        r.wf(),
        r.value() == field_encoding(bytes@),
{
    fr_from_le_bytes_mod_order(bytes)
}

/// A canonical element is determined by its value: two elements with the same value
/// have the same limbs.
pub proof fn lemma_value_determines_element(x: FieldElem, y: FieldElem)
    requires
        x.value() == y.value(),
    ensures
        x == y,
{
    let b: int = 0x1_0000_0000_0000_0000;
    let xq2: int = x.l2 as int + b * (x.l3 as int);
    let yq2: int = y.l2 as int + b * (y.l3 as int);
    let xq1: int = x.l1 as int + b * xq2;
    let yq1: int = y.l1 as int + b * yq2;
    let v: int = x.value() as int;
    assert(v == xq1 * b + x.l0 as int) by (nonlinear_arith)
        requires v == x.l0 as int + b * xq1;
    assert(v == yq1 * b + y.l0 as int) by (nonlinear_arith)
        requires v == y.l0 as int + b * yq1, v == y.value();
    lemma_fundamental_div_mod_converse(v, b, xq1, x.l0 as int);
    lemma_fundamental_div_mod_converse(v, b, yq1, y.l0 as int);
    assert(xq1 == xq2 * b + x.l1 as int) by (nonlinear_arith)
        requires xq1 == x.l1 as int + b * xq2;
    assert(yq1 == yq2 * b + y.l1 as int) by (nonlinear_arith)
        requires yq1 == y.l1 as int + b * yq2;
    lemma_fundamental_div_mod_converse(xq1, b, xq2, x.l1 as int);
    lemma_fundamental_div_mod_converse(yq1, b, yq2, y.l1 as int);
    assert(xq2 == (x.l3 as int) * b + x.l2 as int) by (nonlinear_arith)
        requires xq2 == x.l2 as int + b * (x.l3 as int);
    assert(yq2 == (y.l3 as int) * b + y.l2 as int) by (nonlinear_arith)
        requires yq2 == y.l2 as int + b * (y.l3 as int);
    lemma_fundamental_div_mod_converse(xq2, b, x.l3 as int, x.l2 as int);
    lemma_fundamental_div_mod_converse(yq2, b, y.l3 as int, y.l2 as int);
}

/// Encoding is deterministic: any two results of encoding the same bytes are the same
/// element.
pub proof fn lemma_encoding_deterministic(bytes: Seq<u8>, x: FieldElem, y: FieldElem)
    requires
        x.value() == field_encoding(bytes),
        y.value() == field_encoding(bytes),
    ensures
        x == y,
{
    lemma_value_determines_element(x, y);
}

proof fn lemma_le_nat_bound(b: Seq<u8>)
    ensures
        le_nat(b) < pow256(b.len()),
    decreases b.len(),
{
    if b.len() > 0 {
        lemma_le_nat_bound(b.drop_first());
        let r = le_nat(b.drop_first());
        let p = pow256(b.drop_first().len());
        assert(b[0] as nat + 256 * r < 256 * p) by (nonlinear_arith)
            requires b[0] < 256, r < p;
    }
}

proof fn lemma_le_nat_injective(a: Seq<u8>, b: Seq<u8>)
    requires
        a.len() == b.len(),
        le_nat(a) == le_nat(b),
    ensures
        a == b,
    decreases a.len(),
{
    if a.len() > 0 {
        let ra = le_nat(a.drop_first()) as int;
        let rb = le_nat(b.drop_first()) as int;
        lemma_fundamental_div_mod_converse(le_nat(a) as int, 256, ra, a[0] as int);
        lemma_fundamental_div_mod_converse(le_nat(b) as int, 256, rb, b[0] as int);
        lemma_le_nat_injective(a.drop_first(), b.drop_first());
        assert(a =~= seq![a[0]] + a.drop_first());
        assert(b =~= seq![b[0]] + b.drop_first());
    } else {
        assert(a =~= b);
    }
}

/// Encoding is injective on byte strings of one length up to 31 bytes: such strings read
/// as integers below the field order, so no reduction takes place, and distinct strings
/// give distinct elements.
pub proof fn lemma_short_encoding_injective(a: Seq<u8>, b: Seq<u8>)
    requires
        a.len() == b.len(),
        a.len() <= 31,
        field_encoding(a) == field_encoding(b),
    ensures
        a == b,
{
    lemma_le_nat_bound(a);
    lemma_le_nat_bound(b);
    lemma_pow256_monotone(a.len(), 31);
    assert(pow256(31) == 0x100_0000_0000_0000_0000_0000_0000_0000_0000_0000_0000_0000_0000_0000_0000_0000nat) by {
        reveal_with_fuel(pow256, 32);
    }
    vstd::arithmetic::div_mod::lemma_small_mod(le_nat(a), field_modulus());
    vstd::arithmetic::div_mod::lemma_small_mod(le_nat(b), field_modulus());
    lemma_le_nat_injective(a, b);
}

proof fn lemma_pow256_monotone(m: nat, n: nat)
    requires
        m <= n,
    ensures
        pow256(m) <= pow256(n),
    decreases n,
{
    if m < n {
        lemma_pow256_monotone(m, (n - 1) as nat);
    }
}

} // verus!
