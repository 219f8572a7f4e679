//! Elements of the scalar field of BN254, held as canonical integers.
//!
//! The arithmetic itself is done by `substrate_bn::Fr`; this module states
//! what each operation returns in terms of the integer value of its operands.
use substrate_bn::arith::U256;
use substrate_bn::{FieldError, Fr};
use vstd::prelude::*;

verus! {

/// The order `r` of the scalar field of the BN254 curve.
pub open spec fn modulus() -> nat {
    0x30644e72e131a029b85045b68181585d2833e84879b9709143e1f593f0000001nat
}

/// `2^128`, the weight of the high limb.
pub open spec fn limb_base() -> nat {
    0x1_0000_0000_0000_0000_0000_0000_0000_0000nat
}

/// The integer whose big-endian bytes are `b`.
pub open spec fn be_value(b: Seq<u8>) -> nat
    decreases b.len(),
{
    if b.len() == 0 {
        0
    } else {
        be_value(b.drop_last()) * 256 + b.last() as nat
    }
}

/// The `len` low-order bytes of `n`, most significant first.
pub open spec fn be_bytes(n: nat, len: nat) -> Seq<u8>
    decreases len,
{
    if len == 0 {
        Seq::empty()
    } else {
        be_bytes(n / 256, (len - 1) as nat).push((n % 256) as u8)
    }
}

/// `be_bytes(n, len)` has `len` bytes.
pub proof fn lemma_be_bytes_len(n: nat, len: nat)
    ensures
        be_bytes(n, len).len() == len,
    decreases len,
{
    if len > 0 {
        lemma_be_bytes_len(n / 256, (len - 1) as nat);
    }
}

/// A field element, as the two 128-bit limbs of its integer value.
/// It is canonical (`wf`) when that value is below the field order.
#[derive(Clone, Copy, Debug, PartialEq, Eq, Structural)]
pub struct Fe {
    pub lo: u128,
    pub hi: u128,
}

impl View for Fe {
    type V = nat;

    open spec fn view(&self) -> nat {
        self.lo as nat + self.hi as nat * limb_base()
    }
}

/// The values of a sequence of field elements.
pub open spec fn fe_vals(s: Seq<Fe>) -> Seq<nat> {
    s.map_values(|f: Fe| f@)
}

/// Every element of `s` is canonical.
pub open spec fn all_wf(s: Seq<Fe>) -> bool {
    forall|i: int| 0 <= i < s.len() ==> #[trigger] s[i].wf()
}

impl Fe {
    pub open spec fn wf(self) -> bool {
        self@ < modulus()
    }

    pub fn zero() -> (r: Fe)
        ensures
            r@ == 0,
            r.wf(),
    {
        Fe { lo: 0, hi: 0 }
    }
}

/// Field addition: relies on `Add` for `substrate_bn::Fr`, which adds the
/// canonical representatives and subtracts the order once if needed.
#[verifier::external_body]
pub(crate) fn fe_add(a: Fe, b: Fe) -> (r: Fe)
    requires
        a.wf(),
        b.wf(),
    ensures
        r@ == (a@ + b@) % modulus(),
{
    let x = Fr::new_mul_factor(U256([a.lo, a.hi]));
    let y = Fr::new_mul_factor(U256([b.lo, b.hi]));
    let s = (x + y).into_u256();
    Fe { lo: s.0[0], hi: s.0[1] }
}

/// Field multiplication: relies on `Mul` for `substrate_bn::Fr`
/// (Montgomery multiplication, converted back by `Fr::into_u256`).
#[verifier::external_body]
pub(crate) fn fe_mul(a: Fe, b: Fe) -> (r: Fe)
    requires
        a.wf(),
        b.wf(),
    ensures
        r@ == (a@ * b@) % modulus(),
{
    let x = Fr::new_mul_factor(U256([a.lo, a.hi]));
    let y = Fr::new_mul_factor(U256([b.lo, b.hi]));
    let p = (x * y).into_u256();
    Fe { lo: p.0[0], hi: p.0[1] }
}

#[verifier::external_type_specification]
#[verifier::external_body]
pub struct ExFieldError(FieldError);

/// Decoding: relies on `substrate_bn::Fr::from_slice`, which reads exactly
/// 32 bytes as a big-endian integer and reduces it modulo the field order,
/// and refuses a slice of any other length.
#[verifier::external_body]
pub(crate) fn fe_from_slice(bytes: &[u8]) -> (r: Result<Fe, FieldError>)
    ensures
        r is Ok <==> bytes@.len() == 32,
        r matches Ok(f) ==> f@ == be_value(bytes@) % modulus(),
{
    match Fr::from_slice(bytes) {
        Ok(x) => {
            let u = x.into_u256();
            Ok(Fe { lo: u.0[0], hi: u.0[1] })
        },
        Err(e) => Err(e),
    }
}

/// Encoding: relies on `substrate_bn::arith::U256::to_big_endian`, which
/// writes the integer into a 32-byte buffer, most significant byte first.
#[verifier::external_body]
pub(crate) fn fe_to_be_bytes(a: Fe) -> (r: [u8; 32])
    ensures
        r@ == be_bytes(a@, 32),
{
    let mut out = [0u8; 32];
    U256([a.lo, a.hi]).to_big_endian(&mut out).unwrap();
    out
}

} // verus!
