//! The metered entry point: one 32-byte field element in, the first element
//! of the permuted state out, at a fixed cost.
use crate::field::{lemma_be_bytes_len, be_bytes, be_value, fe_from_slice, fe_to_be_bytes, modulus, Fe};
use crate::hasher::{permutation, Poseidon};
use crate::params::Params;
use crate::traits::WIDTH;
use vstd::prelude::*;
use vstd::slice::slice_to_vec;

verus! {

/// Price charged for each element of the permutation state.
pub const PRICE_PER_WIDTH: u64 = 10;

/// The identifier under which a host dispatches calls to `run`.
pub const HASH_ADDRESS: u64 = 0x10F2C;

/// Why a call to `run` failed.
#[derive(Clone, Copy, Debug, PartialEq, Eq, Structural)]
pub enum PoseidonError {
    /// The input is not exactly 32 bytes long.
    WrongLength,
    /// The cost of the call exceeds the budget.
    OutOfBudget,
    /// The input does not decode to a field element.
    InvalidFieldEncoding,
}

/// The result of a successful call: the cost charged and 32 output bytes.
#[derive(Debug, PartialEq, Eq)]
pub struct PoseidonOutput {
    pub cost: u64,
    pub output: Vec<u8>,
}

/// The cost of every call that gets past the length check.
pub open spec fn run_cost() -> nat {
    WIDTH as nat * PRICE_PER_WIDTH as nat
}

/// The field element that a 32-byte input stands for.
pub open spec fn input_element(input: Seq<u8>) -> nat {
    be_value(input) % modulus()
}

/// The output bytes for `input`: the input element is placed in every slot
/// of the state, and the first slot of the permuted state is written as 32
/// big-endian bytes.
pub open spec fn hash_output(input: Seq<u8>) -> Seq<u8> {
    let x = input_element(input);
    be_bytes(permutation::<Params>(Seq::new(WIDTH as nat, |i: int| x))[0], 32)
}

/// What `run` returns, as `(cost, output bytes)` on success.
pub open spec fn spec_run(input: Seq<u8>, budget: u64) -> Result<(u64, Seq<u8>), PoseidonError> {
    if input.len() != 32 {
        Err(PoseidonError::WrongLength)
    } else if budget < run_cost() {
        Err(PoseidonError::OutOfBudget)
    } else {
        Ok((run_cost() as u64, hash_output(input)))
    }
}

/// A result of `run` seen as plain values.
pub open spec fn outcome(r: Result<PoseidonOutput, PoseidonError>) -> Result<
    (u64, Seq<u8>),
    PoseidonError,
> {
    match r {
        Ok(o) => Ok((o.cost, o.output@)),
        Err(e) => Err(e),
    }
}

/// Hashes one 32-byte field element within `budget`.
pub fn run(input: &[u8], budget: u64) -> (r: Result<PoseidonOutput, PoseidonError>)
    ensures
        outcome(r) == spec_run(input@, budget),
        r matches Ok(o) ==> o.output@.len() == 32,
{
    if input.len() != 32 {
        return Err(PoseidonError::WrongLength);
    }
    let gas_used = (WIDTH as u64) * PRICE_PER_WIDTH;
    if gas_used > budget {
        return Err(PoseidonError::OutOfBudget);
    }
    let x = match fe_from_slice(input) {
        Ok(f) => f,
        Err(_) => return Err(PoseidonError::InvalidFieldEncoding),
    };
    assert(x.wf());
    let inputs: [Fe; WIDTH] = [x;WIDTH];
    let poseidon = Poseidon::<Params>::new(inputs);
    proof {
        assert(crate::field::fe_vals(inputs@) =~= Seq::new(
            WIDTH as nat,
            |i: int| input_element(input@),
        ));
    }
    let res = poseidon.permute();
    let bytes = fe_to_be_bytes(res[0]);
    proof {
        lemma_be_bytes_len(res@[0]@, 32);
    }
    Ok(PoseidonOutput { cost: gas_used, output: slice_to_vec(bytes.as_slice()) })
}

/// Determinism: any two results that `run` may give for the same input and
/// budget are the same.
pub proof fn lemma_run_deterministic(
    input: Seq<u8>,
    budget: u64,
    r1: Result<PoseidonOutput, PoseidonError>,
    r2: Result<PoseidonOutput, PoseidonError>,
)
    requires
        outcome(r1) == spec_run(input, budget),
        outcome(r2) == spec_run(input, budget),
    ensures
        outcome(r1) == outcome(r2),
{
}

/// An input of any length other than 32 fails with `WrongLength`, whatever
/// the budget.
pub proof fn lemma_wrong_length(input: Seq<u8>, budget: u64)
    requires
        input.len() != 32,
    ensures
        spec_run(input, budget) == Err::<(u64, Seq<u8>), PoseidonError>(PoseidonError::WrongLength),
{
}

/// For a 32-byte input, the call fails with `OutOfBudget` exactly when the
/// budget is below 50, and succeeds at cost 50 exactly when it is at least 50.
pub proof fn lemma_budget_gate(input: Seq<u8>, budget: u64)
    requires
        input.len() == 32,
    ensures
        spec_run(input, budget) == Err::<(u64, Seq<u8>), PoseidonError>(PoseidonError::OutOfBudget)
            <==> budget < 50,
        (spec_run(input, budget) is Ok && spec_run(input, budget)->Ok_0.0 == 50) <==> budget >= 50,
{
}

} // verus!
