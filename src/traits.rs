//! The capability set that a Poseidon parameterization provides.
use crate::field::{all_wf, fe_add, fe_vals, modulus, Fe};
use vstd::prelude::*;

verus! {

/// The number of field elements in the permutation state.
pub const WIDTH: usize = 5;

/// Element-wise field addition of two states.
pub open spec fn add_vals(s: Seq<nat>, c: Seq<nat>) -> Seq<nat> {
    Seq::new(s.len(), |i: int| (s[i] + c[i]) % modulus())
}

/// The `WIDTH` constants of round `round` within `segment`.
pub open spec fn window(segment: Seq<nat>, round: nat) -> Seq<nat> {
    segment.subrange(round * WIDTH, round * WIDTH + WIDTH)
}

/// Round counts, round constants, S-box and mixing layer of one instance of
/// the permutation, for a state of `WIDTH` elements.
pub trait RoundParams {
    spec fn spec_full_rounds() -> nat;

    spec fn spec_partial_rounds() -> nat;

    /// The values of the flat round-constant table.
    spec fn spec_round_constants() -> Seq<nat>;

    spec fn spec_sbox(x: nat) -> nat;

    spec fn spec_mds(s: Seq<nat>) -> Seq<nat>;

    /// The full rounds split into two equal halves, and the table holds
    /// `WIDTH` constants for each round.
    proof fn lemma_table_shape()
        ensures
            Self::spec_full_rounds() % 2 == 0,
            Self::spec_round_constants().len() == WIDTH * (Self::spec_full_rounds()
                + Self::spec_partial_rounds()),
    ;

    fn full_rounds() -> (r: usize)
        ensures
            r == Self::spec_full_rounds(),
    ;

    fn partial_rounds() -> (r: usize)
        ensures
            r == Self::spec_partial_rounds(),
    ;

    fn round_constants() -> (r: Vec<Fe>)
        ensures
            all_wf(r@),
            fe_vals(r@) == Self::spec_round_constants(),
    ;

    fn round_constants_count() -> (r: usize)
        ensures
            r == Self::spec_round_constants().len(),
    ;

    fn sbox(x: Fe) -> (r: Fe)
        requires
            x.wf(),
        ensures
            r.wf(),
            r@ == Self::spec_sbox(x@),
    ;

    fn apply_mds(state: &[Fe; WIDTH]) -> (r: [Fe; WIDTH])
        requires
            all_wf(state@),
        ensures
            all_wf(r@),
            fe_vals(r@) == Self::spec_mds(fe_vals(state@)),
    ;

    /// The constants of round `round`: the window
    /// `[round * WIDTH, round * WIDTH + WIDTH)` of `segment`.
    fn load_round_constants(round: usize, segment: &[Fe]) -> (r: [Fe; WIDTH])
        requires
            round * WIDTH + WIDTH <= segment@.len(),
        ensures
            r@ == segment@.subrange(round * WIDTH, round * WIDTH + WIDTH),
    {
        let len = segment.len();
        assert(round * WIDTH + WIDTH <= len);
        let base = round * WIDTH;
        let mut r = [Fe::zero();WIDTH];
        let mut i: usize = 0;
        while i < WIDTH
            invariant
                i <= WIDTH,
                base == round * WIDTH,
                base + WIDTH <= segment@.len(),
                r@.len() == WIDTH,
                forall|j: int| 0 <= j < i ==> r@[j] == segment@[base + j],
            decreases WIDTH - i,
        {
            r[i] = segment[base + i];
            i += 1;
        }
        assert(r@ =~= segment@.subrange(round * WIDTH, round * WIDTH + WIDTH));
        r
    }

    /// Adds `consts` to `state` element by element.
    fn apply_round_constants(state: &[Fe; WIDTH], consts: &[Fe; WIDTH]) -> (r: [Fe; WIDTH])
        requires
            all_wf(state@),
            all_wf(consts@),
        ensures
            all_wf(r@),
            fe_vals(r@) == add_vals(fe_vals(state@), fe_vals(consts@)),
    {
        let mut r = *state;
        let mut i: usize = 0;
        while i < WIDTH
            invariant
                i <= WIDTH,
                r@.len() == WIDTH,
                all_wf(state@),
                all_wf(consts@),
                forall|j: int| 0 <= j < i ==> #[trigger] r@[j]@ == (state@[j]@ + consts@[j]@) % modulus(),
                forall|j: int| i <= j < WIDTH ==> #[trigger] r@[j] == state@[j],
            decreases WIDTH - i,
        {
            r[i] = fe_add(state[i], consts[i]);
            i += 1;
        }
        assert(all_wf(r@));
        assert(fe_vals(r@) =~= add_vals(fe_vals(state@), fe_vals(consts@)));
        r
    }
}

} // verus!
