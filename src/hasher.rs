//! The Hades round schedule: full rounds, partial rounds, full rounds.
use crate::field::{all_wf, fe_vals, Fe};
use crate::traits::{add_vals, window, RoundParams, WIDTH};
use core::marker::PhantomData;
use vstd::prelude::*;
use vstd::slice::slice_subrange;

verus! {

/// One full round: add the constants, S-box on every element, then mix.
pub open spec fn full_round<P: RoundParams>(s: Seq<nat>, c: Seq<nat>) -> Seq<nat> {
    P::spec_mds(add_vals(s, c).map_values(|x: nat| P::spec_sbox(x)))
}

/// One partial round: add the constants, S-box on element 0 only, then mix.
pub open spec fn partial_round<P: RoundParams>(s: Seq<nat>, c: Seq<nat>) -> Seq<nat> {
    let t = add_vals(s, c);
    P::spec_mds(t.update(0, P::spec_sbox(t[0])))
}

/// `rounds` full rounds from `s`; round `k` takes window `k` of `segment`.
pub open spec fn full_phase<P: RoundParams>(s: Seq<nat>, segment: Seq<nat>, rounds: nat) -> Seq<
    nat,
>
    decreases rounds,
{
    if rounds == 0 {
        s
    } else {
        let k = (rounds - 1) as nat;
        full_round::<P>(full_phase::<P>(s, segment, k), window(segment, k))
    }
}

/// `rounds` partial rounds from `s`; round `k` takes window `k` of `segment`.
pub open spec fn partial_phase<P: RoundParams>(s: Seq<nat>, segment: Seq<nat>, rounds: nat) -> Seq<
    nat,
>
    decreases rounds,
{
    if rounds == 0 {
        s
    } else {
        let k = (rounds - 1) as nat;
        partial_round::<P>(partial_phase::<P>(s, segment, k), window(segment, k))
    }
}

/// The permutation of `s`. The constant table is cut into three segments,
/// of `half * WIDTH`, `partial * WIDTH` and `half * WIDTH` constants; each
/// phase counts its rounds from 0 within its own segment.
pub open spec fn permutation<P: RoundParams>(s: Seq<nat>) -> Seq<nat> {
    let rc = P::spec_round_constants();
    let half = P::spec_full_rounds() / 2;
    let partial = P::spec_partial_rounds();
    let first_end = half * WIDTH;
    let second_end = first_end + partial * WIDTH;
    let s1 = full_phase::<P>(s, rc.subrange(0, first_end as int), half);
    let s2 = partial_phase::<P>(s1, rc.subrange(first_end as int, second_end as int), partial);
    full_phase::<P>(s2, rc.subrange(second_end as int, rc.len() as int), half)
}

proof fn lemma_window_vals(segment: Seq<Fe>, round: nat)
    requires
        round * WIDTH + WIDTH <= segment.len(),
    ensures
        fe_vals(segment.subrange(round * WIDTH, round * WIDTH + WIDTH)) == window(
            fe_vals(segment),
            round,
        ),
{
    assert(fe_vals(segment.subrange(round * WIDTH, round * WIDTH + WIDTH)) =~= window(
        fe_vals(segment),
        round,
    ));
}

/// Runs `rounds` full rounds on `state`, taking the constants of round `k`
/// from window `k` of `segment`.
pub fn full_rounds_phase<P: RoundParams>(state: [Fe; WIDTH], segment: &[Fe], rounds: usize) -> (r: [Fe; WIDTH])
    requires
        all_wf(state@),
        all_wf(segment@),
        rounds * WIDTH <= segment@.len(),
    ensures
        all_wf(r@),
        fe_vals(r@) == full_phase::<P>(fe_vals(state@), fe_vals(segment@), rounds as nat),
{
    let mut st = state;
    let mut round: usize = 0;
    while round < rounds
        invariant
            round <= rounds,
            rounds * WIDTH <= segment@.len(),
            all_wf(segment@),
            all_wf(st@),
            fe_vals(st@) == full_phase::<P>(fe_vals(state@), fe_vals(segment@), round as nat),
        decreases rounds - round,
    {
        let ghost before = fe_vals(st@);
        let consts = P::load_round_constants(round, segment);
        proof {
            lemma_window_vals(segment@, round as nat);
            assert(all_wf(consts@)) by {
                assert forall|j: int| 0 <= j < WIDTH implies #[trigger] consts@[j].wf() by {
                    assert(consts@[j] == segment@[round * WIDTH + j]);
                }
            }
        }
        st = P::apply_round_constants(&st, &consts);
        let ghost added = fe_vals(st@);
        let mut i: usize = 0;
        while i < WIDTH
            invariant
                i <= WIDTH,
                all_wf(st@),
                added.len() == WIDTH,
                forall|j: int| 0 <= j < i ==> #[trigger] st@[j]@ == P::spec_sbox(added[j]),
                forall|j: int| i <= j < WIDTH ==> #[trigger] st@[j]@ == added[j],
            decreases WIDTH - i,
        {
            st[i] = P::sbox(st[i]);
            i += 1;
        }
        assert(fe_vals(st@) =~= added.map_values(|x: nat| P::spec_sbox(x)));
        st = P::apply_mds(&st);
        round += 1;
    }
    st
}

/// Runs `rounds` partial rounds on `state`, taking the constants of round
/// `k` from window `k` of `segment`.
pub fn partial_rounds_phase<P: RoundParams>(state: [Fe; WIDTH], segment: &[Fe], rounds: usize) -> (r: [Fe; WIDTH])
    requires
        all_wf(state@),
        all_wf(segment@),
        rounds * WIDTH <= segment@.len(),
    ensures
        all_wf(r@),
        fe_vals(r@) == partial_phase::<P>(fe_vals(state@), fe_vals(segment@), rounds as nat),
{
    let mut st = state;
    let mut round: usize = 0;
    while round < rounds
        invariant
            round <= rounds,
            rounds * WIDTH <= segment@.len(),
            all_wf(segment@),
            all_wf(st@),
            fe_vals(st@) == partial_phase::<P>(fe_vals(state@), fe_vals(segment@), round as nat),
        decreases rounds - round,
    {
        let consts = P::load_round_constants(round, segment);
        proof {
            lemma_window_vals(segment@, round as nat);
            assert(all_wf(consts@)) by {
                assert forall|j: int| 0 <= j < WIDTH implies #[trigger] consts@[j].wf() by {
                    assert(consts@[j] == segment@[round * WIDTH + j]);
                }
            }
        }
        st = P::apply_round_constants(&st, &consts);
        let ghost added = fe_vals(st@);
        st[0] = P::sbox(st[0]);
        assert(fe_vals(st@) =~= added.update(0, P::spec_sbox(added[0])));
        st = P::apply_mds(&st);
        round += 1;
    }
    st
}

/// A permutation instance holding its `WIDTH` inputs, for the
/// parameterization `P`.
pub struct Poseidon<P: RoundParams> {
    inputs: [Fe; WIDTH],
    _params: PhantomData<P>,
}

impl<P: RoundParams> View for Poseidon<P> {
    type V = Seq<Fe>;

    closed spec fn view(&self) -> Seq<Fe> {
        self.inputs@
    }
}

impl<P: RoundParams> Poseidon<P> {
    /// Creates an instance on the given inputs.
    pub fn new(inputs: [Fe; WIDTH]) -> (r: Self)
        ensures
            r@ == inputs@,
    {
        Poseidon { inputs, _params: PhantomData }
    }

    /// The permuted state: first half of the full rounds, the partial
    /// rounds, then the second half of the full rounds.
    pub fn permute(&self) -> (r: [Fe; WIDTH])
        requires
            all_wf(self@),
        ensures
            all_wf(r@),
            r@.len() == WIDTH,
            fe_vals(r@) == permutation::<P>(fe_vals(self@)),
    {
        proof {
            P::lemma_table_shape();
        }
        let full_rounds = P::full_rounds();
        let half_full_rounds = full_rounds / 2;
        let partial_rounds = P::partial_rounds();
        let round_constants = P::round_constants();
        let total_count = P::round_constants_count();
        let ghost rc = fe_vals(round_constants@);
        assert(rc.len() == round_constants@.len());

        let first_round_end = half_full_rounds * WIDTH;
        let second_round_end = first_round_end + partial_rounds * WIDTH;
        let all = round_constants.as_slice();
        let first_round_constants = slice_subrange(all, 0, first_round_end);
        let second_round_constants = slice_subrange(all, first_round_end, second_round_end);
        let third_round_constants = slice_subrange(all, second_round_end, total_count);
        proof {
            assert(fe_vals(first_round_constants@) =~= rc.subrange(0, first_round_end as int));
            assert(fe_vals(second_round_constants@) =~= rc.subrange(
                first_round_end as int,
                second_round_end as int,
            ));
            assert(fe_vals(third_round_constants@) =~= rc.subrange(
                second_round_end as int,
                rc.len() as int,
            ));
        }

        let state = full_rounds_phase::<P>(self.inputs, first_round_constants, half_full_rounds);
        let state = partial_rounds_phase::<P>(state, second_round_constants, partial_rounds);
        full_rounds_phase::<P>(state, third_round_constants, half_full_rounds)
    }
}

/// The table splits into three contiguous segments, of `half * WIDTH`,
/// `partial * WIDTH` and `half * WIDTH` constants, which together cover it.
pub proof fn lemma_segments<P: RoundParams>()
    ensures
        ({
            let rc = P::spec_round_constants();
            let half = P::spec_full_rounds() / 2;
            let first_end = half * WIDTH;
            let second_end = first_end + P::spec_partial_rounds() * WIDTH;
            &&& rc.len() == WIDTH * (P::spec_full_rounds() + P::spec_partial_rounds())
            &&& second_end <= rc.len()
            &&& rc.len() - second_end == half * WIDTH
        }),
{
    P::lemma_table_shape();
}

/// Each phase counts its rounds from 0 in its own segment: round `k` of the
/// last full-round phase takes the constants at
/// `[second_end + k * WIDTH, second_end + k * WIDTH + WIDTH)` of the table,
/// not those that a round counter running on from the first phase would name.
pub proof fn lemma_last_phase_window<P: RoundParams>(k: nat)
    requires
        k < P::spec_full_rounds() / 2,
    ensures
        ({
            let rc = P::spec_round_constants();
            let second_end = P::spec_full_rounds() / 2 * WIDTH + P::spec_partial_rounds() * WIDTH;
            window(rc.subrange(second_end as int, rc.len() as int), k) == rc.subrange(
                second_end + k * WIDTH,
                second_end + k * WIDTH + WIDTH,
            )
        }),
{
    lemma_segments::<P>();
    let rc = P::spec_round_constants();
    let half = P::spec_full_rounds() / 2;
    let second_end = half * WIDTH + P::spec_partial_rounds() * WIDTH;
    assert(k * WIDTH + WIDTH <= half * WIDTH) by (nonlinear_arith)
        requires
            k < half,
    ;
    assert(window(rc.subrange(second_end as int, rc.len() as int), k) =~= rc.subrange(
        second_end + k * WIDTH,
        second_end + k * WIDTH + WIDTH,
    ));
}

} // verus!
