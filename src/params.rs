//! The parameter set used by the metered entry point: a state of five
//! elements, two full rounds and five partial rounds, the S-box `x^5`, and a
//! Cauchy matrix as mixing layer.
//!
//! Round constant `k` is the SHA-256 digest of the ASCII string
//! `poseidon.bn254.t5.rc.<k>`, read big-endian and reduced modulo the field
//! order. Mixing entry `(i, j)` is the inverse of `i + j + 5` in the field.
use crate::field::{all_wf, fe_add, fe_mul, fe_vals, modulus, Fe};
use crate::traits::{RoundParams, WIDTH};
use vstd::arithmetic::div_mod::{lemma_add_mod_noop, lemma_mul_mod_noop};
use vstd::prelude::*;

verus! {

/// Number of full rounds, split evenly around the partial rounds.
pub const FULL_ROUNDS: usize = 2;

/// Number of partial rounds.
pub const PARTIAL_ROUNDS: usize = 5;

/// Length of the round-constant table.
pub const ROUND_CONSTANTS_COUNT: usize = 35;

/// The values of the round-constant table.
pub open spec fn round_constant_table() -> Seq<nat> {
    seq![
        0x193dcc1874c968893157b9ff64732d7efd26c3ad797929c11f966456cae6937anat,
        0x12e2638bae66d5647925f6524d29cbaf1c9b9fa545f91680dd5379512744fbdcnat,
        0x01639f119c076fc8eb370cfe2512bb6ca8397d80c1634a85ee62b0d075168df2nat,
        0x210c477e964a932557d61291863d8f0c445b4c2176aa20c9cef664350fb033banat,
        0x100c67eb15c6530954ac41cd4c23b89298f1529077be56a7ee66b8094a184636nat,
        0x277750b66e87f5282d5da0fa6a9e983e6c3996f8ed476b9b2d345c3aca7ef177nat,
        0x3048ab5ed1bef6bab9fc69650d99a7dd36bff415a3c1b5446e2b2b6d59926e57nat,
        0x20f9b2e05a64ef16484d8da481f192ddc9ccd1b0b889ff8ab469b92c6264e8a9nat,
        0x25d9e3fb920ee536da12c4d098ae2c3e89b6216a3bbaef9220c4e67d4b16cacenat,
        0x19a5f6855eeac100092231b4e7a457c158dcf9fa59c00c9934eb696154430038nat,
        0x0641210288fe34dd9de24daf5dbdd05f5046fe12d00f0b09fcbdbb8cd7d52099nat,
        0x2413d76e5920ff030084064e968cb8fb708dbbf58a1ad7aff06a6932b8bc1dd5nat,
        0x16dccf08edc42daee800178c1fdae131915933140145a5d950b1bd588bca35f6nat,
        0x0d7fdc477130c4af490f3e88c7aae340dc89542c0a7b84adbaa6687da154bbbanat,
        0x2d2f394095ab145944c8d59595c17c5def3a099237009e6af27d3526cd5c6beenat,
        0x078ed4726448a1185bcab6a434f9ff1abf8099f0cb8e4d2b0c971192e0b9b0e5nat,
        0x21747c9c4cbf4f7c762cca16c36c7b4a93fb4b64624dc678154cdbc92db4d5b5nat,
        0x108cda22c1ed7ddebf62a2ff48a47c1ac166c072da62ea6f0a8b8d2e76f4dba4nat,
        0x112e6c3fd609d85820aef877cb0d14ce9f7ae9f0df0e82dfde98136172ba7014nat,
        0x07eb7d59058cb82c85ab7565ab12b72d32e77965846b553cd0ddf516b6d7f01dnat,
        0x190d07a1aef97af5c95acef5bca9c04247f33614fc65dc02a09450e659dfd282nat,
        0x17d97e4489d8e3e1e057438c8e79c3fb04000b6e4e6771f9b0d84b479c074fa3nat,
        0x1f0b8f220c5b5e96ffba89c66dad0b8a56d9112484a439ec6600c9edc5e70881nat,
        0x213f7e5dfa961460323aa4f2cb6d7bfef99c4c77dbca2db59989d5a7232decednat,
        0x2d7a7cb7f8a8205089137ea5929aac32b027664d53427383170f5a8f37570ec0nat,
        0x164de826991d030bd287227ce74c833620e14cb92a1855f9f993636ae651f873nat,
        0x0184c9eda5c50483a53732f12cd872d6b3532dd097ae6a259f7f96993bd94ecenat,
        0x1ded62d5be5bdeb4a03fbcc1a0faef6d120c79e93b70c24172968edd5f76294dnat,
        0x223f290cb0a2ff94d1e374b558cd7357551644924aa69006e408b282c21793cbnat,
        0x0b584751a930bd5ab775f00b95efb316e8cd5753b21f34d4674cbb073e006e09nat,
        0x259829aa8d82d752e7c353d9111d971bb8ef4a3ee11a288834d26bfeaacb7224nat,
        0x0acc340c6210b62b8c76dfa29b838af560d2ba44045dfcbcaea688460ea3dc19nat,
        0x0d65eaeb2ed76c25c926cb0964a29ac9fe8530e615da731b7c17b8809156966dnat,
        0x0df30ce8c8c9e5dac30a1623fe44d351c09212aedbdbafe09b46cd85cf7f0d16nat,
        0x305559284e204fcb96366476d929c080319cf2a60c1ee51aa83370adfc44e826nat,
    ]
}

/// The rows of the mixing matrix.
pub open spec fn mds_matrix() -> Seq<Seq<nat>> {
    seq![
        seq![
            0x135b52945a13d9aa49b9b57c33cd568ba9ae5ce9ca4a2d06e7f3fbd4c6666667nat,
            0x285396b510feb022c442e4c2c1411ef84c2b4191bac53323b891a1fb48000001nat,
            0x06e9c21069503b73ac9dc0d0edede80d4ee2d80a5a8834a709b290cbfdb6db6enat,
            0x2a57c4a4850b6c2481463cffb1512d51832d6b3f6a82427f1b65b6e172000001nat,
            0x2b03d3f456650025159cafbeac013219ead8ce794fc1479d91ac688380000001nat,
        ],
        seq![
            0x285396b510feb022c442e4c2c1411ef84c2b4191bac53323b891a1fb48000001nat,
            0x06e9c21069503b73ac9dc0d0edede80d4ee2d80a5a8834a709b290cbfdb6db6enat,
            0x2a57c4a4850b6c2481463cffb1512d51832d6b3f6a82427f1b65b6e172000001nat,
            0x2b03d3f456650025159cafbeac013219ead8ce794fc1479d91ac688380000001nat,
            0x21dfd0839da2bcea0104fd995aa7577468f122992201cecc15eaf8b45b333334nat,
        ],
        seq![
            0x06e9c21069503b73ac9dc0d0edede80d4ee2d80a5a8834a709b290cbfdb6db6enat,
            0x2a57c4a4850b6c2481463cffb1512d51832d6b3f6a82427f1b65b6e172000001nat,
            0x2b03d3f456650025159cafbeac013219ead8ce794fc1479d91ac688380000001nat,
            0x21dfd0839da2bcea0104fd995aa7577468f122992201cecc15eaf8b45b333334nat,
            0x1198d6b56929518388d75f2b17d1f1963d2a25ebcf2c28ef01697092e2e8ba2fnat,
        ],
        seq![
            0x2a57c4a4850b6c2481463cffb1512d51832d6b3f6a82427f1b65b6e172000001nat,
            0x2b03d3f456650025159cafbeac013219ead8ce794fc1479d91ac688380000001nat,
            0x21dfd0839da2bcea0104fd995aa7577468f122992201cecc15eaf8b45b333334nat,
            0x1198d6b56929518388d75f2b17d1f1963d2a25ebcf2c28ef01697092e2e8ba2fnat,
            0x2c5bf293f91828263e49953ca1613baaba2f94ed1a3f51da7e39cbc79c000001nat,
        ],
        seq![
            0x2b03d3f456650025159cafbeac013219ead8ce794fc1479d91ac688380000001nat,
            0x21dfd0839da2bcea0104fd995aa7577468f122992201cecc15eaf8b45b333334nat,
            0x1198d6b56929518388d75f2b17d1f1963d2a25ebcf2c28ef01697092e2e8ba2fnat,
            0x2c5bf293f91828263e49953ca1613baaba2f94ed1a3f51da7e39cbc79c000001nat,
            0x2cab5c1b46066c7547ac8f1e9eed8ca4c2a6117dfa350572660ba79c40000001nat,
        ],
    ]
}

/// `row[0] * s[0] + ... + row[n - 1] * s[n - 1]`, over the integers.
pub open spec fn dot(row: Seq<nat>, s: Seq<nat>, n: nat) -> nat
    decreases n,
{
    if n == 0 {
        0
    } else {
        dot(row, s, (n - 1) as nat) + row[n - 1] * s[n - 1]
    }
}

/// The product of the mixing matrix with `s`, in the field.
pub open spec fn mds_mul(s: Seq<nat>) -> Seq<nat> {
    Seq::new(WIDTH as nat, |i: int| dot(mds_matrix()[i], s, WIDTH as nat) % modulus())
}

/// `x^5` in the field.
pub open spec fn pow5(x: nat) -> nat {
    (x * x * x * x * x) % modulus()
}

/// Constant `k` of the round-constant table.
fn round_constant(k: usize) -> (r: Fe)
    requires
        k < ROUND_CONSTANTS_COUNT,
    ensures
        r@ == round_constant_table()[k as int],
{
    match k {
        0 => Fe { lo: 0xfd26c3ad797929c11f966456cae6937a, hi: 0x193dcc1874c968893157b9ff64732d7e },
        1 => Fe { lo: 0x1c9b9fa545f91680dd5379512744fbdc, hi: 0x12e2638bae66d5647925f6524d29cbaf },
        2 => Fe { lo: 0xa8397d80c1634a85ee62b0d075168df2, hi: 0x01639f119c076fc8eb370cfe2512bb6c },
        3 => Fe { lo: 0x445b4c2176aa20c9cef664350fb033ba, hi: 0x210c477e964a932557d61291863d8f0c },
        4 => Fe { lo: 0x98f1529077be56a7ee66b8094a184636, hi: 0x100c67eb15c6530954ac41cd4c23b892 },
        5 => Fe { lo: 0x6c3996f8ed476b9b2d345c3aca7ef177, hi: 0x277750b66e87f5282d5da0fa6a9e983e },
        6 => Fe { lo: 0x36bff415a3c1b5446e2b2b6d59926e57, hi: 0x3048ab5ed1bef6bab9fc69650d99a7dd },
        7 => Fe { lo: 0xc9ccd1b0b889ff8ab469b92c6264e8a9, hi: 0x20f9b2e05a64ef16484d8da481f192dd },
        8 => Fe { lo: 0x89b6216a3bbaef9220c4e67d4b16cace, hi: 0x25d9e3fb920ee536da12c4d098ae2c3e },
        9 => Fe { lo: 0x58dcf9fa59c00c9934eb696154430038, hi: 0x19a5f6855eeac100092231b4e7a457c1 },
        10 => Fe { lo: 0x5046fe12d00f0b09fcbdbb8cd7d52099, hi: 0x0641210288fe34dd9de24daf5dbdd05f },
        11 => Fe { lo: 0x708dbbf58a1ad7aff06a6932b8bc1dd5, hi: 0x2413d76e5920ff030084064e968cb8fb },
        12 => Fe { lo: 0x915933140145a5d950b1bd588bca35f6, hi: 0x16dccf08edc42daee800178c1fdae131 },
        13 => Fe { lo: 0xdc89542c0a7b84adbaa6687da154bbba, hi: 0x0d7fdc477130c4af490f3e88c7aae340 },
        14 => Fe { lo: 0xef3a099237009e6af27d3526cd5c6bee, hi: 0x2d2f394095ab145944c8d59595c17c5d },
        15 => Fe { lo: 0xbf8099f0cb8e4d2b0c971192e0b9b0e5, hi: 0x078ed4726448a1185bcab6a434f9ff1a },
        16 => Fe { lo: 0x93fb4b64624dc678154cdbc92db4d5b5, hi: 0x21747c9c4cbf4f7c762cca16c36c7b4a },
        17 => Fe { lo: 0xc166c072da62ea6f0a8b8d2e76f4dba4, hi: 0x108cda22c1ed7ddebf62a2ff48a47c1a },
        18 => Fe { lo: 0x9f7ae9f0df0e82dfde98136172ba7014, hi: 0x112e6c3fd609d85820aef877cb0d14ce },
        19 => Fe { lo: 0x32e77965846b553cd0ddf516b6d7f01d, hi: 0x07eb7d59058cb82c85ab7565ab12b72d },
        20 => Fe { lo: 0x47f33614fc65dc02a09450e659dfd282, hi: 0x190d07a1aef97af5c95acef5bca9c042 },
        21 => Fe { lo: 0x04000b6e4e6771f9b0d84b479c074fa3, hi: 0x17d97e4489d8e3e1e057438c8e79c3fb },
        22 => Fe { lo: 0x56d9112484a439ec6600c9edc5e70881, hi: 0x1f0b8f220c5b5e96ffba89c66dad0b8a },
        23 => Fe { lo: 0xf99c4c77dbca2db59989d5a7232deced, hi: 0x213f7e5dfa961460323aa4f2cb6d7bfe },
        24 => Fe { lo: 0xb027664d53427383170f5a8f37570ec0, hi: 0x2d7a7cb7f8a8205089137ea5929aac32 },
        25 => Fe { lo: 0x20e14cb92a1855f9f993636ae651f873, hi: 0x164de826991d030bd287227ce74c8336 },
        26 => Fe { lo: 0xb3532dd097ae6a259f7f96993bd94ece, hi: 0x0184c9eda5c50483a53732f12cd872d6 },
        27 => Fe { lo: 0x120c79e93b70c24172968edd5f76294d, hi: 0x1ded62d5be5bdeb4a03fbcc1a0faef6d },
        28 => Fe { lo: 0x551644924aa69006e408b282c21793cb, hi: 0x223f290cb0a2ff94d1e374b558cd7357 },
        29 => Fe { lo: 0xe8cd5753b21f34d4674cbb073e006e09, hi: 0x0b584751a930bd5ab775f00b95efb316 },
        30 => Fe { lo: 0xb8ef4a3ee11a288834d26bfeaacb7224, hi: 0x259829aa8d82d752e7c353d9111d971b },
        31 => Fe { lo: 0x60d2ba44045dfcbcaea688460ea3dc19, hi: 0x0acc340c6210b62b8c76dfa29b838af5 },
        32 => Fe { lo: 0xfe8530e615da731b7c17b8809156966d, hi: 0x0d65eaeb2ed76c25c926cb0964a29ac9 },
        33 => Fe { lo: 0xc09212aedbdbafe09b46cd85cf7f0d16, hi: 0x0df30ce8c8c9e5dac30a1623fe44d351 },
        34 => Fe { lo: 0x319cf2a60c1ee51aa83370adfc44e826, hi: 0x305559284e204fcb96366476d929c080 },
        _ => Fe::zero(),
    }
}

/// Entry `(i, j)` of the mixing matrix.
fn mds_entry(i: usize, j: usize) -> (r: Fe)
    requires
        i < WIDTH,
        j < WIDTH,
    ensures
        r@ == mds_matrix()[i as int][j as int],
{
    match (i, j) {
        (0, 0) => Fe { lo: 0xa9ae5ce9ca4a2d06e7f3fbd4c6666667, hi: 0x135b52945a13d9aa49b9b57c33cd568b },
        (0, 1) => Fe { lo: 0x4c2b4191bac53323b891a1fb48000001, hi: 0x285396b510feb022c442e4c2c1411ef8 },
        (0, 2) => Fe { lo: 0x4ee2d80a5a8834a709b290cbfdb6db6e, hi: 0x06e9c21069503b73ac9dc0d0edede80d },
        (0, 3) => Fe { lo: 0x832d6b3f6a82427f1b65b6e172000001, hi: 0x2a57c4a4850b6c2481463cffb1512d51 },
        (0, 4) => Fe { lo: 0xead8ce794fc1479d91ac688380000001, hi: 0x2b03d3f456650025159cafbeac013219 },
        (1, 0) => Fe { lo: 0x4c2b4191bac53323b891a1fb48000001, hi: 0x285396b510feb022c442e4c2c1411ef8 },
        (1, 1) => Fe { lo: 0x4ee2d80a5a8834a709b290cbfdb6db6e, hi: 0x06e9c21069503b73ac9dc0d0edede80d },
        (1, 2) => Fe { lo: 0x832d6b3f6a82427f1b65b6e172000001, hi: 0x2a57c4a4850b6c2481463cffb1512d51 },
        (1, 3) => Fe { lo: 0xead8ce794fc1479d91ac688380000001, hi: 0x2b03d3f456650025159cafbeac013219 },
        (1, 4) => Fe { lo: 0x68f122992201cecc15eaf8b45b333334, hi: 0x21dfd0839da2bcea0104fd995aa75774 },
        (2, 0) => Fe { lo: 0x4ee2d80a5a8834a709b290cbfdb6db6e, hi: 0x06e9c21069503b73ac9dc0d0edede80d },
        (2, 1) => Fe { lo: 0x832d6b3f6a82427f1b65b6e172000001, hi: 0x2a57c4a4850b6c2481463cffb1512d51 },
        (2, 2) => Fe { lo: 0xead8ce794fc1479d91ac688380000001, hi: 0x2b03d3f456650025159cafbeac013219 },
        (2, 3) => Fe { lo: 0x68f122992201cecc15eaf8b45b333334, hi: 0x21dfd0839da2bcea0104fd995aa75774 },
        (2, 4) => Fe { lo: 0x3d2a25ebcf2c28ef01697092e2e8ba2f, hi: 0x1198d6b56929518388d75f2b17d1f196 },
        (3, 0) => Fe { lo: 0x832d6b3f6a82427f1b65b6e172000001, hi: 0x2a57c4a4850b6c2481463cffb1512d51 },
        (3, 1) => Fe { lo: 0xead8ce794fc1479d91ac688380000001, hi: 0x2b03d3f456650025159cafbeac013219 },
        (3, 2) => Fe { lo: 0x68f122992201cecc15eaf8b45b333334, hi: 0x21dfd0839da2bcea0104fd995aa75774 },
        (3, 3) => Fe { lo: 0x3d2a25ebcf2c28ef01697092e2e8ba2f, hi: 0x1198d6b56929518388d75f2b17d1f196 },
        (3, 4) => Fe { lo: 0xba2f94ed1a3f51da7e39cbc79c000001, hi: 0x2c5bf293f91828263e49953ca1613baa },
        (4, 0) => Fe { lo: 0xead8ce794fc1479d91ac688380000001, hi: 0x2b03d3f456650025159cafbeac013219 },
        (4, 1) => Fe { lo: 0x68f122992201cecc15eaf8b45b333334, hi: 0x21dfd0839da2bcea0104fd995aa75774 },
        (4, 2) => Fe { lo: 0x3d2a25ebcf2c28ef01697092e2e8ba2f, hi: 0x1198d6b56929518388d75f2b17d1f196 },
        (4, 3) => Fe { lo: 0xba2f94ed1a3f51da7e39cbc79c000001, hi: 0x2c5bf293f91828263e49953ca1613baa },
        (4, 4) => Fe { lo: 0xc2a6117dfa350572660ba79c40000001, hi: 0x2cab5c1b46066c7547ac8f1e9eed8ca4 },
        _ => Fe::zero(),
    }
}

/// The parameter set of the metered entry point.
pub struct Params;

impl RoundParams for Params {
    open spec fn spec_full_rounds() -> nat {
        FULL_ROUNDS as nat
    }

    open spec fn spec_partial_rounds() -> nat {
        PARTIAL_ROUNDS as nat
    }

    open spec fn spec_round_constants() -> Seq<nat> {
        round_constant_table()
    }

    open spec fn spec_sbox(x: nat) -> nat {
        pow5(x)
    }

    open spec fn spec_mds(s: Seq<nat>) -> Seq<nat> {
        mds_mul(s)
    }

    proof fn lemma_table_shape() {
    }

    fn full_rounds() -> (r: usize) {
        FULL_ROUNDS
    }

    fn partial_rounds() -> (r: usize) {
        PARTIAL_ROUNDS
    }

    fn round_constants() -> (r: Vec<Fe>) {
        let mut v: Vec<Fe> = Vec::new();
        let mut k: usize = 0;
        while k < ROUND_CONSTANTS_COUNT
            invariant
                k <= ROUND_CONSTANTS_COUNT,
                v@.len() == k,
                all_wf(v@),
                fe_vals(v@) == round_constant_table().subrange(0, k as int),
            decreases ROUND_CONSTANTS_COUNT - k,
        {
            let c = round_constant(k);
            v.push(c);
            k += 1;
            assert(fe_vals(v@) =~= round_constant_table().subrange(0, k as int));
        }
        assert(round_constant_table().subrange(0, ROUND_CONSTANTS_COUNT as int) =~= round_constant_table());
        v
    }

    fn round_constants_count() -> (r: usize) {
        ROUND_CONSTANTS_COUNT
    }

    fn sbox(x: Fe) -> (r: Fe) {
        let x2 = fe_mul(x, x);
        let x4 = fe_mul(x2, x2);
        let x5 = fe_mul(x4, x);
        proof {
            let p = modulus() as int;
            let v = x@ as int;
            lemma_mul_mod_noop(v * v, v * v, p);
            lemma_mul_mod_noop(v * v * (v * v), v, p);
            assert(v % p == v);
            assert(v * v * (v * v) * v == v * v * v * v * v) by (nonlinear_arith);
        }
        x5
    }

    fn apply_mds(state: &[Fe; WIDTH]) -> (r: [Fe; WIDTH]) {
        let ghost s = fe_vals(state@);
        let mut r = *state;
        let mut i: usize = 0;
        while i < WIDTH
            invariant
                i <= WIDTH,
                all_wf(state@),
                s == fe_vals(state@),
                r@.len() == WIDTH,
                forall|k: int| 0 <= k < WIDTH ==> #[trigger] r@[k].wf(),
                forall|k: int|
                    0 <= k < i ==> #[trigger] r@[k]@ == dot(mds_matrix()[k], s, WIDTH as nat) % modulus(),
            decreases WIDTH - i,
        {
            let mut acc = Fe::zero();
            let mut j: usize = 0;
            while j < WIDTH
                invariant
                    i < WIDTH,
                    j <= WIDTH,
                    all_wf(state@),
                    s == fe_vals(state@),
                    acc.wf(),
                    acc@ == dot(mds_matrix()[i as int], s, j as nat) % modulus(),
                decreases WIDTH - j,
            {
                let m = mds_entry(i, j);
                let prod = fe_mul(m, state[j]);
                proof {
                    let row = mds_matrix()[i as int];
                    assert(state@[j as int].wf());
                    lemma_add_mod_noop(
                        dot(row, s, j as nat) as int,
                        (row[j as int] * s[j as int]) as int,
                        modulus() as int,
                    );
                }
                acc = fe_add(acc, prod);
                j += 1;
            }
            r[i] = acc;
            i += 1;
        }
        assert(fe_vals(r@) =~= mds_mul(s));
        r
    }
}

/// The table of this parameter set holds `WIDTH` constants for each of its
/// full and partial rounds.
pub proof fn lemma_round_constants_len()
    ensures
        Params::spec_round_constants().len() == WIDTH * (Params::spec_full_rounds()
            + Params::spec_partial_rounds()),
        Params::spec_full_rounds() % 2 == 0,
{
}

} // verus!
