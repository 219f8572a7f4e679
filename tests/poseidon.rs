use poseidon::hasher::{full_rounds_phase, partial_rounds_phase};
use poseidon::params::{Params, FULL_ROUNDS, PARTIAL_ROUNDS, ROUND_CONSTANTS_COUNT};
use poseidon::{run, Fe, Poseidon, PoseidonError, RoundParams, HASH_ADDRESS, WIDTH};
use substrate_bn::arith::U256;
use substrate_bn::Fr;

fn hex32(s: &str) -> Vec<u8> {
    (0..32)
        .map(|i| u8::from_str_radix(&s[2 * i..2 * i + 2], 16).unwrap())
        .collect()
}

fn to_fr(f: Fe) -> Fr {
    Fr::new(U256([f.lo, f.hi])).unwrap()
}

fn from_fr(f: Fr) -> Fe {
    let u = f.into_u256();
    Fe { lo: u.0[0], hi: u.0[1] }
}

fn small(n: u128) -> Fe {
    Fe { lo: n, hi: 0 }
}

fn fr_small(n: u64) -> Fr {
    Fr::new(U256::from(n)).unwrap()
}

fn pow5(x: Fr) -> Fr {
    x * x * x * x * x
}

fn mds_ref(s: [Fr; 5]) -> [Fr; 5] {
    let mut out = [Fr::zero(); 5];
    for i in 0..5 {
        for j in 0..5 {
            let m = fr_small((i + j + 5) as u64).inverse().unwrap();
            out[i] = out[i] + m * s[j];
        }
    }
    out
}

fn constants_ref() -> Vec<Fr> {
    Params::round_constants().into_iter().map(to_fr).collect()
}

fn full_round_ref(s: [Fr; 5], c: &[Fr]) -> [Fr; 5] {
    let mut t = s;
    for i in 0..5 {
        t[i] = pow5(t[i] + c[i]);
    }
    mds_ref(t)
}

fn partial_round_ref(s: [Fr; 5], c: &[Fr]) -> [Fr; 5] {
    let mut t = s;
    for i in 0..5 {
        t[i] = t[i] + c[i];
    }
    t[0] = pow5(t[0]);
    mds_ref(t)
}

fn frs(s: [Fe; 5]) -> [Fr; 5] {
    [to_fr(s[0]), to_fr(s[1]), to_fr(s[2]), to_fr(s[3]), to_fr(s[4])]
}

#[test]
fn zero_input_known_vector() {
    let out = run(&[0u8; 32], 50).unwrap();
    assert_eq!(out.cost, 50);
    assert_eq!(
        out.output,
        hex32("2ca3819a73b10108eff637cd157200c891dd14d9e2059491f86ee50b3020554c")
    );
}

#[test]
fn one_input_known_vector() {
    let mut input = [0u8; 32];
    input[31] = 1;
    let out = run(&input, 1000).unwrap();
    assert_eq!(
        out.output,
        hex32("267d06bdfbc9ec77ccebe42064d708340647dbf328c08e7b7365402f85acdbcd")
    );
}

#[test]
fn largest_field_element_known_vector() {
    let input = hex32("30644e72e131a029b85045b68181585d2833e84879b9709143e1f593f0000000");
    let out = run(&input, 50).unwrap();
    assert_eq!(
        out.output,
        hex32("011be8a590fbb7c1211593808343de60b39206ce392a54a4c22a9e18711b9992")
    );
}

#[test]
fn out_of_range_input_is_reduced() {
    let all_ff = [0xffu8; 32];
    let out = run(&all_ff, 50).unwrap();
    assert_eq!(
        out.output,
        hex32("2fde653d5fe2e45374fd035341d2fc6c8120f16d3c72989015b94c880ccf6eee")
    );
    let order = hex32("30644e72e131a029b85045b68181585d2833e84879b9709143e1f593f0000001");
    assert_eq!(run(&order, 50).unwrap(), run(&[0u8; 32], 50).unwrap());
}

#[test]
fn wrong_length_regardless_of_budget() {
    for len in [0usize, 1, 31, 33, 64] {
        let input = vec![0u8; len];
        for budget in [0u64, 49, 50, 1000, u64::MAX] {
            assert_eq!(run(&input, budget), Err(PoseidonError::WrongLength));
        }
    }
}

#[test]
fn budget_gate() {
    let input = [7u8; 32];
    for budget in [0u64, 1, 49] {
        assert_eq!(run(&input, budget), Err(PoseidonError::OutOfBudget));
    }
    for budget in [50u64, 51, 1000, u64::MAX] {
        let out = run(&input, budget).unwrap();
        assert_eq!(out.cost, 50);
        assert_eq!(out.output.len(), 32);
    }
}

#[test]
fn same_call_same_result() {
    let input = hex32("52f22665a60c12d289185d950ee8813609166f6b113d178d6c0fd3901ff239a1");
    let a = run(&input, 50).unwrap();
    let b = run(&input, 50).unwrap();
    let c = run(&input, 9999).unwrap();
    assert_eq!(a, b);
    assert_eq!(a, c);
}

#[test]
fn single_bit_flips_change_nearly_every_byte() {
    let bases = [
        [0u8; 32],
        hex32("52f22665a60c12d289185d950ee8813609166f6b113d178d6c0fd3901ff239a1")
            .try_into()
            .unwrap(),
        hex32("a095f20f9395650cf9380b8edb224a6b248a1e924e8fd0ae2e1a9492a3305f18")
            .try_into()
            .unwrap(),
    ];
    for base in bases {
        let h0 = run(&base, 50).unwrap().output;
        for bit in [0usize, 1, 7, 100, 200, 255] {
            let mut flipped = base;
            flipped[bit / 8] ^= 1 << (bit % 8);
            let h1 = run(&flipped, 50).unwrap().output;
            let differing = h0.iter().zip(h1.iter()).filter(|(a, b)| a != b).count();
            assert!(differing >= 28, "bit {} changed only {} bytes", bit, differing);
        }
    }
}

#[test]
fn round_constant_table_shape() {
    assert_eq!(FULL_ROUNDS % 2, 0);
    assert_eq!(Params::full_rounds(), FULL_ROUNDS);
    assert_eq!(Params::partial_rounds(), PARTIAL_ROUNDS);
    let rc = Params::round_constants();
    assert_eq!(rc.len(), WIDTH * (FULL_ROUNDS + PARTIAL_ROUNDS));
    assert_eq!(rc.len(), Params::round_constants_count());
    assert_eq!(rc.len(), ROUND_CONSTANTS_COUNT);
}

#[test]
fn phases_match_reference_trace() {
    let rc = Params::round_constants();
    let rc_ref = constants_ref();
    let half = FULL_ROUNDS / 2;
    let e1 = half * WIDTH;
    let e2 = e1 + PARTIAL_ROUNDS * WIDTH;
    let x = Fe { lo: 0x1234_5678_9abc_def0, hi: 0x0fed_cba9 };
    let start = [x; 5];

    let s1 = full_rounds_phase::<Params>(start, &rc[0..e1], half);
    let mut t = frs(start);
    for k in 0..half {
        t = full_round_ref(t, &rc_ref[k * 5..k * 5 + 5]);
    }
    assert_eq!(frs(s1), t);

    let s2 = partial_rounds_phase::<Params>(s1, &rc[e1..e2], PARTIAL_ROUNDS);
    for k in 0..PARTIAL_ROUNDS {
        t = partial_round_ref(t, &rc_ref[e1 + k * 5..e1 + k * 5 + 5]);
    }
    assert_eq!(frs(s2), t);

    let s3 = full_rounds_phase::<Params>(s2, &rc[e2..], half);
    for k in 0..half {
        t = full_round_ref(t, &rc_ref[e2 + k * 5..e2 + k * 5 + 5]);
    }
    assert_eq!(frs(s3), t);

    assert_eq!(Poseidon::<Params>::new(start).permute(), s3);
}

#[test]
fn last_phase_restarts_its_round_index() {
    let rc = Params::round_constants();
    let half = FULL_ROUNDS / 2;
    let e1 = half * WIDTH;
    let e2 = e1 + PARTIAL_ROUNDS * WIDTH;
    let start = [small(3); 5];
    let s1 = full_rounds_phase::<Params>(start, &rc[0..e1], half);
    let s2 = partial_rounds_phase::<Params>(s1, &rc[e1..e2], PARTIAL_ROUNDS);
    let right = full_rounds_phase::<Params>(s2, &rc[e2..], half);
    let continued = full_rounds_phase::<Params>(s2, &rc[e2 - half * WIDTH..], half);
    assert_eq!(Poseidon::<Params>::new(start).permute(), right);
    assert_ne!(right, continued);
}

#[test]
fn permute_of_broadcast_zero_matches_run() {
    let out = Poseidon::<Params>::new([Fe::zero(); 5]).permute();
    let u = U256([out[0].lo, out[0].hi]);
    let mut bytes = [0u8; 32];
    u.to_big_endian(&mut bytes).unwrap();
    assert_eq!(bytes.to_vec(), run(&[0u8; 32], 50).unwrap().output);
}

#[test]
fn sbox_is_fifth_power() {
    assert_eq!(Params::sbox(small(2)), small(32));
    assert_eq!(Params::sbox(small(0)), small(0));
    let x = Fe { lo: 0xdead_beef, hi: 0x1234 };
    assert_eq!(Params::sbox(x), from_fr(pow5(to_fr(x))));
}

#[test]
fn round_constants_wrap_around_the_order() {
    let minus_one = Fe { lo: 0x2833e84879b9709143e1f593f0000000, hi: 0x30644e72e131a029b85045b68181585d };
    let state = [minus_one, small(1), small(2), small(3), small(4)];
    let consts = [small(2), small(5), small(0), small(10), small(20)];
    let r = Params::apply_round_constants(&state, &consts);
    assert_eq!(r, [small(1), small(6), small(2), small(13), small(24)]);
}

#[test]
fn mds_matches_cauchy_matrix() {
    let state = [small(1), small(2), small(3), small(4), small(5)];
    let r = Params::apply_mds(&state);
    let expected = mds_ref(frs(state));
    assert_eq!(frs(r), expected);
    assert_ne!(r, state);
}

#[test]
fn load_round_constants_takes_window() {
    let rc = Params::round_constants();
    let w = Params::load_round_constants(3, &rc[5..30]);
    assert_eq!(w.to_vec(), rc[20..25].to_vec());
    let first = Params::load_round_constants(0, &rc);
    assert_eq!(first.to_vec(), rc[0..5].to_vec());
}

#[test]
fn address_is_fixed() {
    assert_eq!(HASH_ADDRESS, 0x10F2C);
}
