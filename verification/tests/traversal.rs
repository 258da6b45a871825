use genomic::chromosome::fixed::FixedBits;
use genomic::chromosome::uniform::UniformCh;
use genomic::chromosome::GroupCh;
use genomic::traverse::{CrossoverMethod, Mutator};
use genomic::wrapper::MutationWrapper;
use genomic::{crossover, mutate, reproduce, Rate};
use rand::rngs::StdRng;
use rand::SeedableRng;
use std::collections::HashSet;

#[test]
fn test_wrap_ch() {
    let mut instance = UniformCh::new(0i64, -1, 1);
    let mut rng = StdRng::seed_from_u64(0xA5A5);
    let mut values = HashSet::new();
    for _ in 0..100 {
        mutate(&mut instance, Rate::one(), &mut rng);
        values.insert(instance.value);
        assert!(instance.value >= -1);
        assert!(instance.value <= 1);
    }
    assert_eq!(values.len(), 3);
}

fn run_group_crossover(method: CrossoverMethod) {
    let mut rng = StdRng::seed_from_u64(0x600D);
    for _ in 0..100 {
        let mut a = vec![GroupCh::new(vec![0i64, 1]), GroupCh::new(vec![2, 3])];
        let mut b = vec![GroupCh::new(vec![4i64, 5]), GroupCh::new(vec![6, 7])];
        crossover(&mut a, &mut b, method, &mut rng);
        assert_eq!(a[0].wrapped[1], a[0].wrapped[0] + 1);
        assert_eq!(b[0].wrapped[1], b[0].wrapped[0] + 1);
        assert_eq!(a[1].wrapped[1], a[1].wrapped[0] + 1);
        assert_eq!(b[1].wrapped[1], b[1].wrapped[0] + 1);
        for g in 0..2 {
            for k in 0..2 {
                assert_ne!(a[g].wrapped[k], b[g].wrapped[k]);
            }
        }
    }
}

#[test]
fn test_group() {
    run_group_crossover(CrossoverMethod::Uniform(Rate::new(500_000)));
    run_group_crossover(CrossoverMethod::KPoint(1));
}

#[test]
fn zero_rate_keeps_scalars() {
    let mut rng = StdRng::seed_from_u64(1);

    let mut a: u64 = 0xDEAD_BEEF;
    mutate(&mut a, Rate::zero(), &mut rng);
    assert_eq!(a, 0xDEAD_BEEF);

    let mut b: i64 = -123_456;
    mutate(&mut b, Rate::zero(), &mut rng);
    assert_eq!(b, -123_456);

    let mut c = FixedBits::new(-4i64, 3);
    mutate(&mut c, Rate::zero(), &mut rng);
    assert_eq!(c.value, -4);

    let mut d = UniformCh::new(2i64, -5, 5);
    mutate(&mut d, Rate::zero(), &mut rng);
    assert_eq!(d.value, 2);

    let mut e: Vec<u64> = vec![1, 2, 3, 4];
    mutate(&mut e, Rate::zero(), &mut rng);
    assert_eq!(e, vec![1, 2, 3, 4]);
}

#[test]
fn fixed_bits_covers_signed_window() {
    let mut rng = StdRng::seed_from_u64(2);
    let mut ch = FixedBits::new(0i64, 3);
    let mut seen = HashSet::new();
    for _ in 0..300 {
        mutate(&mut ch, Rate::one(), &mut rng);
        assert!(ch.value >= -4);
        assert!(ch.value <= 3);
        seen.insert(ch.value);
    }
    assert_eq!(seen.len(), 8);
}

#[test]
fn fixed_bits_single_bit_is_sign_only() {
    let mut rng = StdRng::seed_from_u64(3);
    let mut ch = FixedBits::new(0i64, 1);
    let mut seen = HashSet::new();
    for _ in 0..100 {
        mutate(&mut ch, Rate::one(), &mut rng);
        assert!(ch.value == 0 || ch.value == -1);
        seen.insert(ch.value);
    }
    assert_eq!(seen.len(), 2);
}

#[test]
fn fixed_bits_full_width_zero_rate() {
    let mut rng = StdRng::seed_from_u64(4);
    let mut ch = FixedBits::new(i64::MIN, 64);
    mutate(&mut ch, Rate::zero(), &mut rng);
    assert_eq!(ch.value, i64::MIN);
}

#[test]
fn uniform_walk_stays_in_bounds() {
    let mut rng = StdRng::seed_from_u64(5);
    for rate in [Rate::zero(), Rate::new(250_000), Rate::one()] {
        let mut ch = UniformCh::new(0i64, -17, 23);
        for _ in 0..200 {
            mutate(&mut ch, rate, &mut rng);
            assert!(ch.value >= -17);
            assert!(ch.value <= 23);
        }
    }
}

#[test]
fn uniform_walk_clamps_stray_values() {
    let mut rng = StdRng::seed_from_u64(6);
    let mut high = UniformCh::new(99i64, -5, 5);
    mutate(&mut high, Rate::zero(), &mut rng);
    assert_eq!(high.value, 5);
    let mut low = UniformCh::new(-99i64, -5, 5);
    mutate(&mut low, Rate::zero(), &mut rng);
    assert_eq!(low.value, -5);
}

#[test]
fn crossover_uniform_zero_swaps_nothing() {
    let mut rng = StdRng::seed_from_u64(7);
    let mut a: Vec<u64> = vec![1, 2, 3, 4, 5, 6];
    let mut b: Vec<u64> = vec![7, 8, 9, 10, 11, 12];
    crossover(&mut a, &mut b, CrossoverMethod::Uniform(Rate::zero()), &mut rng);
    assert_eq!(a, vec![1, 2, 3, 4, 5, 6]);
    assert_eq!(b, vec![7, 8, 9, 10, 11, 12]);
}

fn count_transitions(before: &[u64], after: &[u64]) -> usize {
    let mut transitions = 0;
    let mut parity = false;
    for i in 0..before.len() {
        let swapped = after[i] != before[i];
        if swapped != parity {
            transitions += 1;
            parity = swapped;
        }
    }
    transitions
}

#[test]
fn kpoint_transitions_trend_toward_desired() {
    let mut rng = StdRng::seed_from_u64(8);
    let desired = 5u64;
    let runs = 20;
    let mut total = 0usize;
    for _ in 0..runs {
        let a0: Vec<u64> = (0..100).collect();
        let b0: Vec<u64> = (1000..1100).collect();
        let mut a = a0.clone();
        let mut b = b0.clone();
        crossover(&mut a, &mut b, CrossoverMethod::KPoint(desired), &mut rng);
        let transitions = count_transitions(&a0, &a);
        assert!(transitions <= desired as usize);
        total += transitions;
    }
    // The single-pass placement converges on the target as positions run
    // out, so the average over many runs sits close to the desired count.
    assert!(total >= runs * (desired as usize - 1));
}

#[test]
fn crossover_preserves_combined_values() {
    let mut rng = StdRng::seed_from_u64(9);
    for method in [
        CrossoverMethod::Uniform(Rate::one()),
        CrossoverMethod::Uniform(Rate::new(500_000)),
        CrossoverMethod::KPoint(3),
    ] {
        let mut a: Vec<u64> = (0..32).collect();
        let mut b: Vec<u64> = (100..132).collect();
        crossover(&mut a, &mut b, method, &mut rng);
        let mut combined: Vec<u64> = a.iter().chain(b.iter()).copied().collect();
        combined.sort();
        let mut expected: Vec<u64> = (0..32).chain(100..132).collect();
        expected.sort();
        assert_eq!(combined, expected);
    }
}

#[test]
fn crossover_mismatched_lengths_leaves_tail() {
    let mut rng = StdRng::seed_from_u64(10);
    let mut a: Vec<u64> = vec![1, 2, 3];
    let mut b: Vec<u64> = vec![10, 20, 30, 40, 50];
    crossover(&mut a, &mut b, CrossoverMethod::Uniform(Rate::one()), &mut rng);
    assert_eq!(b[3], 40);
    assert_eq!(b[4], 50);
    let mut combined: Vec<u64> = a.iter().chain(b.iter()).copied().collect();
    combined.sort();
    assert_eq!(combined, vec![1, 2, 3, 10, 20, 30, 40, 50]);
}

#[test]
fn crossover_empty_is_noop() {
    let mut rng = StdRng::seed_from_u64(11);
    let mut a: Vec<u64> = Vec::new();
    let mut b: Vec<u64> = Vec::new();
    crossover(&mut a, &mut b, CrossoverMethod::KPoint(2), &mut rng);
    assert!(a.is_empty());
    assert!(b.is_empty());
}

#[test]
fn reproduce_with_zero_mutation_preserves_multiset() {
    let mut rng = StdRng::seed_from_u64(12);
    let left: Vec<u64> = (0..16).collect();
    let right: Vec<u64> = (50..66).collect();
    let (child_a, child_b) = reproduce(
        &left,
        &right,
        CrossoverMethod::Uniform(Rate::new(700_000)),
        Rate::zero(),
        &mut rng,
    );
    let mut combined: Vec<u64> = child_a.iter().chain(child_b.iter()).copied().collect();
    combined.sort();
    let mut expected: Vec<u64> = left.iter().chain(right.iter()).copied().collect();
    expected.sort();
    assert_eq!(combined, expected);
}

#[test]
fn reproduce_keeps_shapes() {
    let mut rng = StdRng::seed_from_u64(13);
    let left: Vec<u64> = vec![1, 2, 3, 4];
    let right: Vec<u64> = vec![5, 6, 7, 8];
    let (child_a, child_b) = reproduce(
        &left,
        &right,
        CrossoverMethod::KPoint(2),
        Rate::new(300_000),
        &mut rng,
    );
    assert_eq!(child_a.len(), 4);
    assert_eq!(child_b.len(), 4);
}

#[test]
fn rate_scaling_is_exact() {
    let rng = StdRng::seed_from_u64(14);
    let mut m = Mutator::new(Rate::new(600_000), rng);
    assert_eq!(m.get_rate(), Rate::new(600_000));
    m.multiply_rate(1, 2);
    assert_eq!(m.get_rate(), Rate::new(300_000));
    m.multiply_rate(5, 1);
    assert_eq!(m.get_rate(), Rate::one());
    m.restore_rate();
    assert_eq!(m.get_rate(), Rate::new(300_000));
    m.restore_rate();
    assert_eq!(m.get_rate(), Rate::new(600_000));
}

#[test]
fn wrapper_uniform_walk_respects_bounds() {
    let rng = StdRng::seed_from_u64(15);
    let mut m = Mutator::new(Rate::one(), rng);
    let wrapper = genomic::wrapper::uniform::UniformCh::new(-3i64, 3);
    let mut x: i64 = 10;
    for _ in 0..50 {
        m.with(&wrapper, &mut x);
        assert!(x >= -3);
        assert!(x <= 3);
    }
}

#[test]
fn wrapper_fixed_bits_keeps_high_bits() {
    let rng = StdRng::seed_from_u64(16);
    let mut m = Mutator::new(Rate::one(), rng);
    let wrapper = genomic::wrapper::fixed::FixedBits::new(4);
    let mut v: u64 = 0xF0;
    let mut seen = HashSet::new();
    for _ in 0..50 {
        m.with(&wrapper, &mut v);
        assert_eq!(v >> 4, 0xF);
        seen.insert(v);
    }
    assert!(seen.len() > 1);
}

#[test]
fn bit_flip_scrambles_at_full_rate() {
    let mut rng = StdRng::seed_from_u64(17);
    let mut seen = HashSet::new();
    let mut x: u64 = 0;
    for _ in 0..20 {
        mutate(&mut x, Rate::one(), &mut rng);
        seen.insert(x);
    }
    assert!(seen.iter().any(|v| *v != 0));
}

#[test]
fn bool_chromosome_toggles() {
    let mut rng = StdRng::seed_from_u64(18);
    let mut seen = HashSet::new();
    let mut flag = false;
    for _ in 0..100 {
        mutate(&mut flag, Rate::one(), &mut rng);
        seen.insert(flag);
    }
    assert_eq!(seen.len(), 2);
}

#[test]
fn tuple_crossover_preserves_combined_values() {
    let mut rng = StdRng::seed_from_u64(19);
    let mut a: (Vec<u64>, Vec<u64>) = (vec![1, 2], vec![3, 4]);
    let mut b: (Vec<u64>, Vec<u64>) = (vec![5, 6], vec![7, 8]);
    crossover(&mut a, &mut b, CrossoverMethod::Uniform(Rate::one()), &mut rng);
    let mut combined: Vec<u64> = a.0.iter()
        .chain(a.1.iter())
        .chain(b.0.iter())
        .chain(b.1.iter())
        .copied()
        .collect();
    combined.sort();
    assert_eq!(combined, vec![1, 2, 3, 4, 5, 6, 7, 8]);
}

#[test]
fn zero_rate_keeps_every_width() {
    let mut rng = StdRng::seed_from_u64(26);
    let mut a: u8 = 0xAB;
    mutate(&mut a, Rate::zero(), &mut rng);
    assert_eq!(a, 0xAB);
    let mut b: i8 = -77;
    mutate(&mut b, Rate::zero(), &mut rng);
    assert_eq!(b, -77);
    let mut c: u16 = 0xBEEF;
    mutate(&mut c, Rate::zero(), &mut rng);
    assert_eq!(c, 0xBEEF);
    let mut d: i16 = -12345;
    mutate(&mut d, Rate::zero(), &mut rng);
    assert_eq!(d, -12345);
    let mut e: u32 = 0xCAFE_F00D;
    mutate(&mut e, Rate::zero(), &mut rng);
    assert_eq!(e, 0xCAFE_F00D);
    let mut f: i32 = -7_654_321;
    mutate(&mut f, Rate::zero(), &mut rng);
    assert_eq!(f, -7_654_321);
}

#[test]
fn narrow_uniform_walk_stays_in_bounds() {
    let mut rng = StdRng::seed_from_u64(27);
    let mut ch = UniformCh::new(0i32, -9, 9);
    for _ in 0..100 {
        mutate(&mut ch, Rate::one(), &mut rng);
        assert!(ch.value >= -9);
        assert!(ch.value <= 9);
    }
    let mut uch = UniformCh::new(5u32, 2, 8);
    for _ in 0..100 {
        mutate(&mut uch, Rate::new(500_000), &mut rng);
        assert!(uch.value >= 2);
        assert!(uch.value <= 8);
    }
}

#[test]
fn fixed_bits_zero_rate_clamps_into_window() {
    let mut rng = StdRng::seed_from_u64(28);
    // The four-bit two's-complement window is [-8, 7].
    let mut high = FixedBits::new(100i64, 4);
    mutate(&mut high, Rate::zero(), &mut rng);
    assert_eq!(high.value, 7);
    let mut low = FixedBits::new(-100i64, 4);
    mutate(&mut low, Rate::zero(), &mut rng);
    assert_eq!(low.value, -8);
}

#[test]
fn uniform_walk_window_is_exact() {
    let mut rng = StdRng::seed_from_u64(29);
    // Span 10 at rate 0.2 gives a window of width 2 around the value.
    for _ in 0..100 {
        let mut ch = UniformCh::new(5i64, 0, 10);
        mutate(&mut ch, Rate::new(200_000), &mut rng);
        assert!(ch.value >= 4);
        assert!(ch.value <= 6);
    }
}

#[test]
fn uniform_from_tuple_conversion() {
    let ch: UniformCh<i64> = UniformCh::from((2i64, (-5i64, 5i64)));
    assert_eq!(ch.value, 2);
    assert_eq!(ch.min, -5);
    assert_eq!(ch.max, 5);
    let uch: UniformCh<u64> = UniformCh::from((7u64, (1u64, 9u64)));
    assert_eq!(uch.value, 7);
    assert_eq!(uch.min, 1);
    assert_eq!(uch.max, 9);
}

#[test]
fn wide_scalars_zero_rate_and_exchange() {
    let mut rng = StdRng::seed_from_u64(30);
    let mut a: u128 = 0xDEAD_BEEF_0123_4567_89AB_CDEF_0011_2233;
    mutate(&mut a, Rate::zero(), &mut rng);
    assert_eq!(a, 0xDEAD_BEEF_0123_4567_89AB_CDEF_0011_2233);
    let mut b: i128 = -0x0123_4567_89AB_CDEF_0011_2233_4455_6677;
    mutate(&mut b, Rate::zero(), &mut rng);
    assert_eq!(b, -0x0123_4567_89AB_CDEF_0011_2233_4455_6677);

    let mut left: Vec<u128> = vec![1, 2, 3];
    let mut right: Vec<u128> = vec![100, 200, 300];
    crossover(&mut left, &mut right, CrossoverMethod::Uniform(Rate::one()), &mut rng);
    let mut combined: Vec<u128> = left.iter().chain(right.iter()).copied().collect();
    combined.sort();
    assert_eq!(combined, vec![1, 2, 3, 100, 200, 300]);
}

#[test]
fn narrow_wrappers_respect_windows() {
    let rng = StdRng::seed_from_u64(31);
    let mut m = Mutator::new(Rate::one(), rng);
    let walk = genomic::wrapper::uniform::UniformCh::new(-4i32, 4);
    let mut x: i32 = 100;
    for _ in 0..50 {
        m.with(&walk, &mut x);
        assert!(x >= -4);
        assert!(x <= 4);
    }
    let bits = genomic::wrapper::fixed::FixedBits::new(4);
    let mut v: u32 = 0xA0;
    for _ in 0..50 {
        m.with(&bits, &mut v);
        assert_eq!(v >> 4, 0xA);
    }
    let mut w: i32 = 99;
    let signed_bits = genomic::wrapper::fixed::FixedBits::new(3);
    for _ in 0..50 {
        m.with(&signed_bits, &mut w);
        assert!(w >= -4);
        assert!(w <= 3);
    }
}

#[test]
fn narrow_uniform_chromosomes_stay_in_bounds() {
    let mut rng = StdRng::seed_from_u64(32);
    let mut a = UniformCh::new(0i16, -6, 6);
    let mut b = UniformCh::new(3u16, 1, 9);
    let mut c = UniformCh::new(0i8, -2, 2);
    let mut d = UniformCh::new(5u8, 2, 8);
    for _ in 0..100 {
        mutate(&mut a, Rate::one(), &mut rng);
        assert!(a.value >= -6 && a.value <= 6);
        mutate(&mut b, Rate::one(), &mut rng);
        assert!(b.value >= 1 && b.value <= 9);
        mutate(&mut c, Rate::one(), &mut rng);
        assert!(c.value >= -2 && c.value <= 2);
        mutate(&mut d, Rate::one(), &mut rng);
        assert!(d.value >= 2 && d.value <= 8);
    }
}

#[test]
fn group_mutation_passes_rate_through() {
    let mut rng = StdRng::seed_from_u64(20);
    let mut grouped = GroupCh::new(vec![9u64, 8, 7]);
    mutate(&mut grouped, Rate::zero(), &mut rng);
    assert_eq!(grouped.wrapped, vec![9, 8, 7]);
}
