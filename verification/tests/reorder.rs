use genomic::traverse::Mutator;
use genomic::wrapper::reorder::ReorderGenome;
use genomic::wrapper::MutationWrapper;
use genomic::Rate;
use rand::rngs::StdRng;
use rand::SeedableRng;
use std::collections::HashMap;

fn is_permutation_of_0_to_3(values: impl Iterator<Item = u32>) -> bool {
    let mut counts = [0usize; 4];
    for v in values {
        counts[v as usize] += 1;
    }
    counts.iter().all(|c| *c == 1)
}

#[test]
fn test_reorder_vec() {
    let mut values: Vec<u32> = vec![0, 1, 2, 3];
    let mut rng = StdRng::seed_from_u64(21);
    for _ in 0..100 {
        let session_rng = StdRng::seed_from_u64(rand::Rng::gen(&mut rng));
        let mut m = Mutator::new(Rate::new(250_000), session_rng);
        ReorderGenome::Swap.mutate_with(&mut values, &mut m);
        assert!(is_permutation_of_0_to_3(values.iter().copied()));
    }
}

#[test]
fn test_reorder_boxed_slice() {
    let mut values: Box<[u32]> = vec![0, 1, 2, 3].into_boxed_slice();
    let mut rng = StdRng::seed_from_u64(22);
    for _ in 0..100 {
        let session_rng = StdRng::seed_from_u64(rand::Rng::gen(&mut rng));
        let mut m = Mutator::new(Rate::new(250_000), session_rng);
        let mut buffer = values.into_vec();
        ReorderGenome::Swap.mutate_with(&mut buffer, &mut m);
        values = buffer.into_boxed_slice();
        assert!(is_permutation_of_0_to_3(values.iter().copied()));
    }
}

#[test]
fn test_reorder_hashmap() {
    let mut values: HashMap<usize, u32> = HashMap::from([(0, 0), (1, 1), (2, 2), (3, 3)]);
    let mut rng = StdRng::seed_from_u64(23);
    for _ in 0..100 {
        let session_rng = StdRng::seed_from_u64(rand::Rng::gen(&mut rng));
        let mut m = Mutator::new(Rate::new(250_000), session_rng);
        let keys: Vec<usize> = values.keys().copied().collect();
        let mut buffer: Vec<u32> = keys.iter().map(|k| values[k]).collect();
        ReorderGenome::Swap.mutate_with(&mut buffer, &mut m);
        for (k, v) in keys.iter().zip(buffer.iter()) {
            values.insert(*k, *v);
        }
        assert!(is_permutation_of_0_to_3(values.values().copied()));
    }
}

#[test]
fn reorder_zero_rate_keeps_order() {
    let mut values: Vec<u32> = vec![4, 3, 2, 1, 0];
    let session_rng = StdRng::seed_from_u64(24);
    let mut m = Mutator::new(Rate::zero(), session_rng);
    ReorderGenome::Swap.mutate_with(&mut values, &mut m);
    assert_eq!(values, vec![4, 3, 2, 1, 0]);
}

#[test]
fn reorder_positive_rate_moves_something() {
    let mut moved = false;
    for seed in 0..10u64 {
        let mut values: Vec<u32> = (0..8).collect();
        let session_rng = StdRng::seed_from_u64(25 + seed);
        // Small positive rate: the floor of one swap still applies.
        let mut m = Mutator::new(Rate::new(1), session_rng);
        ReorderGenome::Swap.mutate_with(&mut values, &mut m);
        let mut sorted = values.clone();
        sorted.sort();
        assert_eq!(sorted, (0..8).collect::<Vec<u32>>());
        if values != (0..8).collect::<Vec<u32>>() {
            moved = true;
        }
    }
    assert!(moved);
}

#[test]
fn reorder_single_element_is_left_alone() {
    let mut values: Vec<u32> = vec![42];
    let session_rng = StdRng::seed_from_u64(35);
    let mut m = Mutator::new(Rate::one(), session_rng);
    ReorderGenome::Swap.mutate_with(&mut values, &mut m);
    assert_eq!(values, vec![42]);
}

#[test]
fn reorder_size_hint_counts_elements() {
    let values: Vec<u32> = vec![5, 6, 7];
    assert_eq!(ReorderGenome::Swap.size_hint(&values), 3);
}
