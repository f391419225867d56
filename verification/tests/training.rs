use rand::rngs::StdRng;
use rand::SeedableRng;

use neural_network::backward_schedule;
use neural_network::count_correct;
use neural_network::float_sort_key;
use neural_network::mini_batch_ranges;
use neural_network::shuffle;
use neural_network::ActivationFunction;
use neural_network::CostFunction;

#[test]
fn backward_schedule_walks_layers_in_reverse() {
    assert_eq!(backward_schedule(2), vec![(0, 0)]);
    assert_eq!(backward_schedule(3), vec![(1, 0), (0, 0)]);
    assert_eq!(backward_schedule(5), vec![(3, 2), (2, 1), (1, 0), (0, 0)]);
}

#[test]
fn mini_batches_partition_the_samples() {
    assert_eq!(
        mini_batch_ranges(10, 3),
        vec![(0, 3), (3, 6), (6, 9), (9, 10)]
    );
}

#[test]
fn mini_batches_exact_fit() {
    assert_eq!(mini_batch_ranges(8, 4), vec![(0, 4), (4, 8)]);
}

#[test]
fn mini_batches_short_remainder_is_kept() {
    assert_eq!(mini_batch_ranges(3, 5), vec![(0, 3)]);
}

#[test]
fn mini_batches_of_no_samples() {
    assert_eq!(mini_batch_ranges(0, 5), Vec::<(usize, usize)>::new());
}

#[test]
fn mini_batches_of_size_one() {
    assert_eq!(mini_batch_ranges(3, 1), vec![(0, 1), (1, 2), (2, 3)]);
}

#[test]
fn shuffle_keeps_exactly_the_samples() {
    let mut rng = StdRng::seed_from_u64(17);
    let samples: Vec<usize> = (0..50).collect();
    let shuffled = shuffle(&mut rng, samples.clone());
    let mut sorted = shuffled.clone();
    sorted.sort();
    assert_eq!(sorted, samples);
}

#[test]
fn shuffle_is_reproducible_from_the_seed() {
    let samples: Vec<u32> = (0..30).collect();
    let mut rng_a = StdRng::seed_from_u64(99);
    let mut rng_b = StdRng::seed_from_u64(99);
    let a = shuffle(&mut rng_a, samples.clone());
    let b = shuffle(&mut rng_b, samples);
    assert_eq!(a, b);
}

#[test]
fn shuffle_of_pairs_keeps_pairs_together() {
    let mut rng = StdRng::seed_from_u64(3);
    let samples: Vec<(u32, u32)> = vec![(1, 10), (2, 20), (3, 30), (4, 40)];
    let mut shuffled = shuffle(&mut rng, samples.clone());
    shuffled.sort();
    assert_eq!(shuffled, samples);
}

fn encoded(values: &[f32]) -> Vec<u32> {
    values.iter().map(|x| float_sort_key(x.to_bits())).collect()
}

#[test]
fn count_correct_counts_matching_argmax_positions() {
    let pairs: Vec<(Vec<u32>, Vec<u32>)> = vec![
        // leftmost maximum at 1 on both sides: correct
        (encoded(&[0.1, 0.9, 0.3]), encoded(&[0.0, 1.0, 0.0])),
        // maxima at 0 and 2: wrong
        (encoded(&[0.8, 0.1, 0.3]), encoded(&[0.0, 0.0, 1.0])),
        // tie at 0 and 2 breaks to 0 on the output side: wrong
        (encoded(&[0.9, 0.1, 0.9]), encoded(&[0.0, 0.0, 1.0])),
        // tie breaks to 0 on both sides: correct
        (encoded(&[0.7, 0.7, 0.1]), encoded(&[1.0, 0.0, 0.0])),
    ];
    assert_eq!(count_correct(&pairs), 2);
}

#[test]
fn count_correct_of_no_samples_is_zero() {
    let pairs: Vec<(Vec<u32>, Vec<u32>)> = Vec::new();
    assert_eq!(count_correct(&pairs), 0);
}

#[test]
fn sigmoid_supports_elementwise_evaluation() {
    assert!(ActivationFunction::Sigmoid.supports_elementwise());
    assert!(!ActivationFunction::Softmax.supports_elementwise());
}

#[test]
fn fused_gradient_pairings_are_the_implemented_ones() {
    let sigmoid = ActivationFunction::Sigmoid;
    let softmax = ActivationFunction::Softmax;
    assert!(CostFunction::Quadratic.c_dz_implemented(&sigmoid));
    assert!(!CostFunction::Quadratic.c_dz_implemented(&softmax));
    assert!(CostFunction::CrossEntropy.c_dz_implemented(&sigmoid));
    assert!(!CostFunction::CrossEntropy.c_dz_implemented(&softmax));
    assert!(CostFunction::LogLikelyhood.c_dz_implemented(&softmax));
    assert!(!CostFunction::LogLikelyhood.c_dz_implemented(&sigmoid));
}

#[test]
fn only_the_quadratic_cost_has_a_plain_derivative() {
    assert!(CostFunction::Quadratic.derivative_implemented());
    assert!(!CostFunction::CrossEntropy.derivative_implemented());
    assert!(!CostFunction::LogLikelyhood.derivative_implemented());
}
