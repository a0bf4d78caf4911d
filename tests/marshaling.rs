use klur::{marshal, unmarshal};

#[test]
fn complex_values_interleave_real_and_imaginary() {
    let z = vec![(1.0, -1.0), (2.5, 0.5), (0.0, 3.0)];
    assert_eq!(marshal(&z), vec![1.0, -1.0, 2.5, 0.5, 0.0, 3.0]);
}

#[test]
fn interleaved_buffer_reads_back_as_pairs() {
    let buf = vec![4.0, 5.0, 6.0, 7.0];
    assert_eq!(unmarshal(&buf), vec![(4.0, 5.0), (6.0, 7.0)]);
}

#[test]
fn complex_round_trip_is_lossless() {
    let z = vec![(0.1, 0.2), (-3.0, 1e-300), (f64::MAX, f64::MIN_POSITIVE)];
    assert_eq!(unmarshal(&marshal(&z)), z);
}

#[test]
fn empty_buffers_marshal_to_empty() {
    let z: Vec<(f64, f64)> = Vec::new();
    assert!(marshal(&z).is_empty());
    let buf: Vec<f64> = Vec::new();
    assert!(unmarshal(&buf).is_empty());
}

#[test]
fn stacked_vectors_marshal_one_after_another() {
    let a = vec![(1.0, 2.0), (3.0, 4.0)];
    let b = vec![(5.0, 6.0), (7.0, 8.0)];
    let mut both = a.clone();
    both.extend(b.iter().copied());
    let mut expected = marshal(&a);
    expected.extend(marshal(&b));
    assert_eq!(marshal(&both), expected);
}
