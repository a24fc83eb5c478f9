use nnue::{Accumulator, Network, FEATURES, HIDDEN_SIZE, NETWORK_BYTES, QA};

/// An all-zero weight blob of the exact expected size.
fn zero_blob() -> Vec<u8> {
    vec![0u8; NETWORK_BYTES]
}

/// Store a signed 16-bit value little-endian at position `idx`, counted in
/// 16-bit units from the start of the blob.
fn put_i16(blob: &mut Vec<u8>, idx: usize, v: i16) {
    let b = v.to_le_bytes();
    blob[2 * idx] = b[0];
    blob[2 * idx + 1] = b[1];
}

/// Position of feature weight `(f, i)` in 16-bit units.
fn fw(f: usize, i: usize) -> usize {
    f * HIDDEN_SIZE + i
}

/// Position of feature bias element `i` in 16-bit units.
fn fb(i: usize) -> usize {
    FEATURES * HIDDEN_SIZE + i
}

/// Position of output weight `j` in 16-bit units.
fn ow(j: usize) -> usize {
    FEATURES * HIDDEN_SIZE + HIDDEN_SIZE + j
}

/// Position of the output bias in 16-bit units.
fn ob() -> usize {
    FEATURES * HIDDEN_SIZE + HIDDEN_SIZE + 2 * HIDDEN_SIZE
}

#[test]
fn crelu_clamps_at_boundaries() {
    assert_eq!(nnue::network::crelu(i16::MIN), 0);
    assert_eq!(nnue::network::crelu(-5), 0);
    assert_eq!(nnue::network::crelu(0), 0);
    assert_eq!(nnue::network::crelu(1), 1);
    assert_eq!(nnue::network::crelu(254), 254);
    assert_eq!(nnue::network::crelu(QA), QA as i32);
    assert_eq!(nnue::network::crelu(256), QA as i32);
    assert_eq!(nnue::network::crelu(i16::MAX), QA as i32);
}

#[test]
fn load_rejects_truncated_blob() {
    let blob = vec![0u8; NETWORK_BYTES - 1];
    assert!(Network::load(&blob).is_none());
}

#[test]
fn load_rejects_oversized_blob() {
    let blob = vec![0u8; NETWORK_BYTES + 1];
    assert!(Network::load(&blob).is_none());
}

#[test]
fn load_accepts_exact_blob() {
    assert!(Network::load(&zero_blob()).is_some());
}

#[test]
fn load_decodes_little_endian_signed_values() {
    let mut blob = zero_blob();
    // -1 is 0xFF 0xFF; 258 is 0x02 0x01 little-endian.
    put_i16(&mut blob, fb(0), -1);
    put_i16(&mut blob, fb(1), 258);
    put_i16(&mut blob, fb(HIDDEN_SIZE - 1), i16::MIN);
    let net = Network::load(&blob).unwrap();
    let acc = Accumulator::new(&net);
    assert_eq!(acc.val(0), -1);
    assert_eq!(acc.val(1), 258);
    assert_eq!(acc.val(HIDDEN_SIZE - 1), i16::MIN);
    assert_eq!(acc.val(2), 0);
}

#[test]
fn fresh_accumulator_copies_bias() {
    let mut blob = zero_blob();
    for i in 0..HIDDEN_SIZE {
        put_i16(&mut blob, fb(i), i as i16 - 60);
    }
    let net = Network::load(&blob).unwrap();
    let acc = Accumulator::new(&net);
    for i in 0..HIDDEN_SIZE {
        assert_eq!(acc.val(i), i as i16 - 60);
    }
}

#[test]
fn unit_output_bias_scores_zero() {
    // With all weights zero and output bias 1, the score is
    // (1 * 400) / (255 * 64) = 0 under truncating division.
    let mut blob = zero_blob();
    put_i16(&mut blob, ob(), 1);
    let net = Network::load(&blob).unwrap();
    let us = Accumulator::new(&net);
    let them = Accumulator::new(&net);
    assert_eq!(net.evaluate(&us, &them), 0);
    assert_eq!(net.checked_evaluate(&us, &them), Some(0));
}

#[test]
fn rescale_truncates_toward_zero() {
    // 41 * 400 = 16400, just above 255 * 64 = 16320: score 1.
    let mut blob = zero_blob();
    put_i16(&mut blob, ob(), 41);
    let net = Network::load(&blob).unwrap();
    let us = Accumulator::new(&net);
    let them = Accumulator::new(&net);
    assert_eq!(net.evaluate(&us, &them), 1);

    // -41 * 400 = -16400 must give -1, not the -2 of floor division.
    let mut blob2 = zero_blob();
    put_i16(&mut blob2, ob(), -41);
    let net2 = Network::load(&blob2).unwrap();
    let us2 = Accumulator::new(&net2);
    let them2 = Accumulator::new(&net2);
    assert_eq!(net2.evaluate(&us2, &them2), -1);
}

#[test]
fn add_then_remove_restores_accumulator() {
    let mut blob = zero_blob();
    put_i16(&mut blob, fb(0), 10);
    put_i16(&mut blob, fw(3, 0), 5);
    put_i16(&mut blob, fw(5, 0), 1);
    put_i16(&mut blob, fw(5, 127), 7);
    let net = Network::load(&blob).unwrap();
    let mut acc = Accumulator::new(&net);
    acc.add_feature(3, &net);
    let before = acc.clone();
    acc.add_feature(5, &net);
    acc.remove_feature(5, &net);
    assert!(acc == before);
}

#[test]
fn add_remove_order_is_immaterial() {
    let mut blob = zero_blob();
    put_i16(&mut blob, fb(0), 10);
    put_i16(&mut blob, fb(1), -4);
    put_i16(&mut blob, fw(3, 0), 5);
    put_i16(&mut blob, fw(3, 1), -2);
    put_i16(&mut blob, fw(5, 0), 1);
    put_i16(&mut blob, fw(5, 127), 7);
    put_i16(&mut blob, fw(7, 0), 100);
    let net = Network::load(&blob).unwrap();

    let mut a = Accumulator::new(&net);
    a.add_feature(3, &net);
    a.add_feature(5, &net);

    let mut b = Accumulator::new(&net);
    b.add_feature(5, &net);
    b.add_feature(3, &net);

    let mut c = Accumulator::new(&net);
    c.add_feature(3, &net);
    c.add_feature(7, &net);
    c.add_feature(5, &net);
    c.remove_feature(7, &net);

    let scratch = Accumulator::from_active_features(&net, &vec![3, 5]);

    // All histories with active set {3, 5} equal the from-scratch vector.
    assert!(a == b);
    assert!(a == c);
    assert!(a == scratch);
    assert_eq!(a.val(0), 16);
    assert_eq!(a.val(1), -6);
    assert_eq!(a.val(127), 7);
    assert_eq!(a.val(64), 0);
}

#[test]
fn evaluate_is_deterministic() {
    let mut blob = zero_blob();
    put_i16(&mut blob, fb(0), 10);
    put_i16(&mut blob, fw(3, 0), 5);
    put_i16(&mut blob, ow(0), 100);
    put_i16(&mut blob, ow(HIDDEN_SIZE), 7);
    let net = Network::load(&blob).unwrap();
    let mut us = Accumulator::new(&net);
    us.add_feature(3, &net);
    let them = Accumulator::new(&net);
    let first = net.evaluate(&us, &them);
    let second = net.evaluate(&us, &them);
    assert_eq!(first, second);
}

#[test]
fn swapping_perspectives_changes_score() {
    let mut blob = zero_blob();
    put_i16(&mut blob, fb(0), 10);
    put_i16(&mut blob, fw(3, 0), 5);
    put_i16(&mut blob, ow(0), 100);
    put_i16(&mut blob, ow(HIDDEN_SIZE), 7);
    let net = Network::load(&blob).unwrap();
    let mut us = Accumulator::new(&net);
    us.add_feature(3, &net);
    let them = Accumulator::new(&net);
    // (15 * 100 + 10 * 7) * 400 / 16320 = 628000 / 16320 -> 38
    assert_eq!(net.evaluate(&us, &them), 38);
    // (10 * 100 + 15 * 7) * 400 / 16320 = 442000 / 16320 -> 27
    assert_eq!(net.evaluate(&them, &us), 27);
    assert_ne!(net.evaluate(&us, &them), net.evaluate(&them, &us));
}

#[test]
fn evaluate_matches_hand_computation() {
    let mut blob = zero_blob();
    put_i16(&mut blob, fb(0), -20);
    put_i16(&mut blob, fb(1), 300);
    put_i16(&mut blob, fw(4, 0), 50);
    put_i16(&mut blob, fw(4, 1), -100);
    put_i16(&mut blob, ow(0), -3);
    put_i16(&mut blob, ow(1), 10);
    put_i16(&mut blob, ow(HIDDEN_SIZE), 2);
    put_i16(&mut blob, ow(HIDDEN_SIZE + 1), -4);
    put_i16(&mut blob, ob(), -7);
    let net = Network::load(&blob).unwrap();
    let mut us = Accumulator::new(&net);
    us.add_feature(4, &net);
    let them = Accumulator::new(&net);
    // us: vals 30, 200 -> clipped 30, 200; them: vals -20, 300 -> clipped 0, 255.
    // sum = -7 + (30 * -3 + 200 * 10) + (0 * 2 + 255 * -4) = 883
    // score = 883 * 400 / 16320 -> 21
    assert_eq!(net.evaluate(&us, &them), 21);
    assert_eq!(net.checked_evaluate(&us, &them), Some(21));
}
