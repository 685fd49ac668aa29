use morra::commitment::{commit, encode_move, verify};

const DIGEST_3_5_SEVENS: [u8; 32] = [
    128, 68, 53, 9, 243, 167, 113, 69, 37, 140, 108, 70, 24, 23, 152, 51, 4, 87, 10, 112, 99, 206,
    175, 33, 68, 56, 88, 214, 49, 6, 201, 123,
];

const DIGEST_2_5_COUNTING: [u8; 32] = [
    36, 228, 138, 167, 244, 89, 226, 146, 109, 145, 17, 3, 91, 128, 39, 43, 237, 146, 228, 107,
    160, 22, 206, 193, 87, 116, 75, 141, 222, 192, 189, 193,
];

const DIGEST_1_2_ZEROS: [u8; 32] = [
    204, 222, 112, 95, 3, 8, 90, 162, 75, 247, 169, 150, 93, 122, 213, 205, 221, 207, 155, 250, 1,
    132, 250, 95, 78, 58, 81, 120, 22, 31, 155, 208,
];

fn counting() -> [u8; 32] {
    let mut secret = [0u8; 32];
    for (i, byte) in secret.iter_mut().enumerate() {
        *byte = i as u8;
    }
    secret
}

#[test]
fn encoding_is_card_prediction_secret() {
    let bytes = encode_move(3, 5, &counting());
    assert_eq!(bytes.len(), 34);
    assert_eq!(bytes[0], 3);
    assert_eq!(bytes[1], 5);
    assert_eq!(&bytes[2..], &counting()[..]);
}

#[test]
fn commit_is_sha256_of_the_encoding() {
    assert_eq!(commit(3, 5, &[7u8; 32]), DIGEST_3_5_SEVENS);
    assert_eq!(commit(2, 5, &counting()), DIGEST_2_5_COUNTING);
    assert_eq!(commit(1, 2, &[0u8; 32]), DIGEST_1_2_ZEROS);
}

#[test]
fn commit_does_not_echo_its_input() {
    let secret = [7u8; 32];
    let digest = commit(3, 5, &secret);
    assert_ne!(digest, secret);
    assert_ne!(&digest[..], &encode_move(3, 5, &secret)[..32]);
}

#[test]
fn verify_accepts_what_commit_produced() {
    for card in 1u8..=5 {
        for prediction in 2u8..=10 {
            let secret = [card.wrapping_mul(31).wrapping_add(prediction); 32];
            let commitment = commit(card, prediction, &secret);
            assert!(verify(&commitment, card, prediction, &secret));
        }
    }
}

#[test]
fn verify_accepts_known_digest() {
    assert!(verify(&DIGEST_3_5_SEVENS, 3, 5, &[7u8; 32]));
    assert!(verify(&DIGEST_2_5_COUNTING, 2, 5, &counting()));
}

#[test]
fn verify_rejects_another_card() {
    let secret = [7u8; 32];
    let commitment = commit(3, 5, &secret);
    for card in 0u8..=255 {
        if card != 3 {
            assert!(!verify(&commitment, card, 5, &secret));
        }
    }
}

#[test]
fn verify_rejects_another_prediction() {
    let secret = [7u8; 32];
    let commitment = commit(3, 5, &secret);
    for prediction in 0u8..=255 {
        if prediction != 5 {
            assert!(!verify(&commitment, 3, prediction, &secret));
        }
    }
}

#[test]
fn verify_rejects_a_secret_changed_in_one_byte() {
    let secret = counting();
    let commitment = commit(4, 9, &secret);
    for position in 0..32 {
        let mut changed = secret;
        changed[position] ^= 1;
        assert!(!verify(&commitment, 4, 9, &changed));
        changed[position] = secret[position].wrapping_add(128);
        assert!(!verify(&commitment, 4, 9, &changed));
    }
    assert!(verify(&commitment, 4, 9, &secret));
}

#[test]
fn verify_rejects_a_commitment_changed_in_one_byte() {
    let secret = [7u8; 32];
    for position in 0..32 {
        let mut commitment = DIGEST_3_5_SEVENS;
        commitment[position] ^= 0x80;
        assert!(!verify(&commitment, 3, 5, &secret));
    }
}

#[test]
fn card_and_prediction_are_not_interchangeable() {
    let secret = [9u8; 32];
    assert_ne!(commit(2, 5, &secret), commit(5, 2, &secret));
    assert!(!verify(&commit(2, 5, &secret), 5, 2, &secret));
}
