use rock_paper_scissors::game::{Hand, Round};
use rock_paper_scissors::util::{bytes_to_hex, gen_random_bytes, sha256_hex};
use sha2::{Digest, Sha256};

fn reference_sha256_hex(s: &str) -> String {
    let digest = Sha256::digest(s.as_bytes());
    let mut out = String::new();
    for b in digest.iter() {
        out.push_str(&format!("{:02x}", b));
    }
    out
}

#[test]
fn bytes_to_hex_pads_each_byte() {
    assert_eq!(bytes_to_hex(&[0x00, 0x0f, 0xa5]), "000fa5");
    assert_eq!(bytes_to_hex(&[]), "");
    assert_eq!(bytes_to_hex(&[0xff]), "ff");
    assert_eq!(bytes_to_hex(&[1, 2, 3]), "010203");
}

#[test]
fn gen_random_bytes_has_the_asked_length() {
    assert_eq!(gen_random_bytes(32).len(), 32);
    assert_eq!(gen_random_bytes(0).len(), 0);
    assert_eq!(gen_random_bytes(7).len(), 7);
}

#[test]
fn fresh_nonces_differ() {
    let a = gen_random_bytes(32);
    let b = gen_random_bytes(32);
    assert_ne!(a, b);
}

#[test]
fn sha256_hex_matches_known_digests() {
    assert_eq!(
        sha256_hex(""),
        "e3b0c44298fc1c149afbf4c8996fb92427ae41e4649b934ca495991b7852b855"
    );
    assert_eq!(
        sha256_hex("abc"),
        "ba7816bf8f01cfea414140de5dae2223b00361a396177a9cb410ff61f20015ad"
    );
}

#[test]
fn zero_nonce_paper_verification_string() {
    let nonce = [0u8; 32];
    let round = Round::from_parts(0, Hand::Paper, &nonce);
    let expected_vs = format!("{}_paper", "0".repeat(64));
    assert_eq!(round.verification_string(), expected_vs);
    assert_eq!(round.digest, reference_sha256_hex(&expected_vs));
    assert!(round.verify_commitment());
}

#[test]
fn commitment_matches_recomputed_hash() {
    let round = Round::random(0);
    let vs = round.verification_string();
    assert_eq!(round.digest, reference_sha256_hex(&vs));
    assert!(round.verify_commitment());
}

#[test]
fn tampered_round_fails_verification() {
    let nonce = [7u8; 32];
    let mut round = Round::from_parts(0, Hand::Rock, &nonce);
    round.computer = Hand::Paper;
    assert!(!round.verify_commitment());
}

#[test]
fn round_fields_after_commit() {
    let nonce = gen_random_bytes(32);
    let round = Round::from_parts(4, Hand::Scissors, &nonce);
    assert_eq!(round.i, 4);
    assert_eq!(round.num1(), 5);
    assert_eq!(round.computer, Hand::Scissors);
    assert_eq!(round.random_bytes, bytes_to_hex(&nonce));
    assert_eq!(round.random_bytes.len(), 64);
    assert_eq!(round.digest.len(), 64);
    assert_eq!(round.human, None);
    assert_eq!(round.result_str(), None);
}

#[test]
fn result_str_once_resolved() {
    let nonce = [1u8; 32];
    let mut round = Round::from_parts(0, Hand::Scissors, &nonce);
    round.human = Some(Hand::Rock);
    assert_eq!(round.result_str(), Some("You win"));
}
