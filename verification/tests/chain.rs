// Whole-chain checking: a small ceremony run end to end, tampering, gaps,
// and challenge import.

use ceremony::check::{check_contribution, check_contribution_chain, check_srs};
use ceremony::contribute::contribute;
use ceremony::contribution::KZGContribution;
use ceremony::entropy::EntropyAccumulator;
use ceremony::ppot::read_challenge;
use ceremony::secrets::SecretsGenConfig;
use ceremony::CeremonyError;

const TEST_K: u32 = 2;

fn deterministic_config() -> SecretsGenConfig {
    SecretsGenConfig {
        files_to_hash: None,
        from_stdin: false,
        random_bytes_size: None,
        hash_iterations: Some(4),
        reveal_s: false,
    }
}

fn seeded_accumulator(seed: &[u8]) -> EntropyAccumulator {
    let mut acc = EntropyAccumulator::new();
    acc.absorb(seed);
    acc
}

fn chain_of_three() -> Vec<KZGContribution> {
    let config = deterministic_config();
    let g0 = KZGContribution::genesis(TEST_K);
    let c1 = contribute(&g0, seeded_accumulator(b"first entropy"), &config, TEST_K).unwrap();
    let c2 = contribute(&c1, seeded_accumulator(b"second entropy"), &config, TEST_K).unwrap();
    vec![g0, c1, c2]
}

#[test]
fn genesis_passes_all_checks() {
    let g0 = KZGContribution::genesis(TEST_K);
    assert!(check_srs(&g0, TEST_K));
    assert!(check_contribution(&g0, TEST_K));
    assert!(!check_contribution(&g0, 3));
}

#[test]
fn chain_of_three_is_valid() {
    let records = chain_of_three();
    assert_eq!(records[1].id(), 1);
    assert_eq!(records[2].id(), 2);
    assert!(check_contribution_chain(&records, TEST_K).unwrap());
}

#[test]
fn empty_chain_is_an_error() {
    assert_eq!(
        check_contribution_chain(&Vec::new(), TEST_K).unwrap_err(),
        CeremonyError::NoContributions
    );
}

#[test]
fn contribution_survives_roundtrip() {
    let records = chain_of_three();
    let bytes = records[1].write_custom();
    let back = KZGContribution::read_custom(&bytes, TEST_K).unwrap();
    assert!(back == records[1]);
    assert!(check_contribution(&back, TEST_K));
}

#[test]
fn tampered_point_breaks_the_srs() {
    let mut records = chain_of_three();
    // Swap one power of the middle record for a valid but wrong point:
    // every coordinate stays canonical, so the record still parses, and
    // only the pairing check can notice.
    records[1].g[2] = records[1].g[3].clone();
    let bytes = records[1].write_custom();
    let back = KZGContribution::read_custom(&bytes, TEST_K).unwrap();
    assert!(!check_contribution(&back, TEST_K));
    assert_eq!(check_contribution_chain(&records, TEST_K), Ok(false));
}

#[test]
fn tampered_first_power_breaks_the_proof() {
    let mut records = chain_of_three();
    // Replace the middle record wholesale: rescaling anew with different
    // entropy gives a valid record 1, but record 2's proof no longer
    // points at its first power.
    let config = deterministic_config();
    let g0 = KZGContribution::genesis(TEST_K);
    let other = contribute(&g0, seeded_accumulator(b"impostor"), &config, TEST_K).unwrap();
    records[1] = other;
    assert!(check_contribution(&records[1], TEST_K));
    assert_eq!(check_contribution_chain(&records, TEST_K), Ok(false));
}

#[test]
fn gap_in_ids_breaks_the_chain() {
    let records = chain_of_three();
    let gapped = vec![records[0].clone(), records[2].clone()];
    assert_eq!(check_contribution_chain(&gapped, TEST_K), Ok(false));
    let headless = vec![records[1].clone(), records[2].clone()];
    assert_eq!(check_contribution_chain(&headless, TEST_K), Ok(false));
}

#[test]
fn identity_power_fails_the_srs() {
    let mut records = chain_of_three();
    // The identity encoding is canonical, so the record still parses; the
    // SRS checks must reject it rather than feed it to the multi-scalar
    // multiplication.
    records[1].g[2] = vec![0u8; 64];
    let bytes = records[1].write_custom();
    let back = KZGContribution::read_custom(&bytes, TEST_K).unwrap();
    assert!(!check_contribution(&back, TEST_K));
    assert_eq!(check_contribution_chain(&records, TEST_K), Ok(false));
}

#[test]
fn finalize_params_of_genesis() {
    let g0 = KZGContribution::genesis(TEST_K);
    let bytes = g0.to_params().unwrap();
    // k, four monomial points, four Lagrange points, g2, s_g2.
    assert_eq!(bytes.len(), 4 + 4 * 64 + 4 * 64 + 128 + 128);
    let gen = &g0.g()[0];
    // The monomial section repeats the generator.
    assert_eq!(&bytes[4..68], &gen[..]);
    assert_eq!(&bytes[4 + 192..4 + 256], &gen[..]);
    // The Lagrange basis of the all-generator vector is the generator at
    // index zero and the identity everywhere else.
    assert_eq!(&bytes[4 + 256..4 + 320], &gen[..]);
    for i in 1..4usize {
        let off = 4 + 256 + 64 * i;
        assert_eq!(&bytes[off..off + 64], &[0u8; 64][..]);
    }
    assert_eq!(&bytes[4 + 512..4 + 640], &g0.g2()[..]);
    assert_eq!(&bytes[4 + 640..4 + 768], &g0.s_g2()[..]);
}

#[test]
fn invalid_predecessor_stops_contribution() {
    let mut g0 = KZGContribution::genesis(TEST_K);
    // Degenerate SRS: the first power is the identity.
    g0.g[1] = vec![0u8; 64];
    let config = deterministic_config();
    assert_eq!(
        contribute(&g0, seeded_accumulator(b"entropy"), &config, TEST_K).unwrap_err(),
        CeremonyError::InvalidSRS
    );
}

#[test]
fn reveal_contribution_is_valid_and_recoverable() {
    let mut config = deterministic_config();
    config.reveal_s = true;
    let g0 = KZGContribution::genesis(TEST_K);
    let c1 = contribute(&g0, seeded_accumulator(b"public entropy"), &config, TEST_K).unwrap();

    let records = vec![g0.clone(), c1.clone()];
    assert!(check_contribution_chain(&records, TEST_K).unwrap());

    // The commitment is the identity, and the recovered scalar reproduces
    // the new first power from the old one.
    assert_eq!(c1.knowledge_proof().p(), &vec![0u8; 64]);
    let recovered =
        ceremony::proofs::recover_public_scalar(g0.s_g(), c1.s_g(), c1.knowledge_proof()).unwrap();
    assert_eq!(&ceremony::curve::g1_mul(g0.s_g(), &recovered), c1.s_g());
}

fn tiny_challenge(challenge_k: u32) -> Vec<u8> {
    // A challenge whose TauG1 points are all (1, 2) — the G1 generator —
    // written big-endian, and whose TauG2 section repeats an arbitrary
    // pattern.
    let taug1_count = (1usize << (challenge_k + 1)) - 1;
    let mut bytes = vec![0u8; 64];
    for _ in 0..taug1_count {
        let mut x = [0u8; 32];
        x[31] = 1;
        let mut y = [0u8; 32];
        y[31] = 2;
        bytes.extend_from_slice(&x);
        bytes.extend_from_slice(&y);
    }
    for i in 0..256usize {
        bytes.push(i as u8);
    }
    bytes
}

#[test]
fn challenge_import_reads_points() {
    let bytes = tiny_challenge(TEST_K);
    let imported = read_challenge(&bytes, TEST_K, TEST_K).unwrap();
    assert_eq!(imported.k(), TEST_K);
    assert_eq!(imported.id(), 0);
    assert_eq!(imported.g().len(), 4);
    // (1, 2) is the G1 generator, so every imported power matches the
    // default genesis.
    let g0 = KZGContribution::genesis(TEST_K);
    assert_eq!(imported.g(), g0.g());
}

#[test]
fn challenge_too_small_is_rejected() {
    let bytes = tiny_challenge(1);
    assert_eq!(
        read_challenge(&bytes, 1, TEST_K).unwrap_err(),
        CeremonyError::ChallengeTooSmall
    );
}

#[test]
fn short_challenge_is_rejected() {
    let mut bytes = tiny_challenge(TEST_K);
    bytes.pop();
    assert_eq!(
        read_challenge(&bytes, TEST_K, TEST_K).unwrap_err(),
        CeremonyError::ChallengeIOError
    );
}
