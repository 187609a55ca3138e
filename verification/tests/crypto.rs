// The proof engine, secret derivation and the curve wrappers, exercised
// through the public API with concrete values.

use ceremony::contribute::rescale;
use ceremony::contribution::KZGContribution;
use ceremony::curve::{fr_from_u64, fr_mul, g1_add, g1_generator, g1_mul};
use ceremony::entropy::EntropyAccumulator;
use ceremony::hash::hash_to_fr;
use ceremony::ppot::{challenge_hash_hex, hex_string};
use ceremony::proofs::{
    create_contribution_proof, recover_public_scalar, verify_contribution_proof,
};
use ceremony::secrets::{gen_secrets, Secret, SecretsGenConfig};

const TEST_K: u32 = 2;

fn test_config() -> SecretsGenConfig {
    SecretsGenConfig {
        files_to_hash: None,
        from_stdin: false,
        random_bytes_size: None,
        hash_iterations: Some(4),
        reveal_s: false,
    }
}

fn secret_from_seed(seed: &[u8]) -> Secret {
    Secret {
        value: hash_to_fr(seed),
    }
}

#[test]
fn field_wrappers_compute() {
    let two = fr_from_u64(2);
    let three = fr_from_u64(3);
    let six = fr_from_u64(6);
    assert_eq!(fr_mul(&two, &three), six);

    let gen = g1_generator();
    let doubled = g1_mul(&gen, &two);
    let added = g1_add(&gen, &gen);
    assert_eq!(doubled, added);
    assert_ne!(doubled, gen);

    let zero = fr_from_u64(0);
    assert_eq!(zero, vec![0u8; 32]);
    assert_eq!(g1_mul(&gen, &zero), vec![0u8; 64]);
}

#[test]
fn hash_to_fr_is_deterministic_and_short() {
    let a = hash_to_fr(b"seed");
    let b = hash_to_fr(b"seed");
    let c = hash_to_fr(b"other seed");
    assert_eq!(a, b);
    assert_ne!(a, c);
    assert_eq!(a.len(), 32);
}

#[test]
fn hex_formatting() {
    assert_eq!(hex_string(&[0xbe, 0xef]), "beef");
    assert_eq!(hex_string(&[]), "");
    assert_eq!(hex_string(&[0x00, 0x0a]), "000a");
    // The Blake2b-512 digest of the empty string is a published vector.
    assert_eq!(
        challenge_hash_hex(&[]),
        "786a02f742015903c6c6fd852552d272912f4740e15847618a86e217f71f5419\
         d25e1031afee585313896444934eb04b903a685b1448b755d56f701afe9be2ce"
    );
}

#[test]
fn proof_verifies_and_rejects_mutations() {
    let g0 = KZGContribution::genesis(TEST_K);
    let prev_s_g = g0.s_g().clone();
    let s = secret_from_seed(b"secret s");
    let z = secret_from_seed(b"blinding z");

    let proof = create_contribution_proof(&prev_s_g, &s, &z);
    let new_s_g = g1_mul(&prev_s_g, &s.value);

    assert!(verify_contribution_proof(&prev_s_g, &new_s_g, &proof));

    let mut bad = proof.clone();
    bad.r[0] ^= 1;
    assert!(!verify_contribution_proof(&prev_s_g, &new_s_g, &bad));

    let mut bad = proof.clone();
    bad.p[0] ^= 1;
    assert!(!verify_contribution_proof(&prev_s_g, &new_s_g, &bad));

    let mut wrong_target = new_s_g.clone();
    wrong_target[0] ^= 1;
    assert!(!verify_contribution_proof(&prev_s_g, &wrong_target, &proof));

    // A proof that the base did not move is rejected outright.
    let one = Secret {
        value: fr_from_u64(1),
    };
    let lazy = create_contribution_proof(&prev_s_g, &one, &z);
    assert!(!verify_contribution_proof(&prev_s_g, &prev_s_g, &lazy));
}

#[test]
fn revealed_secret_is_recovered() {
    let g0 = KZGContribution::genesis(TEST_K);
    let s = secret_from_seed(b"public randomness");
    let z = Secret {
        value: vec![0u8; 32],
    };

    let c1 = rescale(&g0, &s, &z);
    assert_eq!(c1.knowledge_proof().p(), &vec![0u8; 64]);
    assert!(verify_contribution_proof(
        g0.s_g(),
        c1.s_g(),
        c1.knowledge_proof()
    ));

    let recovered = recover_public_scalar(g0.s_g(), c1.s_g(), c1.knowledge_proof()).unwrap();
    assert_eq!(&recovered, &s.value);
    assert_eq!(&g1_mul(g0.s_g(), &recovered), c1.s_g());

    // A blinded proof reveals nothing.
    let zb = secret_from_seed(b"blinding");
    let c1b = rescale(&g0, &s, &zb);
    assert!(recover_public_scalar(g0.s_g(), c1b.s_g(), c1b.knowledge_proof()).is_none());
}

#[test]
fn proof_roundtrips_through_bytes() {
    let g0 = KZGContribution::genesis(TEST_K);
    let s = secret_from_seed(b"secret s");
    let z = secret_from_seed(b"blinding z");
    let proof = create_contribution_proof(g0.s_g(), &s, &z);

    let bytes = proof.write();
    assert_eq!(bytes.len(), 96);
    let back = ceremony::proofs::ContributionProof::read(&bytes).unwrap();
    assert_eq!(&back.p, proof.p());
    assert_eq!(&back.r, proof.r());

    assert!(ceremony::proofs::ContributionProof::read(&bytes[..95]).is_err());
}

#[test]
fn rescaling_composes() {
    let g0 = KZGContribution::genesis(TEST_K);
    let s1 = secret_from_seed(b"first secret");
    let s2 = secret_from_seed(b"second secret");
    let s12 = Secret {
        value: fr_mul(&s1.value, &s2.value),
    };
    let z = secret_from_seed(b"blinding");

    let step1 = rescale(&g0, &s1, &z);
    let step2 = rescale(&step1, &s2, &z);
    let direct = rescale(&g0, &s12, &z);

    // Equal except for the proof and the id.
    assert_eq!(step2.g(), direct.g());
    assert_eq!(step2.g2(), direct.g2());
    assert_eq!(step2.s_g2(), direct.s_g2());
    assert_eq!(step2.id(), 2);
    assert_eq!(direct.id(), 1);
}

#[test]
fn gen_secrets_is_deterministic_without_os_randomness() {
    let mut acc = EntropyAccumulator::new();
    acc.absorb(b"ceremony entropy");
    let config = test_config();
    let (s1, z1) = gen_secrets(acc, &config).unwrap();

    let mut acc = EntropyAccumulator::new();
    acc.absorb(b"ceremony entropy");
    let (s2, z2) = gen_secrets(acc, &config).unwrap();

    assert_eq!(s1.value, s2.value);
    assert_eq!(z1.value, z2.value);
    assert_ne!(s1.value, z1.value);

    let mut acc = EntropyAccumulator::new();
    acc.absorb(b"other entropy");
    let (s3, _) = gen_secrets(acc, &config).unwrap();
    assert_ne!(s1.value, s3.value);
}

#[test]
fn gen_secrets_reveal_mode_zeroes_blinding() {
    let mut acc = EntropyAccumulator::new();
    acc.absorb(b"ceremony entropy");
    let mut config = test_config();
    config.reveal_s = true;
    let (s, z) = gen_secrets(acc, &config).unwrap();
    assert_eq!(z.value, vec![0u8; 32]);
    assert_ne!(s.value, vec![0u8; 32]);
}

#[test]
fn secrets_are_zeroized_on_demand() {
    let mut s = secret_from_seed(b"to be discarded");
    assert_ne!(s.value, vec![0u8; 32]);
    s.zeroize();
    assert_eq!(s.value, vec![0u8; 32]);
}
