// Record construction, the byte codec and the chain bookkeeping, at a
// small ceremony size so the tests stay fast.

use ceremony::contribute::default_contribution_filepath;
use ceremony::contribution::KZGContribution;
use ceremony::utils::{read_id, ContributionIndex};
use ceremony::CeremonyError;

const TEST_K: u32 = 2;

#[test]
fn genesis_is_identity() {
    let g0 = KZGContribution::genesis(TEST_K);
    assert_eq!(g0.k(), TEST_K);
    assert_eq!(g0.n(), 4);
    assert_eq!(g0.g().len(), 4);
    assert_eq!(g0.id(), 0);
    for point in g0.g().iter() {
        assert_eq!(point, &g0.g()[0]);
    }
    assert_eq!(g0.g2(), g0.s_g2());
    assert_eq!(g0.knowledge_proof().p(), &vec![0u8; 64]);
    assert_eq!(g0.knowledge_proof().r(), &vec![0u8; 32]);
}

#[test]
fn roundtrip_genesis() {
    let g0 = KZGContribution::genesis(TEST_K);
    let bytes = g0.write_custom();
    assert_eq!(bytes.len(), 4 + 64 * 4 + 356);
    let back = KZGContribution::read_custom(&bytes, TEST_K).unwrap();
    assert!(back == g0);
}

#[test]
fn read_rejects_wrong_k() {
    let g0 = KZGContribution::genesis(TEST_K);
    let bytes = g0.write_custom();
    assert_eq!(
        KZGContribution::read_custom(&bytes, 3).unwrap_err(),
        CeremonyError::WrongK
    );
}

#[test]
fn read_rejects_truncated_and_oversized() {
    let g0 = KZGContribution::genesis(TEST_K);
    let mut bytes = g0.write_custom();
    bytes.pop();
    assert_eq!(
        KZGContribution::read_custom(&bytes, TEST_K).unwrap_err(),
        CeremonyError::Truncated
    );
    bytes.push(0);
    bytes.push(0);
    assert_eq!(
        KZGContribution::read_custom(&bytes, TEST_K).unwrap_err(),
        CeremonyError::Malformed
    );
    assert_eq!(
        KZGContribution::read_custom(&[1, 2], TEST_K).unwrap_err(),
        CeremonyError::Truncated
    );
}

#[test]
fn read_rejects_bad_point() {
    let g0 = KZGContribution::genesis(TEST_K);
    let mut bytes = g0.write_custom();
    // Overwrite the second point of g with an impossible coordinate.
    for b in bytes.iter_mut().skip(4 + 64).take(64) {
        *b = 0xff;
    }
    assert_eq!(
        KZGContribution::read_custom(&bytes, TEST_K).unwrap_err(),
        CeremonyError::OffCurve
    );
}

#[test]
fn read_rejects_bad_proof_scalar() {
    let g0 = KZGContribution::genesis(TEST_K);
    let mut bytes = g0.write_custom();
    // Overwrite the proof's answer scalar with an impossible value.
    let r_off = 4 + 64 * 4 + 128 + 128 + 64;
    for b in bytes.iter_mut().skip(r_off).take(32) {
        *b = 0xff;
    }
    assert_eq!(
        KZGContribution::read_custom(&bytes, TEST_K).unwrap_err(),
        CeremonyError::Malformed
    );
}

#[test]
fn equality_is_structural() {
    let a = KZGContribution::genesis(TEST_K);
    let mut b = KZGContribution::genesis(TEST_K);
    assert!(a == b);
    b.id = 1;
    assert!(a != b);
}

#[test]
fn default_filepath_is_zero_padded() {
    assert_eq!(
        default_contribution_filepath("dir", 0),
        "dir/0000000000.csrs"
    );
    assert_eq!(
        default_contribution_filepath("/tmp/ceremony", 123),
        "/tmp/ceremony/0000000123.csrs"
    );
    assert_eq!(
        default_contribution_filepath("d", u32::MAX),
        "d/4294967295.csrs"
    );
}

#[test]
fn read_id_from_file_parts() {
    let g0 = KZGContribution::genesis(TEST_K);
    let bytes = g0.write_custom();
    let first4 = &bytes[..4];
    let last4 = &bytes[bytes.len() - 4..];
    assert_eq!(
        read_id(bytes.len() as u64, first4, last4, TEST_K).unwrap(),
        0
    );
    assert_eq!(
        read_id(7, &[], &[], TEST_K).unwrap_err(),
        CeremonyError::Malformed
    );
    assert_eq!(
        read_id(bytes.len() as u64, first4, last4, 5).unwrap_err(),
        CeremonyError::WrongK
    );
}

#[test]
fn index_sorts_and_rejects_duplicates() {
    let mut index = ContributionIndex::new();
    index.insert(2, String::from("two.csrs")).unwrap();
    index.insert(0, String::from("zero.csrs")).unwrap();
    index.insert(1, String::from("one.csrs")).unwrap();
    assert_eq!(index.len(), 3);
    assert_eq!(index.id_at(0), 0);
    assert_eq!(index.id_at(1), 1);
    assert_eq!(index.id_at(2), 2);
    assert_eq!(index.path_at(1), "one.csrs");
    assert_eq!(
        index.insert(1, String::from("again.csrs")).unwrap_err(),
        CeremonyError::DuplicateId
    );
    assert_eq!(index.len(), 3);
    assert_eq!(index.last_pos(), Some(2));
    assert_eq!(ContributionIndex::new().last_pos(), None);
}
