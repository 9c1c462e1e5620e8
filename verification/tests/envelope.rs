use account_migration::compressed_state::{CompressedState, CompressedStateVersion};
use account_migration::error::ErrorCode;

#[test]
fn zero_envelope_round_trips() {
    let zero = CompressedState::new_zero();
    let bytes = zero.encode();
    assert_eq!(bytes, vec![0u8]);
    let decoded = CompressedState::try_from(&bytes).unwrap();
    assert_eq!(decoded, zero);
}

#[test]
fn zero_envelope_verifies_any_candidate() {
    let zero = CompressedState::new_zero();
    let empty: Vec<u8> = Vec::new();
    assert!(zero.verify_state(&empty).is_ok());
    assert!(zero.verify_state(b"anything at all").is_ok());
    assert!(zero.verify_state(&vec![0xffu8; 1000]).is_ok());
}

#[test]
fn hash_commitment_accepts_committed_state() {
    let state = b"the true state of the record";
    let envelope = CompressedState::commit_to(state);
    assert!(envelope.verify_state(state).is_ok());
}

#[test]
fn hash_commitment_rejects_other_state() {
    let envelope = CompressedState::commit_to(b"one blob");
    assert_eq!(
        envelope.verify_state(b"another blob"),
        Err(ErrorCode::CompressedStateMismatch)
    );
}

#[test]
fn hash_envelope_round_trips_through_encoding() {
    let state = b"a blob of detached state";
    let envelope = CompressedState::commit_to(state);
    let bytes = envelope.encode();
    assert_eq!(bytes.len(), 33);
    assert_eq!(bytes[0], 1);
    let decoded = CompressedState::try_from(&bytes).unwrap();
    assert_eq!(decoded, envelope);
    assert!(decoded.verify_state(state).is_ok());
    assert_eq!(
        decoded.verify_state(b"some other blob"),
        Err(ErrorCode::CompressedStateMismatch)
    );
}

#[test]
fn commitment_is_the_sha256_digest() {
    // SHA-256 of the empty input.
    let empty_digest: [u8; 32] = [
        0xe3, 0xb0, 0xc4, 0x42, 0x98, 0xfc, 0x1c, 0x14, 0x9a, 0xfb, 0xf4, 0xc8, 0x99, 0x6f, 0xb9,
        0x24, 0x27, 0xae, 0x41, 0xe4, 0x64, 0x9b, 0x93, 0x4c, 0xa4, 0x95, 0x99, 0x1b, 0x78, 0x52,
        0xb8, 0x55,
    ];
    let empty: Vec<u8> = Vec::new();
    let bytes = CompressedState::commit_to(&empty).encode();
    assert_eq!(&bytes[1..], &empty_digest);

    // SHA-256 of "abc".
    let abc_digest: [u8; 32] = [
        0xba, 0x78, 0x16, 0xbf, 0x8f, 0x01, 0xcf, 0xea, 0x41, 0x41, 0x40, 0xde, 0x5d, 0xae, 0x22,
        0x23, 0xb0, 0x03, 0x61, 0xa3, 0x96, 0x17, 0x7a, 0x9c, 0xb4, 0x10, 0xff, 0x61, 0xf2, 0x00,
        0x15, 0xad,
    ];
    let bytes = CompressedState::commit_to(b"abc").encode();
    assert_eq!(&bytes[1..], &abc_digest);

    // And both agree with the hashing primitive itself.
    assert_eq!(
        bytes[1..].to_vec(),
        solana_program::hash::hash(b"abc").to_bytes().to_vec()
    );
}

#[test]
fn decode_empty_buffer_fails() {
    let empty: Vec<u8> = Vec::new();
    assert_eq!(
        CompressedState::try_from(&empty),
        Err(ErrorCode::CompressedStateDidNotDeserialize)
    );
}

#[test]
fn decode_short_hash_buffer_fails() {
    // Tag 1 followed by only 31 bytes: one byte short of a commitment.
    let mut buf = vec![1u8];
    buf.extend(std::iter::repeat(0xaa).take(31));
    assert_eq!(
        CompressedState::try_from(&buf),
        Err(ErrorCode::CompressedStateDidNotDeserialize)
    );
}

#[test]
fn decode_exact_hash_buffer_succeeds_and_ignores_tail() {
    let mut buf = vec![1u8];
    buf.extend((0u8..32).collect::<Vec<u8>>());
    let exact = CompressedState::try_from(&buf).unwrap();
    assert_eq!(exact.encode()[1..].to_vec(), (0u8..32).collect::<Vec<u8>>());

    // Bytes past the commitment are not part of the envelope.
    buf.extend(std::iter::repeat(0x77).take(10));
    let with_tail = CompressedState::try_from(&buf).unwrap();
    assert_eq!(with_tail, exact);
}

#[test]
fn decode_unknown_tag_fails() {
    assert_eq!(
        CompressedState::try_from(&vec![2u8]),
        Err(ErrorCode::CompressedStateInvalidVersion)
    );
    assert_eq!(
        CompressedState::try_from(&vec![2u8; 40]),
        Err(ErrorCode::CompressedStateInvalidVersion)
    );
    assert_eq!(
        CompressedState::try_from(&vec![0xffu8; 40]),
        Err(ErrorCode::CompressedStateInvalidVersion)
    );
}

#[test]
fn version_tag_mapping() {
    assert_eq!(
        CompressedStateVersion::try_from(&0),
        Ok(CompressedStateVersion::Zero)
    );
    assert_eq!(
        CompressedStateVersion::try_from(&1),
        Ok(CompressedStateVersion::Hash)
    );
    assert_eq!(
        CompressedStateVersion::try_from(&7),
        Err(ErrorCode::CompressedStateInvalidVersion)
    );
}
