use escrow_solana::codec::{decode, encode, status_byte, status_from_byte, RECORD_LEN};
use escrow_solana::errors::EscrowError;
use escrow_solana::record::{Escrow, EscrowStatus};

fn sample_record() -> Escrow {
    Escrow {
        depositor: [7u8; 32],
        recipient: [9u8; 32],
        amount: 1000,
        expiry: 1_700_003_600,
        status: EscrowStatus::Pending,
        bump: 254,
    }
}

#[test]
fn round_trip_record() {
    let record = sample_record();
    let bytes = encode(&record);
    assert_eq!(bytes.len(), RECORD_LEN);
    assert_eq!(decode(&bytes), Ok(record));
}

#[test]
fn round_trip_negative_expiry() {
    let record = Escrow {
        depositor: [0u8; 32],
        recipient: [255u8; 32],
        amount: u64::MAX,
        expiry: -1,
        status: EscrowStatus::Cancelled,
        bump: 0,
    };
    let bytes = encode(&record);
    assert_eq!(decode(&bytes), Ok(record));
}

#[test]
fn round_trip_extreme_expiry() {
    for expiry in [i64::MIN, i64::MAX, 0] {
        let record = Escrow { expiry, ..sample_record() };
        assert_eq!(decode(&encode(&record)), Ok(record));
    }
}

#[test]
fn encode_layout_is_fixed() {
    let mut depositor = [0u8; 32];
    depositor[0] = 0xaa;
    depositor[31] = 0xbb;
    let mut recipient = [0u8; 32];
    recipient[0] = 0xcc;
    let record = Escrow {
        depositor,
        recipient,
        amount: 1000,
        expiry: -2,
        status: EscrowStatus::Completed,
        bump: 251,
    };
    let bytes = encode(&record);
    assert_eq!(bytes.len(), 82);
    assert_eq!(&bytes[0..32], &depositor);
    assert_eq!(&bytes[32..64], &recipient);
    // 1000 = 0x03e8, little-endian
    assert_eq!(&bytes[64..72], &[0xe8, 0x03, 0, 0, 0, 0, 0, 0]);
    // -2 in two's complement, little-endian
    assert_eq!(&bytes[72..80], &[0xfe, 0xff, 0xff, 0xff, 0xff, 0xff, 0xff, 0xff]);
    assert_eq!(bytes[80], 1);
    assert_eq!(bytes[81], 251);
}

#[test]
fn decode_truncated() {
    let bytes = encode(&sample_record());
    assert_eq!(decode(&bytes[..81]), Err(EscrowError::Truncated));
    assert_eq!(decode(&[]), Err(EscrowError::Truncated));
}

#[test]
fn decode_ignores_trailing_bytes() {
    let record = sample_record();
    let mut bytes = encode(&record);
    bytes.extend_from_slice(&[1, 2, 3, 4, 5, 6, 7, 8]);
    assert_eq!(decode(&bytes), Ok(record));
}

#[test]
fn decode_invalid_status() {
    let mut bytes = encode(&sample_record());
    bytes[80] = 3;
    assert_eq!(decode(&bytes), Err(EscrowError::InvalidStatus));
    bytes[80] = 255;
    assert_eq!(decode(&bytes), Err(EscrowError::InvalidStatus));
}

#[test]
fn status_tags_are_exhaustive() {
    for status in [EscrowStatus::Pending, EscrowStatus::Completed, EscrowStatus::Cancelled] {
        assert_eq!(status_from_byte(status_byte(status)), Some(status));
    }
    assert_eq!(status_byte(EscrowStatus::Pending), 0);
    assert_eq!(status_byte(EscrowStatus::Completed), 1);
    assert_eq!(status_byte(EscrowStatus::Cancelled), 2);
    for bad in 3u8..=255 {
        assert_eq!(status_from_byte(bad), None);
    }
}
