use blockchain::block::{attempt_hash, attempt_input};
use blockchain::time::Timestamp;
use blockchain::transaction::Transaction;
use sha2::Digest;

#[test]
fn preimage_has_the_exact_documented_layout() {
    // index 1, one transaction digest of 0xCD bytes, secs -2, nanos 3,
    // nonce 0x0102030405060708090A0B0C0D0E0F10.
    let prev = [0xABu8; 64];
    let txs = vec![Transaction::new([0xCDu8; 64])];
    let t = Timestamp { secs: -2, nanos: 3 };
    let nonce: u128 = 0x0102030405060708090A0B0C0D0E0F10;
    let got = attempt_input(1, &prev, &txs, t, nonce);

    let mut expected: Vec<u8> = Vec::new();
    expected.extend_from_slice(&[0, 0, 0, 0, 0, 0, 0, 1]);
    expected.extend_from_slice(&[0xAB; 64]);
    expected.extend_from_slice(&[0xCD; 64]);
    expected.extend_from_slice(&[0xFF, 0xFF, 0xFF, 0xFF, 0xFF, 0xFF, 0xFF, 0xFE]);
    expected.extend_from_slice(&[0, 0, 0, 3]);
    expected.extend_from_slice(&[
        0x01, 0x02, 0x03, 0x04, 0x05, 0x06, 0x07, 0x08, 0x09, 0x0A, 0x0B, 0x0C, 0x0D, 0x0E,
        0x0F, 0x10,
    ]);
    assert_eq!(got, expected);
    assert_eq!(got.len(), 8 + 64 + 64 + 8 + 4 + 16);
}

#[test]
fn empty_batch_preimage_layout() {
    let prev = [0u8; 64];
    let txs: Vec<Transaction> = Vec::new();
    let t = Timestamp { secs: 0, nanos: 0 };
    let got = attempt_input(0, &prev, &txs, t, 0);
    assert_eq!(got, vec![0u8; 100]);
}

#[test]
fn attempt_hash_is_really_sha512_of_the_preimage() {
    let prev = [5u8; 64];
    let txs = vec![Transaction::new([6u8; 64]), Transaction::new([7u8; 64])];
    let t = Timestamp { secs: 1_700_000_000, nanos: 42 };
    let nonce: u128 = 12345;
    let preimage = attempt_input(3, &prev, &txs, t, nonce);
    let expected = sha2::Sha512::digest(&preimage);
    let got = attempt_hash(3, &prev, &txs, t, nonce);
    assert_eq!(&got[..], &expected[..]);
}
