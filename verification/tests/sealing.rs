use blockchain::block::Block;
use blockchain::block::{attempt_hash, attempt_input};
use blockchain::time::Timestamp;
use blockchain::transaction::Transaction;

fn ts(secs: i64, nanos: u32) -> Timestamp {
    Timestamp { secs, nanos }
}

#[test]
fn genesis_scenario() {
    let b = Block::seal(0, [0u8; 64], Vec::new(), ts(1_700_000_000, 123)).unwrap();
    let h = b.hash();
    assert_eq!(h.len(), 64);
    assert_eq!(h[0], 69);
    assert_eq!(h[1], 69);
    assert_eq!(b.index(), 0);
}

#[test]
fn second_block_preimage_contains_parent_hash() {
    let parent = Block::seal(0, [0u8; 64], Vec::new(), ts(1_700_000_000, 0)).unwrap();
    let parent_hash = parent.hash();
    let txs = vec![Transaction::new([7u8; 64])];
    let t2 = ts(1_700_000_100, 55);
    let child = Block::seal(1, parent_hash, vec![Transaction::new([7u8; 64])], t2).unwrap();
    let h = child.hash();
    assert_eq!(h[0], 69);
    assert_eq!(h[1], 69);
    assert_eq!(child.index(), 1);
    let preimage = attempt_input(1, &parent_hash, &txs, t2, child.nonce());
    assert_eq!(&preimage[8..72], &parent_hash[..]);
}

#[test]
fn attempt_hash_is_deterministic() {
    let txs = vec![Transaction::new([1u8; 64]), Transaction::new([2u8; 64])];
    let t = ts(42, 7);
    let h1 = attempt_hash(3, &[9u8; 64], &txs, t, 1000);
    let h2 = attempt_hash(3, &[9u8; 64], &txs, t, 1000);
    assert_eq!(h1, h2);
}

#[test]
fn sealing_is_deterministic_for_fixed_time() {
    let t = ts(1_650_000_000, 999);
    let b1 = Block::seal(5, [3u8; 64], vec![Transaction::new([8u8; 64])], t).unwrap();
    let b2 = Block::seal(5, [3u8; 64], vec![Transaction::new([8u8; 64])], t).unwrap();
    assert_eq!(b1.hash(), b2.hash());
    assert_eq!(b1.nonce(), b2.nonce());
}

#[test]
fn sealed_blocks_satisfy_the_marker_predicate() {
    let cases: Vec<(usize, [u8; 64], Vec<Transaction>)> = vec![
        (0, [0u8; 64], Vec::new()),
        (1, [255u8; 64], vec![Transaction::new([4u8; 64])]),
        (7, [17u8; 64], vec![Transaction::new([4u8; 64]), Transaction::new([5u8; 64])]),
    ];
    let mut secs: i64 = 100;
    for (index, prev, txs) in cases {
        let b = Block::seal(index, prev, txs, ts(secs, 0)).unwrap();
        let h = b.hash();
        assert_eq!(h[0], 69);
        assert_eq!(h[1], 69);
        secs += 1;
    }
}

#[test]
fn distinct_instants_give_distinct_genesis_hashes() {
    let b1 = Block::seal(0, [0u8; 64], Vec::new(), ts(1_000, 0)).unwrap();
    let b2 = Block::seal(0, [0u8; 64], Vec::new(), ts(1_001, 0)).unwrap();
    assert_ne!(b1.hash(), b2.hash());
}

#[test]
fn transaction_order_changes_the_hash() {
    let t = ts(77, 88);
    let a = Transaction::new([10u8; 64]);
    let b = Transaction::new([20u8; 64]);
    let fwd = Block::seal(2, [1u8; 64], vec![a.clone(), b.clone()], t).unwrap();
    let rev = Block::seal(2, [1u8; 64], vec![b, a], t).unwrap();
    assert_ne!(fwd.hash(), rev.hash());
}

#[test]
fn sealing_a_child_leaves_the_parent_unchanged() {
    let parent = Block::seal(0, [0u8; 64], Vec::new(), ts(500, 0)).unwrap();
    let hash_before = parent.hash();
    let index_before = parent.index();
    let nonce_before = parent.nonce();
    let _child =
        Block::seal(1, parent.hash(), vec![Transaction::new([6u8; 64])], ts(501, 0)).unwrap();
    assert_eq!(parent.hash(), hash_before);
    assert_eq!(parent.index(), index_before);
    assert_eq!(parent.nonce(), nonce_before);
}

#[test]
fn nonce_counts_exactly_the_failed_attempts() {
    let t = ts(123_456, 789);
    let prev = [2u8; 64];
    let txs = vec![Transaction::new([11u8; 64])];
    let b = Block::seal(4, prev, vec![Transaction::new([11u8; 64])], t).unwrap();
    let n = b.nonce();
    for m in 0..n {
        let h = attempt_hash(4, &prev, &txs, t, m);
        assert!(!(h[0] == 69 && h[1] == 69));
    }
    let accepted = attempt_hash(4, &prev, &txs, t, n);
    assert_eq!(accepted, b.hash());
    assert_eq!(accepted[0], 69);
    assert_eq!(accepted[1], 69);
}

#[test]
fn new_seals_with_the_real_clock() {
    let b = Block::new(0, [0u8; 64], Vec::new()).unwrap();
    let h = b.hash();
    assert_eq!(h[0], 69);
    assert_eq!(h[1], 69);
    assert_eq!(b.index(), 0);
}

#[test]
fn genesis_convenience_path() {
    let b = Block::genesis().unwrap();
    assert_eq!(b.index(), 0);
    let h = b.hash();
    assert_eq!(h[0], 69);
    assert_eq!(h[1], 69);
}

#[test]
fn transaction_returns_its_digest() {
    let mut d = [0u8; 64];
    for (i, byte) in d.iter_mut().enumerate() {
        *byte = i as u8;
    }
    let t = Transaction::new(d);
    assert_eq!(t.hash(), d);
}
