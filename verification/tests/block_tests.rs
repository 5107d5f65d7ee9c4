use powmine::block::Block;

#[test]
fn test_valid_proof() {
    let mut block = Block::initial(13);
    block.mine(1);
    assert_eq!(true, block.is_valid_for_proof(11881));

    let mut block1 = Block::next(&block, String::from("testing"));
    block1.mine(1);
    assert_eq!(true, block1.is_valid_for_proof(16836));
}

#[test]
fn test_invalid_proof() {
    let mut block = Block::initial(7);
    block.mine(1);
    assert_eq!(false, block.is_valid_for_proof(89898));
}

#[test]
fn test_zero_difficulty() {
    let mut block = Block::initial(0);
    block.mine(1);
    assert_eq!(true, block.is_valid_for_proof(0));
}

#[test]
fn test_hash_string_exact() {
    let block = Block::initial(5);
    let mut expected = String::new();
    for _ in 0..64 {
        expected.push('0');
    }
    expected.push_str(":0:5::42");
    assert_eq!(expected, block.hash_string_for_proof(42));
}

#[test]
fn test_hash_string_carries_data_and_generation() {
    let mut b0 = Block::initial(1);
    b0.mine_serial();
    let b1 = Block::next(&b0, String::from("payload"));
    let s = b1.hash_string_for_proof(7);
    let parts: Vec<&str> = s.split(':').collect();
    assert_eq!(5, parts.len());
    assert_eq!(64, parts[0].len());
    assert_eq!("1", parts[1]);
    assert_eq!("1", parts[2]);
    assert_eq!("payload", parts[3]);
    assert_eq!("7", parts[4]);
}

#[test]
fn test_zero_difficulty_accepts_candidate_zero() {
    let block = Block::initial(0);
    assert!(block.is_valid_for_proof(0));
}

#[test]
fn test_mine_range_matches_serial_scan() {
    // A one-worker ranged search returns the same proof as a sequential
    // brute-force scan of the identical range.
    let block = Block::initial(7);
    let mut serial: u64 = 0;
    let mut found = false;
    for p in 0..=20000u64 {
        if block.is_valid_for_proof(p) {
            serial = p;
            found = true;
            break;
        }
    }
    assert!(found);
    let ranged = block.mine_range(1, 0, 20000, 16);
    assert_eq!(serial, ranged);
}

#[test]
fn test_same_answer_twice() {
    // With the range cut down so that exactly one value in it satisfies the
    // predicate, two searches agree on the answer whatever the worker count.
    let block = Block::initial(8);
    let mut unique: u64 = 0;
    let mut found = false;
    for p in 0..=200000u64 {
        if block.is_valid_for_proof(p) {
            unique = p;
            found = true;
            break;
        }
    }
    assert!(found);
    let chunks = if unique >= 3 { 4 } else { 1 };
    let first = block.mine_range(4, 0, unique, chunks);
    let second = block.mine_range(4, 0, unique, chunks);
    assert_eq!(first, second);
    assert_eq!(unique, first);
}

#[test]
fn test_no_proof_in_range_returns_sentinel() {
    // A range that holds no valid candidate: every value below the least
    // valid proof. The search must come back with the sentinel zero
    // instead of blocking.
    let block = Block::initial(8);
    let mut least: u64 = 0;
    let mut found = false;
    for p in 0..=200000u64 {
        if block.is_valid_for_proof(p) {
            least = p;
            found = true;
            break;
        }
    }
    assert!(found);
    assert!(least >= 1, "the least valid proof leaves no empty prefix to search");
    let chunks = if least >= 4 { 4 } else { 1 };
    assert_eq!(0, block.mine_range(3, 0, least - 1, chunks));
}

#[test]
fn test_chained_blocks_self_consistent() {
    // Mining a block and then the block chained onto its digest yields two
    // proofs that re-verify independently of the mining parallelism.
    let mut b0 = Block::initial(10);
    b0.mine(4);
    assert!(b0.is_valid());
    let mut b1 = Block::next(&b0, String::from("this is b1"));
    b1.mine(4);
    assert!(b1.is_valid());
    let mut b1_again = Block::next(&b0, String::from("this is b1"));
    b1_again.mine(1);
    assert!(b1_again.is_valid());
}

#[test]
fn test_set_proof_and_is_valid() {
    let mut block = Block::initial(2);
    assert!(!block.is_valid());
    let mut p: u64 = 0;
    while !block.is_valid_for_proof(p) {
        p += 1;
    }
    block.set_proof(p);
    assert!(block.is_valid());
    block.set_proof(p + 1);
    assert_eq!(block.is_valid(), block.is_valid_for_proof(p + 1));
}

#[test]
fn test_mine_serial_matches_mine() {
    let mut serial = Block::initial(9);
    serial.mine_serial();
    assert!(serial.is_valid());
    let mut pooled = Block::initial(9);
    pooled.mine(3);
    assert!(pooled.is_valid());
}
