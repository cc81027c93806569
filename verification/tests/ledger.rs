use blockchain::block::{check_difficulty, Block, MineOutcome};
use blockchain::chain::Blockchain;
use blockchain::encoding::{bytes_to_hex, u64_to_decimal};

const TS: u64 = 1700000000;

fn is_lower_hex(s: &str) -> bool {
    s.chars().all(|c| c.is_ascii_digit() || ('a'..='f').contains(&c))
}

#[test]
fn digest_determinism() {
    let mut b = Block::with_timestamp(7, String::from("abc"), String::from("hello"), 123456789);
    b.nonce = 42;
    let h1 = b.calculate_hash();
    let h2 = b.calculate_hash();
    assert_eq!(h1, h2);
    assert_eq!(
        h1,
        "dfa4fa6b1025f72525ad59519e4b934ef4f271adde1461b8aab4666823ab0bd9"
    );
}

#[test]
fn calculate_hash_leaves_block_unchanged() {
    let b = Block::with_timestamp(7, String::from("abc"), String::from("hello"), 123456789);
    let _ = b.calculate_hash();
    assert_eq!(b.nonce, 0);
    assert_eq!(b.hash, "");
}

#[test]
fn genesis_fixed_point() {
    let (chain, outcome) = Blockchain::genesis_with_timestamp(TS);
    assert_eq!(chain.get_total_blocks(), 1);
    assert_eq!(chain.chain[0].index, 0);
    assert_eq!(chain.chain[0].previous_hash, "");
    assert_eq!(chain.chain[0].data, "Genesis Block");
    assert_eq!(chain.chain[0].timestamp, TS);
    assert_eq!(outcome, MineOutcome::StillSearching);
    assert_eq!(chain.chain[0].nonce, 100);
    assert_eq!(
        chain.chain[0].hash,
        "15e79a950e36a3129429122b5b3a2f27874b9068d07bbe04219c63ceafc802ca"
    );
}

#[test]
fn end_to_end_three_blocks() {
    let (mut chain, _) = Blockchain::genesis_with_timestamp(TS);
    let payloads = ["A→B", "B→C", "C→A"];
    let mut outcomes = Vec::new();
    for (i, payload) in payloads.iter().enumerate() {
        let candidate = Block::with_timestamp(
            (i + 1) as u32,
            String::new(),
            String::from(*payload),
            TS,
        );
        outcomes.push(chain.add_block(candidate));
    }
    assert_eq!(chain.get_total_blocks(), 4);
    for i in 0..4 {
        assert_eq!(chain.chain[i].index as usize, i);
        assert_eq!(chain.chain[i].hash.len(), 64);
        assert!(is_lower_hex(&chain.chain[i].hash));
        if i > 0 {
            assert_eq!(chain.chain[i].previous_hash, chain.chain[i - 1].hash);
        }
    }
    assert_eq!(outcomes[0], MineOutcome::Mined);
    assert_eq!(outcomes[1], MineOutcome::StillSearching);
    assert_eq!(outcomes[2], MineOutcome::Mined);
    assert_eq!(
        chain.chain[1].hash,
        "001602f6dbd89b2dc9070c75f7246ea525e5d83107e5f29f0ab6a79556a367d4"
    );
    assert_eq!(
        chain.chain[2].hash,
        "efffe000936602c2fbc3c0dfbe010a465dd24d533553ccf113033662f30bbbc2"
    );
    assert_eq!(
        chain.chain[3].hash,
        "001fbe5b3f778aa17fb4a7ac6172b1b73bcc2ed03a49e694079355e8d7e3e612"
    );
}

#[test]
fn mining_success_meets_difficulty() {
    let mut b = Block::with_timestamp(1, String::from("prevhash"), String::from("payload0"), TS);
    let outcome = b.mine();
    assert_eq!(outcome, MineOutcome::Mined);
    assert_eq!(b.nonce, 47);
    assert_eq!(
        b.hash,
        "00b33335b8997a32e873087a36c1f3f5f1040d7480a1ead1f9d80785059d63af"
    );
    assert!(b.hash.starts_with("00"));
}

#[test]
fn mining_budget_exhausted() {
    let mut b = Block::with_timestamp(0, String::new(), String::from("Genesis Block"), TS);
    let outcome = b.mine_with_difficulty(64);
    assert_eq!(outcome, MineOutcome::StillSearching);
    assert_eq!(b.nonce, 100);
    assert_eq!(b.hash.len(), 64);
    assert!(is_lower_hex(&b.hash));
    assert_ne!(b.hash, "0".repeat(64));
}

#[test]
fn mining_at_difficulty_zero_accepts_first_hash() {
    let mut b = Block::with_timestamp(5, String::from("p"), String::from("x"), TS);
    let outcome = b.mine_with_difficulty(0);
    assert_eq!(outcome, MineOutcome::Mined);
    assert_eq!(b.nonce, 0);
    assert_eq!(
        b.hash,
        "a9c67527f1194f46d00160bd4ca8e6ffb7778ecaee7e30c870db84dea69204e2"
    );
}

#[test]
fn monotonic_growth() {
    let (mut chain, _) = Blockchain::genesis_with_timestamp(TS);
    let mut expected: usize = 1;
    assert_eq!(chain.get_total_blocks(), expected);
    for i in 1..5u32 {
        let candidate = Block::with_timestamp(i, String::new(), format!("entry {}", i), TS);
        let _ = chain.add_block(candidate);
        expected += 1;
        assert_eq!(chain.get_total_blocks(), expected);
    }
}

#[test]
fn render_formats_calendar_time() {
    let b = Block::with_timestamp(0, String::new(), String::from("Genesis Block"), TS);
    let text = b.render().unwrap();
    assert_eq!(text, "Block 0: Genesis Block at 2023-11-14 22:13:20");
    let e = Block::with_timestamp(3, String::new(), String::from("x"), 0);
    assert_eq!(e.render().unwrap(), "Block 3: x at 1970-01-01 00:00:00");
}

#[test]
fn block_new_reads_clock() {
    let b = Block::new(2, String::from("prev"), String::from("data")).unwrap();
    assert_eq!(b.index, 2);
    assert_eq!(b.previous_hash, "prev");
    assert_eq!(b.data, "data");
    assert_eq!(b.nonce, 0);
    assert_eq!(b.hash, "");
    // any clock this runs under is well past 2020
    assert!(b.timestamp > 1577836800);
}

#[test]
fn chain_new_reads_clock() {
    let chain = Blockchain::new().unwrap();
    assert_eq!(chain.get_total_blocks(), 1);
    assert_eq!(chain.chain[0].index, 0);
    assert_eq!(chain.chain[0].previous_hash, "");
    assert_eq!(chain.chain[0].data, "Genesis Block");
    assert_eq!(chain.chain[0].hash.len(), 64);
}

#[test]
fn decimal_numerals() {
    assert_eq!(u64_to_decimal(0), "0");
    assert_eq!(u64_to_decimal(7), "7");
    assert_eq!(u64_to_decimal(1234567890), "1234567890");
    assert_eq!(u64_to_decimal(u64::MAX), "18446744073709551615");
}

#[test]
fn hex_encoding() {
    assert_eq!(bytes_to_hex(&vec![0x00, 0x0f, 0xa5, 0xff]), "000fa5ff");
    assert_eq!(bytes_to_hex(&Vec::new()), "");
}

#[test]
fn difficulty_check() {
    assert!(check_difficulty("00ab", 2));
    assert!(!check_difficulty("0a", 2));
    assert!(check_difficulty("anything", 0));
    assert!(!check_difficulty("0", 2));
    assert!(check_difficulty("000", 3));
}
