//! One ledger entry: its fields, the digest that binds them, and the bounded
//! proof-of-work search that fixes its nonce and hash.

use vstd::prelude::*;
use vstd::string::*;
use crate::digest::{sha256_hex, sha256_hex_of};
use crate::encoding::{dec_of, u64_to_decimal};

verus! {

/// Leading hexadecimal `'0'` characters a hash must have to count as mined.
pub const DIFFICULTY: usize = 2;

/// Nonces the mining search tries beyond the first before giving up.
pub const MINING_BUDGET: u64 = 100;

/// What a mining run reports: the stored hash meets the difficulty, or the
/// search exhausted its budget and kept the last hash it computed.
#[derive(Clone, Copy, Debug, PartialEq, Eq, Structural)]
pub enum MineOutcome {
    Mined,
    StillSearching,
}

/// The system clock read a time before the Unix epoch. Fatal by design: no
/// block can be stamped, and callers are expected to give up.
#[derive(Clone, Copy, Debug, PartialEq, Eq, Structural)]
pub struct ClockError;

/// One ledger entry. `hash` is empty until the block is mined; afterwards it
/// is the hex SHA-256 digest of the other five fields.
pub struct Block {
    pub index: u32,
    pub previous_hash: String,
    pub timestamp: u64,
    pub data: String,
    pub nonce: u64,
    pub hash: String,
}

/// The text a block's digest is taken over: index, previous hash, timestamp,
/// payload and nonce, concatenated in that fixed order.
pub open spec fn hash_input(
    index: u32,
    previous_hash: Seq<char>,
    timestamp: u64,
    data: Seq<char>,
    nonce: u64,
) -> Seq<char> {
    dec_of(index as nat) + previous_hash + dec_of(timestamp as nat) + data + dec_of(nonce as nat)
}

/// The hex digest a block's current fields determine.
pub open spec fn block_digest(b: Block) -> Seq<char> {
    sha256_hex_of(hash_input(b.index, b.previous_hash@, b.timestamp, b.data@, b.nonce))
}

/// The hex digest `b`'s fields would determine with nonce `n`.
pub open spec fn digest_at(b: Block, n: u64) -> Seq<char> {
    sha256_hex_of(hash_input(b.index, b.previous_hash@, b.timestamp, b.data@, n))
}

/// The first `d` characters of `h` exist and are all `'0'`.
pub open spec fn meets_difficulty(h: Seq<char>, d: nat) -> bool {
    h.len() >= d && forall|i: int| 0 <= i < d ==> h[i] == '0'
}

/// Determinism of the digest: blocks whose hashed fields agree determine the
/// same digest, however often it is recomputed.
pub proof fn lemma_digest_deterministic(a: Block, b: Block)
    requires
        a.index == b.index,
        a.previous_hash@ == b.previous_hash@,
        a.timestamp == b.timestamp,
        a.data@ == b.data@,
        a.nonce == b.nonce,
    ensures
        block_digest(a) == block_digest(b),
{
}

/// Whether the first `d` characters of `h` are all `'0'`.
pub fn check_difficulty(h: &str, d: usize) -> (r: bool)
    ensures
        r == meets_difficulty(h@, d as nat),
{
    let n = h.unicode_len();
    if n < d {
        return false;
    }
    let mut i: usize = 0;
    while i < d
        invariant
            i <= d,
            d <= n,
            n == h@.len(),
            forall|j: int| 0 <= j < i ==> h@[j] == '0',
        decreases d - i,
    {
        if h.get_char(i) != '0' {
            return false;
        }
        i += 1;
    }
    true
}

/// Relies on std::time::SystemTime::now, read as whole seconds since the Unix
/// epoch through duration_since(UNIX_EPOCH) and Duration::as_secs; None when
/// the clock reads a time before the epoch. Nothing further can be promised
/// of a clock reading.
#[verifier::external_body]
fn now_unix_seconds() -> (r: Option<u64>) {
    match std::time::SystemTime::now().duration_since(std::time::UNIX_EPOCH) {
        Ok(d) => Some(d.as_secs()),
        Err(_) => None,
    }
}

/// The calendar text chrono renders for `timestamp` seconds after the Unix
/// epoch. A fixed function of the timestamp alone; its value is named, not
/// modeled.
pub uninterp spec fn datetime_text_of(timestamp: u64) -> Seq<char>;

/// Relies on chrono::DateTime::<Utc>::from_timestamp, which is None only for
/// seconds out of chrono's roughly 262,000-year range, and on the Display
/// formatting of chrono::NaiveDateTime; the text depends on the timestamp
/// alone.
#[verifier::external_body]
fn format_datetime(timestamp: u64) -> (r: Option<String>)
    ensures
        r matches Some(s) ==> s@ == datetime_text_of(timestamp),
        timestamp <= 1_000_000_000_000 ==> r is Some,
{
    match chrono::DateTime::<chrono::Utc>::from_timestamp(timestamp as i64, 0) {
        Some(dt) => Some(format!("{}", dt.naive_utc())),
        None => None,
    }
}

impl Block {
    /// Builds an unmined block from the given fields: nonce 0, empty hash.
    pub fn with_timestamp(index: u32, previous_hash: String, data: String, timestamp: u64) -> (r:
        Block)
        ensures
            r.index == index,
            r.previous_hash@ == previous_hash@,
            r.timestamp == timestamp,
            r.data@ == data@,
            r.nonce == 0,
            r.hash@ == Seq::<char>::empty(),
    {
        Block { index, previous_hash, timestamp, data, nonce: 0, hash: String::new() }
    }

    /// Builds an unmined block stamped with the current clock, or ClockError
    /// when the clock reads a time before the Unix epoch.
    pub fn new(index: u32, previous_hash: String, data: String) -> (r: Result<Block, ClockError>)
        ensures
            r matches Ok(b) ==> b.index == index && b.previous_hash@ == previous_hash@
                && b.data@ == data@ && b.nonce == 0 && b.hash@ == Seq::<char>::empty(),
    {
        match now_unix_seconds() {
            Some(timestamp) => Ok(Block::with_timestamp(index, previous_hash, data, timestamp)),
            None => Err(ClockError),
        }
    }

    /// The hex digest binding the block's current fields, recomputable at
    /// will and always 64 lowercase hexadecimal characters.
    pub fn calculate_hash(&self) -> (r: String)
        ensures
            r@ == block_digest(*self),
            r@.len() == 64,
    {
        let mut m = u64_to_decimal(self.index as u64);
        m.append(self.previous_hash.as_str());
        let ts = u64_to_decimal(self.timestamp);
        m.append(ts.as_str());
        m.append(self.data.as_str());
        let nonce = u64_to_decimal(self.nonce);
        m.append(nonce.as_str());
        proof {
            assert(m@ =~= hash_input(
                self.index,
                self.previous_hash@,
                self.timestamp,
                self.data@,
                self.nonce,
            ));
        }
        sha256_hex(m.as_str())
    }

    /// The proof-of-work search at an explicit difficulty: starting from the
    /// current nonce, computes the digest for each nonce in turn and stops at
    /// the first whose leading characters are all `'0'`; after the budget is
    /// exhausted it keeps the last digest it computed and reports that it was
    /// still searching. Exactly one of the two outcomes is reported, and the
    /// stored hash always matches the stored fields.
    pub fn mine_with_difficulty(&mut self, difficulty: usize) -> (r: MineOutcome)
        requires
            old(self).nonce + MINING_BUDGET <= u64::MAX,
        ensures
            final(self).index == old(self).index,
            final(self).previous_hash@ == old(self).previous_hash@,
            final(self).timestamp == old(self).timestamp,
            final(self).data@ == old(self).data@,
            old(self).nonce <= final(self).nonce <= old(self).nonce + MINING_BUDGET,
            final(self).hash@ == block_digest(*final(self)),
            final(self).hash@.len() == 64,
            (r == MineOutcome::Mined) <==> meets_difficulty(
                final(self).hash@,
                difficulty as nat,
            ),
            forall|j: u64|
                old(self).nonce <= j < final(self).nonce ==> !meets_difficulty(
                    digest_at(*old(self), j),
                    difficulty as nat,
                ),
            r == MineOutcome::StillSearching ==> final(self).nonce == old(self).nonce
                + MINING_BUDGET,
    {
        let mut h = self.calculate_hash();
        let mut success = check_difficulty(h.as_str(), difficulty);
        let mut iterations: u64 = 0;
        while !success && iterations < MINING_BUDGET
            invariant
                self.index == old(self).index,
                self.previous_hash@ == old(self).previous_hash@,
                self.timestamp == old(self).timestamp,
                self.data@ == old(self).data@,
                old(self).nonce + MINING_BUDGET <= u64::MAX,
                iterations <= MINING_BUDGET,
                self.nonce == old(self).nonce + iterations,
                h@ == block_digest(*self),
                h@.len() == 64,
                success == meets_difficulty(h@, difficulty as nat),
                forall|j: u64|
                    old(self).nonce <= j < self.nonce ==> !meets_difficulty(
                        digest_at(*old(self), j),
                        difficulty as nat,
                    ),
            decreases MINING_BUDGET - iterations,
        {
            proof {
                assert(digest_at(*old(self), self.nonce) == block_digest(*self));
            }
            self.nonce = self.nonce + 1;
            iterations = iterations + 1;
            h = self.calculate_hash();
            success = check_difficulty(h.as_str(), difficulty);
        }
        self.hash = h;
        if success {
            MineOutcome::Mined
        } else {
            MineOutcome::StillSearching
        }
    }

    /// The proof-of-work search at the standard difficulty.
    pub fn mine(&mut self) -> (r: MineOutcome)
        requires
            old(self).nonce + MINING_BUDGET <= u64::MAX,
        ensures
            final(self).index == old(self).index,
            final(self).previous_hash@ == old(self).previous_hash@,
            final(self).timestamp == old(self).timestamp,
            final(self).data@ == old(self).data@,
            old(self).nonce <= final(self).nonce <= old(self).nonce + MINING_BUDGET,
            final(self).hash@ == block_digest(*final(self)),
            final(self).hash@.len() == 64,
            (r == MineOutcome::Mined) <==> meets_difficulty(final(self).hash@, DIFFICULTY as nat),
            forall|j: u64|
                old(self).nonce <= j < final(self).nonce ==> !meets_difficulty(
                    digest_at(*old(self), j),
                    DIFFICULTY as nat,
                ),
            r == MineOutcome::StillSearching ==> final(self).nonce == old(self).nonce
                + MINING_BUDGET,
    {
        self.mine_with_difficulty(DIFFICULTY)
    }

    /// Human-readable summary: index, payload, and the calendar form of the
    /// timestamp. None only when chrono cannot render the timestamp.
    pub fn render(&self) -> (r: Option<String>)
        ensures
            r matches Some(s) ==> s@ == "Block "@ + dec_of(self.index as nat) + ": "@ + self.data@
                + " at "@ + datetime_text_of(self.timestamp),
            self.timestamp <= 1_000_000_000_000 ==> r is Some,
    {
        match format_datetime(self.timestamp) {
            Some(dt) => {
                let mut s = String::from_str("Block ");
                let idx = u64_to_decimal(self.index as u64);
                s.append(idx.as_str());
                s.append(": ");
                s.append(self.data.as_str());
                s.append(" at ");
                s.append(dt.as_str());
                proof {
                    assert(s@ =~= "Block "@ + dec_of(self.index as nat) + ": "@ + self.data@
                        + " at "@ + datetime_text_of(self.timestamp));
                }
                Some(s)
            },
            None => None,
        }
    }
}

} // verus!
