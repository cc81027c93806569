//! The ledger: an append-only sequence of mined blocks, linked each to its
//! predecessor's hash and numbered by position.

use vstd::prelude::*;
use vstd::string::*;
use crate::block::{block_digest, meets_difficulty, Block, ClockError, MineOutcome, DIFFICULTY};

verus! {

/// The whole ledger. Grows only through `add_block`; never reorders, never
/// shrinks.
pub struct Blockchain {
    pub chain: Vec<Block>,
}

/// The chain invariant: at least the genesis block is present; the genesis
/// block is numbered 0 and names no predecessor; every block's number is its
/// position; every stored hash is the digest of its own block's fields; and
/// every later block names its predecessor's hash.
pub open spec fn well_formed(c: Blockchain) -> bool {
    &&& c.chain@.len() >= 1
    &&& c.chain@[0].index == 0
    &&& c.chain@[0].previous_hash@ == Seq::<char>::empty()
    &&& forall|i: int| 0 <= i < c.chain@.len() ==> (#[trigger] c.chain@[i]).index as int == i
    &&& forall|i: int|
        0 <= i < c.chain@.len() ==> (#[trigger] c.chain@[i]).hash@ == block_digest(c.chain@[i])
    &&& forall|i: int| 0 <= i < c.chain@.len() ==> (#[trigger] c.chain@[i]).hash@.len() == 64
    &&& forall|i: int|
        1 <= i < c.chain@.len() ==> (#[trigger] c.chain@[i]).previous_hash@ == c.chain@[i
            - 1].hash@
}

/// Chain linkage: in a well-formed chain, every block after the first names
/// the hash of the block immediately before it.
pub proof fn lemma_chain_linkage(c: Blockchain, i: int)
    requires
        well_formed(c),
        1 <= i < c.chain@.len(),
    ensures
        c.chain@[i].previous_hash@ == c.chain@[i - 1].hash@,
{
}

/// Index continuity: in a well-formed chain, every block's index equals its
/// zero-based position.
pub proof fn lemma_index_continuity(c: Blockchain, i: int)
    requires
        well_formed(c),
        0 <= i < c.chain@.len(),
    ensures
        c.chain@[i].index as int == i,
{
}

impl Blockchain {
    /// Builds the chain around its genesis block, stamped with the given
    /// timestamp and mined at once, and reports the genesis mining outcome.
    pub fn genesis_with_timestamp(timestamp: u64) -> (r: (Blockchain, MineOutcome))
        ensures
            well_formed(r.0),
            r.0.chain@.len() == 1,
            r.0.chain@[0].index == 0,
            r.0.chain@[0].previous_hash@ == Seq::<char>::empty(),
            r.0.chain@[0].data@ == "Genesis Block"@,
            r.0.chain@[0].timestamp == timestamp,
            (r.1 == MineOutcome::Mined) <==> meets_difficulty(
                r.0.chain@[0].hash@,
                DIFFICULTY as nat,
            ),
    {
        let mut genesis = Block::with_timestamp(
            0,
            String::new(),
            String::from_str("Genesis Block"),
            timestamp,
        );
        let outcome = genesis.mine();
        (Blockchain { chain: vec![genesis] }, outcome)
    }

    /// Builds the chain with its genesis block stamped by the clock and mined
    /// at once, or ClockError when the clock reads a time before the Unix
    /// epoch.
    pub fn new() -> (r: Result<Blockchain, ClockError>)
        ensures
            r matches Ok(c) ==> well_formed(c) && c.chain@.len() == 1 && c.chain@[0].index == 0
                && c.chain@[0].previous_hash@ == Seq::<char>::empty() && c.chain@[0].data@
                == "Genesis Block"@,
    {
        match Block::new(0, String::new(), String::from_str("Genesis Block")) {
            Ok(mut genesis) => {
                let _ = genesis.mine();
                Ok(Blockchain { chain: vec![genesis] })
            },
            Err(e) => Err(e),
        }
    }

    /// Appends a candidate block: overwrites its predecessor link with the
    /// hash of the current last block, mines it, and stores it. The chain
    /// grows by exactly one, keeps every earlier block unchanged, and stays
    /// well-formed; the mining outcome is reported to the caller.
    pub fn add_block(&mut self, new_block: Block) -> (r: MineOutcome)
        requires
            well_formed(*old(self)),
            new_block.index as int == old(self).chain@.len(),
            new_block.nonce == 0,
        ensures
            well_formed(*final(self)),
            final(self).chain@.len() == old(self).chain@.len() + 1,
            forall|i: int|
                0 <= i < old(self).chain@.len() ==> final(self).chain@[i] == old(self).chain@[i],
            final(self).chain@.last().index == new_block.index,
            final(self).chain@.last().timestamp == new_block.timestamp,
            final(self).chain@.last().data@ == new_block.data@,
            final(self).chain@.last().previous_hash@ == old(self).chain@.last().hash@,
            final(self).chain@.last().hash@ == block_digest(final(self).chain@.last()),
            (r == MineOutcome::Mined) <==> meets_difficulty(
                final(self).chain@.last().hash@,
                DIFFICULTY as nat,
            ),
    {
        let last_index = self.chain.len() - 1;
        let previous_hash = self.chain[last_index].hash.clone();
        let mut block = new_block;
        block.previous_hash = previous_hash;
        let outcome = block.mine();
        self.chain.push(block);
        outcome
    }

    /// The number of blocks in the chain.
    pub fn get_total_blocks(&self) -> (r: usize)
        ensures
            r == self.chain@.len(),
    {
        self.chain.len()
    }
}

} // verus!
