//! Blocks of a proof-of-work chain. A block's identity is the SHA-256
//! digest of its colon-separated textual encoding
//! `prev_hash_hex : generation : difficulty : data : proof`, and a proof
//! value is valid when that digest ends in `difficulty` zero bits. Mining
//! searches a candidate range for such a value, either sequentially or by
//! fanning balanced chunks of the range out over a work queue.

use crate::encode::{
    append_decimal, append_hex, dec_seq, hex_seq, push_char, sha256_hash, sha256_of,
};
use crate::partition::{chunk_bounds, chunk_bounds_fit};
use crate::queue::{Task, WorkQueue};
use std::sync::Arc;
use vstd::prelude::*;
use vstd::string::StringExecFns;

verus! {

/// Whether a 32-byte digest ends in `difficulty` zero bits: its final
/// `difficulty / 8` bytes are zero and, when `difficulty % 8` is not zero,
/// the low `difficulty % 8` bits of the byte before them are zero too.
pub open spec fn digest_ok(digest: Seq<u8>, difficulty: u8) -> bool
    recommends
        digest.len() == 32,
{
    let n_bytes = (difficulty / 8) as int;
    let n_bits = difficulty % 8;
    &&& (forall|i: int| 32 - n_bytes <= i < 32 ==> digest[i] == 0)
    &&& (n_bits > 0 ==> digest[31 - n_bytes] & (((1u8 << n_bits) - 1) as u8) == 0)
}

/// Whether a 32-byte digest ends in `difficulty` zero bits.
pub fn digest_satisfies(digest: &Vec<u8>, difficulty: u8) -> (r: bool)
    requires
        digest@.len() == 32,
    ensures
        r == digest_ok(digest@, difficulty),
{
    let n_bytes: usize = (difficulty / 8) as usize;
    let n_bits: u8 = difficulty % 8;
    let mut i: usize = 32 - n_bytes;
    while i < 32
        invariant
            digest@.len() == 32,
            n_bytes == difficulty / 8,
            32 - n_bytes <= i <= 32,
            forall|j: int| 32 - n_bytes <= j < i ==> digest@[j] == 0,
        decreases 32 - i,
    {
        if digest[i] != 0 {
            return false;
        }
        i = i + 1;
    }
    if n_bits > 0 {
        assert(1u8 << n_bits >= 1) by (bit_vector)
            requires
                0 < n_bits < 8,
        ;
        let mask: u8 = (1u8 << n_bits) - 1;
        let last_byte: u8 = digest[32 - n_bytes - 1];
        if last_byte & mask != 0 {
            return false;
        }
    }
    true
}

/// One block: the previous block's digest, this block's height in the
/// chain, the difficulty every proof must meet, an arbitrary payload, and
/// the proof value once one was set or mined.
#[derive(Debug, Clone)]
pub struct Block {
    prev_hash: Vec<u8>,
    generation: u64,
    difficulty: u8,
    data: String,
    proof: Option<u64>,
}

impl Block {
    /// The previous block's digest bytes.
    pub closed spec fn spec_prev_hash(&self) -> Seq<u8> {
        self.prev_hash@
    }

    /// The block's height in its chain.
    pub closed spec fn spec_generation(&self) -> u64 {
        self.generation
    }

    /// How many trailing zero bits the block's digest must have.
    pub closed spec fn spec_difficulty(&self) -> u8 {
        self.difficulty
    }

    /// The block's payload.
    pub closed spec fn spec_data(&self) -> Seq<char> {
        self.data@
    }

    /// The proof value, once one was set or mined.
    pub closed spec fn spec_proof(&self) -> Option<u64> {
        self.proof
    }

    /// A block carries a full 32-byte previous digest.
    pub open spec fn wf(&self) -> bool {
        self.spec_prev_hash().len() == 32
    }

    /// The text a block's digest is computed over, were its proof set to
    /// `proof`: the previous digest in lowercase hexadecimal, the
    /// generation, the difficulty, the payload and the proof, separated by
    /// colons.
    pub open spec fn spec_message(&self, proof: u64) -> Seq<char> {
        hex_seq(self.spec_prev_hash()) + seq![':'] + dec_seq(self.spec_generation() as nat)
            + seq![':'] + dec_seq(self.spec_difficulty() as nat) + seq![':'] + self.spec_data()
            + seq![':'] + dec_seq(proof as nat)
    }

    /// Whether `proof` is valid for this block: the digest of the block's
    /// text with that proof ends in `difficulty` zero bits.
    pub open spec fn proof_ok(&self, proof: u64) -> bool {
        digest_ok(sha256_of(self.spec_message(proof)), self.spec_difficulty())
    }

    /// The first block of a chain: an all-zero previous digest, generation
    /// zero, an empty payload, and no proof yet.
    pub fn initial(difficulty: u8) -> (b: Block)
        ensures
            b.wf(),
            b.spec_prev_hash() == Seq::<u8>::new(32, |i: int| 0u8),
            b.spec_generation() == 0,
            b.spec_difficulty() == difficulty,
            b.spec_data() == Seq::<char>::empty(),
            b.spec_proof() is None,
    {
        let mut prev_hash: Vec<u8> = Vec::new();
        let mut i: usize = 0;
        while i < 32
            invariant
                i <= 32,
                prev_hash@.len() == i,
                forall|j: int| 0 <= j < i ==> prev_hash@[j] == 0,
            decreases 32 - i,
        {
            prev_hash.push(0u8);
            i = i + 1;
        }
        proof {
            assert(prev_hash@ =~= Seq::<u8>::new(32, |i: int| 0u8));
        }
        Block { prev_hash, generation: 0, difficulty, data: String::new(), proof: None }
    }

    /// The block after `previous` in its chain: it records the digest of
    /// `previous` (which must already carry a proof), one higher a
    /// generation, the same difficulty, the given payload, and no proof
    /// yet.
    pub fn next(previous: &Block, data: String) -> (b: Block)
        requires
            previous.spec_proof() is Some,
            previous.spec_generation() < u64::MAX,
        ensures
            b.wf(),
            b.spec_prev_hash() == sha256_of(
                previous.spec_message(previous.spec_proof().unwrap()),
            ),
            b.spec_generation() == previous.spec_generation() + 1,
            b.spec_difficulty() == previous.spec_difficulty(),
            b.spec_data() == data@,
            b.spec_proof() is None,
    {
        let prev_hash = previous.hash();
        let generation = previous.generation + 1;
        let difficulty = previous.difficulty;
        Block { prev_hash, generation, difficulty, data, proof: None }
    }

    /// The text this block's digest would be computed over with proof
    /// `proof`.
    pub fn hash_string_for_proof(&self, proof: u64) -> (r: String)
        ensures
            r@ == self.spec_message(proof),
    {
        let mut hash_string = String::new();
        append_hex(&mut hash_string, &self.prev_hash);
        push_char(&mut hash_string, ':');
        append_decimal(&mut hash_string, self.generation);
        push_char(&mut hash_string, ':');
        append_decimal(&mut hash_string, self.difficulty as u64);
        push_char(&mut hash_string, ':');
        hash_string.append(self.data.as_str());
        push_char(&mut hash_string, ':');
        append_decimal(&mut hash_string, proof);
        proof {
            assert(hash_string@ =~= self.spec_message(proof));
        }
        hash_string
    }

    /// The text this block's digest is computed over; the block must
    /// already carry a proof.
    pub fn hash_string(&self) -> (r: String)
        requires
            self.spec_proof() is Some,
        ensures
            r@ == self.spec_message(self.spec_proof().unwrap()),
    {
        let p = self.proof.unwrap();
        self.hash_string_for_proof(p)
    }

    /// The block's SHA-256 digest as it would be with proof `proof`.
    pub fn hash_for_proof(&self, proof: u64) -> (r: Vec<u8>)
        ensures
            r@ == sha256_of(self.spec_message(proof)),
            r@.len() == 32,
    {
        let hash_string = self.hash_string_for_proof(proof);
        sha256_hash(hash_string.as_str())
    }

    /// The block's SHA-256 digest; the block must already carry a proof.
    pub fn hash(&self) -> (r: Vec<u8>)
        requires
            self.spec_proof() is Some,
        ensures
            r@ == sha256_of(self.spec_message(self.spec_proof().unwrap())),
            r@.len() == 32,
    {
        let p = self.proof.unwrap();
        self.hash_for_proof(p)
    }

    /// Sets the proof value, leaving every other field as it was.
    pub fn set_proof(&mut self, proof: u64)
        ensures
            final(self).spec_proof() == Some(proof),
            final(self).spec_prev_hash() == old(self).spec_prev_hash(),
            final(self).spec_generation() == old(self).spec_generation(),
            final(self).spec_difficulty() == old(self).spec_difficulty(),
            final(self).spec_data() == old(self).spec_data(),
    {
        self.proof = Some(proof);
    }

    /// Whether `proof` is valid for this block: the block's digest with
    /// that proof ends in `difficulty` zero bits.
    pub fn is_valid_for_proof(&self, proof: u64) -> (r: bool)
        ensures
            r == self.proof_ok(proof),
    {
        let hash = self.hash_for_proof(proof);
        digest_satisfies(&hash, self.difficulty)
    }

    /// Whether the block carries a proof and that proof is valid.
    pub fn is_valid(&self) -> (r: bool)
        ensures
            r == (self.spec_proof() matches Some(p) && self.proof_ok(p)),
    {
        if self.proof.is_none() {
            return false;
        }
        self.is_valid_for_proof(self.proof.unwrap())
    }

    /// Mines sequentially: checks candidates from zero upward and records
    /// the first valid proof. Some valid proof must exist, since the scan
    /// would otherwise never end.
    pub fn mine_serial(&mut self)
        requires
            exists|p: u64| old(self).proof_ok(p),
        ensures
            final(self).spec_prev_hash() == old(self).spec_prev_hash(),
            final(self).spec_generation() == old(self).spec_generation(),
            final(self).spec_difficulty() == old(self).spec_difficulty(),
            final(self).spec_data() == old(self).spec_data(),
            final(self).spec_proof() matches Some(p) && old(self).proof_ok(p) && (forall|q: u64|
                q < p ==> !old(self).proof_ok(q)),
    {
        let ghost w = choose|q: u64| old(self).proof_ok(q);
        let mut p: u64 = 0;
        loop
            invariant
                *self == *old(self),
                old(self).proof_ok(w),
                p <= w,
                forall|q: u64| q < p ==> !old(self).proof_ok(q),
            ensures
                *self == *old(self),
                old(self).proof_ok(p),
                forall|q: u64| q < p ==> !old(self).proof_ok(q),
            decreases w - p,
        {
            if self.is_valid_for_proof(p) {
                break ;
            }
            p = p + 1;
        }
        self.proof = Some(p);
    }

    /// Mines the candidates of `[start, end]` with `workers` worker
    /// threads, fanned out as `chunks` near-equal tasks on a work queue.
    /// Every task reports its completion - with the first valid proof of
    /// its own chunk, or with nothing found - so the driver receives one
    /// report per chunk. It returns the first reported candidate that
    /// re-verifies against this block and the range, or the sentinel zero
    /// once every chunk has reported and none carried a valid proof. A
    /// caller must not mistake a genuine zero-valued proof for that
    /// sentinel.
    pub fn mine_range(&self, workers: usize, start: u64, end: u64, chunks: u64) -> (r: u64)
        requires
            workers >= 1,
            chunk_bounds_fit(start, end, chunks),
        ensures
            r != 0 ==> start <= r <= end && self.proof_ok(r),
            (forall|q: u64| start <= q <= end ==> !self.proof_ok(q)) ==> r == 0,
    {
        let mut queue: WorkQueue<MiningTask> = WorkQueue::new(workers);
        let mut i: u64 = 0;
        while i < chunks
            invariant
                queue.wf(),
                chunk_bounds_fit(start, end, chunks),
                i <= chunks,
            decreases chunks - i,
        {
            let (start_proof, end_proof) = chunk_bounds(start, end, chunks, i);
            let task = MiningTask::new(Arc::new(self.clone()), start_proof, end_proof);
            // A rejected submission would mean the task channel lost every
            // receiver, which the queue's own receiver half rules out while
            // the queue is alive; the chunk is not retried.
            let _ = queue.enqueue(task);
            i = i + 1;
        }
        let mut received: u64 = 0;
        while received < chunks
            invariant
                queue.wf(),
                received <= chunks,
            ensures
                queue.wf(),
            decreases chunks - received,
        {
            match queue.recv() {
                Ok(report) => {
                    match report {
                        Some(proof) => {
                            if start <= proof && proof <= end {
                                if self.is_valid_for_proof(proof) {
                                    queue.shutdown();
                                    return proof;
                                }
                            }
                        },
                        None => {
                        },
                    }
                },
                Err(_) => {
                    break ;
                },
            }
            received = received + 1;
        }
        queue.shutdown();
        0
    }

    /// The last candidate of the standard search range for a difficulty:
    /// the range is `[0, 8 * 2^difficulty]`.
    pub open spec fn standard_range_end(difficulty: u8) -> int {
        8 * (1u64 << difficulty)
    }

    /// Mines with `workers` worker threads over the standard range for the
    /// block's difficulty, split into a fixed chunk count.
    pub fn mine_for_proof(&self, workers: usize) -> (r: u64)
        requires
            workers >= 1,
            self.spec_difficulty() <= 60,
        ensures
            r != 0 ==> r <= Self::standard_range_end(self.spec_difficulty()) && self.proof_ok(r),
            (forall|q: u64|
                q <= Self::standard_range_end(self.spec_difficulty()) ==> !self.proof_ok(q)) ==> r
                == 0,
    {
        let range_start: u64 = 0;
        let d: u8 = self.difficulty;
        assert(1u64 << d <= 0x1000000000000000u64) by (bit_vector)
            requires
                d <= 60,
        ;
        let range_end: u64 = 8 * (1u64 << d);
        let chunks: u64 = 2345;
        self.mine_range(workers, range_start, range_end, chunks)
    }

    /// Mines with `workers` worker threads and records the found proof (or
    /// the sentinel zero, if the standard range held none).
    pub fn mine(&mut self, workers: usize)
        requires
            workers >= 1,
            old(self).spec_difficulty() <= 60,
        ensures
            final(self).spec_prev_hash() == old(self).spec_prev_hash(),
            final(self).spec_generation() == old(self).spec_generation(),
            final(self).spec_difficulty() == old(self).spec_difficulty(),
            final(self).spec_data() == old(self).spec_data(),
            final(self).spec_proof() matches Some(p) && (p != 0 ==> old(self).proof_ok(p)),
            (forall|q: u64|
                q <= Self::standard_range_end(old(self).spec_difficulty()) ==> !old(
                    self,
                ).proof_ok(q)) ==> final(self).spec_proof() == Some(0u64),
    {
        let p = self.mine_for_proof(workers);
        self.proof = Some(p);
    }
}

/// At difficulty zero no trailing bit is demanded, so every digest
/// qualifies and every candidate value - zero included - is a valid proof
/// at once.
pub proof fn lemma_zero_difficulty_accepts(b: &Block, proof: u64)
    requires
        b.spec_difficulty() == 0,
    ensures
        b.proof_ok(proof),
{
}

/// Determinism of the answer: when exactly one value satisfies a block's
/// predicate, any two searches that return a non-sentinel proof - whatever
/// worker count, chunking or result order produced each - return that same
/// value.
pub proof fn lemma_answer_deterministic(b: &Block, v: u64, r1: u64, r2: u64)
    requires
        b.proof_ok(v),
        forall|q: u64| b.proof_ok(q) ==> q == v,
        r1 != 0 && b.proof_ok(r1),
        r2 != 0 && b.proof_ok(r2),
    ensures
        r1 == r2,
        r1 == v,
{
}

/// One unit of mining work: an inclusive candidate sub-range, bound to a
/// shared read-only snapshot of the block under search.
struct MiningTask {
    block: Arc<Block>,
    start_proof: u64,
    end_proof: u64,
}

impl MiningTask {
    fn new(block: Arc<Block>, start_proof: u64, end_proof: u64) -> (t: MiningTask)
        ensures
            t.block == block,
            t.start_proof == start_proof,
            t.end_proof == end_proof,
    {
        MiningTask { block, start_proof, end_proof }
    }
}

impl MiningTask {
    /// Scans the task's own sub-range in order and reports the first valid
    /// proof in it, if any.
    fn scan(&self) -> (r: Option<u64>)
        ensures
            r matches Some(p) ==> self.start_proof <= p <= self.end_proof && (*self.block).proof_ok(
                p,
            ) && (forall|q: u64| self.start_proof <= q < p ==> !(*self.block).proof_ok(q)),
            r is None ==> forall|q: u64|
                self.start_proof <= q <= self.end_proof ==> !(*self.block).proof_ok(q),
    {
        if self.end_proof < self.start_proof {
            return None;
        }
        let mut proof: u64 = self.start_proof;
        loop
            invariant
                self.start_proof <= proof <= self.end_proof,
                forall|q: u64| self.start_proof <= q < proof ==> !(*self.block).proof_ok(q),
            decreases self.end_proof - proof,
        {
            if self.block.is_valid_for_proof(proof) {
                return Some(proof);
            }
            if proof == self.end_proof {
                return None;
            }
            proof = proof + 1;
        }
    }
}

impl Task for MiningTask {
    type Output = Option<u64>;

    /// Always yields one output - the completion report of the chunk - so
    /// that the driver hears from every chunk, found or not.
    fn run(&self) -> Option<Option<u64>> {
        Some(self.scan())
    }
}

} // verus!
