//! The ledger: an ordered, append-only sequence of blocks, each linked to
//! its predecessor by that predecessor's digest.

use vstd::prelude::*;

use crate::digest::HashContent;
use crate::digest::digest_of;
use crate::digest::generate_hash;

verus! {

/// Why an append was refused.
#[derive(Clone, Copy, Debug, PartialEq, Eq, Structural)]
pub enum LedgerError {
    /// The caller-supplied payload lies outside the range the block's
    /// payload field can hold; the ledger is left unchanged.
    InvalidPayload,
}

/// Relies on time::OffsetDateTime::now_utc and unix_timestamp: the clock's
/// reading in whole seconds since the Unix epoch. Nothing is assumed of the
/// value; every contract downstream holds whatever the clock returned.
#[verifier::external_body]
fn current_timestamp() -> i64 {
    time::OffsetDateTime::now_utc().unix_timestamp()
}

/// One entry of the ledger. Immutable once constructed: the ledger only
/// ever appends whole blocks. The fields are public so that an outside
/// harness can inspect them — and tamper with them; `Ledger::verify`
/// detects such tampering.
pub struct Block {
    /// The hashed payload of this block.
    pub content: HashContent,
    /// The digest of the chain's prior head, or the empty string for the
    /// genesis block.
    pub previous: String,
    /// This block's own digest, computed once at construction over the
    /// content and the predecessor link.
    pub current: String,
}

impl Block {
    /// A block is well formed when its stored digest is the digest of its
    /// content and predecessor link.
    pub open spec fn wf(self) -> bool {
        self.current@ == digest_of(self.content.timestamp, self.content.data, self.previous@)
    }

    /// Constructs a block from the given data and predecessor digest,
    /// stamped with the current clock reading.
    pub fn new(data: i32, previous: String) -> (r: Block)
        ensures
            r.content.data == data,
            r.previous@ == previous@,
            r.wf(),
    {
        let content = HashContent { timestamp: current_timestamp(), data };
        let hash = generate_hash(&content, previous.as_str());
        Block { content, previous, current: hash }
    }

    /// The digest of this block.
    pub fn get_current(&self) -> (r: &str)
        ensures
            r@ == self.current@,
    {
        self.current.as_str()
    }
}

/// Every block's stored predecessor digest equals the digest of the block
/// before it.
pub open spec fn links_ok(s: Seq<Block>) -> bool {
    forall|i: int| 1 <= i < s.len() ==> (#[trigger] s[i]).previous@ == s[i - 1].current@
}

/// Every block's stored digest is the digest of its own content and link.
pub open spec fn digests_ok(s: Seq<Block>) -> bool {
    forall|i: int| 0 <= i < s.len() ==> (#[trigger] s[i]).wf()
}

/// What `Ledger::verify` checks: every digest recomputes, every link
/// matches. Vacuously true of an empty sequence.
pub open spec fn chain_ok(s: Seq<Block>) -> bool {
    links_ok(s) && digests_ok(s)
}

/// An append-only sequence of blocks. Created with exactly one genesis
/// block; grows only by appending a block that references the current
/// head's digest.
pub struct Ledger {
    /// The blocks, oldest first. Public so that an outside harness can
    /// inspect — and tamper with — them; `verify` detects tampering.
    pub blocks: Vec<Block>,
}

impl Ledger {
    /// A ledger is well formed when it holds at least the genesis block,
    /// the genesis block carries the empty predecessor link, and the whole
    /// chain is consistent.
    pub open spec fn wf(self) -> bool {
        &&& self.blocks@.len() >= 1
        &&& self.blocks@[0].previous@ == Seq::<char>::empty()
        &&& chain_ok(self.blocks@)
    }

    /// Creates a ledger holding exactly one genesis block: payload zero,
    /// empty predecessor link.
    pub fn create() -> (r: Ledger)
        ensures
            r.wf(),
            r.blocks@.len() == 1,
            r.blocks@[0].content.data == 0,
    {
        let genesis = Block::new(0, String::new());
        let mut blocks: Vec<Block> = Vec::new();
        blocks.push(genesis);
        Ledger { blocks }
    }

    /// The digest of the current head block.
    pub fn head_digest(&self) -> (r: String)
        requires
            self.blocks@.len() >= 1,
        ensures
            r@ == self.blocks@[self.blocks@.len() - 1].current@,
    {
        let n = self.blocks.len();
        self.blocks[n - 1].current.clone()
    }

    /// Appends a block carrying the given payload, linked to the current
    /// head. Returns the previous head's digest and the new block's
    /// digest. A payload outside the range of the block's payload field is
    /// refused and the ledger is left unchanged.
    pub fn append(&mut self, payload: i64) -> (r: Result<(String, String), LedgerError>)
        requires
            old(self).wf(),
        ensures
            final(self).wf(),
            r is Ok <==> i32::MIN <= payload <= i32::MAX,
            r is Err ==> r == Result::<(String, String), LedgerError>::Err(
                LedgerError::InvalidPayload,
            ) && final(self).blocks@ == old(self).blocks@,
            r matches Ok((prev, cur)) ==> {
                &&& final(self).blocks@.len() == old(self).blocks@.len() + 1
                &&& forall|i: int|
                    0 <= i < old(self).blocks@.len() ==> final(self).blocks@[i] == old(
                        self,
                    ).blocks@[i]
                &&& final(self).blocks@.last().content.data == payload as i32
                &&& final(self).blocks@.last().previous@ == old(self).blocks@.last().current@
                &&& prev@ == old(self).blocks@.last().current@
                &&& cur@ == final(self).blocks@.last().current@
            },
    {
        if payload < i32::MIN as i64 || payload > i32::MAX as i64 {
            return Err(LedgerError::InvalidPayload);
        }
        let data = payload as i32;
        let n = self.blocks.len();
        let prev = self.blocks[n - 1].current.clone();
        let block = Block::new(data, prev.clone());
        let cur = block.current.clone();
        self.blocks.push(block);
        Ok((prev, cur))
    }

    /// Walks the chain from genesis to head; recomputes every block's
    /// digest and checks every predecessor link. Returns true exactly when
    /// the whole chain is consistent.
    pub fn verify(&self) -> (r: bool)
        ensures
            r == chain_ok(self.blocks@),
    {
        let n = self.blocks.len();
        let mut i: usize = 0;
        while i < n
            invariant
                n == self.blocks@.len(),
                i <= n,
                forall|j: int| 0 <= j < i ==> (#[trigger] self.blocks@[j]).wf(),
                forall|j: int|
                    1 <= j < i ==> (#[trigger] self.blocks@[j]).previous@ == self.blocks@[j
                        - 1].current@,
            decreases n - i,
        {
            let b = &self.blocks[i];
            let recomputed = generate_hash(&b.content, b.previous.as_str());
            if !(recomputed == b.current) {
                assert(!self.blocks@[i as int].wf());
                return false;
            }
            if i >= 1 && !(b.previous == self.blocks[i - 1].current) {
                return false;
            }
            i += 1;
        }
        true
    }
}

/// Law: chain linkage — in a well-formed ledger every block's stored
/// predecessor digest equals the digest of the block immediately before it.
pub proof fn lemma_chain_linkage(l: Ledger, i: int)
    requires
        l.wf(),
        1 <= i < l.blocks@.len(),
    ensures
        l.blocks@[i].previous@ == l.blocks@[i - 1].current@,
{
}

/// Law: genesis sentinel — in a well-formed ledger the first block's
/// predecessor link is the empty string.
pub proof fn lemma_genesis_sentinel(l: Ledger)
    requires
        l.wf(),
    ensures
        l.blocks@[0].previous@ == Seq::<char>::empty(),
{
}

/// Law: verify round-trip — a well-formed ledger, which is what `create`
/// establishes and `append` preserves, passes the check that `verify`
/// performs.
pub proof fn lemma_wf_verifies(l: Ledger)
    requires
        l.wf(),
    ensures
        chain_ok(l.blocks@),
{
}

} // verus!

