//! Tally of EIP-4844 (blob) transactions over a run of recent blocks, walked
//! from the newest block backwards.  The caller fetches each block and hands
//! over what the tally reads of it.

use vstd::prelude::*;
use std::collections::HashMap;
use crate::hex::{parse_hex_quantity, spec_parse_hex_u64};

verus! {

broadcast use vstd::std_specs::hash::group_hash_axioms;

/// Whether an RPC transaction type string is the blob transaction type `"0x3"`.
pub open spec fn is_blob_tx_type(t: Seq<u8>) -> bool {
    t == seq![0x30u8, 0x78u8, 0x33u8]
}

/// How many of the transaction types are the blob type.
pub open spec fn blob_tx_count(types: Seq<Option<Vec<u8>>>) -> nat
    decreases types.len(),
{
    if types.len() == 0 {
        0
    } else {
        blob_tx_count(types.drop_last()) + match types.last() {
            Some(t) => if is_blob_tx_type(t@) { 1nat } else { 0nat },
            None => 0nat,
        }
    }
}

/// Appending one entry adds one to the count exactly when the entry is the
/// three bytes `"0x3"`; any other type string (`"0x2"`, `"0x4"`, `"0x03"`,
/// a missing type) adds nothing.
pub proof fn lemma_blob_count_push(types: Seq<Option<Vec<u8>>>, x: Option<Vec<u8>>)
    ensures
        blob_tx_count(types.push(x)) == blob_tx_count(types) + if (x matches Some(t) && t@.len() == 3
            && t@[0] == 0x30u8 && t@[1] == 0x78u8 && t@[2] == 0x33u8) { 1nat } else { 0nat },
{
    assert(types.push(x).drop_last() == types);
    match x {
        Some(t) => {
            if t@.len() == 3 && t@[0] == 0x30u8 && t@[1] == 0x78u8 && t@[2] == 0x33u8 {
                assert(t@ =~= seq![0x30u8, 0x78u8, 0x33u8]);
            }
        },
        None => {},
    }
}

/// A one-entry list holds one blob transaction exactly when its entry is
/// the three bytes `"0x3"`, and none otherwise.
pub proof fn lemma_blob_count_single(x: Option<Vec<u8>>)
    ensures
        blob_tx_count(seq![x]) == 1 <==> (x matches Some(t) && t@ == seq![0x30u8, 0x78u8, 0x33u8]),
        blob_tx_count(seq![x]) <= 1,
{
    lemma_blob_count_push(Seq::empty(), x);
    assert(Seq::<Option<Vec<u8>>>::empty().push(x) == seq![x]);
    assert(blob_tx_count(Seq::<Option<Vec<u8>>>::empty()) == 0);
    match x {
        Some(t) => {
            if t@ == seq![0x30u8, 0x78u8, 0x33u8] {
                assert(t@[2] == 0x33u8);
            }
            if t@.len() == 3 && t@[0] == 0x30u8 && t@[1] == 0x78u8 && t@[2] == 0x33u8 {
                assert(t@ =~= seq![0x30u8, 0x78u8, 0x33u8]);
            }
        },
        None => {},
    }
}

/// The count of a joined list is the sum of the counts of its parts.
pub proof fn lemma_blob_count_concat(a: Seq<Option<Vec<u8>>>, b: Seq<Option<Vec<u8>>>)
    ensures
        blob_tx_count(a + b) == blob_tx_count(a) + blob_tx_count(b),
    decreases b.len(),
{
    if b.len() == 0 {
        assert(a + b == a);
    } else {
        let b0 = b.drop_last();
        lemma_blob_count_concat(a, b0);
        assert(a + b == (a + b0).push(b.last()));
        assert(b == b0.push(b.last()));
        lemma_blob_count_push(a + b0, b.last());
        lemma_blob_count_push(b0, b.last());
    }
}

/// No list holds more blob transactions than entries.
pub proof fn lemma_blob_count_bounded(types: Seq<Option<Vec<u8>>>)
    ensures
        blob_tx_count(types) <= types.len(),
    decreases types.len(),
{
    if types.len() > 0 {
        lemma_blob_count_bounded(types.drop_last());
        assert(types == types.drop_last().push(types.last()));
        lemma_blob_count_push(types.drop_last(), types.last());
    }
}

/// The outcome of a scan.
#[derive(Debug)]
pub struct AnalysisResult {
    pub total_blocks: u64,
    pub blocks_without_eip4844: u64,
    pub blocks_with_eip4844: u64,
    pub total_eip4844_transactions: u64,
    /// Lowest and highest block number of the scanned range.
    pub block_range: (u64, u64),
    /// The blocks without blob transactions, newest first.
    pub blocks_without_eip4844_list: Vec<u64>,
}

/// A scan in progress: block `start_block - analyzed` is the next to fetch.
pub struct BlockScan {
    pub start_block: u64,
    pub num_blocks: u64,
    /// Blocks already handled, fetched or not.
    pub analyzed: u64,
    pub blocks_without_eip4844: u64,
    pub blocks_with_eip4844: u64,
    pub total_eip4844_transactions: u64,
    /// Blob gas used by each block with blob transactions whose figure parsed.
    pub blob_gas_usage: HashMap<u64, u64>,
    /// The blocks without blob transactions, newest first.
    pub blocks_without_eip4844_list: Vec<u64>,
}

/// Whether `n` is one of the block numbers already handled.
pub open spec fn handled(start: u64, analyzed: u64, n: int) -> bool {
    start - analyzed < n <= start
}

impl BlockScan {
    /// What every state of a scan satisfies.
    pub open spec fn wf(&self) -> bool {
        let list = self.blocks_without_eip4844_list@;
        &&& self.analyzed <= self.num_blocks
        &&& self.blocks_with_eip4844 + self.blocks_without_eip4844 <= self.analyzed
        &&& self.blocks_with_eip4844 <= self.total_eip4844_transactions
        &&& list.len() == self.blocks_without_eip4844
        &&& forall|j: int| 0 <= j < list.len()
            ==> handled(self.start_block, self.analyzed, #[trigger] list[j] as int)
        &&& forall|j: int, k: int| 0 <= j < k < list.len() ==> list[j] > list[k]
        &&& forall|n: u64| #[trigger] self.blob_gas_usage@.contains_key(n)
            ==> handled(self.start_block, self.analyzed, n as int) && !list.contains(n)
    }

    /// A scan of `num_blocks` blocks ending at `start_block`, nothing handled yet.
    pub fn new(start_block: u64, num_blocks: u64) -> (s: BlockScan)
        ensures
            s.wf(),
            s.start_block == start_block,
            s.num_blocks == num_blocks,
            s.analyzed == 0,
            s.blocks_without_eip4844 == 0,
            s.blocks_with_eip4844 == 0,
            s.total_eip4844_transactions == 0,
            s.blob_gas_usage@ == Map::<u64, u64>::empty(),
            s.blocks_without_eip4844_list@ == Seq::<u64>::empty(),
    {
        BlockScan {
            start_block,
            num_blocks,
            analyzed: 0,
            blocks_without_eip4844: 0,
            blocks_with_eip4844: 0,
            total_eip4844_transactions: 0,
            blob_gas_usage: HashMap::new(),
            blocks_without_eip4844_list: Vec::new(),
        }
    }

    /// The number of the next block to fetch, or `None` once all are handled.
    pub fn next_block(&self) -> (r: Option<u64>)
        requires
            self.analyzed < self.num_blocks ==> self.analyzed <= self.start_block,
        ensures
            self.analyzed < self.num_blocks ==> r == Some((self.start_block - self.analyzed) as u64),
            self.analyzed >= self.num_blocks ==> r is None,
    {
        if self.analyzed < self.num_blocks {
            Some(self.start_block - self.analyzed)
        } else {
            None
        }
    }

    /// Whether a progress line is due before handling the next block (every hundredth).
    pub fn progress_due(&self) -> (r: bool)
        ensures
            r == (self.analyzed % 100 == 0),
    {
        self.analyzed % 100 == 0
    }

    /// Counts the blob transactions among `tx_types`.
    pub fn count_blob_transactions(tx_types: &Vec<Option<Vec<u8>>>) -> (c: u64)
        ensures
            c == blob_tx_count(tx_types@),
            c <= tx_types@.len(),
            tx_types@.len() == 1 ==> (c == 1 <==> (tx_types@[0] matches Some(t)
                && t@ == seq![0x30u8, 0x78u8, 0x33u8])),
    {
        proof {
            lemma_blob_count_bounded(tx_types@);
            if tx_types@.len() == 1 {
                lemma_blob_count_single(tx_types@[0]);
                assert(tx_types@ == seq![tx_types@[0]]);
            }
        }
        let mut c: u64 = 0;
        let mut i: usize = 0;
        while i < tx_types.len()
            invariant
                i <= tx_types@.len(),
                c == blob_tx_count(tx_types@.subrange(0, i as int)),
                c <= i,
            decreases tx_types@.len() - i,
        {
            let ghost pre = tx_types@.subrange(0, i + 1);
            assert(pre.drop_last() == tx_types@.subrange(0, i as int));
            match &tx_types[i] {
                Some(t) => {
                    if t.len() == 3 && t[0] == 0x30 && t[1] == 0x78 && t[2] == 0x33 {
                        assert(t@ == seq![0x30u8, 0x78u8, 0x33u8]);
                        c = c + 1;
                    }
                },
                None => {},
            }
            i = i + 1;
        }
        assert(tx_types@.subrange(0, tx_types@.len() as int) == tx_types@);
        c
    }

    /// Records a fetched block: the types of its transactions and its
    /// `blobGasUsed` field.  A block with blob transactions counts towards
    /// the blocks with them, and its blob gas, when it parses, is kept; any
    /// other block joins the list of blocks without them.
    pub fn record_block(&mut self, tx_types: &Vec<Option<Vec<u8>>>, blob_gas_used: &Option<Vec<u8>>)
        requires
            old(self).wf(),
            old(self).analyzed < old(self).num_blocks,
            old(self).analyzed <= old(self).start_block,
            old(self).total_eip4844_transactions + blob_tx_count(tx_types@) <= u64::MAX,
            blob_tx_count(tx_types@) > 0 ==> (blob_gas_used matches Some(g) ==> g@.len() >= 2),
        ensures
            final(self).wf(),
            final(self).start_block == old(self).start_block,
            final(self).num_blocks == old(self).num_blocks,
            final(self).analyzed == old(self).analyzed + 1,
            final(self).total_eip4844_transactions == old(self).total_eip4844_transactions + blob_tx_count(tx_types@),
            ({
                let n = (old(self).start_block - old(self).analyzed) as u64;
                if blob_tx_count(tx_types@) > 0 {
                    &&& final(self).blocks_with_eip4844 == old(self).blocks_with_eip4844 + 1
                    &&& final(self).blocks_without_eip4844 == old(self).blocks_without_eip4844
                    &&& final(self).blocks_without_eip4844_list@ == old(self).blocks_without_eip4844_list@
                    &&& final(self).blob_gas_usage@ == match blob_gas_used {
                        Some(g) => match spec_parse_hex_u64(g@.skip(2)) {
                            Some(v) => old(self).blob_gas_usage@.insert(n, v),
                            None => old(self).blob_gas_usage@,
                        },
                        None => old(self).blob_gas_usage@,
                    }
                } else {
                    &&& final(self).blocks_with_eip4844 == old(self).blocks_with_eip4844
                    &&& final(self).blocks_without_eip4844 == old(self).blocks_without_eip4844 + 1
                    &&& final(self).blocks_without_eip4844_list@ == old(self).blocks_without_eip4844_list@.push(n)
                    &&& final(self).blob_gas_usage@ == old(self).blob_gas_usage@
                }
            }),
    {
        let n = self.start_block - self.analyzed;
        let count = Self::count_blob_transactions(tx_types);
        self.total_eip4844_transactions = self.total_eip4844_transactions + count;
        if count > 0 {
            self.blocks_with_eip4844 = self.blocks_with_eip4844 + 1;
            match blob_gas_used {
                Some(g) => {
                    match parse_hex_quantity(g.as_slice()) {
                        Some(v) => {
                            self.blob_gas_usage.insert(n, v);
                        },
                        None => {},
                    }
                },
                None => {},
            }
        } else {
            self.blocks_without_eip4844 = self.blocks_without_eip4844 + 1;
            self.blocks_without_eip4844_list.push(n);
        }
        self.analyzed = self.analyzed + 1;
        proof {
            let list = self.blocks_without_eip4844_list@;
            assert forall|m: u64| #[trigger] self.blob_gas_usage@.contains_key(m) implies
                handled(self.start_block, self.analyzed, m as int) && !list.contains(m) by {
                if m != n {
                    assert(old(self).blob_gas_usage@.contains_key(m));
                    if list.contains(m) {
                        let j = choose|j: int| 0 <= j < list.len() && list[j] == m;
                        assert(old(self).blocks_without_eip4844_list@[j] == m);
                    }
                } else {
                    if list.contains(m) {
                        let j = choose|j: int| 0 <= j < list.len() && list[j] == m;
                        assert(handled(old(self).start_block, old(self).analyzed, list[j] as int));
                    }
                }
            }
        }
    }

    /// Records a block that could not be fetched: it is handled but counted nowhere.
    pub fn record_failure(&mut self)
        requires
            old(self).wf(),
            old(self).analyzed < old(self).num_blocks,
        ensures
            final(self).wf(),
            final(self).analyzed == old(self).analyzed + 1,
            final(self).start_block == old(self).start_block,
            final(self).num_blocks == old(self).num_blocks,
            final(self).blocks_without_eip4844 == old(self).blocks_without_eip4844,
            final(self).blocks_with_eip4844 == old(self).blocks_with_eip4844,
            final(self).total_eip4844_transactions == old(self).total_eip4844_transactions,
            final(self).blob_gas_usage@ == old(self).blob_gas_usage@,
            final(self).blocks_without_eip4844_list@ == old(self).blocks_without_eip4844_list@,
    {
        self.analyzed = self.analyzed + 1;
        proof {
            let list = self.blocks_without_eip4844_list@;
            assert forall|j: int| 0 <= j < list.len()
                implies handled(self.start_block, self.analyzed, #[trigger] list[j] as int) by {
                assert(handled(old(self).start_block, old(self).analyzed, old(self).blocks_without_eip4844_list@[j] as int));
            }
            assert forall|m: u64| #[trigger] self.blob_gas_usage@.contains_key(m) implies
                handled(self.start_block, self.analyzed, m as int) && !list.contains(m) by {
                assert(old(self).blob_gas_usage@.contains_key(m));
            }
        }
    }

    /// The result of the scan: the tallies, the range
    /// `start_block - num_blocks + 1 ..= start_block` and `num_blocks` as the
    /// total, whether or not every block could be fetched.
    pub fn finish(self) -> (r: AnalysisResult)
        requires
            self.wf(),
            self.num_blocks <= self.start_block,
            self.start_block - self.num_blocks + 1 <= u64::MAX,
        ensures
            r.total_blocks == self.num_blocks,
            r.blocks_without_eip4844 == self.blocks_without_eip4844,
            r.blocks_with_eip4844 == self.blocks_with_eip4844,
            r.total_eip4844_transactions == self.total_eip4844_transactions,
            r.block_range == ((self.start_block - self.num_blocks + 1) as u64, self.start_block),
            r.blocks_without_eip4844_list@ == self.blocks_without_eip4844_list@,
            r.blocks_with_eip4844 + r.blocks_without_eip4844 <= r.total_blocks,
            r.blocks_with_eip4844 <= r.total_eip4844_transactions,
            r.blocks_without_eip4844_list@.len() == r.blocks_without_eip4844,
            forall|j: int| 0 <= j < r.blocks_without_eip4844_list@.len()
                ==> r.block_range.0 <= #[trigger] r.blocks_without_eip4844_list@[j] <= r.block_range.1,
    {
        AnalysisResult {
            total_blocks: self.num_blocks,
            blocks_without_eip4844: self.blocks_without_eip4844,
            blocks_with_eip4844: self.blocks_with_eip4844,
            total_eip4844_transactions: self.total_eip4844_transactions,
            block_range: (self.start_block - self.num_blocks + 1, self.start_block),
            blocks_without_eip4844_list: self.blocks_without_eip4844_list,
        }
    }
}

} // verus!
