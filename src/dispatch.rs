//! Dispatch of a word to its table entry: the linear scan that defines the
//! result, and a hashed index that reaches the same entry without a full
//! scan.
use crate::codec::{bits, bits32, itype_imm};
use crate::encoding::itype;
use crate::opcodes::OP_ADDI;
use crate::table::{
    build, entries_overlap, key_of, meta_of, overlap, pairwise_disjoint, rvi_key, rvi_meta,
    spec_build, table_wf, Builder, InstructionInfo,
};
use crate::{FactoryConfig, Instruction};
use vstd::arithmetic::power2::lemma2_to64;
use vstd::prelude::*;

verus! {

/// The first entry of `t`, from index `i` on, that `w` belongs to.
pub open spec fn first_match_from(t: Seq<InstructionInfo>, w: u32, i: int) -> Option<int>
    decreases t.len() - i,
{
    if i < 0 || i >= t.len() {
        None
    } else if t[i].matches(w) {
        Some(i)
    } else {
        first_match_from(t, w, i + 1)
    }
}

/// The first entry of `t` that `w` belongs to.
pub open spec fn first_match(t: Seq<InstructionInfo>, w: u32) -> Option<int> {
    first_match_from(t, w, 0)
}

/// The decode of `w` by table `t`: the first matching entry's builder run
/// on `w` with the entry's opcode, or `None` where no entry matches.
pub open spec fn scan_decode(t: Seq<InstructionInfo>, w: u32, config: &FactoryConfig) -> Option<
    Instruction,
> {
    match first_match(t, w) {
        Some(i) => spec_build(t[i].spec_builder(), w, t[i].spec_opcode(), config),
        None => None,
    }
}

/// What `first_match_from` returns.
pub proof fn lemma_first_match_from(t: Seq<InstructionInfo>, w: u32, i: int)
    requires
        0 <= i,
    ensures
        match first_match_from(t, w, i) {
            Some(k) => i <= k < t.len() && t[k].matches(w) && forall|j: int|
                i <= j < k ==> !#[trigger] t[j].matches(w),
            None => forall|j: int| i <= j < t.len() ==> !#[trigger] t[j].matches(w),
        },
    decreases t.len() - i,
{
    if i < t.len() && !t[i].matches(w) {
        lemma_first_match_from(t, w, i + 1);
    }
}

/// The first match is the matching entry that no earlier entry precedes.
pub proof fn lemma_first_match_at(t: Seq<InstructionInfo>, w: u32, k: int)
    requires
        0 <= k < t.len(),
        t[k].matches(w),
        forall|j: int| 0 <= j < k ==> !#[trigger] t[j].matches(w),
    ensures
        first_match(t, w) == Some(k),
{
    lemma_first_match_from(t, w, 0);
    match first_match(t, w) {
        Some(i) => {
            if i < k {
                assert(!t[i].matches(w));
            }
            if i > k {
                assert(!t[k].matches(w));
            }
        },
        None => {
            assert(!t[k].matches(w));
        },
    }
}

/// No entry matches: the first match is `None`.
pub proof fn lemma_no_match(t: Seq<InstructionInfo>, w: u32)
    requires
        forall|j: int| 0 <= j < t.len() ==> !#[trigger] t[j].matches(w),
    ensures
        first_match(t, w) is None,
{
    lemma_first_match_from(t, w, 0);
    if let Some(i) = first_match(t, w) {
        assert(t[i].matches(w));
    }
}

/// Whether no word belongs to two distinct entries of `table`.
pub fn is_disjoint(table: &Vec<InstructionInfo>) -> (r: bool)
    requires
        table_wf(table@),
    ensures
        r == pairwise_disjoint(table@),
{
    let n = table.len();
    let mut i: usize = 0;
    while i < n
        invariant
            n == table@.len(),
            table_wf(table@),
            0 <= i <= n,
            forall|a: int, b: int|
                0 <= a < i && a < b < n ==> !overlap(#[trigger] table@[a], #[trigger] table@[b]),
        decreases n - i,
    {
        let mut j: usize = i + 1;
        while j < n
            invariant
                n == table@.len(),
                table_wf(table@),
                0 <= i < n,
                i + 1 <= j <= n,
                forall|a: int, b: int|
                    0 <= a < i && a < b < n ==> !overlap(#[trigger] table@[a], #[trigger] table@[b]),
                forall|b: int| i < b < j ==> !overlap(table@[i as int], #[trigger] table@[b]),
            decreases n - j,
        {
            if entries_overlap(&table[i], &table[j]) {
                proof {
                    assert(overlap(table@[i as int], table@[j as int]));
                }
                return false;
            }
            j += 1;
        }
        i += 1;
    }
    proof {
        assert forall|a: int, b: int|
            0 <= a < n && 0 <= b < n && a != b implies !overlap(
            #[trigger] table@[a],
            #[trigger] table@[b],
        ) by {
            if b < a && overlap(table@[a], table@[b]) {
                let w = choose|w: u32| table@[a].matches(w) && table@[b].matches(w);
                assert(overlap(table@[b], table@[a]));
            }
        }
    }
    true
}

/// In a table where no word belongs to two entries, the entry that a word
/// belongs to is the one that the scan picks, wherever it stands.
pub proof fn lemma_disjoint_match_is_first(t: Seq<InstructionInfo>, w: u32, i: int)
    requires
        pairwise_disjoint(t),
        0 <= i < t.len(),
        t[i].matches(w),
    ensures
        first_match(t, w) == Some(i),
{
    assert forall|j: int| 0 <= j < i implies !#[trigger] t[j].matches(w) by {
        if t[j].matches(w) {
            assert(overlap(t[i], t[j]));
        }
    }
    lemma_first_match_at(t, w, i);
}

/// Decodes `w` by scanning `table` in order: the first entry that `w`
/// belongs to builds the result; where none does, the result is `None`.
pub fn baseline_factory(table: &Vec<InstructionInfo>, w: u32, config: &FactoryConfig) -> (r: Option<
    Instruction,
>)
    ensures
        r == scan_decode(table@, w, config),
{
    let mut i: usize = 0;
    while i < table.len()
        invariant
            0 <= i <= table@.len(),
            forall|j: int| 0 <= j < i ==> !#[trigger] table@[j].matches(w),
        decreases table@.len() - i,
    {
        let e = &table[i];
        if e.is_match(w) {
            proof {
                lemma_first_match_at(table@, w, i as int);
            }
            return build(e.get_builder(), w, e.get_opcode(), config);
        }
        i += 1;
    }
    proof {
        lemma_no_match(table@, w);
    }
    None
}


/// The number of buckets of a `DecodeIndex`.
pub const BUCKETS: u32 = 251;

/// The bucket that a key falls in.
pub open spec fn bucket_of(key: u32) -> int {
    (key % BUCKETS) as int
}

/// The first position of `bucket`, from `k` on, that holds an entry of `t`
/// that `w` belongs to.
pub open spec fn bucket_pos(t: Seq<InstructionInfo>, bucket: Seq<usize>, w: u32, k: int) -> Option<
    int,
>
    decreases bucket.len() - k,
{
    if k < 0 || k >= bucket.len() {
        None
    } else if t[bucket[k] as int].matches(w) {
        Some(k)
    } else {
        bucket_pos(t, bucket, w, k + 1)
    }
}

/// What `bucket_pos` returns.
proof fn lemma_bucket_pos(t: Seq<InstructionInfo>, bucket: Seq<usize>, w: u32, k: int)
    requires
        0 <= k,
    ensures
        match bucket_pos(t, bucket, w, k) {
            Some(p) => k <= p < bucket.len() && t[bucket[p] as int].matches(w) && forall|q: int|
                k <= q < p ==> !t[#[trigger] bucket[q] as int].matches(w),
            None => forall|q: int| k <= q < bucket.len() ==> !t[#[trigger] bucket[q] as int].matches(w),
        },
    decreases bucket.len() - k,
{
    if k < bucket.len() && !t[bucket[k] as int].matches(w) {
        lemma_bucket_pos(t, bucket, w, k + 1);
    }
}

/// A word that belongs to an entry agrees with the entry's match bits on
/// every bit of a mask that the entry's mask covers.
proof fn lemma_common_key(w: u32, mask: u32, match_bits: u32, common: u32)
    requires
        w & mask == match_bits,
        common & mask == common,
    ensures
        w & common == match_bits & common,
{
    assert(w & common == match_bits & common) by (bit_vector)
        requires
            w & mask == match_bits,
            common & mask == common,
    ;
}

/// A table with a hashed index over it. A word's key is the word under
/// the mask that all entries share; each bucket lists, in table order,
/// every entry whose match bits give a key of that bucket.
pub struct DecodeIndex {
    table: Vec<InstructionInfo>,
    common_mask: u32,
    buckets: Vec<Vec<usize>>,
}

impl DecodeIndex {
    /// The table indexed.
    pub closed spec fn spec_table(&self) -> Seq<InstructionInfo> {
        self.table@
    }

    /// The bucket of key bucket `b`.
    pub closed spec fn bucket_at(&self, b: int) -> Seq<usize> {
        self.buckets@[b]@
    }

    /// The bucket that word `w` falls in.
    pub closed spec fn spec_bucket(&self, w: u32) -> Seq<usize> {
        self.bucket_at(bucket_of(w & self.common_mask))
    }

    /// The key of entry `i`.
    pub closed spec fn entry_bucket(&self, i: int) -> int {
        bucket_of(self.table@[i].spec_match_bits() & self.common_mask)
    }

    /// The index is sound and complete over its table.
    pub closed spec fn wf(&self) -> bool {
        &&& self.buckets@.len() == BUCKETS
        &&& self.table@.len() <= usize::MAX
        &&& forall|i: int|
            0 <= i < self.table@.len() ==> self.common_mask & (#[trigger] self.table@[i]).spec_mask()
                == self.common_mask
        &&& forall|b: int, k: int|
            0 <= b < BUCKETS && 0 <= k < self.bucket_at(b).len() ==> {
                &&& (#[trigger] self.bucket_at(b)[k]) < self.table@.len()
                &&& self.entry_bucket(self.bucket_at(b)[k] as int) == b
            }
        &&& forall|b: int, k1: int, k2: int|
            0 <= b < BUCKETS && 0 <= k1 < k2 < self.bucket_at(b).len() ==> #[trigger] self.bucket_at(
                b,
            )[k1] < #[trigger] self.bucket_at(b)[k2]
        &&& forall|i: int|
            0 <= i < self.table@.len() ==> self.bucket_at(#[trigger] self.entry_bucket(i)).contains(
                i as usize,
            )
    }

    /// The entry that a search of `w`'s bucket selects.
    pub closed spec fn index_pick(&self, w: u32) -> Option<int> {
        match bucket_pos(self.table@, self.spec_bucket(w), w, 0) {
            Some(p) => Some(self.spec_bucket(w)[p] as int),
            None => None,
        }
    }

    /// The decode of `w` through the index.
    pub open spec fn index_decode(&self, w: u32, config: &FactoryConfig) -> Option<Instruction> {
        match self.index_pick(w) {
            Some(i) => spec_build(
                self.spec_table()[i].spec_builder(),
                w,
                self.spec_table()[i].spec_opcode(),
                config,
            ),
            None => None,
        }
    }

    /// Builds the index of `table`.
    pub fn new(table: Vec<InstructionInfo>) -> (r: Self)
        ensures
            r.wf(),
            r.spec_table() == table@,
    {
        let n = table.len();
        let mut cm: u32 = 0xFFFF_FFFF;
        let mut i: usize = 0;
        while i < n
            invariant
                n == table@.len(),
                0 <= i <= n,
                forall|j: int| 0 <= j < i ==> cm & (#[trigger] table@[j]).spec_mask() == cm,
            decreases n - i,
        {
            let m = table[i].get_mask();
            let prev = cm;
            cm = cm & m;
            proof {
                assert forall|j: int| 0 <= j < i + 1 implies cm & (#[trigger] table@[j]).spec_mask()
                    == cm by {
                    let mj = table@[j].spec_mask();
                    if j < i {
                        assert(prev & mj == prev ==> (prev & m) & mj == prev & m) by (bit_vector);
                    } else {
                        assert((prev & m) & m == prev & m) by (bit_vector);
                    }
                }
            }
            i += 1;
        }
        let mut buckets: Vec<Vec<usize>> = Vec::new();
        let mut b: u32 = 0;
        while b < BUCKETS
            invariant
                n == table@.len(),
                0 <= b <= BUCKETS,
                buckets@.len() == b,
                forall|bb: int, k: int|
                    0 <= bb < b && 0 <= k < buckets@[bb]@.len() ==> {
                        &&& (#[trigger] buckets@[bb]@[k]) < n
                        &&& bucket_of(table@[buckets@[bb]@[k] as int].spec_match_bits() & cm) == bb
                    },
                forall|bb: int, k1: int, k2: int|
                    0 <= bb < b && 0 <= k1 < k2 < buckets@[bb]@.len() ==> #[trigger] buckets@[bb]@[k1]
                        < #[trigger] buckets@[bb]@[k2],
                forall|j: int|
                    0 <= j < n && #[trigger] bucket_of(table@[j].spec_match_bits() & cm) < b
                        ==> buckets@[bucket_of(table@[j].spec_match_bits() & cm)]@.contains(
                        j as usize,
                    ),
            decreases BUCKETS - b,
        {
            let mut v: Vec<usize> = Vec::new();
            let mut i: usize = 0;
            while i < n
                invariant
                    n == table@.len(),
                    0 <= i <= n,
                    0 <= b < BUCKETS,
                    forall|k: int|
                        0 <= k < v@.len() ==> {
                            &&& (#[trigger] v@[k]) < i
                            &&& bucket_of(table@[v@[k] as int].spec_match_bits() & cm) == b
                        },
                    forall|k1: int, k2: int|
                        0 <= k1 < k2 < v@.len() ==> #[trigger] v@[k1] < #[trigger] v@[k2],
                    forall|j: int|
                        0 <= j < i && #[trigger] bucket_of(table@[j].spec_match_bits() & cm) == b
                            ==> v@.contains(j as usize),
                decreases n - i,
            {
                let key = table[i].get_match_bits() & cm;
                if key % BUCKETS == b {
                    let ghost pv = v@;
                    v.push(i);
                    proof {
                        assert(v@ == pv.push(i));
                        assert forall|j: int|
                            0 <= j < i + 1 && #[trigger] bucket_of(
                                table@[j].spec_match_bits() & cm,
                            ) == b implies v@.contains(j as usize) by {
                            if j < i {
                                assert(pv.contains(j as usize));
                                let k = choose|k: int| 0 <= k < pv.len() && pv[k] == j as usize;
                                assert(v@[k] == pv[k]);
                            } else {
                                assert(v@[pv.len() as int] == j as usize);
                            }
                        }
                    }
                }
                i += 1;
            }
            let ghost prev = buckets@;
            buckets.push(v);
            proof {
                assert(buckets@[b as int]@ == v@);
                assert forall|j: int|
                    0 <= j < n && #[trigger] bucket_of(table@[j].spec_match_bits() & cm) < b + 1
                        implies buckets@[bucket_of(table@[j].spec_match_bits() & cm)]@.contains(
                    j as usize,
                ) by {
                    let bj = bucket_of(table@[j].spec_match_bits() & cm);
                    assert(bj < b ==> buckets@[bj] == prev[bj]);
                }
            }
            b += 1;
        }
        let r = DecodeIndex { table, common_mask: cm, buckets };
        proof {
            assert forall|i: int| 0 <= i < r.table@.len() implies r.bucket_at(
                #[trigger] r.entry_bucket(i),
            ).contains(i as usize) by {
                assert(0 <= bucket_of(r.table@[i].spec_match_bits() & cm) < BUCKETS);
            }
        }
        r
    }

    /// Decodes `w` through the index: only the entries in `w`'s bucket are
    /// tried, in table order.
    pub fn factory(&self, w: u32, config: &FactoryConfig) -> (r: Option<Instruction>)
        requires
            self.wf(),
        ensures
            r == self.index_decode(w, config),
            r == scan_decode(self.spec_table(), w, config),
    {
        proof {
            lemma_index_agrees_with_scan(self, w, config);
        }
        let b = ((w & self.common_mask) % BUCKETS) as usize;
        let bucket = &self.buckets[b];
        proof {
            assert(bucket@ == self.spec_bucket(w));
        }
        let mut k: usize = 0;
        while k < bucket.len()
            invariant
                self.wf(),
                bucket@ == self.spec_bucket(w),
                0 <= b < BUCKETS,
                b == bucket_of(w & self.common_mask),
                0 <= k <= bucket@.len(),
                bucket_pos(self.table@, bucket@, w, 0) == bucket_pos(self.table@, bucket@, w, k as int),
                    self.index_decode(w, config) == scan_decode(self.spec_table(), w, config),
                self.index_pick(w) == first_match(self.spec_table(), w),
            decreases bucket@.len() - k,
        {
            let i = bucket[k];
            proof {
                assert(self.bucket_at(b as int)[k as int] == i);
            }
            let e = &self.table[i];
            if e.is_match(w) {
                return build(e.get_builder(), w, e.get_opcode(), config);
            }
            k += 1;
        }
        None
    }
}

/// The hashed index selects, for every word, the entry that a scan of the
/// table in order selects; so decoding through it gives what the scan
/// gives.
pub proof fn lemma_index_agrees_with_scan(index: &DecodeIndex, w: u32, config: &FactoryConfig)
    requires
        index.wf(),
    ensures
        index.index_pick(w) == first_match(index.spec_table(), w),
        index.index_decode(w, config) == scan_decode(index.spec_table(), w, config),
{
    let t = index.table@;
    let cm = index.common_mask;
    let b = bucket_of(w & cm);
    let bk = index.bucket_at(b);
    assert(index.spec_bucket(w) == bk);
    assert(index.spec_table() == t);
    lemma_first_match_from(t, w, 0);
    lemma_bucket_pos(t, bk, w, 0);
    match first_match(t, w) {
        Some(j) => {
            lemma_common_key(w, t[j].spec_mask(), t[j].spec_match_bits(), cm);
            assert(index.entry_bucket(j) == b);
            assert(bk.contains(j as usize));
            let kj = choose|kj: int| 0 <= kj < bk.len() && bk[kj] == j as usize;
            match bucket_pos(t, bk, w, 0) {
                Some(p) => {
                    let i = bk[p] as int;
                    assert(bk[p] < t.len());
                    if i < j {
                        assert(!t[i].matches(w));
                    }
                    if i > j {
                        if p < kj {
                            assert(bk[p] < bk[kj]);
                        }
                        assert(!t[bk[kj] as int].matches(w));
                    }
                    assert(i == j);
                },
                None => {
                    assert(!t[bk[kj] as int].matches(w));
                },
            }
        },
        None => {
            if let Some(p) = bucket_pos(t, bk, w, 0) {
                assert(bk[p] < t.len());
                assert(!t[bk[p] as int].matches(w));
            }
        },
    }
}


/// Decoding depends on the table, the word and the configuration alone:
/// two indexes built over one table decode every word alike.
pub proof fn lemma_indexes_of_one_table_agree(
    a: &DecodeIndex,
    b: &DecodeIndex,
    w: u32,
    config: &FactoryConfig,
)
    requires
        a.wf(),
        b.wf(),
        a.spec_table() == b.spec_table(),
    ensures
        a.index_decode(w, config) == b.index_decode(w, config),
{
    lemma_index_agrees_with_scan(a, w, config);
    lemma_index_agrees_with_scan(b, w, config);
}


/// The canonical no-op word `0x00000013` decodes through the base integer
/// table to `addi x0, x0, 0`, on every configuration.
pub proof fn lemma_nop_word_decodes_to_addi(t: Seq<InstructionInfo>, config: &FactoryConfig)
    requires
        t.len() == 53,
        forall|k: int| 0 <= k < 53 ==> key_of(#[trigger] t[k]) == rvi_key(k),
        forall|k: int| 0 <= k < 53 ==> meta_of(#[trigger] t[k]) == rvi_meta(k),
    ensures
        scan_decode(t, 0x13, config) == Some(itype(OP_ADDI, 0, 0, 0)),
{
    let w: u32 = 0x13;
    assert(w & 0x707Fu32 == 0x13u32 && w & 0x7Fu32 != 0x37u32 && w & 0x7Fu32 != 0x17u32 && w
        & 0x7Fu32 != 0x6Fu32 && w & 0x707Fu32 != 0x67u32 && w & 0x707Fu32 != 0x63u32 && w
        & 0x707Fu32 != 0x1063u32 && w & 0x707Fu32 != 0x4063u32 && w & 0x707Fu32 != 0x5063u32 && w
        & 0x707Fu32 != 0x6063u32 && w & 0x707Fu32 != 0x7063u32 && w & 0x707Fu32 != 0x03u32 && w
        & 0x707Fu32 != 0x1003u32 && w & 0x707Fu32 != 0x2003u32 && w & 0x707Fu32 != 0x3003u32 && w
        & 0x707Fu32 != 0x4003u32 && w & 0x707Fu32 != 0x5003u32 && w & 0x707Fu32 != 0x6003u32 && w
        & 0x707Fu32 != 0x23u32 && w & 0x707Fu32 != 0x1023u32 && w & 0x707Fu32 != 0x2023u32 && w
        & 0x707Fu32 != 0x3023u32) by (bit_vector)
        requires
            w == 0x13u32,
    ;
    assert(key_of(t[21]) == rvi_key(21));
    assert(t[21].matches(w));
    assert forall|j: int| 0 <= j < 21 implies !#[trigger] t[j].matches(w) by {
        assert(key_of(t[j]) == rvi_key(j));
    }
    lemma_first_match_at(t, w, 21);
    assert(meta_of(t[21]) == rvi_meta(21));
    assert(t[21].spec_builder() == Builder::Is && t[21].spec_opcode() == OP_ADDI);
    lemma2_to64();
    assert(bits(w, 7, 5) == 0);
    assert(bits(w, 15, 5) == 0);
    assert(bits(w, 20, 12) == 0);
    assert(itype_imm(w) == 0);
    assert(bits32(0) == 0);
    reveal(spec_build);
}

} // verus!
