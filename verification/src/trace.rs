//! The length-prefixed concolic trace format written by the symbolic runtime
//! into the shared memory region, and the metadata extracted from it.

use vstd::prelude::*;

verus! {

/// Number of bytes of the little-endian length header at the start of the
/// shared memory region.
pub const LENGTH_PREFIX_SIZE: usize = 8;

/// The unsigned number whose little-endian byte representation is `bytes`.
pub open spec fn le_value(bytes: Seq<u8>) -> nat
    decreases bytes.len(),
{
    if bytes.len() == 0 {
        0
    } else {
        bytes[0] as nat + 256 * le_value(bytes.drop_first())
    }
}

/// `256` raised to the power `n`.
pub open spec fn pow256(n: nat) -> nat
    decreases n,
{
    if n == 0 {
        1
    } else {
        256 * pow256((n - 1) as nat)
    }
}

/// A little-endian number of `n` bytes is below `256^n`.
pub proof fn lemma_le_value_bound(bytes: Seq<u8>)
    ensures
        le_value(bytes) < pow256(bytes.len()),
    decreases bytes.len(),
{
    if bytes.len() > 0 {
        lemma_le_value_bound(bytes.drop_first());
    }
}

proof fn lemma_pow256_monotone(a: nat, b: nat)
    requires
        a <= b,
    ensures
        pow256(a) <= pow256(b),
    decreases b,
{
    if a < b {
        lemma_pow256_monotone(a, (b - 1) as nat);
    }
}

/// Reads the unsigned 64-bit little-endian number stored in
/// `bytes[start..start + 8]`.
pub fn u64_from_le_slice(bytes: &[u8], start: usize) -> (value: u64)
    requires
        start + 8 <= bytes@.len(),
    ensures
        value == le_value(bytes@.subrange(start as int, start + 8)),
{
    let ghost s = bytes@.subrange(start as int, start + 8);
    let n = bytes.len();
    let mut value: u64 = 0;
    let mut i: usize = 8;
    proof {
        assert(s.subrange(8, 8) =~= Seq::<u8>::empty());
        reveal_with_fuel(pow256, 8);
    }
    while i > 0
        invariant
            i <= 8,
            start + 8 <= n,
            n == bytes@.len(),
            s == bytes@.subrange(start as int, start + 8),
            value == le_value(s.subrange(i as int, 8)),
            value < pow256((8 - i) as nat),
            pow256(7) == 0x100_0000_0000_0000,
        decreases i,
    {
        proof {
            lemma_pow256_monotone((8 - i) as nat, 7);
            assert(s.subrange(i - 1, 8).drop_first() =~= s.subrange(i as int, 8));
        }
        let b = bytes[start + (i - 1)];
        assert(b == s[i - 1]);
        value = b as u64 + 256 * value;
        i = i - 1;
    }
    assert(s.subrange(0, 8) =~= s);
    value
}


/// The trace length that the header at the start of `map` declares.
pub open spec fn declared_trace_len(map: Seq<u8>) -> nat {
    le_value(map.take(LENGTH_PREFIX_SIZE as int))
}

/// `map` starts with a complete length header, and the trace it declares
/// fits into the rest of `map`.
pub open spec fn length_prefix_valid(map: Seq<u8>) -> bool {
    &&& map.len() >= LENGTH_PREFIX_SIZE
    &&& declared_trace_len(map) <= map.len() - LENGTH_PREFIX_SIZE
}

/// The trace bytes of a length-prefixed region: the `declared_trace_len`
/// bytes that follow the header.
pub open spec fn trace_of(map: Seq<u8>) -> Seq<u8> {
    map.subrange(
        LENGTH_PREFIX_SIZE as int,
        LENGTH_PREFIX_SIZE + declared_trace_len(map),
    )
}

/// Copies `src[start..end]` into a new vector.
fn copy_range(src: &[u8], start: usize, end: usize) -> (out: Vec<u8>)
    requires
        start <= end <= src@.len(),
    ensures
        out@ == src@.subrange(start as int, end as int),
{
    let mut out: Vec<u8> = Vec::new();
    let mut i = start;
    while i < end
        invariant
            start <= i <= end,
            end <= src@.len(),
            out@ == src@.subrange(start as int, i as int),
        decreases end - i,
    {
        out.push(src[i]);
        i = i + 1;
        assert(out@ =~= src@.subrange(start as int, i as int));
    }
    out
}

/// Extracts the trace from a length-prefixed region: the first eight bytes
/// hold the trace length as a little-endian `u64`, the trace follows.
/// Returns `None` when the header is incomplete or declares more bytes than
/// the region holds.
pub fn decode_length_prefixed(map: &[u8]) -> (trace: Option<Vec<u8>>)
    ensures
        trace is Some <==> length_prefix_valid(map@),
        trace matches Some(t) ==> t@ == trace_of(map@),
{
    let n = map.len();
    if n < LENGTH_PREFIX_SIZE {
        return None;
    }
    let declared = u64_from_le_slice(map, 0);
    assert(map@.subrange(0, 8) =~= map@.take(8));
    let available = n - LENGTH_PREFIX_SIZE;
    if declared > available as u64 {
        return None;
    }
    let len = declared as usize;
    Some(copy_range(map, LENGTH_PREFIX_SIZE, LENGTH_PREFIX_SIZE + len))
}

/// The `k` little-endian bytes of `n` (the low `k` bytes when `n` does not
/// fit).
pub open spec fn le_bytes(n: nat, k: nat) -> Seq<u8>
    decreases k,
{
    if k == 0 {
        Seq::empty()
    } else {
        seq![(n % 256) as u8] + le_bytes(n / 256, (k - 1) as nat)
    }
}

proof fn lemma_le_bytes_value(n: nat, k: nat)
    requires
        n < pow256(k),
    ensures
        le_bytes(n, k).len() == k,
        le_value(le_bytes(n, k)) == n,
    decreases k,
{
    if k > 0 {
        lemma_le_bytes_value(n / 256, (k - 1) as nat);
        assert(le_bytes(n, k).drop_first() =~= le_bytes(n / 256, (k - 1) as nat));
    }
}

/// What the runtime writes, the observer reads back: a region holding the
/// eight-byte little-endian length of a trace, the trace, and any further
/// bytes decodes to exactly that trace.
pub proof fn law_length_prefixed_roundtrip(trace: Seq<u8>, rest: Seq<u8>)
    requires
        trace.len() < pow256(8),
    ensures
        length_prefix_valid(le_bytes(trace.len(), 8) + trace + rest),
        trace_of(le_bytes(trace.len(), 8) + trace + rest) == trace,
{
    let map = le_bytes(trace.len(), 8) + trace + rest;
    lemma_le_bytes_value(trace.len(), 8);
    assert(map.take(8) =~= le_bytes(trace.len(), 8));
    assert(map.subrange(8, 8 + trace.len() as int) =~= trace);
}

/// Reading back eight bytes written little-endian gives the number that
/// was written, and eight bytes always read as a number below `2^64`.
pub proof fn law_le_roundtrip(n: u64, bytes: Seq<u8>)
    ensures
        le_bytes(n as nat, 8).len() == 8,
        le_value(le_bytes(n as nat, 8)) == n,
        bytes.len() == 8 ==> le_value(bytes) <= u64::MAX,
{
    reveal_with_fuel(pow256, 9);
    lemma_le_bytes_value(n as nat, 8);
    lemma_le_value_bound(bytes);
}

/// The header decides what is read: after a header declaring `n` bytes, the
/// region is valid exactly when at least `n` bytes follow, and then the
/// trace is the first `n` of them.
pub proof fn law_header_decides_trace(n: u64, body: Seq<u8>)
    ensures
        length_prefix_valid(le_bytes(n as nat, 8) + body) <==> n <= body.len(),
        n <= body.len() ==> trace_of(le_bytes(n as nat, 8) + body) == body.take(n as int),
{
    reveal_with_fuel(pow256, 9);
    lemma_le_bytes_value(n as nat, 8);
    let map = le_bytes(n as nat, 8) + body;
    assert(map.take(8) =~= le_bytes(n as nat, 8));
    if n <= body.len() {
        assert(map.subrange(8, 8 + n as int) =~= body.take(n as int));
    }
}

/// The concolic trace of one execution, as raw serialized messages.
pub struct ConcolicMetadata {
    buffer: Vec<u8>,
}

impl View for ConcolicMetadata {
    type V = Seq<u8>;

    closed spec fn view(&self) -> Seq<u8> {
        self.buffer@
    }
}

impl ConcolicMetadata {
    /// Wraps the serialized trace messages in `buffer`.
    pub fn from_buffer(buffer: Vec<u8>) -> (metadata: Self)
        ensures
            metadata@ == buffer@,
    {
        ConcolicMetadata { buffer }
    }

    /// The serialized trace messages.
    pub fn buffer(&self) -> (b: &[u8])
        ensures
            b@ == self@,
    {
        self.buffer.as_slice()
    }

    /// Whether the trace holds no message at all.
    pub fn is_empty(&self) -> (empty: bool)
        ensures
            empty == (self@.len() == 0),
    {
        self.buffer.len() == 0
    }
}

impl Default for ConcolicMetadata {
    fn default() -> (metadata: Self)
        ensures
            metadata@ == Seq::<u8>::empty(),
    {
        ConcolicMetadata { buffer: Vec::new() }
    }
}

/// Number of bytes of the region that the diagnostic summary shows.
pub const SUMMARY_PREFIX_SIZE: usize = 64;

/// Number of non-zero bytes in `s`.
pub open spec fn count_nonzero(s: Seq<u8>) -> nat
    decreases s.len(),
{
    if s.len() == 0 {
        0
    } else {
        count_nonzero(s.drop_last()) + if s.last() != 0 { 1nat } else { 0nat }
    }
}

/// Counting non-zero bytes: a single byte counts one exactly when it is
/// not zero, and the count of two concatenated regions is the sum of their
/// counts (so it never exceeds the length).
pub proof fn law_count_nonzero(a: Seq<u8>, b: Seq<u8>, x: u8)
    ensures
        count_nonzero(Seq::empty()) == 0,
        count_nonzero(seq![x]) == (if x != 0 { 1nat } else { 0nat }),
        count_nonzero(a + b) == count_nonzero(a) + count_nonzero(b),
        count_nonzero(a) <= a.len(),
    decreases b.len(),
{
    assert(count_nonzero(Seq::<u8>::empty()) == 0);
    assert(seq![x].drop_last() =~= Seq::<u8>::empty());
    assert(seq![x].last() == x);
    assert(count_nonzero(seq![x]) == count_nonzero(seq![x].drop_last()) + if x != 0 { 1nat } else { 0nat });
    if b.len() > 0 {
        law_count_nonzero(a, b.drop_last(), x);
        assert((a + b).drop_last() =~= a + b.drop_last());
    } else {
        assert(a + b =~= a);
    }
    lemma_count_nonzero_bound(a);
}

proof fn lemma_count_nonzero_bound(a: Seq<u8>)
    ensures
        count_nonzero(a) <= a.len(),
    decreases a.len(),
{
    if a.len() > 0 {
        lemma_count_nonzero_bound(a.drop_last());
    }
}

/// A diagnostic summary of the shared memory region.
pub struct MapSummary {
    /// Size of the region in bytes.
    pub total_size: usize,
    /// Number of bytes that are not zero.
    pub non_zero_bytes: usize,
    /// The first `SUMMARY_PREFIX_SIZE` bytes (fewer if the region is shorter).
    pub first_bytes: Vec<u8>,
}

/// Summarizes `map`: its size, how many of its bytes are non-zero, and its
/// first `SUMMARY_PREFIX_SIZE` bytes.
pub fn summarize_map(map: &[u8]) -> (summary: MapSummary)
    ensures
        summary.total_size == map@.len(),
        summary.non_zero_bytes == count_nonzero(map@),
        summary.first_bytes@ == map@.take(
            if map@.len() < SUMMARY_PREFIX_SIZE { map@.len() as int } else { SUMMARY_PREFIX_SIZE as int },
        ),
{
    let n = map.len();
    let mut count: usize = 0;
    let mut i: usize = 0;
    while i < n
        invariant
            n == map@.len(),
            i <= n,
            count == count_nonzero(map@.take(i as int)),
            count <= i,
        decreases n - i,
    {
        assert(map@.take(i + 1).drop_last() =~= map@.take(i as int));
        if map[i] != 0 {
            count = count + 1;
        }
        i = i + 1;
    }
    assert(map@.take(n as int) =~= map@);
    let prefix_len = if n < SUMMARY_PREFIX_SIZE { n } else { SUMMARY_PREFIX_SIZE };
    let first_bytes = copy_range(map, 0, prefix_len);
    assert(map@.subrange(0, prefix_len as int) =~= map@.take(prefix_len as int));
    MapSummary { total_size: n, non_zero_bytes: count, first_bytes }
}

} // verus!
