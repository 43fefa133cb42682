//! Splitting a known content length into contiguous byte ranges.
use vstd::prelude::*;

verus! {

/// An inclusive byte range `[start, end]` fetched by one worker request.
#[derive(Clone, Copy, Debug, PartialEq, Eq, Structural)]
pub struct ChunkRange {
    pub start: u64,
    pub end: u64,
}

/// Size of every chunk but possibly the last: `max(total / workers, min_chunk)`.
pub open spec fn chunk_len_spec(total: nat, workers: nat, min_chunk: nat) -> nat {
    if total / workers >= min_chunk {
        total / workers
    } else {
        min_chunk
    }
}

/// Number of chunks of `size` bytes needed to cover `total` bytes: `ceil(total / size)`.
pub open spec fn chunk_count_spec(total: nat, size: nat) -> nat {
    if total % size == 0 {
        total / size
    } else {
        total / size + 1
    }
}

/// Last byte of chunk `i`: `min(i * size + size - 1, total - 1)`.
pub open spec fn chunk_end_spec(total: nat, size: nat, i: nat) -> int {
    if i * size + size <= total {
        i * size + size - 1
    } else {
        total - 1
    }
}

/// Whether a chunk size can be computed for these inputs: at least one worker,
/// and a chunk size that is not zero.
pub open spec fn plan_inputs_valid(total: nat, workers: nat, min_chunk: nat) -> bool {
    workers > 0 && chunk_len_spec(total, workers, min_chunk) > 0
}

/// The chunks that `plan_chunks` yields for the given inputs, as a model.
pub open spec fn is_chunk_plan(chunks: Seq<ChunkRange>, total: nat, size: nat) -> bool {
    &&& chunks.len() == chunk_count_spec(total, size)
    &&& forall|i: int|
        0 <= i < chunks.len() ==> {
            &&& chunks[i].start == i * size
            &&& chunks[i].end == chunk_end_spec(total, size, i as nat)
        }
}

/// Per-chunk size for `workers` workers sharing `total` bytes, never below `min_chunk`.
pub fn chunk_size_per_thread(total: u64, workers: usize, min_chunk: u64) -> (r: u64)
    requires
        workers > 0,
    ensures
        r == chunk_len_spec(total as nat, workers as nat, min_chunk as nat),
{
    let per = total / (workers as u64);
    if per >= min_chunk {
        per
    } else {
        min_chunk
    }
}

/// Number of chunks of `size` bytes that cover `total` bytes.
pub fn chunk_count(total: u64, size: u64) -> (r: u64)
    requires
        size > 0,
    ensures
        r == chunk_count_spec(total as nat, size as nat),
{
    if total % size == 0 {
        total / size
    } else {
        assert(total / size < u64::MAX) by (nonlinear_arith)
            requires
                size > 1,
        ;
        total / size + 1
    }
}

proof fn lemma_chunk_start_below_total(total: nat, size: nat, i: nat)
    requires
        size > 0,
        i < chunk_count_spec(total, size),
    ensures
        i * size < total,
{
    let q = total / size;
    let m = total % size;
    assert(total == q * size + m) by (nonlinear_arith)
        requires
            size > 0,
            q == total / size,
            m == total % size,
    ;
    if m == 0 {
        assert(i * size < total) by (nonlinear_arith)
            requires
                i < q,
                total == q * size,
                size > 0,
        ;
    } else {
        assert(i * size < total) by (nonlinear_arith)
            requires
                i <= q,
                total == q * size + m,
                m > 0,
        ;
    }
}

/// Splits `total` bytes into the ranges that the workers fetch, in increasing order.
pub fn plan_chunks(total: u64, workers: usize, min_chunk: u64) -> (r: Vec<ChunkRange>)
    requires
        plan_inputs_valid(total as nat, workers as nat, min_chunk as nat),
    ensures
        is_chunk_plan(
            r@,
            total as nat,
            chunk_len_spec(total as nat, workers as nat, min_chunk as nat),
        ),
{
    let size = chunk_size_per_thread(total, workers, min_chunk);
    let count = chunk_count(total, size);
    let mut chunks: Vec<ChunkRange> = Vec::new();
    let mut i: u64 = 0;
    while i < count
        invariant
            size == chunk_len_spec(total as nat, workers as nat, min_chunk as nat),
            size > 0,
            count == chunk_count_spec(total as nat, size as nat),
            i <= count,
            chunks@.len() == i,
            forall|j: int|
                0 <= j < i ==> {
                    &&& chunks@[j].start == j * size
                    &&& chunks@[j].end == chunk_end_spec(total as nat, size as nat, j as nat)
                },
        decreases count - i,
    {
        proof {
            lemma_chunk_start_below_total(total as nat, size as nat, i as nat);
        }
        let start = i * size;
        let left = total - start;
        let end = if left > size {
            start + size - 1
        } else {
            total - 1
        };
        chunks.push(ChunkRange { start, end });
        i = i + 1;
    }
    chunks
}

/// Whether byte `b` lies in one of the chunks.
pub open spec fn plan_covers(chunks: Seq<ChunkRange>, b: nat) -> bool {
    exists|i: int| 0 <= i < chunks.len() && chunks[i].start <= b <= #[trigger] chunks[i].end
}

/// A chunk plan tiles `[0, total - 1]`: the first chunk starts at zero, each chunk
/// ends where the next one begins, the last one ends at `total - 1`, no two chunks
/// share a byte and every byte below `total` lies in some chunk. Every chunk but the
/// last spans `size >= min(min_chunk, total)` bytes, and the last one does too when
/// `size` divides `total`. An empty content gives no chunk at all.
pub proof fn lemma_chunk_plan_tiles(
    chunks: Seq<ChunkRange>,
    total: nat,
    workers: nat,
    min_chunk: nat,
)
    requires
        plan_inputs_valid(total, workers, min_chunk),
        is_chunk_plan(chunks, total, chunk_len_spec(total, workers, min_chunk)),
    ensures
        (chunks.len() == 0) == (total == 0),
        chunks.len() > 0 ==> chunks[0].start == 0,
        chunks.len() > 0 ==> chunks[chunks.len() - 1].end == total - 1,
        forall|i: int| 0 <= i < chunks.len() ==> chunks[i].start <= chunks[i].end,
        forall|i: int|
            0 <= i < chunks.len() - 1 ==> #[trigger] chunks[i + 1].start == chunks[i].end + 1,
        forall|i: int, j: int| 0 <= i < j < chunks.len() ==> chunks[i].end < chunks[j].start,
        forall|b: nat| b < total ==> #[trigger] plan_covers(chunks, b),
        forall|i: int|
            0 <= i < chunks.len() - 1 ==> chunks[i].end - chunks[i].start + 1 == chunk_len_spec(
                total,
                workers,
                min_chunk,
            ),
        chunk_len_spec(total, workers, min_chunk) >= min_chunk,
        total % chunk_len_spec(total, workers, min_chunk) == 0 ==> forall|i: int|
            0 <= i < chunks.len() ==> chunks[i].end - chunks[i].start + 1 >= if min_chunk
                <= total {
                min_chunk
            } else {
                total
            },
{
    let size = chunk_len_spec(total, workers, min_chunk);
    let n = chunks.len();
    let q = total / size;
    let m = total % size;
    assert(total == q * size + m) by (nonlinear_arith)
        requires
            size > 0,
            q == total / size,
            m == total % size,
    ;
    // the chunk count against the content length
    assert(n * size >= total && (n - 1) * size < total || total == 0) by (nonlinear_arith)
        requires
            total == q * size + m,
            0 <= m < size,
            n == (if m == 0 {
                q
            } else {
                q + 1
            }),
    ;
    assert((n == 0) == (total == 0)) by (nonlinear_arith)
        requires
            total == q * size + m,
            0 <= m < size,
            n == (if m == 0 {
                q
            } else {
                q + 1
            }),
    ;
    assert forall|i: int| 0 <= i < n implies chunks[i].start <= chunks[i].end && i * size
        < total by {
        lemma_chunk_start_below_total(total, size, i as nat);
    }
    if n > 0 {
        assert((n - 1) * size + size >= total) by (nonlinear_arith)
            requires
                n * size >= total,
        ;
        assert(chunks[0].start == 0 * size);
    }
    assert forall|i: int| 0 <= i < n - 1 implies chunks[i].end - chunks[i].start + 1 == size
        && chunks[i + 1].start == chunks[i].end + 1 by {
        lemma_chunk_start_below_total(total, size, (i + 1) as nat);
        assert((i + 1) * size == i * size + size) by (nonlinear_arith);
    }
    assert forall|i: int, j: int| 0 <= i < j < n implies chunks[i].end < chunks[j].start by {
        assert(i * size + size <= j * size) by (nonlinear_arith)
            requires
                i < j,
                size > 0,
        ;
    }
    assert forall|b: nat| b < total implies #[trigger] plan_covers(chunks, b) by {
        let i = (b / size) as int;
        assert(i * size <= b < i * size + size) by (nonlinear_arith)
            requires
                size > 0,
                i == b / size,
        ;
        assert(i < n) by (nonlinear_arith)
            requires
                i * size <= b,
                b < total,
                n * size >= total,
                size > 0,
        ;
        assert(chunks[i].start <= b <= chunks[i].end);
    }
    if m == 0 {
        assert forall|i: int| 0 <= i < n implies chunks[i].end - chunks[i].start + 1 >= if min_chunk
            <= total {
            min_chunk
        } else {
            total
        } by {
            assert(i * size + size <= total) by (nonlinear_arith)
                requires
                    i < n,
                    n == q,
                    total == q * size,
            ;
        }
    }
}

} // verus!
