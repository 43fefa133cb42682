//! The buffered copier: gathers a stream's reads into fixed-size blocks for the file.
use vstd::prelude::*;
use crate::error::DownloadError;

verus! {

/// Collects the bytes of a stream and hands them out as blocks of `capacity` bytes,
/// with a last partial block at the end of the stream.
pub struct BufferedCopier {
    capacity: usize,
    pending: Vec<u8>,
    total: u64,
    full_flushes: u64,
}

impl BufferedCopier {
    pub closed spec fn capacity_spec(&self) -> nat {
        self.capacity as nat
    }

    /// Bytes read but not handed out yet.
    pub closed spec fn pending_spec(&self) -> Seq<u8> {
        self.pending@
    }

    /// Bytes read since the copier was made.
    pub closed spec fn total_spec(&self) -> nat {
        self.total as nat
    }

    /// Full blocks handed out so far.
    pub closed spec fn full_flushes_spec(&self) -> nat {
        self.full_flushes as nat
    }

    pub closed spec fn wf(&self) -> bool {
        &&& self.capacity > 0
        &&& self.pending@.len() < self.capacity
        &&& self.total == self.full_flushes * self.capacity + self.pending@.len()
    }

    /// A copier with an empty buffer of `capacity` bytes.
    pub fn new(capacity: usize) -> (r: BufferedCopier)
        requires
            capacity > 0,
        ensures
            r.wf(),
            r.capacity_spec() == capacity,
            r.pending_spec() == Seq::<u8>::empty(),
            r.total_spec() == 0,
            r.full_flushes_spec() == 0,
    {
        BufferedCopier { capacity, pending: Vec::new(), total: 0, full_flushes: 0 }
    }

    /// Room left in the buffer: the most the next read may bring.
    pub fn space(&self) -> (r: usize)
        requires
            self.wf(),
        ensures
            r == self.capacity_spec() - self.pending_spec().len(),
            r > 0,
    {
        self.capacity - self.pending.len()
    }

    pub fn total_read(&self) -> (r: u64)
        ensures
            r == self.total_spec(),
    {
        self.total
    }

    pub fn full_flush_count(&self) -> (r: u64)
        ensures
            r == self.full_flushes_spec(),
    {
        self.full_flushes
    }

    /// Takes the bytes of one read. When they fill the buffer, the full block is
    /// returned to be written and the buffer starts over empty.
    pub fn push(&mut self, data: &[u8]) -> (r: Option<Vec<u8>>)
        requires
            old(self).wf(),
            data@.len() <= old(self).capacity_spec() - old(self).pending_spec().len(),
            old(self).total_spec() + data@.len() <= u64::MAX,
        ensures
            final(self).wf(),
            final(self).capacity_spec() == old(self).capacity_spec(),
            final(self).total_spec() == old(self).total_spec() + data@.len(),
            old(self).pending_spec().len() + data@.len() == old(self).capacity_spec() ==> {
                &&& r matches Some(block)
                &&& block@ == old(self).pending_spec() + data@
                &&& final(self).pending_spec() == Seq::<u8>::empty()
                &&& final(self).full_flushes_spec() == old(self).full_flushes_spec() + 1
            },
            old(self).pending_spec().len() + data@.len() < old(self).capacity_spec() ==> {
                &&& r is None
                &&& final(self).pending_spec() == old(self).pending_spec() + data@
                &&& final(self).full_flushes_spec() == old(self).full_flushes_spec()
            },
    {
        let ghost before = self.pending@;
        let mut i: usize = 0;
        while i < data.len()
            invariant
                i <= data@.len(),
                self.pending@ == before + data@.subrange(0, i as int),
                self.capacity == old(self).capacity,
                self.total == old(self).total,
                self.full_flushes == old(self).full_flushes,
                before == old(self).pending@,
            decreases data@.len() - i,
        {
            self.pending.push(data[i]);
            i = i + 1;
            assert(self.pending@ =~= before + data@.subrange(0, i as int));
        }
        assert(data@.subrange(0, data@.len() as int) =~= data@);
        self.total = self.total + data.len() as u64;
        if self.pending.len() == self.capacity {
            let mut block: Vec<u8> = Vec::new();
            core::mem::swap(&mut block, &mut self.pending);
            assert((self.full_flushes + 1) * self.capacity == self.full_flushes * self.capacity
                + self.capacity) by (nonlinear_arith);
            assert(self.full_flushes + 1 <= u64::MAX) by (nonlinear_arith)
                requires
                    (self.full_flushes + 1) * self.capacity == self.total,
                    self.total <= u64::MAX,
                    self.capacity > 0,
            ;
            self.full_flushes = self.full_flushes + 1;
            Some(block)
        } else {
            None
        }
    }

    /// Ends the stream: the bytes still buffered, if any, as the last block.
    pub fn finish(self) -> (r: Option<Vec<u8>>)
        requires
            self.wf(),
        ensures
            self.pending_spec().len() > 0 ==> (r matches Some(block) && block@
                == self.pending_spec()),
            self.pending_spec().len() == 0 ==> r is None,
    {
        if self.pending.len() == 0 {
            None
        } else {
            Some(self.pending)
        }
    }
}

/// A write of a block must take all of it; a short write means the disk is full.
pub fn check_written(written: usize, expected: usize) -> (r: Result<(), DownloadError>)
    ensures
        r is Ok <==> written == expected,
        r matches Err(e) ==> e == DownloadError::OutOfDiskSpace,
{
    if written == expected {
        Ok(())
    } else {
        Err(DownloadError::OutOfDiskSpace)
    }
}

/// A stream of exactly `k * capacity + rest` bytes, with `rest < capacity`, has been
/// handed out as exactly `k` full blocks, and `rest` bytes wait for the last block
/// (none when `rest` is zero), whatever the sizes of the individual reads were.
pub proof fn lemma_flush_count(c: BufferedCopier, k: nat, rest: nat)
    requires
        c.wf(),
        rest < c.capacity_spec(),
        c.total_spec() == k * c.capacity_spec() + rest,
    ensures
        c.full_flushes_spec() == k,
        c.pending_spec().len() == rest,
{
    let cap = c.capacity_spec();
    let f = c.full_flushes_spec();
    let p = c.pending_spec().len();
    assert(f == k && p == rest) by (nonlinear_arith)
        requires
            f * cap + p == k * cap + rest,
            p < cap,
            rest < cap,
            cap > 0,
    ;
}

} // verus!
