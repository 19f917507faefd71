use vstd::prelude::*;

verus! {

/// A finished signal and a read cursor into it. The signal never changes once
/// the buffer holds it; the cursor only moves forward and stops at the end.
pub struct PlaybackBuffer<T> {
    samples: Vec<T>,
    cursor: usize,
}

/// The next `count` samples from `position`, or fewer where the signal ends
/// first.
pub open spec fn block_at<T>(signal: Seq<T>, position: int, count: int) -> Seq<T> {
    let end = if position + count <= signal.len() {
        position + count
    } else {
        signal.len() as int
    };
    signal.subrange(position, end)
}

impl<T: Copy> PlaybackBuffer<T> {
    /// The signal that the buffer holds.
    pub closed spec fn signal(&self) -> Seq<T> {
        self.samples@
    }

    /// How many samples have been read so far.
    pub closed spec fn position(&self) -> int {
        self.cursor as int
    }

    /// The cursor never passes the end of the signal.
    pub open spec fn wf(&self) -> bool {
        0 <= self.position() <= self.signal().len()
    }

    /// A buffer over `samples` with nothing read yet.
    pub fn new(samples: Vec<T>) -> (r: Self)
        ensures
            r.wf(),
            r.signal() == samples@,
            r.position() == 0,
    {
        PlaybackBuffer { samples, cursor: 0 }
    }

    /// Length of the signal.
    pub fn len(&self) -> (r: usize)
        ensures
            r == self.signal().len(),
    {
        self.samples.len()
    }

    /// How many samples have been read so far.
    pub fn cursor(&self) -> (r: usize)
        ensures
            r == self.position(),
    {
        self.cursor
    }

    /// How many samples are left to read.
    pub fn remaining(&self) -> (r: usize)
        requires
            self.wf(),
        ensures
            r == self.signal().len() - self.position(),
    {
        self.samples.len() - self.cursor
    }

    /// Whether every sample has been read.
    pub fn is_exhausted(&self) -> (r: bool)
        requires
            self.wf(),
        ensures
            r == (self.position() == self.signal().len()),
    {
        self.cursor == self.samples.len()
    }

    /// Hands out the next `count` samples, or what is left where fewer remain
    /// (none once the signal is used up), and moves the cursor past them.
    pub fn read_block(&mut self, count: usize) -> (r: Vec<T>)
        requires
            old(self).wf(),
        ensures
            final(self).wf(),
            final(self).signal() == old(self).signal(),
            r@ == block_at(old(self).signal(), old(self).position(), count as int),
            final(self).position() == old(self).position() + r@.len(),
            old(self).position() <= final(self).position() <= final(self).signal().len(),
    {
        let left = self.samples.len() - self.cursor;
        let n: usize = if count <= left { count } else { left };
        let mut r: Vec<T> = Vec::with_capacity(n);
        let mut k: usize = 0;
        while k < n
            invariant
                self.wf(),
                self.cursor + n <= self.samples.len(),
                k <= n,
                r@ == self.samples@.subrange(self.cursor as int, self.cursor + k),
            decreases n - k,
        {
            r.push(self.samples[self.cursor + k]);
            k = k + 1;
            assert(r@ =~= self.samples@.subrange(self.cursor as int, self.cursor + k));
        }
        self.cursor = self.cursor + n;
        r
    }

    /// Fills `out` for one output callback: each slot in order takes the next
    /// sample, through `encode`, while samples remain, and `silence` after that.
    /// Returns how many samples were taken; the cursor moves past them. Nothing is
    /// allocated.
    pub fn fill_block<U: Copy, F: Fn(T) -> U>(&mut self, out: &mut [U], encode: F, silence: U) -> (n: usize)
        requires
            old(self).wf(),
            forall|s: T| encode.requires((s,)),
        ensures
            final(self).wf(),
            final(self).signal() == old(self).signal(),
            n == block_at(old(self).signal(), old(self).position(), old(out)@.len() as int).len(),
            final(self).position() == old(self).position() + n,
            old(self).position() <= final(self).position() <= final(self).signal().len(),
            final(out)@.len() == old(out)@.len(),
            forall|k: int|
                0 <= k < n ==> encode.ensures(
                    (old(self).signal()[old(self).position() + k],),
                    #[trigger] final(out)@[k],
                ),
            forall|k: int| n <= k < old(out)@.len() ==> #[trigger] final(out)@[k] == silence,
    {
        let len = out.len();
        let left = self.samples.len() - self.cursor;
        let n: usize = if len <= left { len } else { left };
        let start = self.cursor;
        let mut k: usize = 0;
        while k < len
            invariant
                self.wf(),
                self.samples@ == old(self).samples@,
                start == old(self).cursor,
                start + n <= self.samples.len(),
                n <= len,
                len == out@.len(),
                out@.len() == old(out)@.len(),
                k <= len,
                self.cursor == if k <= n { start + k } else { start + n },
                forall|s: T| encode.requires((s,)),
                forall|j: int|
                    0 <= j < k && j < n ==> encode.ensures(
                        (self.samples@[start + j],),
                        #[trigger] out@[j],
                    ),
                forall|j: int| n <= j < k ==> #[trigger] out@[j] == silence,
            decreases len - k,
        {
            if k < n {
                out[k] = encode(self.samples[self.cursor]);
                self.cursor = self.cursor + 1;
            } else {
                out[k] = silence;
            }
            k = k + 1;
        }
        n
    }
}

} // verus!
