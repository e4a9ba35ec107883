//! Baud-rate pacing: input handed out in chunks, one per frame at 30 frames
//! a second, so that bytes arrive at `bps / 8` per second.
use vstd::prelude::*;

verus! {

/// Frames rendered per second while pacing.
pub const TARGET_FPS: u32 = 30;

/// Milliseconds between paced frames.
pub const FRAME_DELAY_MS: u32 = 33;

/// Bits per byte on the simulated line.
pub const BITS_PER_BYTE: u32 = 8;

/// Bytes per frame at `bps` bits a second: `bps / 8 / 30`, at least one.
pub open spec fn frame_bytes(bps: nat) -> nat {
    let n = bps / (BITS_PER_BYTE * TARGET_FPS) as nat;
    if n >= 1 {
        n
    } else {
        1
    }
}

/// Chunks of at most `k` bytes needed for `remaining` bytes.
pub open spec fn chunk_count(remaining: nat, k: nat) -> nat
    decreases remaining,
{
    if remaining == 0 {
        0
    } else if remaining <= k || k == 0 {
        1
    } else {
        1 + chunk_count((remaining - k) as nat, k)
    }
}

/// Bytes per frame at `bps` bits a second.
pub fn bytes_per_frame(bps: u32) -> (r: usize)
    ensures
        r == frame_bytes(bps as nat),
        r >= 1,
{
    let n = bps / (BITS_PER_BYTE * TARGET_FPS);
    if n >= 1 {
        n as usize
    } else {
        1
    }
}

/// Where a paced feed of `total` bytes stands.
pub struct Pacer {
    offset: usize,
    total: usize,
    per_frame: usize,
}

impl Pacer {
    pub closed spec fn offset_view(&self) -> nat {
        self.offset as nat
    }

    pub closed spec fn total_view(&self) -> nat {
        self.total as nat
    }

    pub closed spec fn per_frame_view(&self) -> nat {
        self.per_frame as nat
    }

    pub open spec fn wf(&self) -> bool {
        self.offset_view() <= self.total_view() && self.per_frame_view() >= 1
    }

    /// Frames still to come.
    pub open spec fn frames_left(&self) -> nat {
        chunk_count((self.total_view() - self.offset_view()) as nat, self.per_frame_view())
    }

    /// A feed of `total` bytes at `bps` bits a second, nothing handed out yet.
    pub fn new(total: usize, bps: u32) -> (r: Pacer)
        ensures
            r.wf(),
            r.offset_view() == 0,
            r.total_view() == total,
            r.per_frame_view() == frame_bytes(bps as nat),
    {
        Pacer { offset: 0, total, per_frame: bytes_per_frame(bps) }
    }

    /// The next chunk as a range `(start, end)` of the input, or `None` once
    /// every byte has been handed out.
    pub fn next_chunk(&mut self) -> (r: Option<(usize, usize)>)
        requires
            old(self).wf(),
        ensures
            final(self).wf(),
            final(self).total_view() == old(self).total_view(),
            final(self).per_frame_view() == old(self).per_frame_view(),
            r.is_some() == (old(self).offset_view() < old(self).total_view()),
            r.is_none() ==> final(self).offset_view() == old(self).offset_view(),
            r.is_some() ==> {
                let (start, end) = r.unwrap();
                &&& start == old(self).offset_view()
                &&& end == (if old(self).offset_view() + old(self).per_frame_view()
                    <= old(self).total_view() {
                    old(self).offset_view() + old(self).per_frame_view()
                } else {
                    old(self).total_view()
                })
                &&& final(self).offset_view() == end
                &&& final(self).frames_left() + 1 == old(self).frames_left()
            },
    {
        if self.offset >= self.total {
            return None;
        }
        let start = self.offset;
        let end = if self.per_frame <= self.total - start {
            start + self.per_frame
        } else {
            self.total
        };
        self.offset = end;
        Some((start, end))
    }

    /// Whether every byte has been handed out.
    pub fn is_done(&self) -> (r: bool)
        ensures
            r == (self.offset_view() >= self.total_view()),
    {
        self.offset >= self.total
    }
}

/// Pacing `n` bytes at `k` bytes a frame takes `ceil(n / k)` frames.
pub proof fn lemma_frame_count(n: nat, k: nat)
    requires
        k >= 1,
    ensures
        chunk_count(n, k) == (n + k - 1) / k as int,
    decreases n,
{
    if n == 0 {
        assert((k - 1) / k as int == 0) by (nonlinear_arith)
            requires
                k >= 1,
        ;
    } else if n <= k {
        assert((n + k - 1) / k as int == 1) by (nonlinear_arith)
            requires
                k >= 1,
                1 <= n <= k,
        ;
    } else {
        lemma_frame_count((n - k) as nat, k);
        assert((n + k - 1) / k as int == (n - 1) / k as int + 1) by (nonlinear_arith)
            requires
                k >= 1,
                n > k,
        ;
        assert(((n - k) as nat + k - 1) == n - 1);
    }
}

} // verus!
