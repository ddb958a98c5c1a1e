//! The audio block producer and its deadline arithmetic.
//!
//! The producer synthesizes a fixed test tone one block at a time. The
//! amplitude of the tone at absolute frame `n` is a fixed function of `n`
//! alone, so a block is fully described by the absolute frame index of each of
//! its samples; turning an index into the single-precision amplitude is the
//! caller's final, unverified step. Pacing is drift-free by construction: the
//! deadline for every block is computed from the fixed start instant and the
//! absolute frame count, never from a per-iteration sleep.

use vstd::prelude::*;

verus! {

/// Frames per second of the negotiated configuration.
pub const SAMPLE_RATE: u64 = 44100;

/// Frames per block: one hundredth of a second of audio.
pub const BLOCK_SIZE: usize = 441;

/// Frequency of the synthesized test tone, in Hz.
pub const TONE_HZ: u64 = 220;

/// The frame counter stays below this bound so that deadlines, expressed in
/// milliseconds as `frames * 1000 / rate`, fit in 64 bits.
pub const MAX_TOTAL_FRAMES: u64 = u64::MAX / 1000;

/// One block interval's worth of mono samples: the `k`-th entry of `frames`
/// is the absolute frame index of the block's `k`-th sample. `index` is the
/// block's production number, starting at zero.
pub struct AudioBlock {
    pub index: u64,
    pub frames: Vec<u64>,
}

impl AudioBlock {
    /// A block of production number `i` under block size `n` carries exactly
    /// the frame indices `i*n .. i*n + n`, in order.
    pub open spec fn wf(self, block_size: nat) -> bool {
        &&& self.frames@.len() == block_size
        &&& forall|k: int|
            0 <= k < self.frames@.len() ==> self.frames@[k] == self.index * block_size + k
    }
}

/// Milliseconds between the start instant and the deadline of the block that
/// begins at absolute frame `frames`.
pub open spec fn block_deadline_millis(frames: nat, sample_rate: nat) -> nat
    recommends
        sample_rate > 0,
{
    frames * 1000 / sample_rate
}

/// Deadlines computed from the absolute frame count never move backwards:
/// each block's deadline is at or after every earlier block's deadline, so a
/// producer that waits for them hands blocks off in deadline order with no
/// cumulative drift.
pub proof fn lemma_deadlines_monotone(frames1: nat, frames2: nat, sample_rate: nat)
    requires
        sample_rate > 0,
        frames1 <= frames2,
    ensures
        block_deadline_millis(frames1, sample_rate) <= block_deadline_millis(
            frames2,
            sample_rate,
        ),
{
    vstd::arithmetic::div_mod::lemma_div_is_ordered(
        frames1 * 1000 as int,
        frames2 * 1000 as int,
        sample_rate as int,
    );
}

/// Drift-freedom law: a well-formed producer's frame counter is a whole
/// number of blocks, so the deadline it waits for after `k` blocks is exactly
/// `k·blockSize·1000/sampleRate` milliseconds past the start instant — a
/// function of the block count alone, on which scheduling jitter from earlier
/// iterations has no influence.
pub proof fn lemma_deadline_from_block_count(g: Generator)
    requires
        g.wf(),
    ensures
        block_deadline_millis(g.t as nat, g.sample_rate as nat) == (g.blocks_produced as nat
            * g.block_size as nat * 1000) / g.sample_rate as nat,
{
}

/// The deadline-paced producer: a running frame counter `t` and the number of
/// blocks handed off so far.
pub struct Generator {
    pub sample_rate: u64,
    pub block_size: usize,
    pub t: u64,
    pub blocks_produced: u64,
}

impl Generator {
    /// The frame counter is always a whole number of blocks, and stays small
    /// enough for deadline arithmetic.
    pub open spec fn wf(self) -> bool {
        &&& self.sample_rate > 0
        &&& self.block_size > 0
        &&& self.t == self.blocks_produced * self.block_size
        &&& self.t <= MAX_TOTAL_FRAMES
    }

    /// A producer at its start instant: no frames generated yet.
    pub fn new(sample_rate: u64, block_size: usize) -> (g: Generator)
        requires
            sample_rate > 0,
            block_size > 0,
        ensures
            g.wf(),
            g.sample_rate == sample_rate,
            g.block_size == block_size,
            g.t == 0,
            g.blocks_produced == 0,
    {
        Generator { sample_rate, block_size, t: 0, blocks_produced: 0 }
    }

    /// Synthesizes the next block: its samples sit at the next `block_size`
    /// absolute frame indices, and the counters advance past them.
    pub fn next_block(&mut self) -> (b: AudioBlock)
        requires
            old(self).wf(),
            old(self).t + old(self).block_size <= MAX_TOTAL_FRAMES,
        ensures
            final(self).wf(),
            final(self).sample_rate == old(self).sample_rate,
            final(self).block_size == old(self).block_size,
            final(self).t == old(self).t + old(self).block_size,
            final(self).blocks_produced == old(self).blocks_produced + 1,
            b.wf(old(self).block_size as nat),
            b.index == old(self).blocks_produced,
            forall|k: int| 0 <= k < b.frames@.len() ==> b.frames@[k] == old(self).t + k,
    {
        let mut frames: Vec<u64> = Vec::new();
        let mut i: usize = 0;
        while i < self.block_size
            invariant
                i <= self.block_size,
                frames@.len() == i,
                self.t + self.block_size <= MAX_TOTAL_FRAMES,
                forall|k: int| 0 <= k < i ==> frames@[k] == self.t + k,
            decreases self.block_size - i,
        {
            frames.push(self.t + i as u64);
            i = i + 1;
        }
        let b = AudioBlock { index: self.blocks_produced, frames };
        proof {
            assert(self.blocks_produced * self.block_size + self.block_size == (
            self.blocks_produced + 1) * self.block_size) by (nonlinear_arith);
            assert(self.blocks_produced + 1 <= self.blocks_produced * self.block_size
                + self.block_size) by (nonlinear_arith)
                requires
                    self.block_size >= 1,
                    self.blocks_produced >= 0,
            ;
        }
        self.t = self.t + self.block_size as u64;
        self.blocks_produced = self.blocks_produced + 1;
        b
    }

    /// Milliseconds past the start instant before which the block that begins
    /// at the current frame counter must not be handed off.
    pub fn next_deadline_millis(&self) -> (d: u64)
        requires
            self.wf(),
        ensures
            d == block_deadline_millis(self.t as nat, self.sample_rate as nat),
    {
        self.t * 1000 / self.sample_rate
    }
}

/// How long the producer must still wait for a deadline: the exact remainder
/// when the deadline lies ahead, and nothing at all once it has passed — a
/// timing slip is observed, not retried. Waiting the returned amount never
/// ends before the deadline.
pub fn wait_millis(deadline_millis: u64, now_millis: u64) -> (w: u64)
    ensures
        w == if now_millis < deadline_millis {
            deadline_millis - now_millis
        } else {
            0
        },
        now_millis + w >= deadline_millis,
{
    if now_millis < deadline_millis {
        deadline_millis - now_millis
    } else {
        0
    }
}

} // verus!
