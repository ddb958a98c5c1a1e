//! The ordered handoff of blocks from the producer to the consumer.
//!
//! Exactly one block travels per send; nothing is dropped, coalesced or
//! reordered, and a backlog simply grows until the consumer drains it. Two
//! ghost logs record the production numbers handed in and handed out, so the
//! delivery order can be related to the production order: what the consumer
//! has received is always exactly a prefix of what the producer sent.

use vstd::prelude::*;
use crate::generator::{AudioBlock, Generator, MAX_TOTAL_FRAMES};

verus! {

/// A sequence of production numbers that only ever goes up.
pub open spec fn strictly_increasing(s: Seq<u64>) -> bool {
    forall|i: int, j: int| 0 <= i < j < s.len() ==> s[i] < s[j]
}

/// First-in-first-out carrier of audio blocks, one block per send, with ghost
/// logs of every production number sent and received.
pub struct BlockChannel {
    pub queue: Vec<AudioBlock>,
    pub produced: Ghost<Seq<u64>>,
    pub delivered: Ghost<Seq<u64>>,
}

impl BlockChannel {
    /// The production numbers still in flight, oldest first.
    pub open spec fn pending(self) -> Seq<u64> {
        self.queue@.map(|i: int, b: AudioBlock| b.index)
    }

    /// Everything ever produced is either already delivered or still pending,
    /// in exactly the order it was produced.
    pub open spec fn wf(self) -> bool {
        self.produced@ == self.delivered@ + self.pending()
    }

    /// An empty channel: nothing sent, nothing received, nothing in flight.
    pub fn new() -> (c: BlockChannel)
        ensures
            c.wf(),
            c.queue@.len() == 0,
            c.produced@ == Seq::<u64>::empty(),
            c.delivered@ == Seq::<u64>::empty(),
    {
        let c = BlockChannel {
            queue: Vec::new(),
            produced: Ghost(Seq::empty()),
            delivered: Ghost(Seq::empty()),
        };
        proof {
            assert(c.produced@ =~= c.delivered@ + c.pending());
        }
        c
    }

    /// Producer side: appends one block behind everything already in flight.
    pub fn send(&mut self, block: AudioBlock)
        requires
            old(self).wf(),
        ensures
            final(self).wf(),
            final(self).queue@ == old(self).queue@.push(block),
            final(self).produced@ == old(self).produced@.push(block.index),
            final(self).delivered@ == old(self).delivered@,
    {
        let ghost index = block.index;
        self.queue.push(block);
        proof {
            self.produced@ = self.produced@.push(index);
            assert(self.pending() =~= old(self).pending().push(index));
            assert(self.produced@ =~= self.delivered@ + self.pending());
        }
    }

    /// Consumer side: the oldest block still in flight, or nothing when the
    /// channel is momentarily empty and the consumer should wait.
    pub fn receive(&mut self) -> (r: Option<AudioBlock>)
        requires
            old(self).wf(),
        ensures
            final(self).wf(),
            old(self).queue@.len() == 0 ==> r is None && *final(self) == *old(self),
            old(self).queue@.len() > 0 ==> (r matches Some(b)
                && b == old(self).queue@[0]
                && final(self).queue@ == old(self).queue@.drop_first()
                && final(self).delivered@ == old(self).delivered@.push(b.index)
                && final(self).produced@ == old(self).produced@),
    {
        if self.queue.len() == 0 {
            None
        } else {
            let b = self.queue.remove(0);
            proof {
                self.delivered@ = self.delivered@.push(b.index);
                assert(self.queue@ =~= old(self).queue@.drop_first());
                assert(old(self).pending()[0] == b.index);
                assert(self.pending() =~= old(self).pending().drop_first());
                assert(self.delivered@ + self.pending() =~= old(self).delivered@
                    + old(self).pending());
            }
            Some(b)
        }
    }
}

/// The producer has handed the channel every block it ever made, in
/// production order: the send log is exactly `0, 1, …, blocks_produced - 1`.
pub open spec fn produced_in_order(g: Generator, c: BlockChannel) -> bool {
    &&& c.produced@.len() == g.blocks_produced
    &&& forall|i: int| 0 <= i < c.produced@.len() ==> c.produced@[i] == i
}

/// One producer iteration: synthesize the next block and hand it over. A
/// producer that only ever feeds its channel this way keeps the send log in
/// production order, so the delivery laws below apply to everything the
/// consumer will receive.
pub fn produce_next(generator: &mut Generator, channel: &mut BlockChannel)
    requires
        old(generator).wf(),
        old(channel).wf(),
        old(generator).t + old(generator).block_size <= MAX_TOTAL_FRAMES,
        produced_in_order(*old(generator), *old(channel)),
    ensures
        final(generator).wf(),
        final(channel).wf(),
        produced_in_order(*final(generator), *final(channel)),
        final(generator).sample_rate == old(generator).sample_rate,
        final(generator).block_size == old(generator).block_size,
        final(generator).blocks_produced == old(generator).blocks_produced + 1,
        final(channel).delivered@ == old(channel).delivered@,
        final(channel).queue@.len() == old(channel).queue@.len() + 1,
        final(channel).queue@.drop_last() == old(channel).queue@,
        final(channel).queue@.last().wf(old(generator).block_size as nat),
        final(channel).queue@.last().index == old(generator).blocks_produced,
{
    let block = generator.next_block();
    channel.send(block);
    proof {
        assert(channel.queue@.drop_last() =~= old(channel).queue@);
    }
}

/// Delivery-order law: when the producer hands blocks over in strictly
/// increasing production order, what the consumer has received is exactly a
/// prefix of that order — strictly increasing, with no gap and no repetition.
pub proof fn lemma_delivery_order(c: &BlockChannel)
    requires
        c.wf(),
        strictly_increasing(c.produced@),
    ensures
        c.delivered@ =~= c.produced@.take(c.delivered@.len() as int),
        forall|i: int| 0 <= i < c.delivered@.len() ==> c.delivered@[i] == c.produced@[i],
        strictly_increasing(c.delivered@),
{
    assert forall|i: int| 0 <= i < c.delivered@.len() implies c.delivered@[i]
        == c.produced@[i] by {
        assert(c.produced@[i] == (c.delivered@ + c.pending())[i]);
    }
}

/// When the production numbers are consecutive from zero — exactly how the
/// producer assigns them — the consumer has received `0, 1, 2, …` in order,
/// with no gap and no duplicate.
pub proof fn lemma_consecutive_delivery(c: &BlockChannel)
    requires
        c.wf(),
        forall|i: int| 0 <= i < c.produced@.len() ==> c.produced@[i] == i,
    ensures
        forall|i: int| 0 <= i < c.delivered@.len() ==> c.delivered@[i] == i,
{
    assert forall|i: int| 0 <= i < c.delivered@.len() implies c.delivered@[i] == i by {
        assert(c.produced@[i] == (c.delivered@ + c.pending())[i]);
    }
}

} // verus!
