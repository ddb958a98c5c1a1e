//! The render dispatcher: from a received block to one plugin invocation.
//!
//! For every invocation the plugin sees exactly eight input channels — the
//! received block duplicated into the first two, the shared all-zero silence
//! buffer behind the remaining six — and eight freshly zero-filled output
//! buffers, every buffer one block long. The dispatcher also guards the
//! lifecycle: a block is only dispatched while the session is in a processing
//! state and the block is exactly the configured size; anything else is a
//! host defect and is refused, never partially executed.

use vstd::prelude::*;
use crate::generator::AudioBlock;
use crate::session::{LifecycleViolation, Session};

verus! {

/// Input channels handed to the plugin per invocation.
pub const INPUT_CHANNELS: usize = 8;

/// Output channels handed to the plugin per invocation.
pub const OUTPUT_CHANNELS: usize = 8;

/// What an input channel slot reads from once the buffers are assembled.
#[derive(Clone, Copy, PartialEq, Eq, Structural, Debug)]
pub enum ChannelSource {
    /// The received block's samples: the mono signal, duplicated left/right.
    LiveBlock,
    /// The shared, write-once, never-mutated all-zero buffer.
    Silence,
}

/// The per-invocation buffer plan: which source each input channel reads,
/// how many fresh zero-filled output buffers to allocate, and the length of
/// every channel buffer.
pub struct RenderFrame {
    pub inputs: Vec<ChannelSource>,
    pub output_channels: usize,
    pub frame_count: usize,
}

impl RenderFrame {
    /// Exactly eight inputs — the first two live, the remaining six silent —
    /// eight outputs, and a positive common buffer length.
    pub open spec fn wf(self) -> bool {
        &&& self.inputs@.len() == INPUT_CHANNELS
        &&& self.inputs@[0] is LiveBlock
        &&& self.inputs@[1] is LiveBlock
        &&& forall|i: int| 2 <= i < self.inputs@.len() ==> self.inputs@[i] is Silence
        &&& self.output_channels == OUTPUT_CHANNELS
        &&& self.frame_count > 0
    }
}

/// Assembles the fixed channel layout for one block interval of `frame_count`
/// frames.
pub fn build_render_frame(frame_count: usize) -> (f: RenderFrame)
    requires
        frame_count > 0,
    ensures
        f.wf(),
        f.frame_count == frame_count,
{
    let mut inputs: Vec<ChannelSource> = Vec::new();
    inputs.push(ChannelSource::LiveBlock);
    inputs.push(ChannelSource::LiveBlock);
    let mut i: usize = 2;
    while i < INPUT_CHANNELS
        invariant
            2 <= i <= INPUT_CHANNELS,
            inputs@.len() == i,
            inputs@[0] is LiveBlock,
            inputs@[1] is LiveBlock,
            forall|j: int| 2 <= j < i ==> inputs@[j] is Silence,
        decreases INPUT_CHANNELS - i,
    {
        inputs.push(ChannelSource::Silence);
        i = i + 1;
    }
    RenderFrame { inputs, output_channels: OUTPUT_CHANNELS, frame_count }
}

/// One consumer step: checks that invoking the plugin with this block honors
/// the lifecycle and the negotiated block size; when it does, records the
/// invocation and hands back the buffer plan to execute. When it does not,
/// the session is untouched and the violation says what was wrong — the host
/// treats that as a defect and aborts rather than drive the plugin outside
/// its contract.
pub fn try_dispatch_block(session: &mut Session, block: &AudioBlock) -> (r: Result<
    RenderFrame,
    LifecycleViolation,
>)
    requires
        old(session).wf(),
        old(session).process_calls < u64::MAX,
    ensures
        final(session).wf(),
        r is Ok <==> (old(session).processing_allowed() && block.frames@.len() == old(
            session).block_size),
        r matches Ok(f) ==> f.wf() && f.frame_count == old(session).block_size
            && final(session).state == old(session).state
            && final(session).sample_rate == old(session).sample_rate
            && final(session).block_size == old(session).block_size
            && final(session).process_calls == old(session).process_calls + 1,
        r is Err ==> *final(session) == *old(session),
        !old(session).processing_allowed() ==> r == Err::<RenderFrame, LifecycleViolation>(
            LifecycleViolation::NotProcessing,
        ),
        old(session).processing_allowed() && block.frames@.len() != old(session).block_size ==> r
            == Err::<RenderFrame, LifecycleViolation>(LifecycleViolation::FrameCountMismatch),
{
    match session.state {
        crate::session::SessionState::Active | crate::session::SessionState::EditorOpen => {
            if block.frames.len() == session.block_size {
                let frame_count = session.block_size;
                session.record_process(frame_count);
                Ok(build_render_frame(frame_count))
            } else {
                Err(LifecycleViolation::FrameCountMismatch)
            }
        },
        _ => Err(LifecycleViolation::NotProcessing),
    }
}

} // verus!
