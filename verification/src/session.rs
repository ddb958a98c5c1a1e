//! Lifecycle of the one loaded plugin instance.
//!
//! The plugin must be driven through `Unloaded → Loaded → Initialized →
//! Configured → Active → EditorOpen` in that order, and its processing entry
//! point may only be exercised once the session is `Active` (or beyond).
//! Each transition here records the outcome of the corresponding outside step
//! and says exactly which states it connects; driving the plugin outside this
//! protocol is a host defect, not a recoverable condition.

use vstd::prelude::*;

verus! {

/// Lifecycle position of the plugin instance this host drives.
#[derive(Clone, Copy, PartialEq, Eq, Structural, Debug)]
pub enum SessionState {
    Unloaded,
    Loaded,
    Initialized,
    Configured,
    Active,
    EditorOpen,
}

/// Fatal conditions met while bringing the session up; the host aborts on any
/// of them, since they are unmet preconditions it cannot resolve on its own.
#[derive(Clone, Copy, PartialEq, Eq, Structural, Debug)]
pub enum StartupError {
    /// No plugin module path was supplied on the command line.
    MissingArgument,
    /// The path did not resolve to a loadable plugin module.
    LoadFailed,
    /// The plugin rejected the sample rate or block size the host chose.
    ConfigRejected,
    /// The plugin reported no editor rectangle — null or empty — when asked
    /// for one.
    NoEditorRect,
}

/// A host programming defect: the plugin was about to be driven outside its
/// contracted lifecycle. The host aborts rather than continue, since calling
/// the plugin out of protocol produces undefined plugin behavior.
#[derive(Clone, Copy, PartialEq, Eq, Structural, Debug)]
pub enum LifecycleViolation {
    /// A process call was attempted before the session became `Active`.
    NotProcessing,
    /// A process call carried a frame count other than the configured block size.
    FrameCountMismatch,
}

/// Editor geometry as the plugin reports it: top-left and bottom-right corners.
#[derive(Clone, Copy, PartialEq, Eq, Structural, Debug)]
pub struct EditorRect {
    pub left: i32,
    pub top: i32,
    pub right: i32,
    pub bottom: i32,
}

impl EditorRect {
    /// The corners are strictly ordered, so width and height are positive:
    /// an empty rectangle is no editor geometry at all.
    pub open spec fn wf(self) -> bool {
        self.left < self.right && self.top < self.bottom
    }

    /// Accepts only geometry with positive extent. A plugin that reports no
    /// editor answers the geometry query with a null or empty rectangle, and
    /// an empty one must fail the editor handshake exactly as a null one does.
    pub fn new(left: i32, top: i32, right: i32, bottom: i32) -> (r: Option<EditorRect>)
        ensures
            r is Some <==> (left < right && top < bottom),
            r matches Some(e) ==> e == (EditorRect { left, top, right, bottom }) && e.wf(),
    {
        if left < right && top < bottom {
            Some(EditorRect { left, top, right, bottom })
        } else {
            None
        }
    }

    /// Width of the window that will frame the editor.
    pub fn width(&self) -> (w: u32)
        requires
            self.wf(),
        ensures
            w == self.right - self.left,
    {
        (self.right as i64 - self.left as i64) as u32
    }

    /// Height of the window that will frame the editor.
    pub fn height(&self) -> (h: u32)
        requires
            self.wf(),
        ensures
            h == self.bottom - self.top,
    {
        (self.bottom as i64 - self.top as i64) as u32
    }
}

/// One plugin instance: its lifecycle position, the audio configuration the
/// host negotiated for it, and a count of completed process invocations.
pub struct Session {
    pub state: SessionState,
    pub sample_rate: u64,
    pub block_size: usize,
    pub process_calls: u64,
}

impl Session {
    /// Once the configuration step has been passed, the negotiated rates are
    /// positive and stay fixed for the life of the session.
    pub open spec fn wf(self) -> bool {
        match self.state {
            SessionState::Configured | SessionState::Active | SessionState::EditorOpen => {
                self.sample_rate > 0 && self.block_size > 0
            },
            _ => true,
        }
    }

    /// The plugin's processing entry point is only safe in these states.
    pub open spec fn processing_allowed(self) -> bool {
        self.state is Active || self.state is EditorOpen
    }

    /// A fresh session: nothing loaded, nothing processed.
    pub fn new() -> (s: Session)
        ensures
            s.wf(),
            s.state is Unloaded,
            s.process_calls == 0,
    {
        Session { state: SessionState::Unloaded, sample_rate: 0, block_size: 0, process_calls: 0 }
    }

    /// Records the outcome of the module-loading step: on success the session
    /// holds a loaded plugin; on failure nothing changed and startup is over.
    pub fn on_load(&mut self, loaded: bool) -> (r: Result<(), StartupError>)
        requires
            old(self).wf(),
            old(self).state is Unloaded,
        ensures
            final(self).wf(),
            r is Ok <==> loaded,
            loaded ==> final(self).state is Loaded,
            !loaded ==> r == Err::<(), StartupError>(StartupError::LoadFailed) && *final(self)
                == *old(self),
            final(self).sample_rate == old(self).sample_rate,
            final(self).block_size == old(self).block_size,
            final(self).process_calls == old(self).process_calls,
    {
        if loaded {
            self.state = SessionState::Loaded;
            Ok(())
        } else {
            Err(StartupError::LoadFailed)
        }
    }

    /// Records that the plugin's initialize entry point was invoked, exactly
    /// once, before any other call.
    pub fn on_initialized(&mut self)
        requires
            old(self).wf(),
            old(self).state is Loaded,
        ensures
            final(self).wf(),
            final(self).state is Initialized,
            final(self).sample_rate == old(self).sample_rate,
            final(self).block_size == old(self).block_size,
            final(self).process_calls == old(self).process_calls,
    {
        self.state = SessionState::Initialized;
    }

    /// Records the configuration step: the host offered `sample_rate` and
    /// `block_size`; `accepted` says whether the plugin took them. Rejection
    /// is fatal for the session and leaves it unchanged.
    pub fn configure(&mut self, sample_rate: u64, block_size: usize, accepted: bool) -> (r: Result<
        (),
        StartupError,
    >)
        requires
            old(self).wf(),
            old(self).state is Initialized,
            sample_rate > 0,
            block_size > 0,
        ensures
            final(self).wf(),
            r is Ok <==> accepted,
            accepted ==> final(self).state is Configured && final(self).sample_rate == sample_rate
                && final(self).block_size == block_size,
            !accepted ==> r == Err::<(), StartupError>(StartupError::ConfigRejected) && *final(self)
                == *old(self),
            final(self).process_calls == old(self).process_calls,
    {
        if accepted {
            self.state = SessionState::Configured;
            self.sample_rate = sample_rate;
            self.block_size = block_size;
            Ok(())
        } else {
            Err(StartupError::ConfigRejected)
        }
    }

    /// Records the resume signal: the plugin has allocated its steady-state
    /// resources and processing is safe from here on.
    pub fn activate(&mut self)
        requires
            old(self).wf(),
            old(self).state is Configured,
        ensures
            final(self).wf(),
            final(self).state is Active,
            final(self).sample_rate == old(self).sample_rate,
            final(self).block_size == old(self).block_size,
            final(self).process_calls == old(self).process_calls,
    {
        self.state = SessionState::Active;
    }

    /// Records the editor handshake. `rect` is what the editor-geometry query
    /// returned: with a rectangle the editor is opened and the window size to
    /// frame it is handed back. Without one — a null or empty report never
    /// constructs an `EditorRect` — startup is aborted and the session is
    /// unchanged.
    pub fn open_editor(&mut self, rect: Option<EditorRect>) -> (r: Result<
        (u32, u32),
        StartupError,
    >)
        requires
            old(self).wf(),
            old(self).state is Active,
            rect matches Some(e) ==> e.wf(),
        ensures
            final(self).wf(),
            r is Ok <==> rect is Some,
            rect matches Some(e) ==> (r matches Ok(size) && size.0 == e.right - e.left && size.1
                == e.bottom - e.top && final(self).state is EditorOpen),
            rect is None ==> r == Err::<(u32, u32), StartupError>(StartupError::NoEditorRect)
                && *final(self) == *old(self),
            final(self).sample_rate == old(self).sample_rate,
            final(self).block_size == old(self).block_size,
            final(self).process_calls == old(self).process_calls,
    {
        match rect {
            Some(e) => {
                let size = (e.width(), e.height());
                self.state = SessionState::EditorOpen;
                Ok(size)
            },
            None => Err(StartupError::NoEditorRect),
        }
    }

    /// Whether a process call carrying `frame_count` frames would honor the
    /// plugin's lifecycle and configuration right now.
    pub fn can_process(&self, frame_count: usize) -> (b: bool)
        ensures
            b == (self.processing_allowed() && frame_count == self.block_size),
    {
        match self.state {
            SessionState::Active | SessionState::EditorOpen => frame_count == self.block_size,
            _ => false,
        }
    }

    /// Records one completed process invocation. Only the render dispatcher
    /// calls this, and only once startup has reached a processing state.
    pub fn record_process(&mut self, frame_count: usize)
        requires
            old(self).wf(),
            old(self).processing_allowed(),
            frame_count == old(self).block_size,
            old(self).process_calls < u64::MAX,
        ensures
            final(self).wf(),
            final(self).state == old(self).state,
            final(self).sample_rate == old(self).sample_rate,
            final(self).block_size == old(self).block_size,
            final(self).process_calls == old(self).process_calls + 1,
    {
        self.process_calls = self.process_calls + 1;
    }

    /// Releases the plugin module. Safe from any state and idempotent: the
    /// session is simply unloaded afterwards.
    pub fn unload(&mut self)
        ensures
            final(self).wf(),
            final(self).state is Unloaded,
            final(self).sample_rate == old(self).sample_rate,
            final(self).block_size == old(self).block_size,
            final(self).process_calls == old(self).process_calls,
    {
        self.state = SessionState::Unloaded;
    }
}

} // verus!
