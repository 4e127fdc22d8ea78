//! Decisions of the loop that presents frames: what to do after an attempt to
//! render, and whether a new size asks for the surface to be set up again.

use vstd::prelude::*;
use crate::primitives::TextureHandle;
use crate::text::{span_is, to_chars};

verus! {

/// Why the presentation surface gave no frame to render to.
#[derive(Clone, Copy, Debug, PartialEq, Eq, Structural)]
pub enum SurfaceError {
    /// No frame came in time.
    Timeout,
    /// The surface has changed and must be set up again.
    Outdated,
    /// The surface was lost.
    Lost,
    /// No memory is left for a frame.
    OutOfMemory,
    /// Any other failure.
    Other,
}

/// What the loop does after an attempt to render.
#[derive(Clone, Copy, Debug, PartialEq, Eq, Structural)]
pub enum RedrawAction {
    /// Go on.
    Proceed,
    /// Warn that the surface was lost, and try again with the next frame.
    WarnAndRetry,
    /// Log the failure, and try again with the next frame.
    LogAndRetry,
    /// End the loop.
    Exit,
}

/// What the loop does after an attempt to render: running out of memory ends
/// it, and every other failure is passing and is tried again with the next
/// frame.
pub open spec fn action_after(outcome: Result<(), SurfaceError>) -> RedrawAction {
    match outcome {
        Ok(_) => RedrawAction::Proceed,
        Err(SurfaceError::Lost) => RedrawAction::WarnAndRetry,
        Err(SurfaceError::OutOfMemory) => RedrawAction::Exit,
        Err(_) => RedrawAction::LogAndRetry,
    }
}

/// What the loop does after an attempt to render.
pub fn after_render(outcome: Result<(), SurfaceError>) -> (r: RedrawAction)
    ensures
        r == action_after(outcome),
        r is Exit <==> outcome == Err::<(), SurfaceError>(SurfaceError::OutOfMemory),
{
    match outcome {
        Ok(_) => RedrawAction::Proceed,
        Err(SurfaceError::Lost) => RedrawAction::WarnAndRetry,
        Err(SurfaceError::OutOfMemory) => RedrawAction::Exit,
        Err(_) => RedrawAction::LogAndRetry,
    }
}

/// Whether a failure of polling the graph is worth a line in the log: every
/// one is, but that of having no document to evaluate.
pub fn is_reportable(error: &str) -> (r: bool)
    ensures
        r == (error@ != "No active document"@),
{
    let chars = to_chars(error);
    assert(chars@.subrange(0, chars.len() as int) == error@);
    !span_is(&chars, (0, chars.len()), "No active document")
}

/// The size that a surface is set up for, in pixels.
#[derive(Clone, Copy, Debug, PartialEq, Eq, Structural)]
pub struct SurfaceSize {
    pub width: u32,
    pub height: u32,
}

impl SurfaceSize {
    /// Whether a new size asks for the surface to be set up again: it has
    /// pixels, and it is not the size that the surface is set up for.
    pub open spec fn changes_to(self, width: u32, height: u32) -> bool {
        width > 0 && height > 0 && (self.width != width || self.height != height)
    }

    /// Takes a new size. The result says whether the surface is to be set up
    /// again, and only then is the new size kept.
    pub fn resize(&mut self, width: u32, height: u32) -> (r: bool)
        ensures
            r == old(self).changes_to(width, height),
            *final(self) == if r {
                SurfaceSize { width, height }
            } else {
                *old(self)
            },
    {
        if width > 0 && height > 0 && (self.width != width || self.height != height) {
            self.width = width;
            self.height = height;
            true
        } else {
            false
        }
    }
}

/// The longest that the loop waits before it lets the embedded browser work
/// again, in ticks of the clock.
pub const WORK_TIMEOUT: u64 = 10_000;

/// When the embedded browser next asks to work. Times are counted in ticks
/// of one clock that never runs backwards.
#[derive(Clone, Copy, Debug, PartialEq, Eq, Structural)]
pub struct WorkSchedule {
    pub scheduled: Option<u64>,
}

impl WorkSchedule {
    /// The time until which the loop may wait at `now`: the time scheduled,
    /// but no later than the timeout from now.
    pub open spec fn deadline(self, now: u64) -> int {
        match self.scheduled {
            Some(at) => if at <= now + WORK_TIMEOUT {
                at as int
            } else {
                now + WORK_TIMEOUT
            },
            None => now + WORK_TIMEOUT,
        }
    }

    /// A schedule on which work is due at once.
    pub fn new(now: u64) -> (r: WorkSchedule)
        ensures
            r.scheduled == Some(now),
    {
        WorkSchedule { scheduled: Some(now) }
    }

    /// The time until which the loop may wait at `now`.
    pub fn wait_until(&self, now: u64) -> (r: u64)
        requires
            now + WORK_TIMEOUT <= u64::MAX,
        ensures
            r == self.deadline(now),
            r <= now + WORK_TIMEOUT,
    {
        let timeout: u64 = now + WORK_TIMEOUT;
        match self.scheduled {
            Some(at) => if at <= timeout {
                at
            } else {
                timeout
            },
            None => timeout,
        }
    }

    /// Looks at the schedule as the loop wakes up at `now`. Work that was
    /// scheduled for an earlier time is due: it is taken off the schedule,
    /// and the result is true.
    pub fn take_due(&mut self, now: u64) -> (r: bool)
        ensures
            r == (old(self).scheduled matches Some(at) && at < now),
            final(self).scheduled == if r {
                None
            } else {
                old(self).scheduled
            },
    {
        match self.scheduled {
            Some(at) => if at < now {
                self.scheduled = None;
                true
            } else {
                false
            },
            None => false,
        }
    }

    /// Takes a request to work at `at`. Where that time has come, nothing is
    /// scheduled and the result is true: the work is to be done at once.
    /// Else the time replaces what was scheduled.
    pub fn request(&mut self, at: u64, now: u64) -> (r: bool)
        ensures
            r == (at <= now),
            final(self).scheduled == if r {
                old(self).scheduled
            } else {
                Some(at)
            },
    {
        if at <= now {
            true
        } else {
            self.scheduled = Some(at);
            false
        }
    }
}

/// The two textures that a frame is drawn from.
#[derive(Clone, Copy, Debug, PartialEq, Eq, Structural)]
pub struct BindGroup {
    pub ui: TextureHandle,
    pub viewport: TextureHandle,
}

/// The textures that a frame is put together from: that of the interface and
/// that of the viewport. As long as only one of them is bound, it stands in
/// for the other.
#[derive(Clone, Copy, Debug, PartialEq, Eq, Structural)]
pub struct TextureBindings {
    pub ui_texture: Option<TextureHandle>,
    pub viewport_texture: Option<TextureHandle>,
    pub bind_group: Option<BindGroup>,
}

impl TextureBindings {
    /// The bindings after the texture of the interface was bound: the group
    /// is bound anew, to this texture and to that of the viewport, or to this
    /// one twice where the viewport has none yet.
    pub open spec fn with_ui(self, texture: TextureHandle) -> TextureBindings {
        TextureBindings {
            ui_texture: Some(texture),
            viewport_texture: self.viewport_texture,
            bind_group: Some(
                BindGroup {
                    ui: texture,
                    viewport: match self.viewport_texture {
                        Some(viewport) => viewport,
                        None => texture,
                    },
                },
            ),
        }
    }

    /// The bindings after the texture of the viewport was bound: the group is
    /// bound anew, to the texture of the interface and to this one, or to
    /// this one twice where the interface has none yet.
    pub open spec fn with_viewport(self, texture: TextureHandle) -> TextureBindings {
        TextureBindings {
            ui_texture: self.ui_texture,
            viewport_texture: Some(texture),
            bind_group: Some(
                BindGroup {
                    ui: match self.ui_texture {
                        Some(ui) => ui,
                        None => texture,
                    },
                    viewport: texture,
                },
            ),
        }
    }

    /// Bindings without textures: there is nothing to draw yet.
    pub fn new() -> (r: TextureBindings)
        ensures
            r.ui_texture is None,
            r.viewport_texture is None,
            r.bind_group is None,
    {
        TextureBindings { ui_texture: None, viewport_texture: None, bind_group: None }
    }

    /// Binds the texture of the interface.
    pub fn bind_ui_texture(&mut self, texture: TextureHandle)
        ensures
            *final(self) == old(self).with_ui(texture),
    {
        let viewport = match self.viewport_texture {
            Some(viewport) => viewport,
            None => texture,
        };
        self.ui_texture = Some(texture);
        self.bind_group = Some(BindGroup { ui: texture, viewport });
    }

    /// Binds the texture of the viewport.
    pub fn bind_viewport_texture(&mut self, texture: TextureHandle)
        ensures
            *final(self) == old(self).with_viewport(texture),
    {
        let ui = match self.ui_texture {
            Some(ui) => ui,
            None => texture,
        };
        self.viewport_texture = Some(texture);
        self.bind_group = Some(BindGroup { ui, viewport: texture });
    }

    /// Whether a frame can be drawn: a group is bound. Without one, only the
    /// clear color is shown.
    pub fn can_draw(&self) -> (r: bool)
        ensures
            r == self.bind_group is Some,
    {
        self.bind_group.is_some()
    }
}

/// Once both textures were bound, in either order and from whatever was bound
/// before, the group is bound to the texture of the interface and to that of
/// the viewport.
pub proof fn lemma_both_textures_bound(
    bindings: TextureBindings,
    ui: TextureHandle,
    viewport: TextureHandle,
)
    ensures
        bindings.with_ui(ui).with_viewport(viewport).bind_group == Some(BindGroup { ui, viewport }),
        bindings.with_viewport(viewport).with_ui(ui).bind_group == Some(BindGroup { ui, viewport }),
{
}

} // verus!
