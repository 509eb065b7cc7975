//! The decisions of the renderer shell.
//!
//! The shell owns no device. It keeps what the device was last told (the
//! surface size, how many records the particle buffer holds and how many of
//! them are drawn) and answers each event with the step the caller has to
//! carry out on the device.

use vstd::prelude::*;
use crate::graphics::layout::{buffer_bytes, buffer_len};

verus! {

/// Vertices of the quad drawn for each particle: two triangles.
pub const QUAD_VERTICES: u32 = 6;

/// Pixel dimensions of the presentation surface.
#[derive(Clone, Copy, Debug, PartialEq, Eq, Structural)]
pub struct SurfaceSize {
    pub width: u32,
    pub height: u32,
}

impl SurfaceSize {
    /// A surface can be configured to this size: neither side is zero.
    pub open spec fn is_drawable(&self) -> bool {
        self.width > 0 && self.height > 0
    }

    /// Whether neither side is zero.
    pub fn has_area(&self) -> (b: bool)
        ensures
            b == self.is_drawable(),
    {
        self.width > 0 && self.height > 0
    }
}

/// Why an upload of particles did not take place.
#[derive(Clone, Copy, Debug, PartialEq, Eq, Structural)]
pub enum UploadError {
    /// More particles than one draw call can address.
    TooLarge,
    /// The device could not provide a buffer of the needed length.
    AllocationFailed,
}

/// What an upload of particles asks of the device.
#[derive(Clone, Copy, Debug, PartialEq, Eq, Structural)]
pub enum UploadPlan {
    /// The buffer already has the right length: overwrite its `bytes` bytes.
    Overwrite { bytes: u64 },
    /// The length changed: allocate a buffer of `bytes` bytes, then fill it.
    Reallocate { bytes: u64 },
    /// The particles cannot be uploaded at all.
    Refuse,
}

/// How the attempt to present one frame ended.
#[derive(Clone, Copy, Debug, PartialEq, Eq, Structural)]
pub enum FrameOutcome {
    /// The frame was drawn and shown.
    Presented,
    /// The surface was lost and has to be configured again.
    Lost,
    /// The device ran out of memory.
    OutOfMemory,
    /// Any other failure to acquire or show the frame.
    Failed,
}

/// What the caller does once a frame has ended.
#[derive(Clone, Copy, Debug, PartialEq, Eq, Structural)]
pub enum FrameAction {
    /// Nothing: go on with the next frame.
    Continue,
    /// Configure the surface to this size, then go on with the next frame.
    Reconfigure(SurfaceSize),
    /// Report the failure, drop this frame and go on with the next.
    Skip,
    /// Leave the event loop.
    Exit,
}

/// An event of the window, reduced to what the shell decides on.
#[derive(Clone, Copy, Debug, PartialEq, Eq, Structural)]
pub enum ShellEvent {
    /// The user asked to close the window.
    CloseRequested,
    /// The window now has this size.
    Resized(SurfaceSize),
    /// The window asks to be drawn.
    RedrawRequested,
    /// All pending events were handled and the loop is about to wait.
    AboutToWait,
    /// Anything else, events of other windows included.
    Other,
}

/// What the caller does in answer to an event.
#[derive(Clone, Copy, Debug, PartialEq, Eq, Structural)]
pub enum Command {
    /// Nothing.
    Ignore,
    /// Configure the surface to this size.
    Reconfigure(SurfaceSize),
    /// Draw a frame and report how it ended.
    Render,
    /// Ask the window for a redraw.
    RequestRedraw,
    /// Leave the event loop.
    Exit,
}

/// One draw call: `vertices` vertices for each of `instances` instances.
#[derive(Clone, Copy, Debug, PartialEq, Eq, Structural)]
pub struct DrawCall {
    pub vertices: u32,
    pub instances: u32,
}

/// The shell's record of the device's state.
#[derive(Clone, Copy, Debug, PartialEq, Eq, Structural)]
pub struct Renderer {
    /// Size the surface was last configured to.
    pub size: SurfaceSize,
    /// Records the particle buffer has room for.
    pub capacity: u32,
    /// Records that were uploaded and are drawn each frame.
    pub count: u32,
    /// Whether the event loop goes on.
    pub running: bool,
}

impl Renderer {
    /// The surface has a size it can be configured to, and no frame draws more
    /// records than the buffer holds.
    pub open spec fn wf(&self) -> bool {
        self.size.is_drawable() && self.count <= self.capacity
    }

    /// The state after a request to resize to `size`: a size without area is
    /// ignored, any other becomes the configured size.
    pub open spec fn resized(&self, size: SurfaceSize) -> Renderer {
        if size.is_drawable() {
            Renderer { size, ..*self }
        } else {
            *self
        }
    }

    /// Whether an upload of `len` particles takes place, given whether the
    /// device provided a new buffer where one was needed.
    pub open spec fn upload_result(&self, len: usize, allocated: bool) -> Result<(), UploadError> {
        if len > u32::MAX {
            Err(UploadError::TooLarge)
        } else if len != self.capacity && !allocated {
            Err(UploadError::AllocationFailed)
        } else {
            Ok(())
        }
    }

    /// The state after an upload of `len` particles: on success the buffer
    /// holds exactly `len` records and all of them are drawn; on failure
    /// nothing changes.
    pub open spec fn uploaded(&self, len: usize, allocated: bool) -> Renderer {
        if self.upload_result(len, allocated).is_ok() {
            Renderer { capacity: len as u32, count: len as u32, ..*self }
        } else {
            *self
        }
    }

    /// What an upload of `len` particles asks of the device.
    pub open spec fn upload_plan(&self, len: usize) -> UploadPlan {
        if len > u32::MAX {
            UploadPlan::Refuse
        } else if len != self.capacity {
            UploadPlan::Reallocate { bytes: buffer_len(len as nat) as u64 }
        } else {
            UploadPlan::Overwrite { bytes: buffer_len(len as nat) as u64 }
        }
    }

    /// What follows a frame that ended with `outcome`.
    pub open spec fn frame_action(&self, outcome: FrameOutcome) -> FrameAction {
        match outcome {
            FrameOutcome::Presented => FrameAction::Continue,
            FrameOutcome::Lost => FrameAction::Reconfigure(self.size),
            FrameOutcome::OutOfMemory => FrameAction::Exit,
            FrameOutcome::Failed => FrameAction::Skip,
        }
    }

    /// The state after a frame that ended with `outcome`: only running out of
    /// memory changes it, by stopping the loop.
    pub open spec fn after_frame(&self, outcome: FrameOutcome) -> Renderer {
        match outcome {
            FrameOutcome::OutOfMemory => Renderer { running: false, ..*self },
            _ => *self,
        }
    }

    /// What the caller does in answer to `event`.
    pub open spec fn command(&self, event: ShellEvent) -> Command {
        match event {
            ShellEvent::CloseRequested => Command::Exit,
            ShellEvent::Resized(size) => if size.is_drawable() {
                Command::Reconfigure(size)
            } else {
                Command::Ignore
            },
            ShellEvent::RedrawRequested => Command::Render,
            ShellEvent::AboutToWait => Command::RequestRedraw,
            ShellEvent::Other => Command::Ignore,
        }
    }

    /// The state after `event`.
    pub open spec fn after_event(&self, event: ShellEvent) -> Renderer {
        match event {
            ShellEvent::CloseRequested => Renderer { running: false, ..*self },
            ShellEvent::Resized(size) => self.resized(size),
            _ => *self,
        }
    }

    /// A shell for a surface configured to `size`, with an empty particle
    /// buffer. There is none for a size without area.
    pub fn new(size: SurfaceSize) -> (r: Option<Renderer>)
        ensures
            r.is_some() <==> size.is_drawable(),
            r matches Some(shell) ==> shell.wf() && shell == (Renderer {
                size,
                capacity: 0,
                count: 0,
                running: true,
            }),
    {
        if size.has_area() {
            Some(Renderer { size, capacity: 0, count: 0, running: true })
        } else {
            None
        }
    }

    /// Whether the event loop goes on.
    pub fn is_running(&self) -> (b: bool)
        ensures
            b == self.running,
    {
        self.running
    }

    /// Takes a new surface size. Returns the size to configure the surface
    /// to, or `None` where the request is ignored because a side is zero.
    pub fn resize(&mut self, size: SurfaceSize) -> (config: Option<SurfaceSize>)
        ensures
            old(self).wf() ==> final(self).wf(),
            *final(self) == old(self).resized(size),
            config == (if size.is_drawable() { Some(size) } else { None }),
            size == old(self).size ==> *final(self) == *old(self),
            !size.is_drawable() ==> *final(self) == *old(self),
    {
        if size.has_area() {
            self.size = size;
            Some(size)
        } else {
            None
        }
    }

    /// What an upload of `len` particles asks of the device, before anything
    /// is changed.
    pub fn plan_upload(&self, len: usize) -> (plan: UploadPlan)
        ensures
            plan == self.upload_plan(len),
            plan is Refuse <==> len > u32::MAX,
            plan is Reallocate <==> len <= u32::MAX && len != self.capacity,
            plan matches UploadPlan::Reallocate { bytes } ==> bytes == buffer_len(len as nat),
            plan matches UploadPlan::Overwrite { bytes } ==> bytes == buffer_len(len as nat),
    {
        if len > u32::MAX as usize {
            UploadPlan::Refuse
        } else if len != self.capacity as usize {
            UploadPlan::Reallocate { bytes: buffer_bytes(len as u32) }
        } else {
            UploadPlan::Overwrite { bytes: buffer_bytes(len as u32) }
        }
    }

    /// Records an upload of `len` particles. `allocated` says whether the
    /// device provided the new buffer; it is not looked at where the plan was
    /// to overwrite. On success exactly `len` records are held and drawn; on
    /// failure the earlier buffer and count stay.
    pub fn update_particles(&mut self, len: usize, allocated: bool) -> (r: Result<(), UploadError>)
        ensures
            old(self).wf() ==> final(self).wf(),
            r == old(self).upload_result(len, allocated),
            *final(self) == old(self).uploaded(len, allocated),
            r.is_ok() ==> final(self).count == len && final(self).capacity == len,
            r.is_err() ==> *final(self) == *old(self),
    {
        if len > u32::MAX as usize {
            Err(UploadError::TooLarge)
        } else if len != self.capacity as usize && !allocated {
            Err(UploadError::AllocationFailed)
        } else {
            self.capacity = len as u32;
            self.count = len as u32;
            Ok(())
        }
    }

    /// The draw call of one frame: one quad for each uploaded particle. The
    /// records it reads all lie within the buffer.
    pub fn draw_call(&self) -> (call: DrawCall)
        ensures
            call == (DrawCall { vertices: QUAD_VERTICES, instances: self.count }),
            self.wf() ==> buffer_len(call.instances as nat) <= buffer_len(self.capacity as nat),
    {
        DrawCall { vertices: QUAD_VERTICES, instances: self.count }
    }

    /// Takes the outcome of a frame and says what the caller does next.
    pub fn frame_finished(&mut self, outcome: FrameOutcome) -> (action: FrameAction)
        ensures
            old(self).wf() ==> final(self).wf(),
            action == old(self).frame_action(outcome),
            *final(self) == old(self).after_frame(outcome),
    {
        match outcome {
            FrameOutcome::Presented => FrameAction::Continue,
            FrameOutcome::Lost => FrameAction::Reconfigure(self.size),
            FrameOutcome::OutOfMemory => {
                self.running = false;
                FrameAction::Exit
            },
            FrameOutcome::Failed => FrameAction::Skip,
        }
    }

    /// Takes an event of the window and says what the caller does about it.
    pub fn handle_event(&mut self, event: ShellEvent) -> (command: Command)
        ensures
            old(self).wf() ==> final(self).wf(),
            command == old(self).command(event),
            *final(self) == old(self).after_event(event),
    {
        match event {
            ShellEvent::CloseRequested => {
                self.running = false;
                Command::Exit
            },
            ShellEvent::Resized(size) => match self.resize(size) {
                Some(config) => Command::Reconfigure(config),
                None => Command::Ignore,
            },
            ShellEvent::RedrawRequested => Command::Render,
            ShellEvent::AboutToWait => Command::RequestRedraw,
            ShellEvent::Other => Command::Ignore,
        }
    }
}

/// Resizing to the size that is already configured changes nothing.
pub proof fn lemma_resize_to_current_size(r: Renderer)
    ensures
        r.resized(r.size) == r,
{
}

/// Resizing twice to one size is resizing once.
pub proof fn lemma_resize_idempotent(r: Renderer, size: SurfaceSize)
    ensures
        r.resized(size).resized(size) == r.resized(size),
{
}

/// A size with a zero side is ignored: the state stays as it was, and with it
/// the last size the surface could be configured to; nothing is to be
/// configured.
pub proof fn lemma_resize_without_area(r: Renderer, size: SurfaceSize)
    requires
        r.wf(),
        size.width == 0 || size.height == 0,
    ensures
        r.resized(size) == r,
        r.resized(size).size.is_drawable(),
        r.command(ShellEvent::Resized(size)) == Command::Ignore,
{
}

/// Resizing keeps the particle buffer and the count as they are.
pub proof fn lemma_resize_keeps_particles(r: Renderer, size: SurfaceSize)
    ensures
        r.resized(size).capacity == r.capacity,
        r.resized(size).count == r.count,
        r.resized(size).running == r.running,
{
}

/// After two uploads in a row, whatever their lengths and whether or not
/// either took place, the next frame draws no record beyond the buffer; and
/// where the second took place, it draws exactly the particles of the second.
pub proof fn lemma_draw_stays_in_buffer(
    r: Renderer,
    first: usize,
    first_allocated: bool,
    second: usize,
    second_allocated: bool,
)
    requires
        r.wf(),
    ensures
        ({
            let between = r.uploaded(first, first_allocated);
            let after = between.uploaded(second, second_allocated);
            &&& after.wf()
            &&& after.count <= after.capacity
            &&& buffer_len(after.count as nat) <= buffer_len(after.capacity as nat)
            &&& between.upload_result(second, second_allocated).is_ok() ==> after.count == second
            &&& between.upload_result(second, second_allocated).is_err() ==> after == between
        }),
{
}

/// An upload that needs no new buffer cannot fail for want of memory: it
/// takes place whatever the device said of an allocation.
pub proof fn lemma_same_length_upload_succeeds(r: Renderer, allocated: bool)
    requires
        r.wf(),
    ensures
        r.upload_result(r.capacity as usize, allocated).is_ok(),
        r.upload_plan(r.capacity as usize) is Overwrite,
{
}

/// Once the loop has stopped, no event and no frame starts it again.
pub proof fn lemma_stopped_stays_stopped(r: Renderer, event: ShellEvent, outcome: FrameOutcome)
    requires
        !r.running,
    ensures
        !r.after_event(event).running,
        !r.after_frame(outcome).running,
{
}

/// A lost surface is answered as a resize to the configured size is: by
/// configuring to that size, with the state left as it was.
pub proof fn lemma_lost_surface_is_resize(r: Renderer)
    requires
        r.wf(),
    ensures
        r.after_frame(FrameOutcome::Lost) == r.resized(r.size),
        r.frame_action(FrameOutcome::Lost) == FrameAction::Reconfigure(r.size),
        r.command(ShellEvent::Resized(r.size)) == Command::Reconfigure(r.size),
{
}

} // verus!
