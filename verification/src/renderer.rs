//! Surface configuration and per-frame orchestration.
//!
//! The renderer state tracks everything the frame loop decides with: the
//! stored surface size, the surface configuration, the camera's aspect ratio
//! as an exact width/height pair, and the model-rotation accumulator counted
//! in whole frame steps. The GPU calls themselves (configuring the surface,
//! acquiring an image, submitting commands) happen outside the library; each
//! frame they report their outcome here and this state answers with the one
//! action the loop must take next.

use vstd::prelude::*;

verus! {

/// How the surface presents finished images. The renderer always configures
/// the display-synchronized queue, which bounds the frame rate to the display
/// refresh rate.
#[derive(Clone, Copy, Debug, PartialEq, Eq, Structural)]
pub enum PresentMode {
    /// Display-synchronized first-in-first-out queue (vsync).
    Fifo,
    /// Present immediately without waiting for the display.
    Immediate,
    /// Single-slot queue that replaces the waiting image.
    Mailbox,
}

/// The surface configuration: which of the surface's supported formats and
/// alpha modes are used (by their position in the support lists), the size
/// in pixels, the present mode, and how many frames may be in flight.
#[derive(Clone, Copy, Debug, PartialEq, Eq, Structural)]
pub struct SurfaceConfig {
    /// Position of the chosen texture format in the surface's support list.
    pub format_index: usize,
    /// Position of the chosen alpha mode in the surface's support list.
    pub alpha_mode_index: usize,
    /// Surface width in pixels.
    pub width: u32,
    /// Surface height in pixels.
    pub height: u32,
    /// How images are queued for presentation.
    pub present_mode: PresentMode,
    /// Maximum number of frames queued ahead of the display.
    pub frame_latency: u32,
}

/// What acquiring the next presentable surface image reported.
#[derive(Clone, Copy, Debug, PartialEq, Eq, Structural)]
pub enum AcquireOutcome {
    /// An image was acquired and can be drawn to.
    Acquired,
    /// The surface was lost and must be reconfigured.
    Lost,
    /// The surface no longer matches the window and must be reconfigured.
    Outdated,
    /// Device memory is exhausted; the application cannot continue.
    OutOfMemory,
    /// Acquisition timed out this frame.
    Timeout,
}

/// The one action the frame loop takes after the acquisition step.
#[derive(Clone, Copy, Debug, PartialEq, Eq, Structural)]
pub enum FrameAction {
    /// Record the scene pass and the overlay pass, submit, and present.
    Draw,
    /// Do not draw; reconfigure the surface with the given size and retry
    /// next frame.
    Reconfigure { width: u32, height: u32 },
    /// Do not draw; the error is fatal and the application must stop.
    Fatal,
    /// Do not draw; log the failure, keep all state, and retry next frame.
    Skip,
}

/// Holds when `i` is the index the renderer picks from a surface's format
/// support list, given which entries are display-referred (sRGB): the first
/// sRGB entry, or the first entry when no sRGB format is offered.
pub open spec fn is_chosen_format(srgb: Seq<bool>, i: int) -> bool {
    &&& 0 <= i < srgb.len()
    &&& if exists|j: int| 0 <= j < srgb.len() && srgb[j] {
        srgb[i] && forall|j: int| 0 <= j < i ==> !srgb[j]
    } else {
        i == 0
    }
}

/// Picks the format the surface is configured with: the first sRGB entry of
/// the support list, or the first entry when none is sRGB.
pub fn choose_format(srgb: &Vec<bool>) -> (i: usize)
    requires
        srgb@.len() > 0,
    ensures
        is_chosen_format(srgb@, i as int),
{
    let mut k: usize = 0;
    while k < srgb.len()
        invariant
            k <= srgb@.len(),
            forall|j: int| 0 <= j < k ==> !srgb@[j],
        decreases srgb@.len() - k,
    {
        if srgb[k] {
            return k;
        }
        k = k + 1;
    }
    0
}

/// The verified state of the renderer: stored size, surface configuration,
/// exact camera aspect ratio, and the rotation accumulator in frame steps.
pub struct Renderer {
    /// Stored surface width in pixels (the last accepted window size).
    pub width: u32,
    /// Stored surface height in pixels.
    pub height: u32,
    /// The current surface configuration.
    pub config: SurfaceConfig,
    /// Camera aspect ratio, kept as the exact pair width / height.
    pub aspect_width: u32,
    /// Denominator of the camera aspect ratio.
    pub aspect_height: u32,
    /// How many frame steps the model rotation has advanced; the rotation
    /// angle is this count times the fixed per-frame increment.
    pub rotation_steps: u64,
}

impl Renderer {
    /// The state is well formed: the stored size is never zero, the surface
    /// configuration always matches it, and the camera aspect ratio is
    /// exactly the stored size.
    pub open spec fn wf(&self) -> bool {
        &&& self.width > 0
        &&& self.height > 0
        &&& self.config.width == self.width
        &&& self.config.height == self.height
        &&& self.aspect_width == self.width
        &&& self.aspect_height == self.height
    }

    /// Builds the initial renderer state from the window's physical size and
    /// the surface's support lists: the format is the first sRGB entry (or
    /// the first entry), the alpha mode is the first supported one, the
    /// present mode is display-synchronized, at most two frames are queued,
    /// the camera aspect ratio is the window size, and the rotation starts
    /// at zero.
    pub fn new(width: u32, height: u32, format_srgb: &Vec<bool>) -> (r: Self)
        requires
            width > 0,
            height > 0,
            format_srgb@.len() > 0,
        ensures
            r.wf(),
            r.width == width,
            r.height == height,
            is_chosen_format(format_srgb@, r.config.format_index as int),
            r.config.alpha_mode_index == 0,
            r.config.present_mode == PresentMode::Fifo,
            r.config.frame_latency == 2,
            r.rotation_steps == 0,
    {
        let format_index = choose_format(format_srgb);
        Renderer {
            width,
            height,
            config: SurfaceConfig {
                format_index,
                alpha_mode_index: 0,
                width,
                height,
                present_mode: PresentMode::Fifo,
                frame_latency: 2,
            },
            aspect_width: width,
            aspect_height: height,
            rotation_steps: 0,
        }
    }

    /// Applies a window size change. A size with a zero dimension (a
    /// minimized window) is rejected and nothing changes. Otherwise the
    /// stored size and the surface configuration take the new size and the
    /// camera aspect ratio becomes exactly `new_width / new_height`; the
    /// format, alpha mode, present mode, frame latency and rotation are
    /// untouched.
    pub fn resize(&mut self, new_width: u32, new_height: u32)
        requires
            old(self).wf(),
        ensures
            final(self).wf(),
            new_width > 0 && new_height > 0 ==> {
                &&& final(self).width == new_width
                &&& final(self).height == new_height
                &&& final(self).aspect_width == new_width
                &&& final(self).aspect_height == new_height
                &&& final(self).config == (SurfaceConfig {
                    width: new_width,
                    height: new_height,
                    ..old(self).config
                })
                &&& final(self).rotation_steps == old(self).rotation_steps
            },
            !(new_width > 0 && new_height > 0) ==> *final(self) == *old(self),
    {
        if new_width > 0 && new_height > 0 {
            self.width = new_width;
            self.height = new_height;
            self.config.width = new_width;
            self.config.height = new_height;
            self.aspect_width = new_width;
            self.aspect_height = new_height;
        }
    }

    /// The stored surface size.
    pub fn size(&self) -> (r: (u32, u32))
        ensures
            r.0 == self.width,
            r.1 == self.height,
    {
        (self.width, self.height)
    }

    /// Advances one frame given what image acquisition reported, and returns
    /// the action the loop must take. Every frame advances the rotation
    /// accumulator by exactly one step, drawn or not, because the transform
    /// is recomputed and uploaded before the image is acquired. The surface
    /// configuration, stored size and aspect ratio never change here; when
    /// the surface is lost or outdated the returned action carries the last
    /// known size for the reconfiguration. Acquisition succeeds, and the
    /// frame is drawn, exactly when the outcome is `Acquired`; memory
    /// exhaustion is fatal; a timeout only skips the frame.
    pub fn render_step(&mut self, outcome: AcquireOutcome) -> (action: FrameAction)
        requires
            old(self).wf(),
            old(self).rotation_steps < u64::MAX,
        ensures
            final(self).wf(),
            final(self).rotation_steps == old(self).rotation_steps + 1,
            final(self).width == old(self).width,
            final(self).height == old(self).height,
            final(self).config == old(self).config,
            final(self).aspect_width == old(self).aspect_width,
            final(self).aspect_height == old(self).aspect_height,
            action == (match outcome {
                AcquireOutcome::Acquired => FrameAction::Draw,
                AcquireOutcome::Lost | AcquireOutcome::Outdated => FrameAction::Reconfigure {
                    width: old(self).width,
                    height: old(self).height,
                },
                AcquireOutcome::OutOfMemory => FrameAction::Fatal,
                AcquireOutcome::Timeout => FrameAction::Skip,
            }),
    {
        self.rotation_steps = self.rotation_steps + 1;
        match outcome {
            AcquireOutcome::Acquired => FrameAction::Draw,
            AcquireOutcome::Lost | AcquireOutcome::Outdated => {
                let (width, height) = self.size();
                self.resize(width, height);
                FrameAction::Reconfigure { width, height }
            },
            AcquireOutcome::OutOfMemory => FrameAction::Fatal,
            AcquireOutcome::Timeout => FrameAction::Skip,
        }
    }
}

} // verus!
