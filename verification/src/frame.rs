//! The ephemeral frame: what one render() call records and submits, and the
//! closed set of outcomes of acquiring the next presentable image.

use vstd::prelude::*;
use crate::surface::Extent;

verus! {

/// A clear color, each channel in tenths of full intensity. The backend takes
/// unit-interval channels; the host's one clear color (one tenth red, two
/// tenths green, three tenths blue, full alpha) is exact in this form.
#[derive(Clone, Copy, PartialEq, Eq, Structural, Debug)]
pub struct ClearColor {
    pub r_tenths: u8,
    pub g_tenths: u8,
    pub b_tenths: u8,
    pub a_tenths: u8,
}

/// The fixed clear color of the host's render pass.
pub open spec fn frame_clear_color() -> ClearColor {
    ClearColor { r_tenths: 1, g_tenths: 2, b_tenths: 3, a_tenths: 10 }
}

/// What happens to an attachment's contents when a render pass begins.
#[derive(Clone, Copy, PartialEq, Eq, Structural, Debug)]
pub enum LoadOp {
    Clear(ClearColor),
    Load,
}

/// One draw call: half-open vertex and instance ranges, no vertex or index
/// buffers bound.
#[derive(Clone, Copy, PartialEq, Eq, Structural, Debug)]
pub struct DrawCall {
    pub vertex_start: u32,
    pub vertex_end: u32,
    pub instance_start: u32,
    pub instance_end: u32,
}

/// Operations on one color attachment of a render pass.
#[derive(Clone, Copy, PartialEq, Eq, Structural, Debug)]
pub struct AttachmentOps {
    pub load: LoadOp,
    pub store_results: bool,
}

/// One recorded render pass: its color attachments, whether a depth/stencil
/// attachment is bound, and the draw calls issued inside it, in order.
pub struct RenderPassPlan {
    pub attachments: Vec<AttachmentOps>,
    pub has_depth_stencil: bool,
    pub draws: Vec<DrawCall>,
}

/// One command buffer: the render passes recorded into it, in order.
pub struct CommandBufferPlan {
    pub passes: Vec<RenderPassPlan>,
}

/// Everything one frame submits to the queue: command buffers in submission
/// order. Submission order is kept; nothing here persists across frames.
pub struct FramePlan {
    pub buffers: Vec<CommandBufferPlan>,
}

/// The host's one frame shape: exactly one command buffer holding exactly one
/// render pass with one color attachment, cleared to the fixed color and
/// stored, no depth/stencil, and one draw call over vertices zero to three
/// and a single instance.
pub open spec fn is_single_triangle_frame(p: FramePlan) -> bool {
    &&& p.buffers@.len() == 1
    &&& p.buffers@[0].passes@.len() == 1
    &&& p.buffers@[0].passes@[0].attachments@.len() == 1
    &&& p.buffers@[0].passes@[0].attachments@[0] == (AttachmentOps {
        load: LoadOp::Clear(frame_clear_color()),
        store_results: true,
    })
    &&& !p.buffers@[0].passes@[0].has_depth_stencil
    &&& p.buffers@[0].passes@[0].draws@.len() == 1
    &&& p.buffers@[0].passes@[0].draws@[0] == (DrawCall {
        vertex_start: 0,
        vertex_end: 3,
        instance_start: 0,
        instance_end: 1,
    })
}

/// Record the host's one frame: clear the acquired image to the fixed color
/// and draw one triangle.
pub fn plan_frame() -> (p: FramePlan)
    ensures
        is_single_triangle_frame(p),
{
    let attachment = AttachmentOps {
        load: LoadOp::Clear(ClearColor { r_tenths: 1, g_tenths: 2, b_tenths: 3, a_tenths: 10 }),
        store_results: true,
    };
    let draw = DrawCall { vertex_start: 0, vertex_end: 3, instance_start: 0, instance_end: 1 };
    let mut attachments: Vec<AttachmentOps> = Vec::new();
    attachments.push(attachment);
    let mut draws: Vec<DrawCall> = Vec::new();
    draws.push(draw);
    let pass = RenderPassPlan { attachments, has_depth_stencil: false, draws };
    let mut passes: Vec<RenderPassPlan> = Vec::new();
    passes.push(pass);
    let buffer = CommandBufferPlan { passes };
    let mut buffers: Vec<CommandBufferPlan> = Vec::new();
    buffers.push(buffer);
    FramePlan { buffers }
}

/// The outcome of acquiring the next presentable image: success, or one
/// variant per failure kind of the backend.
#[derive(Clone, Copy, PartialEq, Eq, Structural, Debug)]
pub enum AcquireOutcome {
    Acquired,
    Lost,
    Outdated,
    OutOfMemory,
    Timeout,
}

/// What the collaborator must do for this frame after the host has decided.
pub enum FrameAction {
    /// Record, submit and present the planned frame.
    Draw(FramePlan),
    /// The surface was lost: reapply the configuration for the given size and
    /// abandon the frame (no draw; the next iteration retries).
    Reconfigure(Extent),
    /// Transient failure (outdated or timed out): report it and let the next
    /// scheduled frame retry.
    SkipFrame,
    /// Resource exhaustion at the platform level: terminate the loop.
    Terminate,
}

} // verus!
