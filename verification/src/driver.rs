//! The top-level host state and the decisions of the event loop: what each
//! delivered window event and each acquire outcome demands of the
//! collaborator that owns the device, the queue and the window.

use vstd::prelude::*;
use crate::frame::{is_single_triangle_frame, plan_frame, AcquireOutcome, FrameAction};
use crate::pipeline::{pipeline_desc_spec, RenderPipeline, ShaderAsset};
use crate::surface::{config_for, selected_format, Extent, PresentationSurface, SurfaceCaps, SurfaceConfig};

verus! {

/// A key press as the host reads it: whether the key is Escape and whether
/// this is the press (not the release).
#[derive(Clone, Copy, PartialEq, Eq, Structural, Debug)]
pub struct KeyInput {
    pub is_escape: bool,
    pub pressed: bool,
}

/// The window lifecycle and input events the collaborator delivers, reduced
/// to what the host's decisions read.
#[derive(Clone, Copy, PartialEq, Eq, Structural, Debug)]
pub enum HostEvent {
    CloseRequested,
    KeyboardInput(KeyInput),
    Resized(Extent),
    ScaleFactorChanged(Extent),
    RedrawRequested,
    EventsCleared,
}

/// What the collaborator must do after the host has handled an event.
#[derive(Clone, Copy, PartialEq, Eq, Structural, Debug)]
pub enum LoopAction {
    /// Nothing to perform.
    Idle,
    /// Stop driving the loop: the host was asked to close.
    SignalExit,
    /// Apply the given configuration to the backend surface.
    Reconfigure(SurfaceConfig),
    /// Run one frame: update, acquire the next image, then hand the outcome
    /// to the frame step and perform its action.
    BeginFrame,
    /// Request another redraw, so the loop renders continuously.
    RequestRedraw,
}

/// Whether an event signals loop termination: a close request, or an Escape
/// key press.
pub open spec fn event_requests_exit(e: HostEvent) -> bool {
    match e {
        HostEvent::CloseRequested => true,
        HostEvent::KeyboardInput(k) => k.is_escape && k.pressed,
        _ => false,
    }
}

/// The top-level state: the configured surface, the one pipeline, and the
/// loop-termination signal. The device, queue and window handles live with
/// the collaborator that performs the GPU work; nothing else persists across
/// frames.
pub struct RenderHost {
    pub surface: PresentationSurface,
    pub pipeline: RenderPipeline,
    pub exit_requested: bool,
}

impl RenderHost {
    /// Invariant: the surface is always validly configured.
    pub open spec fn wf(self) -> bool {
        self.surface.wf()
    }

    /// Set up the host: configure the surface from the reported capabilities
    /// and the window's size, and build the pipeline with its color target
    /// pinned to the surface's chosen format.
    pub fn new(caps: &SurfaceCaps, size: Extent, shader: ShaderAsset) -> (h: Self)
        requires
            caps.formats@.len() > 0,
            caps.alpha_modes@.len() > 0,
            size.is_positive(),
        ensures
            h.surface.conf == config_for(caps.formats@, caps.alpha_modes@, size),
            h.surface.size == size,
            h.pipeline.desc == pipeline_desc_spec(selected_format(caps.formats@), shader),
            !h.exit_requested,
            h.wf(),
    {
        let surface = PresentationSurface::configure(caps, size);
        let pipeline = RenderPipeline::build(surface.conf.format, shader);
        RenderHost { surface, pipeline, exit_requested: false }
    }

    /// The input hook: a stub that consumes nothing, so every event falls
    /// through to the host's own handling.
    pub fn input(&mut self, event: &HostEvent) -> (consumed: bool)
        ensures
            *final(self) == *old(self),
            !consumed,
    {
        false
    }

    /// The per-frame update step: this host has no scene state to advance.
    pub fn update(&mut self)
        ensures
            *final(self) == *old(self),
    {
    }

    /// Whether the loop-termination signal has been set.
    pub fn should_exit(&self) -> (r: bool)
        ensures
            r == self.exit_requested,
    {
        self.exit_requested
    }

    /// Decide on one delivered event. A close request or an Escape press sets
    /// the termination signal; a resize goes to the surface (applied only for
    /// positive areas); a redraw request begins a frame unless termination
    /// was signalled; cleared events request the next redraw.
    pub fn handle_event(&mut self, event: HostEvent) -> (a: LoopAction)
        requires
            old(self).wf(),
        ensures
            final(self).wf(),
            final(self).pipeline == old(self).pipeline,
            final(self).exit_requested == (old(self).exit_requested || event_requests_exit(event)),
            (match event {
                HostEvent::CloseRequested => a == LoopAction::SignalExit
                    && final(self).surface == old(self).surface,
                HostEvent::KeyboardInput(k) => if k.is_escape && k.pressed {
                    a == LoopAction::SignalExit && final(self).surface == old(self).surface
                } else {
                    a == LoopAction::Idle && *final(self) == *old(self)
                },
                HostEvent::Resized(s) => final(self).surface == old(self).surface.resize_spec(s)
                    && (if s.is_positive() {
                        a == LoopAction::Reconfigure(final(self).surface.conf)
                    } else {
                        a == LoopAction::Idle && *final(self) == *old(self)
                    }),
                HostEvent::ScaleFactorChanged(s) => final(self).surface
                    == old(self).surface.resize_spec(s)
                    && (if s.is_positive() {
                        a == LoopAction::Reconfigure(final(self).surface.conf)
                    } else {
                        a == LoopAction::Idle && *final(self) == *old(self)
                    }),
                HostEvent::RedrawRequested => *final(self) == *old(self)
                    && (if old(self).exit_requested {
                        a == LoopAction::Idle
                    } else {
                        a == LoopAction::BeginFrame
                    }),
                HostEvent::EventsCleared => a == LoopAction::RequestRedraw
                    && *final(self) == *old(self),
            }),
            old(self).exit_requested ==> a != LoopAction::BeginFrame,
    {
        let consumed = self.input(&event);
        if consumed {
            return LoopAction::Idle;
        }
        match event {
            HostEvent::CloseRequested => {
                self.exit_requested = true;
                LoopAction::SignalExit
            },
            HostEvent::KeyboardInput(k) => {
                if k.is_escape && k.pressed {
                    self.exit_requested = true;
                    LoopAction::SignalExit
                } else {
                    LoopAction::Idle
                }
            },
            HostEvent::Resized(s) => {
                if self.surface.resize(s) {
                    LoopAction::Reconfigure(self.surface.conf)
                } else {
                    LoopAction::Idle
                }
            },
            HostEvent::ScaleFactorChanged(s) => {
                if self.surface.resize(s) {
                    LoopAction::Reconfigure(self.surface.conf)
                } else {
                    LoopAction::Idle
                }
            },
            HostEvent::RedrawRequested => {
                if self.exit_requested {
                    LoopAction::Idle
                } else {
                    LoopAction::BeginFrame
                }
            },
            HostEvent::EventsCleared => LoopAction::RequestRedraw,
        }
    }

    /// The frame state machine's one step, given the outcome of acquiring
    /// the next presentable image. On success the frame is planned; a lost
    /// surface is reconfigured with the last recorded size and the frame
    /// abandoned; resource exhaustion sets the termination signal; outdated
    /// and timed-out acquires are skipped and retried next frame.
    pub fn render_step(&mut self, outcome: AcquireOutcome) -> (a: FrameAction)
        requires
            old(self).wf(),
        ensures
            final(self).wf(),
            final(self).surface == old(self).surface,
            final(self).pipeline == old(self).pipeline,
            final(self).exit_requested == (old(self).exit_requested
                || outcome == AcquireOutcome::OutOfMemory),
            (match outcome {
                AcquireOutcome::Acquired => (a matches FrameAction::Draw(p)
                    && is_single_triangle_frame(p)),
                AcquireOutcome::Lost => a == FrameAction::Reconfigure(old(self).surface.size),
                AcquireOutcome::OutOfMemory => a == FrameAction::Terminate,
                AcquireOutcome::Outdated => a == FrameAction::SkipFrame,
                AcquireOutcome::Timeout => a == FrameAction::SkipFrame,
            }),
    {
        match outcome {
            AcquireOutcome::Acquired => FrameAction::Draw(plan_frame()),
            AcquireOutcome::Lost => FrameAction::Reconfigure(self.surface.size),
            AcquireOutcome::OutOfMemory => {
                self.exit_requested = true;
                FrameAction::Terminate
            },
            AcquireOutcome::Outdated => FrameAction::SkipFrame,
            AcquireOutcome::Timeout => FrameAction::SkipFrame,
        }
    }
}

} // verus!
