use render_host::driver::{HostEvent, KeyInput, LoopAction, RenderHost};
use render_host::frame::{AcquireOutcome, FrameAction, LoadOp};
use render_host::pipeline::{
    BlendMode, CullMode, FrontFace, PolygonMode, RenderPipeline, ShaderAsset, Topology,
    SAMPLE_MASK_ALL, WRITE_MASK_ALL,
};
use render_host::surface::{
    select_format, AlphaMode, ColorFormat, Extent, PresentMode, PresentationSurface, SurfaceCaps,
    RENDER_ATTACHMENT_USAGE,
};

fn caps() -> SurfaceCaps {
    SurfaceCaps {
        formats: vec![
            ColorFormat { code: 4, srgb: false },
            ColorFormat { code: 7, srgb: true },
            ColorFormat { code: 9, srgb: true },
        ],
        present_modes: vec![PresentMode::Fifo, PresentMode::AutoVsync],
        alpha_modes: vec![AlphaMode::Opaque, AlphaMode::Auto],
    }
}

fn fresh_host() -> RenderHost {
    RenderHost::new(&caps(), Extent { width: 800, height: 600 }, ShaderAsset { id: 1 })
}

#[test]
fn format_prefers_first_srgb() {
    let f = select_format(&caps().formats);
    assert_eq!(f, ColorFormat { code: 7, srgb: true });
}

#[test]
fn format_falls_back_to_first_reported() {
    let formats = vec![
        ColorFormat { code: 11, srgb: false },
        ColorFormat { code: 12, srgb: false },
    ];
    let f = select_format(&formats);
    assert_eq!(f, ColorFormat { code: 11, srgb: false });
}

#[test]
fn configure_applies_the_policy() {
    let s = PresentationSurface::configure(&caps(), Extent { width: 800, height: 600 });
    assert_eq!(s.conf.usage, RENDER_ATTACHMENT_USAGE);
    assert_eq!(s.conf.format, ColorFormat { code: 7, srgb: true });
    assert_eq!(s.conf.width, 800);
    assert_eq!(s.conf.height, 600);
    assert_eq!(s.conf.present_mode, PresentMode::AutoVsync);
    assert_eq!(s.conf.alpha_mode, AlphaMode::Opaque);
    assert_eq!(s.size, Extent { width: 800, height: 600 });
}

#[test]
fn zero_area_resize_is_a_noop() {
    let mut s = PresentationSurface::configure(&caps(), Extent { width: 800, height: 600 });
    let before = s;
    assert!(!s.resize(Extent { width: 0, height: 600 }));
    assert_eq!(s, before);
    assert!(!s.resize(Extent { width: 800, height: 0 }));
    assert_eq!(s, before);
    assert!(!s.resize(Extent { width: 0, height: 0 }));
    assert_eq!(s, before);
}

#[test]
fn size_tracks_last_positive_resize() {
    let mut s = PresentationSurface::configure(&caps(), Extent { width: 800, height: 600 });
    assert!(s.resize(Extent { width: 300, height: 200 }));
    assert!(s.resize(Extent { width: 1920, height: 1080 }));
    assert!(!s.resize(Extent { width: 0, height: 0 }));
    assert_eq!(s.size, Extent { width: 1920, height: 1080 });
    assert_eq!(s.conf.width, 1920);
    assert_eq!(s.conf.height, 1080);
}

#[test]
fn pipeline_construction_is_deterministic() {
    let format = ColorFormat { code: 7, srgb: true };
    let shader = ShaderAsset { id: 1 };
    let a = RenderPipeline::build(format, shader);
    let b = RenderPipeline::build(format, shader);
    assert_eq!(a.desc, b.desc);
    assert_eq!(a.desc.topology, Topology::TriangleList);
    assert_eq!(a.desc.front_face, FrontFace::Ccw);
    assert_eq!(a.desc.cull_mode, CullMode::Back);
    assert_eq!(a.desc.polygon_mode, PolygonMode::Fill);
    assert_eq!(a.desc.blend, BlendMode::Replace);
    assert_eq!(a.desc.write_mask, WRITE_MASK_ALL);
    assert_eq!(a.desc.sample_count, 1);
    assert_eq!(a.desc.sample_mask, SAMPLE_MASK_ALL);
    assert!(!a.desc.has_depth_stencil);
    assert_eq!(a.desc.bind_group_layout_count, 0);
    assert_eq!(a.desc.push_constant_range_count, 0);
    assert_eq!(a.desc.color_format, format);
}

#[test]
fn acquired_frame_is_one_pass_one_clear_one_triangle() {
    let mut h = fresh_host();
    assert_eq!(h.surface.conf.width, 800);
    assert_eq!(h.surface.conf.height, 600);
    let action = h.render_step(AcquireOutcome::Acquired);
    match action {
        FrameAction::Draw(plan) => {
            assert_eq!(plan.buffers.len(), 1);
            assert_eq!(plan.buffers[0].passes.len(), 1);
            let pass = &plan.buffers[0].passes[0];
            assert_eq!(pass.attachments.len(), 1);
            match pass.attachments[0].load {
                LoadOp::Clear(c) => {
                    assert_eq!(c.r_tenths, 1);
                    assert_eq!(c.g_tenths, 2);
                    assert_eq!(c.b_tenths, 3);
                    assert_eq!(c.a_tenths, 10);
                }
                LoadOp::Load => panic!("frame must clear its attachment"),
            }
            assert!(pass.attachments[0].store_results);
            assert!(!pass.has_depth_stencil);
            assert_eq!(pass.draws.len(), 1);
            assert_eq!(pass.draws[0].vertex_start, 0);
            assert_eq!(pass.draws[0].vertex_end, 3);
            assert_eq!(pass.draws[0].instance_start, 0);
            assert_eq!(pass.draws[0].instance_end, 1);
        }
        _ => panic!("a successful acquire must draw the frame"),
    }
}

#[test]
fn lost_surface_reconfigures_with_recorded_size() {
    let mut h = fresh_host();
    assert_eq!(
        h.handle_event(HostEvent::Resized(Extent { width: 640, height: 480 })),
        LoopAction::Reconfigure(h.surface.conf)
    );
    let action = h.render_step(AcquireOutcome::Lost);
    match action {
        FrameAction::Reconfigure(size) => {
            assert_eq!(size, Extent { width: 640, height: 480 });
        }
        _ => panic!("a lost surface must be reconfigured, and nothing drawn"),
    }
    assert_eq!(h.surface.size, Extent { width: 640, height: 480 });
    assert!(!h.should_exit());
}

#[test]
fn out_of_memory_sets_the_termination_signal() {
    let mut h = fresh_host();
    let action = h.render_step(AcquireOutcome::OutOfMemory);
    assert!(matches!(action, FrameAction::Terminate));
    assert!(h.should_exit());
    assert_eq!(h.handle_event(HostEvent::RedrawRequested), LoopAction::Idle);
}

#[test]
fn transient_failures_skip_the_frame() {
    let mut h = fresh_host();
    assert!(matches!(h.render_step(AcquireOutcome::Outdated), FrameAction::SkipFrame));
    assert!(matches!(h.render_step(AcquireOutcome::Timeout), FrameAction::SkipFrame));
    assert!(!h.should_exit());
}

#[test]
fn zero_then_positive_resize_then_render() {
    let mut h = fresh_host();
    assert_eq!(
        h.handle_event(HostEvent::Resized(Extent { width: 0, height: 0 })),
        LoopAction::Idle
    );
    assert_eq!(
        h.handle_event(HostEvent::Resized(Extent { width: 1024, height: 768 })),
        LoopAction::Reconfigure(h.surface.conf)
    );
    assert_eq!(h.handle_event(HostEvent::RedrawRequested), LoopAction::BeginFrame);
    let action = h.render_step(AcquireOutcome::Acquired);
    assert!(matches!(action, FrameAction::Draw(_)));
    assert_eq!(h.surface.conf.width, 1024);
    assert_eq!(h.surface.conf.height, 768);
    assert_eq!(h.surface.size, Extent { width: 1024, height: 768 });
}

#[test]
fn close_request_signals_exit() {
    let mut h = fresh_host();
    assert_eq!(h.handle_event(HostEvent::CloseRequested), LoopAction::SignalExit);
    assert!(h.should_exit());
}

#[test]
fn escape_press_signals_exit() {
    let mut h = fresh_host();
    let press = KeyInput { is_escape: true, pressed: true };
    assert_eq!(h.handle_event(HostEvent::KeyboardInput(press)), LoopAction::SignalExit);
    assert!(h.should_exit());
}

#[test]
fn other_keys_and_releases_are_ignored() {
    let mut h = fresh_host();
    let release = KeyInput { is_escape: true, pressed: false };
    assert_eq!(h.handle_event(HostEvent::KeyboardInput(release)), LoopAction::Idle);
    let other = KeyInput { is_escape: false, pressed: true };
    assert_eq!(h.handle_event(HostEvent::KeyboardInput(other)), LoopAction::Idle);
    assert!(!h.should_exit());
}

#[test]
fn cleared_events_request_the_next_redraw() {
    let mut h = fresh_host();
    assert_eq!(h.handle_event(HostEvent::EventsCleared), LoopAction::RequestRedraw);
}

#[test]
fn scale_factor_change_resizes_like_a_resize() {
    let mut h = fresh_host();
    assert_eq!(
        h.handle_event(HostEvent::ScaleFactorChanged(Extent { width: 1600, height: 1200 })),
        LoopAction::Reconfigure(h.surface.conf)
    );
    assert_eq!(h.surface.size, Extent { width: 1600, height: 1200 });
}

#[test]
fn input_hook_consumes_nothing() {
    let mut h = fresh_host();
    assert!(!h.input(&HostEvent::CloseRequested));
    assert!(!h.should_exit());
    h.update();
    assert_eq!(h.surface.size, Extent { width: 800, height: 600 });
}

#[test]
fn pipeline_format_is_pinned_to_the_surface_format() {
    let h = fresh_host();
    assert_eq!(h.pipeline.desc.color_format, h.surface.conf.format);
    assert_eq!(h.pipeline.desc.shader, ShaderAsset { id: 1 });
}
