use engine::drawer::{Drawer, TriangleDrawer};
use engine::lifecycle::{
    AcquireOutcome, BeginAction, FrameLifecycle, Phase, RebuildOutcome, RenderError, Submission,
};
use engine::recorder::{DrawRecorder, Extent, Framebuffer, Rgba};
use engine::sync::{PresentOutcome, Signal};

type Triangle = [[f32; 2]; 3];

const CORNFLOWER: Rgba = Rgba { r: 100, g: 149, b: 237, a: 255 };

fn extent(width: u32, height: u32) -> Extent {
    Extent { width, height }
}

fn triangle(k: f32) -> Triangle {
    [[k, 0.0], [k + 1.0, 0.0], [k, 1.0]]
}

fn manager() -> FrameLifecycle<Triangle> {
    FrameLifecycle::new(3, extent(800, 600), 44, CORNFLOWER)
}

/// Runs begin, acquire and end; panics if the frame does not open.
fn open_and_end(m: &mut FrameLifecycle<Triangle>, surface: Extent, image: usize) -> Submission<Triangle> {
    assert_eq!(m.begin_frame(surface, false), Ok(BeginAction::Acquire));
    assert_eq!(m.image_acquired(AcquireOutcome::Acquired { image, suboptimal: false }), Ok(image));
    m.end_frame().expect("the frame is open")
}

#[test]
fn three_triangles_make_one_sequence_of_three_draws() {
    let mut m = manager();
    let d = m.register_drawer(TriangleDrawer::new());
    for k in 0..3 {
        m.draw_triangle(d, triangle(k as f32));
    }
    let sub = open_and_end(&mut m, extent(800, 600), 0);
    assert_eq!(sub.commands.draws.len(), 3);
    for (k, draw) in sub.commands.draws.iter().enumerate() {
        assert_eq!(draw.viewport, extent(800, 600));
        assert_eq!(draw.primitive, triangle(k as f32));
    }
    assert_eq!(sub.commands.framebuffer, Framebuffer { image: 0, extent: extent(800, 600) });
    assert_eq!(sub.commands.clear, CORNFLOWER);
    assert_eq!(m.pending_len(d), 0);
    assert_eq!(m.frame_presented(PresentOutcome::Presented), Ok(()));
    assert_eq!(m.phase(), Phase::Idle);
}

#[test]
fn stale_acquisition_skips_the_frame_and_keeps_the_queue() {
    let mut m = manager();
    let d = m.register_drawer(TriangleDrawer::new());
    m.draw_triangle(d, triangle(0.0));
    m.draw_triangle(d, triangle(1.0));
    assert_eq!(m.begin_frame(extent(800, 600), false), Ok(BeginAction::Acquire));
    assert_eq!(m.image_acquired(AcquireOutcome::OutOfDate), Err(RenderError::SwapchainOutOfDate));
    assert!(m.is_invalidated());
    assert!(!m.is_recording());
    assert_eq!(m.phase(), Phase::Idle);
    assert_eq!(m.pending_len(d), 2);
    assert!(matches!(m.end_frame(), Err(RenderError::ProgrammingMisuse)));
}

#[test]
fn next_frame_after_staleness_rebuilds_first() {
    let mut m = manager();
    assert_eq!(m.begin_frame(extent(800, 600), false), Ok(BeginAction::Acquire));
    assert_eq!(m.image_acquired(AcquireOutcome::OutOfDate), Err(RenderError::SwapchainOutOfDate));
    let surface = extent(1024, 768);
    assert_eq!(m.begin_frame(surface, false), Ok(BeginAction::Rebuild { surface }));
    assert_eq!(m.phase(), Phase::Rebuilding { surface });
    assert_eq!(m.image_acquired(AcquireOutcome::Acquired { image: 0, suboptimal: false }), Err(RenderError::ProgrammingMisuse));
    assert_eq!(m.rebuild_done(RebuildOutcome::Rebuilt { image_count: 2 }), Ok(()));
    assert!(!m.is_invalidated());
    assert_eq!(m.dimensions(), surface);
    assert_eq!(m.image_count(), 2);
    assert_eq!(m.current_format(), 44);
    assert_eq!(m.image_acquired(AcquireOutcome::Acquired { image: 1, suboptimal: false }), Ok(1));
    let sub = m.end_frame().expect("the frame is open");
    assert_eq!(sub.commands.framebuffer, Framebuffer { image: 1, extent: surface });
    assert_eq!(sub.wait.image, 1);
}

#[test]
fn recorder_is_open_only_while_the_frame_is() {
    let mut m = manager();
    assert!(!m.is_recording());
    m.begin_frame(extent(800, 600), false).unwrap();
    assert!(!m.is_recording());
    m.image_acquired(AcquireOutcome::Acquired { image: 2, suboptimal: false }).unwrap();
    assert!(m.is_recording());
    assert_eq!(m.phase(), Phase::FrameOpen { image: 2 });
    m.end_frame().unwrap();
    assert!(!m.is_recording());
    m.frame_presented(PresentOutcome::Presented).unwrap();
    assert!(!m.is_recording());
}

#[test]
fn draw_count_is_the_sum_of_the_queues() {
    let mut m = manager();
    let a = m.register_drawer(TriangleDrawer::new());
    let b = m.register_drawer(TriangleDrawer::new());
    let c = m.register_drawer(TriangleDrawer::new());
    for k in 0..4 {
        m.draw_triangle(a, triangle(k as f32));
    }
    m.draw_triangle(c, triangle(9.0));
    assert_eq!(m.pending_len(b), 0);
    let sub = open_and_end(&mut m, extent(640, 480), 1);
    assert_eq!(sub.commands.draws.len(), 5);
    assert_eq!(m.pending_len(a), 0);
    assert_eq!(m.pending_len(b), 0);
    assert_eq!(m.pending_len(c), 0);
    assert_eq!(m.drawer_count(), 3);
}

#[test]
fn draws_follow_registration_then_queue_order() {
    let mut m = manager();
    let a = m.register_drawer(TriangleDrawer::new());
    let b = m.register_drawer(TriangleDrawer::new());
    m.draw_triangle(b, triangle(10.0));
    m.draw_triangle(a, triangle(0.0));
    m.draw_triangle(b, triangle(11.0));
    m.draw_triangle(a, triangle(1.0));
    let sub = open_and_end(&mut m, extent(800, 600), 0);
    let got: Vec<Triangle> = sub.commands.draws.iter().map(|d| d.primitive).collect();
    assert_eq!(got, vec![triangle(0.0), triangle(1.0), triangle(10.0), triangle(11.0)]);
}

#[test]
fn draws_queued_while_open_go_into_the_frame() {
    let mut m = manager();
    let d = m.register_drawer(TriangleDrawer::new());
    m.begin_frame(extent(800, 600), false).unwrap();
    m.image_acquired(AcquireOutcome::Acquired { image: 0, suboptimal: false }).unwrap();
    m.draw_triangle(d, triangle(5.0));
    let sub = m.end_frame().unwrap();
    assert_eq!(sub.commands.draws.len(), 1);
    assert_eq!(sub.commands.draws[0].primitive, triangle(5.0));
}

#[test]
fn retiring_twice_is_retiring_once() {
    let mut m = manager();
    open_and_end(&mut m, extent(800, 600), 0);
    m.frame_presented(PresentOutcome::Presented).unwrap();
    assert_eq!(m.previous_signal(), Signal::Pending);
    m.retire_completed(false);
    assert_eq!(m.previous_signal(), Signal::Pending);
    m.retire_completed(true);
    assert_eq!(m.previous_signal(), Signal::Ready);
    m.retire_completed(true);
    assert_eq!(m.previous_signal(), Signal::Ready);
    assert_eq!(m.phase(), Phase::Idle);
    assert!(!m.is_invalidated());
}

#[test]
fn begin_frame_retires_finished_work() {
    let mut m = manager();
    open_and_end(&mut m, extent(800, 600), 0);
    m.frame_presented(PresentOutcome::Presented).unwrap();
    m.begin_frame(extent(800, 600), true).unwrap();
    assert_eq!(m.previous_signal(), Signal::Ready);
}

#[test]
fn frame_waits_on_previous_work_and_image() {
    let mut m = manager();
    let first = open_and_end(&mut m, extent(800, 600), 0);
    assert_eq!(first.wait.after, Signal::Ready);
    m.frame_presented(PresentOutcome::Presented).unwrap();
    let second = open_and_end(&mut m, extent(800, 600), 2);
    assert_eq!(second.wait.after, Signal::Pending);
    assert_eq!(second.wait.image, 2);
}

#[test]
fn no_rebuild_without_area_and_one_after() {
    let mut m = manager();
    m.invalidate();
    for surface in [extent(0, 0), extent(0, 600), extent(800, 0)] {
        assert_eq!(m.begin_frame(surface, false), Ok(BeginAction::Acquire));
        assert_eq!(m.image_acquired(AcquireOutcome::OutOfDate), Err(RenderError::SwapchainOutOfDate));
        assert!(m.is_invalidated());
    }
    let surface = extent(1280, 720);
    let mut rebuilds = 0;
    for _ in 0..4 {
        match m.begin_frame(surface, false).unwrap() {
            BeginAction::Rebuild { surface: s } => {
                assert_eq!(s, surface);
                rebuilds += 1;
                m.rebuild_done(RebuildOutcome::Rebuilt { image_count: 3 }).unwrap();
            }
            BeginAction::Acquire => {}
        }
        m.image_acquired(AcquireOutcome::Acquired { image: 0, suboptimal: false }).unwrap();
        let sub = m.end_frame().unwrap();
        assert_eq!(sub.commands.framebuffer.extent, surface);
        m.frame_presented(PresentOutcome::Presented).unwrap();
    }
    assert_eq!(rebuilds, 1);
}

#[test]
fn unsupported_dimensions_leave_the_targets_invalid() {
    let mut m = manager();
    m.invalidate();
    let surface = extent(100_000, 100_000);
    assert_eq!(m.begin_frame(surface, false), Ok(BeginAction::Rebuild { surface }));
    assert_eq!(m.rebuild_done(RebuildOutcome::UnsupportedDimensions), Ok(()));
    assert!(m.is_invalidated());
    assert_eq!(m.dimensions(), extent(800, 600));
    assert_eq!(m.phase(), Phase::Acquiring);
    assert_eq!(m.image_count(), 3);
}

#[test]
fn suboptimal_image_still_draws_and_invalidates() {
    let mut m = manager();
    m.begin_frame(extent(800, 600), false).unwrap();
    assert_eq!(m.image_acquired(AcquireOutcome::Acquired { image: 1, suboptimal: true }), Ok(1));
    assert!(m.is_recording());
    assert!(m.is_invalidated());
}

#[test]
fn acquisition_failure_is_fatal() {
    let mut m = manager();
    m.begin_frame(extent(800, 600), false).unwrap();
    assert_eq!(m.image_acquired(AcquireOutcome::Failed), Err(RenderError::AcquisitionFailed));
    assert_eq!(m.phase(), Phase::Idle);
    assert!(!m.is_invalidated());
}

#[test]
fn image_outside_the_set_is_an_acquisition_failure() {
    let mut m = manager();
    m.begin_frame(extent(800, 600), false).unwrap();
    assert_eq!(
        m.image_acquired(AcquireOutcome::Acquired { image: 3, suboptimal: false }),
        Err(RenderError::AcquisitionFailed)
    );
    assert!(!m.is_recording());
}

#[test]
fn stale_present_is_swallowed_and_invalidates() {
    let mut m = manager();
    open_and_end(&mut m, extent(800, 600), 0);
    assert_eq!(m.frame_presented(PresentOutcome::OutOfDate), Ok(()));
    assert!(m.is_invalidated());
    assert_eq!(m.previous_signal(), Signal::Ready);
    assert_eq!(m.phase(), Phase::Idle);
}

#[test]
fn failed_present_is_reported_and_recovers() {
    let mut m = manager();
    open_and_end(&mut m, extent(800, 600), 0);
    assert_eq!(m.frame_presented(PresentOutcome::Failed), Err(RenderError::PresentationLost));
    assert_eq!(m.previous_signal(), Signal::Ready);
    assert_eq!(m.phase(), Phase::Idle);
    assert!(!m.is_invalidated());
    assert_eq!(m.begin_frame(extent(800, 600), false), Ok(BeginAction::Acquire));
}

#[test]
fn steps_out_of_order_are_misuse() {
    let mut m = manager();
    assert!(matches!(m.end_frame(), Err(RenderError::ProgrammingMisuse)));
    assert_eq!(m.frame_presented(PresentOutcome::Presented), Err(RenderError::ProgrammingMisuse));
    assert_eq!(m.rebuild_done(RebuildOutcome::Rebuilt { image_count: 2 }), Err(RenderError::ProgrammingMisuse));
    assert_eq!(m.image_acquired(AcquireOutcome::Failed), Err(RenderError::ProgrammingMisuse));
    m.begin_frame(extent(800, 600), false).unwrap();
    assert_eq!(m.begin_frame(extent(800, 600), false), Err(RenderError::ProgrammingMisuse));
    m.image_acquired(AcquireOutcome::Acquired { image: 0, suboptimal: false }).unwrap();
    assert_eq!(m.begin_frame(extent(800, 600), false), Err(RenderError::ProgrammingMisuse));
    assert!(m.is_recording());
    assert_eq!(m.phase(), Phase::FrameOpen { image: 0 });
}

#[test]
fn drawer_on_its_own_renders_and_empties() {
    let mut d: TriangleDrawer<u8> = TriangleDrawer::new();
    d.draw_triangle(7);
    d.draw_triangle(8);
    let fb = Framebuffer { image: 0, extent: extent(2, 3) };
    let mut rec = DrawRecorder::open(fb, CORNFLOWER);
    d.render(extent(2, 3), &mut rec);
    assert_eq!(d.pending_len(), 0);
    let seq = rec.close();
    assert_eq!(seq.draws.iter().map(|c| c.primitive).collect::<Vec<_>>(), vec![7, 8]);
    assert_eq!(seq.framebuffer, fb);
}
