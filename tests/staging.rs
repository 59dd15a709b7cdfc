use gear::AcquireEvent;
use gear::DrawCall;
use gear::FramePlan;
use gear::FrameStaging;
use gear::GearError;
use gear::Locals;
use gear::Mesh;
use gear::Model;
use gear::RenderCommand;
use gear::StagingKind;
use gear::SubmitPhase;
use gear::staging::INDEX_BUFFER_SIZE;
use gear::uniform::MAX_UNIFORM_COUNT;
use gear::uniform::UNIFORM_ALIGNMENT;
use gear::staging::VERTEX_BUFFER_SIZE;
use gear::Vertex;

fn vertex(k: u32) -> Vertex {
    Vertex {
        position: [k, k + 1, k + 2],
        tex_coords: [k + 3, k + 4],
        normal: [k + 5, k + 6, k + 7],
    }
}

fn mesh(vertex_count: u32, indices: Vec<u32>) -> Mesh {
    Mesh { vertices: (0..vertex_count).map(|k| vertex(k * 8)).collect(), indices }
}

fn model(meshes: Vec<Mesh>) -> Model {
    Model { meshes }
}

fn locals(k: u32) -> Locals {
    Locals { mvp: [k; 16] }
}

fn render(frame: &mut FrameStaging) -> FramePlan {
    match frame.end_frame(SubmitPhase::Render) {
        Ok(plan) => plan,
        Err(e) => panic!("frame not rendered: {:?}", e),
    }
}

fn limits(vertex_bytes: u64, index_bytes: u64, records: u64) -> FrameStaging {
    FrameStaging::with_limits(vertex_bytes, index_bytes, records, 256).unwrap()
}

#[test]
fn draw_exactly_at_vertex_capacity_succeeds() {
    let mut frame = limits(96, 1000, 8);
    let r = frame.draw_model(&model(vec![mesh(3, vec![0, 1, 2])]), locals(0));
    assert!(matches!(r, Ok(0)));
    assert_eq!(frame.vertex_count(), 3);
}

#[test]
fn draw_one_byte_over_vertex_capacity_fails() {
    let mut frame = limits(95, 1000, 8);
    let r = frame.draw_model(&model(vec![mesh(3, vec![0, 1, 2])]), locals(0));
    assert!(matches!(r, Err(GearError::StagingCapacityExceeded(StagingKind::Vertex))));
    assert_eq!(frame.vertex_count(), 0);
    assert_eq!(frame.index_count(), 0);
    assert_eq!(frame.uniform_count(), 0);
    assert_eq!(frame.batch_count(), 0);
}

#[test]
fn draw_exactly_at_index_capacity_succeeds() {
    let mut frame = limits(1000, 16, 8);
    let r = frame.draw_model(&model(vec![mesh(3, vec![0, 1, 2, 0])]), locals(0));
    assert!(matches!(r, Ok(0)));
    assert_eq!(frame.index_count(), 4);
}

#[test]
fn draw_one_byte_over_index_capacity_fails() {
    let mut frame = limits(1000, 15, 8);
    let r = frame.draw_model(&model(vec![mesh(3, vec![0, 1, 2, 0])]), locals(0));
    assert!(matches!(r, Err(GearError::StagingCapacityExceeded(StagingKind::Index))));
    assert_eq!(frame.index_count(), 0);
}

#[test]
fn capacity_counts_every_draw_of_the_frame() {
    let mut frame = limits(5 * 32, 1000, 8);
    assert!(frame.draw_model(&model(vec![mesh(2, vec![0, 1]), mesh(1, vec![0])]), locals(0)).is_ok());
    let r = frame.draw_model(&model(vec![mesh(3, vec![0, 1, 2])]), locals(1));
    assert!(matches!(r, Err(GearError::StagingCapacityExceeded(StagingKind::Vertex))));
    assert_eq!(frame.vertex_count(), 3);
    assert_eq!(frame.index_count(), 3);
    assert_eq!(frame.uniform_count(), 1);
    let r = frame.draw_model(&model(vec![mesh(2, vec![0, 1])]), locals(2));
    assert!(matches!(r, Ok(256)));
    assert_eq!(frame.vertex_count(), 5);
}

#[test]
fn uniform_capacity_limits_draws_per_frame() {
    let mut frame = limits(1000, 1000, 2);
    assert!(frame.draw_model(&model(vec![]), locals(0)).is_ok());
    assert!(frame.draw_model(&model(vec![]), locals(1)).is_ok());
    let r = frame.draw_model(&model(vec![]), locals(2));
    assert!(matches!(r, Err(GearError::StagingCapacityExceeded(StagingKind::Uniform))));
    assert_eq!(frame.uniform_count(), 2);
}

#[test]
fn vertex_overflow_is_reported_before_index_overflow() {
    let mut frame = limits(32, 4, 8);
    let r = frame.draw_model(&model(vec![mesh(2, vec![0, 1])]), locals(0));
    assert!(matches!(r, Err(GearError::StagingCapacityExceeded(StagingKind::Vertex))));
}

#[test]
fn uniform_offset_follows_draw_order_not_mesh_count() {
    let mut frame = FrameStaging::new();
    let a = frame.draw_model(&model(vec![mesh(3, vec![0, 1, 2]), mesh(1, vec![0])]), locals(0));
    let b = frame.draw_model(&model(vec![]), locals(1));
    let c = frame.draw_model(&model(vec![mesh(1, vec![0])]), locals(2));
    assert!(matches!(a, Ok(0)));
    assert!(matches!(b, Ok(256)));
    assert!(matches!(c, Ok(512)));
}

#[test]
fn uniform_offset_uses_the_configured_alignment() {
    let mut frame = FrameStaging::with_limits(1000, 1000, 8, 512).unwrap();
    assert!(matches!(frame.draw_model(&model(vec![]), locals(0)), Ok(0)));
    assert!(matches!(frame.draw_model(&model(vec![mesh(1, vec![0])]), locals(1)), Ok(512)));
    let plan = render(&mut frame);
    assert_eq!(plan.uniform_bytes.len(), 1024);
}

#[test]
fn invalid_limits_are_rejected() {
    assert!(FrameStaging::with_limits(1000, 1000, 8, 100).is_none());
    assert!(FrameStaging::with_limits(1000, 1000, 8, 32).is_none());
    assert!(FrameStaging::with_limits(1000, 1000, 8, 0).is_none());
    assert!(FrameStaging::with_limits(0x1_0000_0000, 1000, 8, 256).is_none());
    assert!(FrameStaging::with_limits(1000, 0x1_0000_0000, 8, 256).is_none());
    assert!(FrameStaging::with_limits(1000, 1000, (1 << 24) + 1, 256).is_none());
    assert!(FrameStaging::with_limits(1000, 1000, 1 << 24, 256).is_some());
    assert!(FrameStaging::with_limits(0, 0, 0, 64).is_some());
}

#[test]
fn staging_is_empty_after_rendered_frame() {
    let mut frame = FrameStaging::new();
    frame.draw_model(&model(vec![mesh(3, vec![0, 1, 2])]), locals(0)).unwrap();
    let _plan = render(&mut frame);
    assert_eq!(frame.vertex_count(), 0);
    assert_eq!(frame.index_count(), 0);
    assert_eq!(frame.uniform_count(), 0);
    assert_eq!(frame.batch_count(), 0);
    let r = frame.draw_model(&model(vec![mesh(1, vec![0])]), locals(1));
    assert!(matches!(r, Ok(0)));
}

#[test]
fn staging_is_empty_after_skipped_frame() {
    let mut frame = FrameStaging::new();
    frame.draw_model(&model(vec![mesh(3, vec![0, 1, 2])]), locals(0)).unwrap();
    frame.draw_model(&model(vec![mesh(2, vec![0, 1])]), locals(1)).unwrap();
    let r = frame.end_frame(SubmitPhase::Unavailable);
    assert!(matches!(r, Err(GearError::SwapchainUnavailable)));
    assert_eq!(frame.vertex_count(), 0);
    assert_eq!(frame.index_count(), 0);
    assert_eq!(frame.uniform_count(), 0);
    assert_eq!(frame.batch_count(), 0);
}

#[test]
fn empty_frame_uploads_nothing() {
    let mut frame = FrameStaging::new();
    let plan = render(&mut frame);
    assert!(plan.vertex_bytes.is_empty());
    assert!(plan.index_bytes.is_empty());
    assert!(plan.uniform_bytes.is_empty());
    assert!(plan.commands.is_empty());
}

#[test]
fn uploads_are_exactly_the_staged_bytes() {
    let mut frame = FrameStaging::new();
    let v = Vertex {
        position: [0x04030201, 0, 0],
        tex_coords: [0, 0],
        normal: [0, 0, 0xa0b0c0d0],
    };
    let m = model(vec![Mesh { vertices: vec![v, vertex(1)], indices: vec![1, 0x01020304] }]);
    frame.draw_model(&m, Locals { mvp: [0x11223344; 16] }).unwrap();
    frame.draw_model(&model(vec![]), Locals { mvp: [7; 16] }).unwrap();
    let plan = render(&mut frame);

    assert_eq!(plan.vertex_bytes.len(), 64);
    assert_eq!(&plan.vertex_bytes[0..4], &[1, 2, 3, 4]);
    assert_eq!(&plan.vertex_bytes[28..32], &[0xd0, 0xc0, 0xb0, 0xa0]);
    assert_eq!(&plan.vertex_bytes[32..36], &[1, 0, 0, 0]);
    assert_eq!(&plan.vertex_bytes[60..64], &[8, 0, 0, 0]);

    assert_eq!(plan.index_bytes, vec![1, 0, 0, 0, 4, 3, 2, 1]);

    assert_eq!(plan.uniform_bytes.len(), 512);
    assert_eq!(&plan.uniform_bytes[0..4], &[0x44, 0x33, 0x22, 0x11]);
    assert_eq!(&plan.uniform_bytes[60..64], &[0x44, 0x33, 0x22, 0x11]);
    assert!(plan.uniform_bytes[64..256].iter().all(|b| *b == 0));
    assert_eq!(&plan.uniform_bytes[256..260], &[7, 0, 0, 0]);
    assert!(plan.uniform_bytes[320..512].iter().all(|b| *b == 0));
}

#[test]
fn meshes_of_one_model_share_a_batch_with_local_indices() {
    let mut frame = FrameStaging::new();
    frame.draw_model(&model(vec![mesh(2, vec![0, 1])]), locals(0)).unwrap();
    let m = model(vec![mesh(3, vec![0, 1, 2]), mesh(2, vec![1, 0, 1])]);
    frame.draw_model(&m, locals(1)).unwrap();
    let plan = render(&mut frame);
    assert_eq!(
        plan.commands,
        vec![
            RenderCommand::BindUniforms { offset: 0 },
            RenderCommand::DrawIndexed(DrawCall { base_vertex: 0, index_start: 0, index_end: 2 }),
            RenderCommand::BindUniforms { offset: 256 },
            RenderCommand::DrawIndexed(DrawCall { base_vertex: 2, index_start: 2, index_end: 5 }),
            RenderCommand::DrawIndexed(DrawCall { base_vertex: 5, index_start: 5, index_end: 8 }),
        ]
    );
    let indices: Vec<u8> = [0u32, 1, 0, 1, 2, 1, 0, 1].iter().flat_map(|i| i.to_le_bytes()).collect();
    assert_eq!(plan.index_bytes, indices);
}

#[test]
fn three_draws_make_three_ordered_batches() {
    let mut frame = FrameStaging::new();
    frame.draw_model(&model(vec![mesh(4, vec![0, 1, 2, 3])]), locals(0)).unwrap();
    frame.draw_model(&model(vec![mesh(4, vec![0, 1, 2, 2, 3, 0])]), locals(1)).unwrap();
    frame.draw_model(&model(vec![mesh(2, vec![0, 1])]), locals(2)).unwrap();
    assert_eq!(frame.batch_count(), 3);
    let plan = render(&mut frame);

    let binds: Vec<u32> = plan
        .commands
        .iter()
        .filter_map(|c| match c {
            RenderCommand::BindUniforms { offset } => Some(*offset),
            _ => None,
        })
        .collect();
    assert_eq!(binds, vec![0, 256, 512]);

    let draws: Vec<DrawCall> = plan
        .commands
        .iter()
        .filter_map(|c| match c {
            RenderCommand::DrawIndexed(d) => Some(*d),
            _ => None,
        })
        .collect();
    assert_eq!(draws.len(), 3);
    assert_eq!((draws[0].index_start, draws[0].index_end), (0, 4));
    assert_eq!((draws[1].index_start, draws[1].index_end), (4, 10));
    assert_eq!((draws[2].index_start, draws[2].index_end), (10, 12));
    for w in draws.windows(2) {
        assert!(w[0].index_start < w[0].index_end);
        assert!(w[0].index_end <= w[1].index_start);
        assert!(w[0].index_start < w[1].index_start);
        assert!(w[0].base_vertex <= w[1].base_vertex);
    }
    assert_eq!(
        draws.iter().map(|d| d.base_vertex).collect::<Vec<i32>>(),
        vec![0, 4, 8]
    );
    assert_eq!(frame.batch_count(), 0);
}

/// Runs one submission against a swapchain whose acquisitions answer in
/// turn from `answers`; returns the final phase, how many times the
/// swapchain was recreated and how many acquisitions were attempted.
fn drive(answers: &[bool]) -> (SubmitPhase, usize, usize) {
    let mut phase = SubmitPhase::start();
    let mut recreated = 0;
    let mut attempts = 0;
    while !phase.is_settled() {
        let event = match phase {
            SubmitPhase::Acquire | SubmitPhase::Reacquire => {
                let ok = answers[attempts];
                attempts += 1;
                if ok {
                    AcquireEvent::FrameAcquired
                } else {
                    AcquireEvent::AcquireFailed
                }
            },
            SubmitPhase::Recreate => {
                recreated += 1;
                AcquireEvent::SwapchainRecreated
            },
            _ => unreachable!(),
        };
        phase = phase.next(event);
    }
    (phase, recreated, attempts)
}

#[test]
fn double_acquire_failure_recreates_once_then_reports() {
    assert_eq!(drive(&[false, false, true]), (SubmitPhase::Unavailable, 1, 2));
    let mut frame = FrameStaging::new();
    frame.draw_model(&model(vec![mesh(1, vec![0])]), locals(0)).unwrap();
    assert!(matches!(frame.end_frame(SubmitPhase::Unavailable), Err(GearError::SwapchainUnavailable)));
}

#[test]
fn transient_acquire_failure_still_renders() {
    assert_eq!(drive(&[false, true]), (SubmitPhase::Render, 1, 2));
    assert_eq!(drive(&[true]), (SubmitPhase::Render, 0, 1));
}

#[test]
fn acquire_phases_follow_the_protocol() {
    let p = SubmitPhase::start();
    assert_eq!(p, SubmitPhase::Acquire);
    assert_eq!(p.next(AcquireEvent::AcquireFailed), SubmitPhase::Recreate);
    assert_eq!(SubmitPhase::Recreate.next(AcquireEvent::SwapchainRecreated), SubmitPhase::Reacquire);
    assert_eq!(SubmitPhase::Reacquire.next(AcquireEvent::AcquireFailed), SubmitPhase::Unavailable);
    assert_eq!(SubmitPhase::Reacquire.next(AcquireEvent::FrameAcquired), SubmitPhase::Render);
    assert_eq!(SubmitPhase::Recreate.next(AcquireEvent::FrameAcquired), SubmitPhase::Recreate);
    assert_eq!(SubmitPhase::Render.next(AcquireEvent::AcquireFailed), SubmitPhase::Render);
    assert_eq!(SubmitPhase::Unavailable.next(AcquireEvent::FrameAcquired), SubmitPhase::Unavailable);
    assert!(!SubmitPhase::Acquire.is_settled());
    assert!(!SubmitPhase::Recreate.is_settled());
    assert!(!SubmitPhase::Reacquire.is_settled());
    assert!(SubmitPhase::Render.is_settled());
    assert!(SubmitPhase::Unavailable.is_settled());
}

#[test]
fn frame_filled_to_capacity_uploads_whole_buffers() {
    let mut frame = FrameStaging::with_limits(4 * 32, 6 * 4, 2, 64).unwrap();
    frame.draw_model(&model(vec![mesh(3, vec![0, 1, 2])]), locals(0)).unwrap();
    frame.draw_model(&model(vec![mesh(1, vec![0, 0, 0])]), locals(1)).unwrap();
    let r = frame.draw_model(&model(vec![]), locals(2));
    assert!(matches!(r, Err(GearError::StagingCapacityExceeded(StagingKind::Uniform))));
    let plan = render(&mut frame);
    assert_eq!(plan.vertex_bytes.len(), 128);
    assert_eq!(plan.index_bytes.len(), 24);
    assert_eq!(plan.uniform_bytes.len(), 128);
}

#[test]
fn renderer_defaults_match_buffer_sizes() {
    assert_eq!(VERTEX_BUFFER_SIZE, 32_000_000);
    assert_eq!(INDEX_BUFFER_SIZE, 32_000_000);
    assert_eq!(MAX_UNIFORM_COUNT, 1 << 20);
    assert_eq!(UNIFORM_ALIGNMENT, 256);
    let mut frame = FrameStaging::new();
    let big = Mesh { vertices: vec![vertex(0); 1_000_000], indices: vec![] };
    assert!(matches!(frame.draw_model(&model(vec![big]), locals(0)), Ok(0)));
    let one_more = Mesh { vertices: vec![vertex(0)], indices: vec![] };
    let r = frame.draw_model(&model(vec![one_more]), locals(1));
    assert!(matches!(r, Err(GearError::StagingCapacityExceeded(StagingKind::Vertex))));
}
