use hephaestus::mesh_data::{check_mesh, MeshError, MAX_VERTICES};
use hephaestus::render::{AcquireOutcome, FrameCommand, FrameSequencer, PresentOutcome, RenderStage};

/// A stand-in for the graphics backend: it counts what it is asked to do.
#[derive(Default)]
struct FakeBackend {
    geometry_draws: usize,
    ambient_draws: usize,
    directional_draws: usize,
    presents: usize,
    rebuilds: usize,
    discards: usize,
    model_slots: Vec<u64>,
    light_slots: Vec<u64>,
}

impl FakeBackend {
    fn run(&mut self, seq: &mut FrameSequencer, cmd: FrameCommand) {
        match cmd {
            FrameCommand::Acquire => {
                let next = seq.acquired(AcquireOutcome::Acquired { image: 0, suboptimal: false });
                self.run(seq, next);
            }
            FrameCommand::DrawGeometry { slot } => {
                self.geometry_draws += 1;
                self.model_slots.push(slot);
            }
            FrameCommand::DrawAmbient => self.ambient_draws += 1,
            FrameCommand::DrawDirectional { slot } => {
                self.directional_draws += 1;
                self.light_slots.push(slot);
            }
            FrameCommand::Submit { .. } => {
                self.presents += 1;
                let next = seq.presented(PresentOutcome::Presented);
                self.run(seq, next);
            }
            FrameCommand::Rebuild => {
                self.rebuilds += 1;
                let next = seq.swapchain_rebuilt(true);
                self.run(seq, next);
            }
            FrameCommand::Discard => self.discards += 1,
            _ => {}
        }
    }
}

fn cube_indices() -> Vec<u16> {
    vec![
        0, 1, 2, 2, 3, 0, 4, 5, 6, 6, 7, 4, 8, 9, 10, 10, 11, 8, 12, 15, 14, 14, 13, 12, 16, 19, 18,
        18, 17, 16, 20, 21, 22, 22, 23, 20,
    ]
}

#[test]
fn full_frame_draws_each_pass_once_and_presents_once() {
    let mut seq = FrameSequencer::new();
    let mut gpu = FakeBackend::default();
    let c = seq.start();
    gpu.run(&mut seq, c);
    let c = seq.geometry(24, &cube_indices());
    gpu.run(&mut seq, c);
    let c = seq.ambient();
    gpu.run(&mut seq, c);
    let c = seq.directional();
    gpu.run(&mut seq, c);
    let c = seq.finish();
    gpu.run(&mut seq, c);
    assert_eq!(seq.stage(), RenderStage::Stopped);
    assert!(!seq.is_recording());
    assert_eq!(gpu.geometry_draws, 1);
    assert_eq!(gpu.ambient_draws, 1);
    assert_eq!(gpu.directional_draws, 1);
    assert_eq!(gpu.presents, 1);
    assert_eq!(gpu.discards, 0);
}

#[test]
fn start_asks_for_an_image_then_opens_the_pass() {
    let mut seq = FrameSequencer::new();
    assert_eq!(seq.start(), FrameCommand::Acquire);
    assert_eq!(seq.stage(), RenderStage::Deferred);
    assert!(!seq.is_recording());
    assert_eq!(
        seq.acquired(AcquireOutcome::Acquired { image: 2, suboptimal: false }),
        FrameCommand::BeginPass { image: 2 }
    );
    assert!(seq.is_recording());
}

#[test]
fn second_ambient_call_draws_nothing() {
    let mut seq = FrameSequencer::new();
    seq.start();
    seq.acquired(AcquireOutcome::Acquired { image: 0, suboptimal: false });
    assert_eq!(seq.ambient(), FrameCommand::DrawAmbient);
    assert_eq!(seq.ambient(), FrameCommand::Idle);
    assert_eq!(seq.stage(), RenderStage::Ambient);
    assert!(seq.is_recording());
}

#[test]
fn consecutive_geometry_calls_get_distinct_slots() {
    let mut seq = FrameSequencer::new();
    let mut gpu = FakeBackend::default();
    let c = seq.start();
    gpu.run(&mut seq, c);
    let idx = cube_indices();
    let a = seq.geometry(24, &idx);
    let b = seq.geometry(24, &idx);
    assert_eq!(a, FrameCommand::DrawGeometry { slot: 0 });
    assert_eq!(b, FrameCommand::DrawGeometry { slot: 1 });
    assert_ne!(a, b);
}

#[test]
fn consecutive_lights_get_distinct_slots() {
    let mut seq = FrameSequencer::new();
    seq.start();
    seq.acquired(AcquireOutcome::Acquired { image: 1, suboptimal: false });
    seq.ambient();
    assert_eq!(seq.directional(), FrameCommand::DrawDirectional { slot: 0 });
    assert_eq!(seq.directional(), FrameCommand::DrawDirectional { slot: 1 });
    assert_eq!(seq.finish(), FrameCommand::Submit { image: 1 });
}

#[test]
fn slots_keep_growing_across_frames() {
    let mut seq = FrameSequencer::new();
    let mut gpu = FakeBackend::default();
    for _ in 0..2 {
        let c = seq.start();
        gpu.run(&mut seq, c);
        let c = seq.geometry(3, &vec![0, 1, 2]);
        gpu.run(&mut seq, c);
        let c = seq.ambient();
        gpu.run(&mut seq, c);
        let c = seq.directional();
        gpu.run(&mut seq, c);
        let c = seq.finish();
        gpu.run(&mut seq, c);
    }
    assert_eq!(gpu.model_slots, vec![0, 1]);
    assert_eq!(gpu.light_slots, vec![0, 1]);
    assert_eq!(gpu.presents, 2);
}

#[test]
fn recreation_mid_frame_discards_and_stops() {
    let mut seq = FrameSequencer::new();
    seq.start();
    seq.acquired(AcquireOutcome::Acquired { image: 0, suboptimal: false });
    seq.geometry(3, &vec![0, 1, 2]);
    assert_eq!(seq.recreate_swapchain(), FrameCommand::Rebuild);
    assert_eq!(seq.stage(), RenderStage::NeedsRedraw);
    assert!(!seq.is_recording());
    assert_eq!(seq.swapchain_rebuilt(true), FrameCommand::Idle);
    assert_eq!(seq.stage(), RenderStage::Stopped);
    assert!(!seq.is_recording());
}

#[test]
fn failed_rebuild_is_asked_for_again() {
    let mut seq = FrameSequencer::new();
    seq.recreate_swapchain();
    seq.swapchain_rebuilt(false);
    assert_eq!(seq.stage(), RenderStage::NeedsRedraw);
    assert_eq!(seq.start(), FrameCommand::Rebuild);
    assert_eq!(seq.geometry(3, &vec![0, 1, 2]), FrameCommand::Rebuild);
    seq.swapchain_rebuilt(true);
    assert_eq!(seq.start(), FrameCommand::Acquire);
}

#[test]
fn out_of_date_acquire_renders_nothing() {
    let mut seq = FrameSequencer::new();
    seq.start();
    assert_eq!(seq.acquired(AcquireOutcome::OutOfDate), FrameCommand::Rebuild);
    assert_eq!(seq.stage(), RenderStage::NeedsRedraw);
    assert_eq!(seq.geometry(3, &vec![0, 1, 2]), FrameCommand::Rebuild);
}

#[test]
fn suboptimal_acquire_renders_then_rebuilds_at_next_start() {
    let mut seq = FrameSequencer::new();
    seq.start();
    assert_eq!(
        seq.acquired(AcquireOutcome::Acquired { image: 0, suboptimal: true }),
        FrameCommand::BeginPass { image: 0 }
    );
    assert_eq!(seq.geometry(3, &vec![0, 1, 2]), FrameCommand::DrawGeometry { slot: 0 });
    seq.ambient();
    seq.directional();
    assert_eq!(seq.finish(), FrameCommand::Submit { image: 0 });
    assert_eq!(seq.start(), FrameCommand::Rebuild);
    seq.swapchain_rebuilt(true);
    assert_eq!(seq.start(), FrameCommand::Acquire);
}

#[test]
fn out_of_date_present_recovers_and_rebuilds() {
    let mut seq = FrameSequencer::new();
    seq.start();
    seq.acquired(AcquireOutcome::Acquired { image: 0, suboptimal: false });
    seq.ambient();
    seq.directional();
    seq.finish();
    assert_eq!(seq.presented(PresentOutcome::OutOfDate), FrameCommand::Recover { rebuild: true });
    assert_eq!(seq.stage(), RenderStage::NeedsRedraw);
    seq.swapchain_rebuilt(true);
    assert_eq!(seq.stage(), RenderStage::Stopped);
}

#[test]
fn failed_present_recovers_without_rebuild() {
    let mut seq = FrameSequencer::new();
    assert_eq!(seq.presented(PresentOutcome::Failed), FrameCommand::Recover { rebuild: false });
    assert_eq!(seq.stage(), RenderStage::Stopped);
    assert_eq!(seq.presented(PresentOutcome::Presented), FrameCommand::Idle);
}

#[test]
fn calls_out_of_order_abort_the_frame() {
    let mut seq = FrameSequencer::new();
    assert_eq!(seq.geometry(3, &vec![0, 1, 2]), FrameCommand::Discard);
    assert_eq!(seq.directional(), FrameCommand::Discard);
    assert_eq!(seq.finish(), FrameCommand::Discard);
    assert_eq!(seq.ambient(), FrameCommand::Discard);
    assert_eq!(seq.stage(), RenderStage::Stopped);

    seq.start();
    seq.acquired(AcquireOutcome::Acquired { image: 0, suboptimal: false });
    assert_eq!(seq.directional(), FrameCommand::Discard);
    assert_eq!(seq.stage(), RenderStage::Stopped);
    assert!(!seq.is_recording());

    seq.start();
    seq.acquired(AcquireOutcome::Acquired { image: 0, suboptimal: false });
    seq.ambient();
    assert_eq!(seq.geometry(3, &vec![0, 1, 2]), FrameCommand::Discard);
    assert_eq!(seq.stage(), RenderStage::Stopped);

    seq.start();
    assert_eq!(seq.start(), FrameCommand::Discard);
    assert_eq!(seq.stage(), RenderStage::Stopped);
}

#[test]
fn geometry_before_the_image_is_acquired_aborts() {
    let mut seq = FrameSequencer::new();
    seq.start();
    assert_eq!(seq.geometry(3, &vec![0, 1, 2]), FrameCommand::Discard);
    assert_eq!(seq.stage(), RenderStage::Stopped);
}

#[test]
fn finish_without_lights_aborts() {
    let mut seq = FrameSequencer::new();
    seq.start();
    seq.acquired(AcquireOutcome::Acquired { image: 0, suboptimal: false });
    seq.ambient();
    assert_eq!(seq.finish(), FrameCommand::Discard);
    assert_eq!(seq.stage(), RenderStage::Stopped);
}

#[test]
fn light_order_does_not_change_the_frame() {
    let mut a = FrameSequencer::new();
    let mut b = FrameSequencer::new();
    let mut ga = FakeBackend::default();
    let mut gb = FakeBackend::default();
    for (seq, gpu) in [(&mut a, &mut ga), (&mut b, &mut gb)] {
        let c = seq.start();
        gpu.run(seq, c);
        let c = seq.ambient();
        gpu.run(seq, c);
        let c = seq.directional();
        gpu.run(seq, c);
        let c = seq.directional();
        gpu.run(seq, c);
        let c = seq.finish();
        gpu.run(seq, c);
    }
    assert_eq!(ga.directional_draws, 2);
    assert_eq!(gb.directional_draws, 2);
    assert_eq!(a.stage(), b.stage());
}

#[test]
fn mesh_of_65536_vertices_is_rejected() {
    let idx = vec![0u16, 1, 2];
    assert_eq!(check_mesh(65536, &idx), Err(MeshError::TooManyVertices));
    assert_eq!(check_mesh(MAX_VERTICES, &idx), Ok(()));
    assert_eq!(MAX_VERTICES, 65535);
    let mut seq = FrameSequencer::new();
    seq.start();
    seq.acquired(AcquireOutcome::Acquired { image: 0, suboptimal: false });
    assert_eq!(
        seq.geometry(65536, &idx),
        FrameCommand::Rejected { error: MeshError::TooManyVertices }
    );
    assert_eq!(seq.stage(), RenderStage::Deferred);
    assert_eq!(seq.geometry(65535, &idx), FrameCommand::DrawGeometry { slot: 0 });
}

#[test]
fn index_past_the_last_vertex_is_rejected() {
    assert_eq!(check_mesh(3, &vec![0, 1, 3]), Err(MeshError::IndexOutOfRange));
    assert_eq!(check_mesh(4, &vec![0, 1, 3]), Ok(()));
    assert_eq!(check_mesh(0, &vec![]), Ok(()));
    assert_eq!(check_mesh(0, &vec![0]), Err(MeshError::IndexOutOfRange));
    assert_eq!(check_mesh(65535, &vec![65534, 65535]), Err(MeshError::IndexOutOfRange));
}
