use compute_shader_toy::bindings::BindingSets;
use compute_shader_toy::driver::{ActionKind, DriverAction, DriverEvent, FrameDriver};
use compute_shader_toy::error::SetupError;
use compute_shader_toy::geometry::{Grid, Resolution};
use compute_shader_toy::present::{FragmentVariant, SurfaceFormat};
use compute_shader_toy::registry::{Pass, PipelineRegistry, ShaderArtifact};
use compute_shader_toy::resources::{ResourceSet, UNIFORM};
use compute_shader_toy::sequencer::{Command, PassSequencer};
use compute_shader_toy::stager::{frame_params, stage, ScheduledUpload, UniformParams, BELT_CHUNK_BYTES};

fn driving_names(names: &[&str]) -> Vec<String> {
    names.iter().map(|name| name.to_string()).collect()
}

fn driving_block(width: u32, height: u32, frame_index: u32) -> Vec<u8> {
    let mut bytes = Vec::new();
    bytes.extend_from_slice(&width.to_ne_bytes());
    bytes.extend_from_slice(&height.to_ne_bytes());
    bytes.extend_from_slice(&frame_index.to_ne_bytes());
    bytes
}

fn driving_driver(repeat: u32) -> FrameDriver {
    let artifact = ShaderArtifact { entry_points: driving_names(&["main_hist", "main_image"]) };
    let resources = ResourceSet::new(Resolution { width: 256, height: 256 }, vec![16], 0).unwrap();
    let registry = PipelineRegistry::new(
        &artifact,
        &Vec::new(),
        &driving_names(&["main_hist", "main_image"]),
        1,
        SurfaceFormat::Bgra8UnormSrgb,
    )
    .unwrap();
    let bindings = BindingSets::new(&resources, &registry).unwrap();
    let sequencer = PassSequencer::new(repeat).unwrap();
    FrameDriver::new(resources, registry, bindings, sequencer).unwrap()
}

#[test]
fn staged_block_is_the_three_words_in_memory_order() {
    let params = UniformParams { width: 1280, height: 720, frame_index: 0x0102_0304 };
    let upload = stage(&params);
    assert_eq!(
        upload,
        ScheduledUpload { target: UNIFORM, offset: 0, bytes: driving_block(1280, 720, 0x0102_0304) }
    );
    assert_eq!(upload.bytes.len(), 12);
    assert!(upload.bytes.len() as u64 <= BELT_CHUNK_BYTES);
    let little = vec![0x00, 0x05, 0, 0, 0xd0, 0x02, 0, 0, 0x04, 0x03, 0x02, 0x01];
    let big = vec![0, 0, 0x05, 0x00, 0, 0, 0x02, 0xd0, 0x01, 0x02, 0x03, 0x04];
    assert!(upload.bytes == little || upload.bytes == big);
}

#[test]
fn frame_params_take_the_resolution() {
    let params = frame_params(Resolution { width: 3, height: 5 }, 9);
    assert_eq!(params, UniformParams { width: 3, height: 5, frame_index: 9 });
}

#[test]
fn redraw_with_surface_renders_one_frame() {
    let mut driver = driving_driver(1);
    assert!(driver.is_running());
    assert_eq!(driver.frame_index(), 0);
    let action = driver.handle(DriverEvent::RedrawRequested { acquired: true });
    let grid = Grid { x: 16, y: 16, z: 1 };
    assert_eq!(
        action,
        DriverAction::Render {
            upload: ScheduledUpload { target: UNIFORM, offset: 0, bytes: driving_block(256, 256, 0) },
            commands: vec![
                Command::UploadParams,
                Command::Dispatch { pass: Pass::Image { pass: 0 }, pipeline: 0, grid },
                Command::Dispatch { pass: Pass::Image { pass: 1 }, pipeline: 1, grid },
                Command::Present { variant: FragmentVariant::DirectCopy },
            ],
        }
    );
    assert_eq!(action.kind(), ActionKind::Render);
    assert_eq!(driver.frame_index(), 1);
    let action = driver.handle(DriverEvent::RedrawRequested { acquired: true });
    match action {
        DriverAction::Render { upload, .. } => assert_eq!(upload.bytes, driving_block(256, 256, 1)),
        other => panic!("expected a frame, got {:?}", other),
    }
    assert_eq!(driver.frame_index(), 2);
}

#[test]
fn redraw_without_surface_skips_the_tick() {
    let mut driver = driving_driver(2);
    assert_eq!(driver.handle(DriverEvent::RedrawRequested { acquired: false }), DriverAction::Skip);
    assert_eq!(driver.frame_index(), 0);
    assert!(driver.is_running());
    let action = driver.handle(DriverEvent::RedrawRequested { acquired: true });
    assert_eq!(action.kind(), ActionKind::Render);
    assert_eq!(driver.frame_index(), 2);
    assert_eq!(driver.handle(DriverEvent::RedrawRequested { acquired: false }), DriverAction::Skip);
    assert_eq!(driver.frame_index(), 2);
}

#[test]
fn quiet_window_system_asks_for_a_redraw() {
    let mut driver = driving_driver(1);
    assert_eq!(driver.handle(DriverEvent::MainEventsCleared), DriverAction::RequestRedraw);
    assert_eq!(driver.handle(DriverEvent::Other), DriverAction::Idle);
    assert!(driver.is_running());
    assert_eq!(driver.frame_index(), 0);
}

#[test]
fn close_request_ends_the_session() {
    let mut driver = driving_driver(1);
    driver.handle(DriverEvent::RedrawRequested { acquired: true });
    assert_eq!(driver.handle(DriverEvent::CloseRequested), DriverAction::Exit);
    assert!(!driver.is_running());
    for event in [
        DriverEvent::RedrawRequested { acquired: true },
        DriverEvent::RedrawRequested { acquired: false },
        DriverEvent::MainEventsCleared,
        DriverEvent::CloseRequested,
        DriverEvent::DeviceLost,
        DriverEvent::Other,
    ] {
        assert_eq!(driver.handle(event), DriverAction::Exit);
        assert!(!driver.is_running());
        assert_eq!(driver.frame_index(), 1);
    }
}

#[test]
fn lost_device_aborts_the_session() {
    let mut driver = driving_driver(1);
    assert_eq!(driver.handle(DriverEvent::DeviceLost), DriverAction::Abort);
    assert!(!driver.is_running());
    assert_eq!(driver.handle(DriverEvent::RedrawRequested { acquired: true }), DriverAction::Exit);
    assert_eq!(driver.frame_index(), 0);
}

#[test]
fn driver_refuses_parts_of_different_shape() {
    let artifact = ShaderArtifact { entry_points: driving_names(&["main_image"]) };
    let resolution = Resolution { width: 8, height: 8 };
    let registry = || {
        PipelineRegistry::new(
            &artifact,
            &Vec::new(),
            &driving_names(&["main_image"]),
            0,
            SurfaceFormat::Bgra8Unorm,
        )
        .unwrap()
    };
    let resources = ResourceSet::new(resolution, Vec::new(), 0).unwrap();
    let bindings = BindingSets::new(&resources, &registry()).unwrap();
    let other = ResourceSet::new(resolution, vec![4], 0).unwrap();
    let made = FrameDriver::new(other, registry(), bindings, PassSequencer::new(1).unwrap());
    assert_eq!(made.err(), Some(SetupError::ShapeMismatch));
}

#[test]
fn driver_hands_out_its_setup() {
    let driver = driving_driver(1);
    assert_eq!(driver.resources().len(), 4);
    assert_eq!(driver.registry().pipeline_count(), 2);
    assert_eq!(driver.bindings().compute().len(), 3);
}
