use underlay_core::counter::FrameCounter;
use underlay_core::device::DeviceHandle;
use underlay_core::driver::{FrameDriver, FrameRequest, TickAction};
use underlay_core::errors::SetupError;
use underlay_core::lifecycle::{LifecycleManager, LifecyclePhase, PhaseOutcome};

fn request(width: u32, height: u32) -> FrameRequest {
    FrameRequest { width, height }
}

#[test]
fn size_zero_skips_the_whole_tick() {
    let mut device = DeviceHandle::new();
    let mut driver = FrameDriver::new(&mut device, true, 0);
    for req in [request(0, 7), request(7, 0), request(0, 0)] {
        let out = driver.tick(&mut device, req, 5);
        assert_eq!(out.action, TickAction::Skip);
        assert_eq!(out.frame_rate, None);
        // No resize happened: the surfaces still sit at the setup size.
        assert_eq!((driver.surfaces.width(), driver.surfaces.height()), (1, 1));
        // The previously displayed image is untouched.
        assert_eq!(driver.displayed, None);
    }
}

#[test]
fn skip_leaves_a_displayed_image_in_place() {
    let mut device = DeviceHandle::new();
    let mut driver = FrameDriver::new(&mut device, true, 0);
    let out = driver.tick(&mut device, request(10, 10), 1);
    let target = match out.action {
        TickAction::RenderDirect { target } => target,
        other => panic!("expected a direct render, got {:?}", other),
    };
    driver.mark_displayed(target);
    let skipped = driver.tick(&mut device, request(0, 10), 2);
    assert_eq!(skipped.action, TickAction::Skip);
    assert_eq!(driver.displayed, Some(target));
}

#[test]
fn resize_happens_before_the_scene_is_built() {
    let mut device = DeviceHandle::new();
    let mut driver = FrameDriver::new(&mut device, true, 0);
    driver.tick(&mut device, request(100, 50), 1);
    // A second tick with a changed request: the surface is reallocated to the
    // new size and the scene is built for exactly that size, never for the
    // old one.
    driver.tick(&mut device, request(200, 80), 2);
    assert_eq!((driver.surfaces.width(), driver.surfaces.height()), (200, 80));
    assert!(driver.scene.populated);
    assert_eq!((driver.scene.built_width, driver.scene.built_height), (200, 80));
}

#[test]
fn changed_request_reallocates_the_textures() {
    let mut device = DeviceHandle::new();
    let mut driver = FrameDriver::new(&mut device, true, 0);
    let first = match driver.tick(&mut device, request(10, 10), 1).action {
        TickAction::RenderDirect { target } => target,
        other => panic!("expected a direct render, got {:?}", other),
    };
    let second = match driver.tick(&mut device, request(20, 20), 2).action {
        TickAction::RenderDirect { target } => target,
        other => panic!("expected a direct render, got {:?}", other),
    };
    assert_ne!(first, second);
}

#[test]
fn readback_mode_reports_the_padded_stride() {
    let mut device = DeviceHandle::new();
    let mut driver = FrameDriver::new(&mut device, false, 0);
    let out = driver.tick(&mut device, request(65, 9), 1);
    match out.action {
        TickAction::RenderReadback { padded_stride, .. } => assert_eq!(padded_stride, 512),
        other => panic!("expected a readback render, got {:?}", other),
    }
}

#[test]
fn frame_counter_emits_the_tick_rate_after_one_second() {
    // Tick rate 4: ticks every 250 ms. The tick that lands on the second
    // boundary emits the whole second's count and resets to 0 at once.
    let mut counter = FrameCounter::new(0);
    assert_eq!(counter.record_frame(250), None);
    assert_eq!(counter.record_frame(500), None);
    assert_eq!(counter.record_frame(750), None);
    assert_eq!(counter.record_frame(1000), Some(4));
    assert_eq!(counter.frames, 0);
    assert_eq!(counter.record_frame(1250), None);
    assert_eq!(counter.frames, 1);
}

#[test]
fn frame_counter_boundary_rounding_is_off_by_at_most_one() {
    // Tick rate 3 with the 1000 ms window: 1000 / 3 rounds to 333 ms ticks,
    // so no tick lands on the boundary and the emitting tick is the fourth —
    // the emitted count is T + 1, within the rounding tolerance.
    let mut counter = FrameCounter::new(0);
    assert_eq!(counter.record_frame(333), None);
    assert_eq!(counter.record_frame(666), None);
    assert_eq!(counter.record_frame(999), None);
    assert_eq!(counter.record_frame(1332), Some(4));
    assert_eq!(counter.frames, 0);
}

#[test]
fn frame_rate_comes_out_of_the_tick_outcome() {
    let mut device = DeviceHandle::new();
    let mut driver = FrameDriver::new(&mut device, true, 0);
    for k in 0..5u64 {
        let out = driver.tick(&mut device, request(8, 8), k * 200);
        assert_eq!(out.frame_rate, None);
    }
    let out = driver.tick(&mut device, request(8, 8), 1000);
    assert_eq!(out.frame_rate, Some(6));
}

#[test]
fn setup_constructs_the_driver_at_minimal_size() {
    let mut device = DeviceHandle::new();
    let mut manager = LifecycleManager::new(true);
    let out = manager.handle(&mut device, LifecyclePhase::Setup, true, request(0, 0), 0);
    assert_eq!(out, Ok(PhaseOutcome::Idle));
    let driver = manager.driver.as_ref().expect("driver exists after setup");
    assert_eq!((driver.surfaces.width(), driver.surfaces.height()), (1, 1));
}

#[test]
fn failed_renderer_init_is_fatal_at_setup() {
    let mut device = DeviceHandle::new();
    let mut manager = LifecycleManager::new(true);
    let out = manager.handle(&mut device, LifecyclePhase::Setup, false, request(0, 0), 0);
    assert_eq!(out, Err(SetupError::RendererInitFailure));
    assert!(manager.driver.is_none());
}

#[test]
fn before_render_without_setup_does_nothing() {
    let mut device = DeviceHandle::new();
    let mut manager = LifecycleManager::new(true);
    let out = manager.handle(&mut device, LifecyclePhase::BeforeRender, true, request(9, 9), 0);
    assert_eq!(out, Ok(PhaseOutcome::Idle));
    assert!(manager.driver.is_none());
}

#[test]
fn a_full_lifecycle_round() {
    let mut device = DeviceHandle::new();
    let mut manager = LifecycleManager::new(true);
    manager.handle(&mut device, LifecyclePhase::Setup, true, request(0, 0), 0).unwrap();
    let out = manager
        .handle(&mut device, LifecyclePhase::BeforeRender, true, request(12, 34), 16)
        .unwrap();
    match out {
        PhaseOutcome::Ticked(outcome) => match outcome.action {
            TickAction::RenderDirect { .. } => {}
            other => panic!("expected a direct render, got {:?}", other),
        },
        PhaseOutcome::Idle => panic!("expected a tick"),
    }
    let driver = manager.driver.as_ref().expect("driver alive between setup and teardown");
    assert_eq!((driver.surfaces.width(), driver.surfaces.height()), (12, 34));
    manager.handle(&mut device, LifecyclePhase::Teardown, true, request(0, 0), 20).unwrap();
    assert!(manager.driver.is_none());
}

#[test]
fn teardown_is_safe_without_setup() {
    let mut device = DeviceHandle::new();
    let mut manager = LifecycleManager::new(false);
    let out = manager.handle(&mut device, LifecyclePhase::Teardown, true, request(0, 0), 0);
    assert_eq!(out, Ok(PhaseOutcome::Idle));
    assert!(manager.driver.is_none());
}

#[test]
fn other_phases_are_ignored() {
    let mut device = DeviceHandle::new();
    let mut manager = LifecycleManager::new(true);
    let out = manager.handle(&mut device, LifecyclePhase::Other, true, request(3, 3), 0);
    assert_eq!(out, Ok(PhaseOutcome::Idle));
    assert!(manager.driver.is_none());
}

#[test]
fn setup_error_messages() {
    assert_eq!(SetupError::DeviceAcquisitionFailure.message(), "no compatible graphics device");
    assert_eq!(
        SetupError::RendererInitFailure.message(),
        "renderer rejected the required configuration"
    );
}
