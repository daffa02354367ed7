use underlay_core::device::DeviceHandle;
use underlay_core::scene::SceneDescription;
use underlay_core::surface::RenderSurface;
use underlay_core::surface_set::SurfaceSet;

fn set_ids(set: &SurfaceSet) -> (u64, u64) {
    match set {
        SurfaceSet::Double { surface0, surface1, .. } => (surface0.texture_id, surface1.texture_id),
        SurfaceSet::Single { .. } => panic!("expected the double-buffered configuration"),
    }
}

fn set_index(set: &SurfaceSet) -> u8 {
    match set {
        SurfaceSet::Double { current_index, .. } => *current_index,
        SurfaceSet::Single { .. } => panic!("expected the double-buffered configuration"),
    }
}

#[test]
fn resize_reports_exact_dimensions() {
    let mut device = DeviceHandle::new();
    let mut surface = RenderSurface::create(&mut device, 1, 1);
    surface.resize(&mut device, 640, 480);
    assert_eq!(surface.width, 640);
    assert_eq!(surface.height, 480);
}

#[test]
fn resize_drops_the_prior_texture() {
    let mut device = DeviceHandle::new();
    let mut surface = RenderSurface::create(&mut device, 8, 8);
    let before = surface.texture_id;
    surface.resize(&mut device, 16, 8);
    assert_ne!(surface.texture_id, before);
}

#[test]
fn resize_to_the_same_size_is_a_no_op() {
    let mut device = DeviceHandle::new();
    let mut surface = RenderSurface::create(&mut device, 32, 24);
    let before = surface.texture_id;
    surface.resize(&mut device, 32, 24);
    assert_eq!(surface.texture_id, before);
    assert_eq!((surface.width, surface.height), (32, 24));
}

#[test]
fn set_resize_reallocates_both_surfaces() {
    let mut device = DeviceHandle::new();
    let mut set = SurfaceSet::create(&mut device, 1, 1, true);
    let (old0, old1) = set_ids(&set);
    set.resize(&mut device, 300, 200);
    let (new0, new1) = set_ids(&set);
    assert_eq!((set.width(), set.height()), (300, 200));
    assert!(new0 != old0 && new0 != old1);
    assert!(new1 != old0 && new1 != old1);
    assert_ne!(new0, new1);
}

#[test]
fn set_resize_same_size_keeps_both_surfaces() {
    let mut device = DeviceHandle::new();
    let mut set = SurfaceSet::create(&mut device, 5, 9, true);
    let before = set_ids(&set);
    set.resize(&mut device, 5, 9);
    assert_eq!(set_ids(&set), before);
}

#[test]
fn double_buffer_index_is_renders_mod_two() {
    let mut device = DeviceHandle::new();
    let mut set = SurfaceSet::create(&mut device, 4, 4, true);
    let mut scene = SceneDescription::new();
    scene.rebuild(4, 4);
    assert_eq!(set_index(&set), 0);
    for n in 1u8..=6 {
        set.render(&scene);
        assert_eq!(set_index(&set), n % 2);
    }
}

#[test]
fn double_buffer_never_returns_the_previous_handle() {
    let mut device = DeviceHandle::new();
    let mut set = SurfaceSet::create(&mut device, 4, 4, true);
    let mut scene = SceneDescription::new();
    scene.rebuild(4, 4);
    let mut previous = set.render(&scene);
    for _ in 0..5 {
        let target = set.render(&scene);
        assert_ne!(target, previous);
        previous = target;
    }
}

#[test]
fn single_buffer_renders_into_the_same_surface() {
    let mut device = DeviceHandle::new();
    let mut set = SurfaceSet::create(&mut device, 4, 4, false);
    let mut scene = SceneDescription::new();
    scene.rebuild(4, 4);
    let first = set.render(&scene);
    let second = set.render(&scene);
    assert_eq!(first, second);
}
