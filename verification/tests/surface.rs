use openexr_viewer::raster::DecodedImage;
use openexr_viewer::surface::PresentStep;
use openexr_viewer::surface::ResizeOutcome;
use openexr_viewer::surface::Size;
use openexr_viewer::surface::SurfaceManager;

#[test]
fn buffer_len_is_width_times_height_times_four() {
    assert_eq!(Size { width: 640, height: 480 }.buffer_len(), Some(1_228_800));
    assert_eq!(Size { width: 1024, height: 768 }.buffer_len(), Some(3_145_728));
    assert_eq!(Size { width: 1, height: 1 }.buffer_len(), Some(4));
    assert_eq!(Size { width: 0, height: 0 }.buffer_len(), Some(0));
    assert_eq!(Size { width: 0, height: 7 }.buffer_len(), Some(0));
}

#[test]
fn buffer_len_of_a_size_beyond_the_address_space() {
    assert_eq!(Size { width: u32::MAX, height: u32::MAX }.buffer_len(), None);
}

#[test]
fn new_surface_is_zeroed_at_the_initial_size() {
    let surface = SurfaceManager::new(Size { width: 4, height: 3 });
    assert_eq!(surface.size(), Size { width: 4, height: 3 });
    assert_eq!(surface.frame(), &[0u8; 48][..]);
}

#[test]
fn load_fills_the_buffer_with_the_image() {
    let mut surface = SurfaceManager::new(Size { width: 2, height: 2 });
    surface.load(DecodedImage::new(()));
    assert_eq!(surface.size(), Size { width: 2, height: 2 });
    assert_eq!(
        surface.frame(),
        &[
            0x48, 0xb2, 0xe8, 0xff, 0x48, 0xb2, 0xe8, 0xff, 0x48, 0xb2, 0xe8, 0xff, 0x48, 0xb2,
            0xe8, 0xff
        ][..]
    );
}

#[test]
fn resize_brings_the_buffer_to_the_new_length() {
    let sizes = [
        (0u32, 0u32),
        (0, 9),
        (9, 0),
        (1, 1),
        (3, 5),
        (640, 480),
        (1024, 768),
        (1, 70_000),
    ];
    let mut surface = SurfaceManager::new(Size { width: 640, height: 480 });
    for (width, height) in sizes {
        surface.resize(Size { width, height });
        assert_eq!(surface.size(), Size { width, height });
        assert_eq!(surface.frame().len(), width as usize * height as usize * 4);
    }
}

#[test]
fn resize_to_another_size_allocates_a_zeroed_buffer() {
    let mut surface = SurfaceManager::new(Size { width: 2, height: 2 });
    surface.load(DecodedImage::new(()));
    let outcome = surface.resize(Size { width: 3, height: 1 });
    assert_eq!(outcome, ResizeOutcome::Reallocated);
    assert_eq!(surface.frame(), &[0u8; 12][..]);
}

#[test]
fn resize_to_the_same_size_touches_nothing() {
    let mut surface = SurfaceManager::new(Size { width: 2, height: 1 });
    surface.load(DecodedImage::new(()));
    let outcome = surface.resize(Size { width: 2, height: 1 });
    assert_eq!(outcome, ResizeOutcome::Unchanged);
    assert_eq!(surface.size(), Size { width: 2, height: 1 });
    assert_eq!(surface.frame(), &[0x48, 0xb2, 0xe8, 0xff, 0x48, 0xb2, 0xe8, 0xff][..]);
}

#[test]
fn resize_twice_allocates_once() {
    let mut surface = SurfaceManager::new(Size { width: 640, height: 480 });
    let first = surface.resize(Size { width: 800, height: 600 });
    let after_first = surface.frame().to_vec();
    let second = surface.resize(Size { width: 800, height: 600 });
    assert_eq!(first, ResizeOutcome::Reallocated);
    assert_eq!(second, ResizeOutcome::Unchanged);
    assert_eq!(surface.frame().len(), 800 * 600 * 4);
    assert_eq!(surface.frame(), &after_first[..]);
}

#[test]
fn same_area_with_other_sides_is_another_size() {
    let mut surface = SurfaceManager::new(Size { width: 4, height: 2 });
    surface.load(DecodedImage::new(()));
    let outcome = surface.resize(Size { width: 2, height: 4 });
    assert_eq!(outcome, ResizeOutcome::Reallocated);
    assert_eq!(surface.size(), Size { width: 2, height: 4 });
    assert_eq!(surface.frame(), &[0u8; 32][..]);
}

#[test]
fn present_blits_then_overlays_then_submits() {
    assert_eq!(PresentStep::Blit.next(), Some(PresentStep::DrawOverlay));
    assert_eq!(PresentStep::DrawOverlay.next(), Some(PresentStep::Submit));
    assert_eq!(PresentStep::Submit.next(), None);
}
