use vexide_slint::framebuffer::{
    FrameBuffer, Region, Rgb8, HORIZONTAL_RESOLUTION, PIXEL_COUNT, REFRESH_INTERVAL_MICROS,
    VERTICAL_RESOLUTION,
};
use vexide_slint::registry::{create_window_result, PlatformError, PlatformRegistry};

#[test]
fn second_install_fails_first_succeeds() {
    let mut reg = PlatformRegistry::new();
    assert!(!reg.installed);
    assert_eq!(reg.install(), Ok(()));
    assert!(reg.installed);
    assert_eq!(reg.install(), Err(PlatformError::AlreadyInitialized));
    // And every attempt after that keeps failing the same way.
    assert_eq!(reg.install(), Err(PlatformError::AlreadyInitialized));
    assert!(reg.installed);
}

#[test]
fn window_refusal_is_recoverable_error() {
    assert_eq!(create_window_result(true), Ok(()));
    assert_eq!(
        create_window_result(false),
        Err(PlatformError::WindowCreationFailed)
    );
}

#[test]
fn fresh_frame_is_full_sized_and_black() {
    let fb = FrameBuffer::new();
    assert_eq!(fb.len(), PIXEL_COUNT);
    assert_eq!(PIXEL_COUNT, 480 * 240);
    let black = Rgb8 { r: 0, g: 0, b: 0 };
    assert_eq!(fb.pixel(0, 0), black);
    assert_eq!(
        fb.pixel(HORIZONTAL_RESOLUTION - 1, VERTICAL_RESOLUTION - 1),
        black
    );
    assert_eq!(fb.pixel(123, 77), black);
}

#[test]
fn set_pixel_is_row_major() {
    let mut fb = FrameBuffer::new();
    let red = Rgb8 { r: 255, g: 0, b: 0 };
    fb.set_pixel(3, 2, red);
    assert_eq!(fb.pixel(3, 2), red);
    // Row-major: the neighbours are untouched.
    assert_eq!(fb.pixel(2, 2), Rgb8 { r: 0, g: 0, b: 0 });
    assert_eq!(fb.pixel(4, 2), Rgb8 { r: 0, g: 0, b: 0 });
    assert_eq!(fb.pixel(3, 1), Rgb8 { r: 0, g: 0, b: 0 });
    assert_eq!(fb.pixel(3, 3), Rgb8 { r: 0, g: 0, b: 0 });
}

#[test]
fn snapshot_copies_the_frame() {
    let mut fb = FrameBuffer::new();
    let blue = Rgb8 { r: 0, g: 0, b: 200 };
    fb.set_pixel(10, 10, blue);
    let copy = fb.snapshot();
    assert_eq!(copy.len(), PIXEL_COUNT);
    assert_eq!(copy.pixel(10, 10), blue);
    assert_eq!(copy.pixel(0, 0), Rgb8 { r: 0, g: 0, b: 0 });
    // The snapshot is independent of the frame it was taken from.
    fb.set_pixel(10, 10, Rgb8 { r: 9, g: 9, b: 9 });
    assert_eq!(copy.pixel(10, 10), blue);
}

#[test]
fn transfers_cover_the_full_screen() {
    let r = Region::full_screen();
    assert_eq!(r.x, 0);
    assert_eq!(r.y, 0);
    assert_eq!(r.width, HORIZONTAL_RESOLUTION);
    assert_eq!(r.height, VERTICAL_RESOLUTION);
    assert_eq!(r.width, 480);
    assert_eq!(r.height, 240);
}

#[test]
fn refresh_interval_matches_sixty_frames_per_second() {
    assert_eq!(REFRESH_INTERVAL_MICROS, 16667);
}
