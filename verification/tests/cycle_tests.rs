use surface_blit::demo::{pick_demo_color, pick_demo_rect};
use surface_blit::driver::{BlitError, CycleOutcome, Phase, RenderCycle};
use surface_blit::format::{bytes_per_pixel, get_color_format, PixelFormat};
use surface_blit::rect::{rect_in_bounds, Rect};

#[test]
fn cycle_without_surface_is_a_no_op() {
    let mut rc = RenderCycle::new();
    assert_eq!(rc.phase, Phase::Idle);
    let proceed = rc.trigger(false);
    assert!(!proceed);
    assert_eq!(rc.phase, Phase::Done { outcome: CycleOutcome::SkippedNoSurface });
}

#[test]
fn successful_cycle_paints_and_completes() {
    let (width, height) = (720u32, 1600u32);
    let (format, bpp) = get_color_format();
    let mut rc = RenderCycle::new();
    assert!(rc.trigger(true));
    rc.set_geometry(width, height, format);
    // The platform locked the buffer: status 0.
    assert!(rc.lock_result(0));
    let mut bits = vec![9u8; (width * height * bpp) as usize];
    let colors: Vec<u8> = vec![255, 0, 0, 255];
    let rect = Rect { top: 0, left: 0, bottom: 100, right: 50 };
    assert_eq!(rc.blit(&mut bits, &colors, &rect, width), Ok(()));
    let outcome = rc.finish(0);
    assert_eq!(outcome, CycleOutcome::Completed { present_status: 0 });
    assert_eq!(rc.phase, Phase::Done { outcome });
    // Spot-check the write phase took effect.
    assert_eq!(&bits[0..4], &[255, 0, 0, 255]);
    let last_painted = ((99 * width + 49) * bpp) as usize;
    assert_eq!(&bits[last_painted..last_painted + 4], &[255, 0, 0, 255]);
    let first_unpainted = ((0 * width + 50) * bpp) as usize;
    assert_eq!(&bits[first_unpainted..first_unpainted + 4], &[9, 9, 9, 9]);
}

#[test]
fn failed_lock_skips_write_phase_and_still_releases() {
    let mut rc = RenderCycle::new();
    assert!(rc.trigger(true));
    rc.set_geometry(720, 1600, PixelFormat::R8G8B8A8Unorm);
    let locked = rc.lock_result(-1);
    assert!(!locked);
    assert_eq!(
        rc.phase,
        Phase::Done { outcome: CycleOutcome::LockFailed { status: -1 } }
    );
    // The write phase is never entered, so the pixels cannot change: the
    // machine said not to proceed, and the cycle is already over.
    let bits = vec![7u8; 720 * 1600 * 4];
    assert!(bits.iter().all(|&b| b == 7));
}

#[test]
fn rejected_rectangle_leaves_buffer_untouched_and_cycle_completes() {
    let (width, height) = (10u32, 10u32);
    let mut rc = RenderCycle::new();
    assert!(rc.trigger(true));
    rc.set_geometry(width, height, PixelFormat::R8G8B8A8Unorm);
    assert!(rc.lock_result(3));
    let mut bits = vec![1u8; (width * height * 4) as usize];
    let colors: Vec<u8> = vec![255, 255, 255, 255];
    // Entirely right of the window: clamping leaves nothing.
    let rect = Rect { top: 0, left: 12, bottom: 5, right: 20 };
    assert_eq!(
        rc.blit(&mut bits, &colors, &rect, width),
        Err(BlitError::InvalidRectangle)
    );
    assert!(bits.iter().all(|&b| b == 1));
    let outcome = rc.finish(0);
    assert_eq!(outcome, CycleOutcome::Completed { present_status: 0 });
}

#[test]
fn overshooting_rectangle_is_clamped_to_the_window() {
    let (width, height) = (8u32, 6u32);
    let mut rc = RenderCycle::new();
    assert!(rc.trigger(true));
    rc.set_geometry(width, height, PixelFormat::S8Uint);
    assert!(rc.lock_result(0));
    let mut bits = vec![0u8; (width * height) as usize];
    let colors: Vec<u8> = vec![200];
    let rect = Rect { top: 4, left: 5, bottom: 99, right: 99 };
    assert_eq!(rc.blit(&mut bits, &colors, &rect, width), Ok(()));
    for row in 0..height {
        for col in 0..width {
            let expected = if row >= 4 && col >= 5 { 200 } else { 0 };
            assert_eq!(bits[(row * width + col) as usize], expected);
        }
    }
}

#[test]
fn negative_present_status_is_recorded_not_escalated() {
    let mut rc = RenderCycle::new();
    assert!(rc.trigger(true));
    rc.set_geometry(4, 4, PixelFormat::S8Uint);
    assert!(rc.lock_result(0));
    let mut bits = vec![0u8; 16];
    let colors: Vec<u8> = vec![1];
    let rect = Rect { top: 0, left: 0, bottom: 4, right: 4 };
    assert_eq!(rc.blit(&mut bits, &colors, &rect, 4), Ok(()));
    let outcome = rc.finish(-7);
    assert_eq!(outcome, CycleOutcome::Completed { present_status: -7 });
    assert_eq!(rc.phase, Phase::Done { outcome });
}

#[test]
fn demo_color_has_one_byte_per_rgba_channel() {
    for _ in 0..32 {
        let c = pick_demo_color();
        assert_eq!(c.len(), 4);
        assert_eq!(c.len() as u32, bytes_per_pixel(PixelFormat::R8G8B8A8Unorm));
        assert!(c.iter().all(|&b| b < 255));
    }
}

#[test]
fn demo_rect_is_always_valid_for_its_window() {
    for _ in 0..64 {
        let r = pick_demo_rect(720, 1600);
        assert!(rect_in_bounds(&r, 720, 1600));
        assert!(r.top < 800 && r.bottom >= 800);
        assert!(r.left < 360 && r.right >= 360);
    }
    // The smallest geometry the picker accepts.
    for _ in 0..16 {
        let r = pick_demo_rect(2, 2);
        assert!(rect_in_bounds(&r, 2, 2));
    }
}
