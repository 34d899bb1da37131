use bevy_window_sdl2_backend::limiter::Sdl2FrameLimiter;

#[test]
fn disabled_limiter_never_sleeps() {
    let mut limiter = Sdl2FrameLimiter::new(false, Some(60));
    assert_eq!(limiter.frame_duration_nanos(), None);
    assert_eq!(limiter.tick(123), 0);
    assert_eq!(limiter.deadline_nanos, 123);
}

#[test]
fn limiter_without_target_never_sleeps() {
    let mut limiter = Sdl2FrameLimiter::new(true, None);
    assert_eq!(limiter.frame_duration_nanos(), None);
    assert_eq!(limiter.tick(55), 0);
    assert_eq!(limiter.deadline_nanos, 55);
}

#[test]
fn zero_target_framerate_does_not_limit() {
    let mut limiter = Sdl2FrameLimiter::new(true, Some(0));
    assert_eq!(limiter.frame_duration_nanos(), None);
    assert_eq!(limiter.tick(9), 0);
}

#[test]
fn sixty_frames_per_second() {
    let limiter = Sdl2FrameLimiter::new(true, Some(60));
    assert_eq!(limiter.frame_duration_nanos(), Some(16_666_666));
}

#[test]
fn fast_frames_sleep_until_the_deadline() {
    let mut limiter = Sdl2FrameLimiter::new(true, Some(100));
    // Frame duration: 10 ms. The first frame ends at once.
    assert_eq!(limiter.tick(0), 0);
    assert_eq!(limiter.deadline_nanos, 10_000_000);
    // The next frame finishes after 4 ms and sleeps the remaining 6 ms.
    assert_eq!(limiter.tick(4_000_000), 6_000_000);
    assert_eq!(limiter.deadline_nanos, 20_000_000);
}

#[test]
fn slow_frames_restart_the_deadline_from_now() {
    let mut limiter = Sdl2FrameLimiter::new(true, Some(100));
    assert_eq!(limiter.tick(0), 0);
    // This frame overran its 10 ms budget by far: no sleep, and the next
    // deadline counts from the current instant.
    assert_eq!(limiter.tick(35_000_000), 0);
    assert_eq!(limiter.deadline_nanos, 45_000_000);
}
