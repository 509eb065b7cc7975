use quick_sand::graphics::renderer::{
    Command, DrawCall, FrameAction, FrameOutcome, Renderer, ShellEvent, SurfaceSize, UploadError,
    UploadPlan, QUAD_VERTICES,
};
use quick_sand::physics::particle::create_test_particles;

fn size(width: u32, height: u32) -> SurfaceSize {
    SurfaceSize { width, height }
}

fn shell() -> Renderer {
    Renderer::new(size(800, 600)).unwrap()
}

#[test]
fn new_shell_is_ready_and_empty() {
    let r = shell();
    assert_eq!(r, Renderer { size: size(800, 600), capacity: 0, count: 0, running: true });
    assert!(r.is_running());
}

#[test]
fn no_shell_for_a_surface_without_area() {
    assert_eq!(Renderer::new(size(0, 600)), None);
    assert_eq!(Renderer::new(size(800, 0)), None);
    assert_eq!(Renderer::new(size(0, 0)), None);
}

#[test]
fn has_area_needs_both_sides() {
    assert!(size(1, 1).has_area());
    assert!(!size(0, 1).has_area());
    assert!(!size(1, 0).has_area());
}

#[test]
fn resize_takes_the_new_size() {
    let mut r = shell();
    assert_eq!(r.resize(size(1024, 768)), Some(size(1024, 768)));
    assert_eq!(r.size, size(1024, 768));
}

#[test]
fn resize_to_the_current_size_changes_nothing() {
    let mut r = shell();
    assert!(r.update_particles(1500, true).is_ok());
    let before = r;
    assert_eq!(r.resize(size(800, 600)), Some(size(800, 600)));
    assert_eq!(r, before);
}

#[test]
fn resize_twice_is_resize_once() {
    let mut once = shell();
    once.resize(size(640, 480));
    let mut twice = shell();
    twice.resize(size(640, 480));
    twice.resize(size(640, 480));
    assert_eq!(once, twice);
}

#[test]
fn resize_with_a_zero_side_is_ignored() {
    let mut r = shell();
    r.resize(size(1024, 768));
    let before = r;
    assert_eq!(r.resize(size(0, 768)), None);
    assert_eq!(r, before);
    assert_eq!(r.resize(size(1024, 0)), None);
    assert_eq!(r, before);
    assert_eq!(r.resize(size(0, 0)), None);
    assert_eq!(r, before);
    assert_eq!(r.size, size(1024, 768));
}

#[test]
fn first_upload_allocates_the_buffer() {
    let mut r = shell();
    let particles = create_test_particles();
    assert_eq!(r.plan_upload(particles.len()), UploadPlan::Reallocate { bytes: 48_000 });
    assert_eq!(r.update_particles(particles.len(), true), Ok(()));
    assert_eq!(r.capacity, 1500);
    assert_eq!(r.count, 1500);
}

#[test]
fn upload_of_the_same_length_overwrites() {
    let mut r = shell();
    r.update_particles(1500, true).unwrap();
    assert_eq!(r.plan_upload(1500), UploadPlan::Overwrite { bytes: 48_000 });
    assert_eq!(r.update_particles(1500, false), Ok(()));
    assert_eq!(r.count, 1500);
}

#[test]
fn shorter_upload_shrinks_what_is_drawn() {
    let mut r = shell();
    r.update_particles(1500, true).unwrap();
    assert_eq!(r.plan_upload(10), UploadPlan::Reallocate { bytes: 320 });
    assert_eq!(r.update_particles(10, true), Ok(()));
    assert_eq!(r.count, 10);
    assert!(r.count <= r.capacity);
    assert_eq!(r.draw_call(), DrawCall { vertices: 6, instances: 10 });
}

#[test]
fn failed_allocation_keeps_the_earlier_buffer() {
    let mut r = shell();
    r.update_particles(1500, true).unwrap();
    let before = r;
    assert_eq!(r.update_particles(10, false), Err(UploadError::AllocationFailed));
    assert_eq!(r, before);
    assert_eq!(r.update_particles(2000, false), Err(UploadError::AllocationFailed));
    assert_eq!(r, before);
    assert_eq!(r.draw_call().instances, 1500);
}

#[test]
fn empty_upload_draws_nothing() {
    let mut r = shell();
    r.update_particles(1500, true).unwrap();
    assert_eq!(r.update_particles(0, true), Ok(()));
    assert_eq!(r.draw_call(), DrawCall { vertices: QUAD_VERTICES, instances: 0 });
}

#[test]
fn largest_addressable_upload_is_taken() {
    let mut r = shell();
    let len = u32::MAX as usize;
    assert_eq!(r.plan_upload(len), UploadPlan::Reallocate { bytes: 137_438_953_440 });
    assert_eq!(r.update_particles(len, true), Ok(()));
    assert_eq!(r.count, u32::MAX);
}

#[test]
fn upload_beyond_one_draw_call_is_refused() {
    let mut r = shell();
    r.update_particles(1500, true).unwrap();
    let before = r;
    let len = (u32::MAX as u64 + 1) as usize;
    if len as u64 == u32::MAX as u64 + 1 {
        assert_eq!(r.plan_upload(len), UploadPlan::Refuse);
        assert_eq!(r.update_particles(len, true), Err(UploadError::TooLarge));
        assert_eq!(r.update_particles(usize::MAX, false), Err(UploadError::TooLarge));
        assert_eq!(r, before);
    }
}

#[test]
fn draw_call_has_one_quad_per_particle() {
    let mut r = shell();
    assert_eq!(r.draw_call(), DrawCall { vertices: 6, instances: 0 });
    r.update_particles(1500, true).unwrap();
    assert_eq!(r.draw_call(), DrawCall { vertices: 6, instances: 1500 });
}

#[test]
fn presented_frame_goes_on() {
    let mut r = shell();
    let before = r;
    assert_eq!(r.frame_finished(FrameOutcome::Presented), FrameAction::Continue);
    assert_eq!(r, before);
}

#[test]
fn lost_surface_is_configured_again_to_the_cached_size() {
    let mut r = shell();
    r.resize(size(1024, 768));
    let before = r;
    assert_eq!(r.frame_finished(FrameOutcome::Lost), FrameAction::Reconfigure(size(1024, 768)));
    assert_eq!(r, before);
    assert!(r.is_running());
}

#[test]
fn out_of_memory_ends_the_loop() {
    let mut r = shell();
    assert_eq!(r.frame_finished(FrameOutcome::OutOfMemory), FrameAction::Exit);
    assert!(!r.is_running());
    assert_eq!(r.size, size(800, 600));
}

#[test]
fn other_failures_drop_the_frame() {
    let mut r = shell();
    let before = r;
    assert_eq!(r.frame_finished(FrameOutcome::Failed), FrameAction::Skip);
    assert_eq!(r, before);
}

#[test]
fn close_request_ends_the_loop() {
    let mut r = shell();
    assert_eq!(r.handle_event(ShellEvent::CloseRequested), Command::Exit);
    assert!(!r.is_running());
}

#[test]
fn resized_event_configures_the_surface() {
    let mut r = shell();
    assert_eq!(
        r.handle_event(ShellEvent::Resized(size(300, 200))),
        Command::Reconfigure(size(300, 200))
    );
    assert_eq!(r.size, size(300, 200));
}

#[test]
fn resized_event_without_area_is_ignored() {
    let mut r = shell();
    let before = r;
    assert_eq!(r.handle_event(ShellEvent::Resized(size(0, 200))), Command::Ignore);
    assert_eq!(r, before);
}

#[test]
fn redraw_request_renders() {
    let mut r = shell();
    let before = r;
    assert_eq!(r.handle_event(ShellEvent::RedrawRequested), Command::Render);
    assert_eq!(r, before);
}

#[test]
fn idle_loop_asks_for_a_redraw() {
    let mut r = shell();
    let before = r;
    assert_eq!(r.handle_event(ShellEvent::AboutToWait), Command::RequestRedraw);
    assert_eq!(r, before);
}

#[test]
fn other_events_are_ignored() {
    let mut r = shell();
    let before = r;
    assert_eq!(r.handle_event(ShellEvent::Other), Command::Ignore);
    assert_eq!(r, before);
}

#[test]
fn stopped_loop_stays_stopped() {
    let mut r = shell();
    r.handle_event(ShellEvent::CloseRequested);
    r.handle_event(ShellEvent::Resized(size(10, 10)));
    r.handle_event(ShellEvent::RedrawRequested);
    r.frame_finished(FrameOutcome::Presented);
    assert!(!r.is_running());
}
