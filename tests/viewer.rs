use doorbell::activation::ActivationQueue;
use doorbell::display::{blit, overlay_layout, put_pixel, Geometry, Rgb, Vertex};
use doorbell::input::{contains_text, is_touch_device, is_touch_release, matches_touch_keywords, record_event};
use doorbell::scheduler::{Action, ConfigError, Scheduler, AUTO_CYCLE_SECONDS};
use doorbell::session::{pipeline_description, SessionError, SessionSlot, SessionState};

#[test]
fn empty_camera_list_is_refused() {
    assert!(matches!(Scheduler::new(0, AUTO_CYCLE_SECONDS, 0), Err(ConfigError::NoCameras)));
}

#[test]
fn round_robin_over_mixed_triggers() {
    let mut s = Scheduler::new(3, 10, 0).ok().unwrap();
    let mut seen = vec![s.current()];
    // touch, timeout, touch, timeout
    assert_eq!(s.tick(true, 1), Action::Switch { to: 1 });
    seen.push(s.current());
    assert_eq!(s.tick(false, 12), Action::Switch { to: 2 });
    seen.push(s.current());
    assert_eq!(s.tick(true, 13), Action::Switch { to: 0 });
    seen.push(s.current());
    assert_eq!(s.tick(false, 24), Action::Switch { to: 1 });
    seen.push(s.current());
    assert_eq!(seen, vec![0, 1, 2, 0, 1]);
}

#[test]
fn single_camera_stays_on_zero() {
    let mut s = Scheduler::new(1, 5, 0).ok().unwrap();
    assert_eq!(s.tick(true, 1), Action::Switch { to: 0 });
    assert_eq!(s.current(), 0);
}

#[test]
fn many_tokens_make_one_switch() {
    for n in [1usize, 5, 100] {
        let mut s = Scheduler::new(4, AUTO_CYCLE_SECONDS, 0).ok().unwrap();
        let mut q = ActivationQueue::new();
        for _ in 0..n {
            q.push();
        }
        assert_eq!(q.len(), n);
        assert_eq!(s.poll(&mut q, 7), Action::Switch { to: 1 });
        assert!(q.is_empty());
        assert_eq!(s.poll(&mut q, 8), Action::Stay);
        assert_eq!(s.current(), 1);
    }
}

#[test]
fn drain_reports_any_tokens() {
    let mut q = ActivationQueue::new();
    assert!(!q.drain());
    q.push();
    q.push();
    assert!(q.drain());
    assert_eq!(q.len(), 0);
    assert!(!q.drain());
}

#[test]
fn switch_resets_idle_timer() {
    let mut s = Scheduler::new(2, 100, 0).ok().unwrap();
    assert_eq!(s.tick(false, 101), Action::Switch { to: 1 });
    assert_eq!(s.last_interaction(), 101);
    assert!(!s.timed_out(101));
    let mut s = Scheduler::new(2, 100, 0).ok().unwrap();
    assert_eq!(s.tick(true, 50), Action::Switch { to: 1 });
    assert_eq!(s.last_interaction(), 50);
    assert!(!s.timed_out(50));
}

#[test]
fn timeout_boundary() {
    let t = AUTO_CYCLE_SECONDS;
    let mut s = Scheduler::new(2, t, 1000).ok().unwrap();
    assert!(!s.timed_out(1000 + t));
    assert_eq!(s.tick(false, 1000 + t), Action::Stay);
    assert_eq!(s.current(), 0);
    assert!(s.timed_out(1000 + t + 1));
    assert_eq!(s.tick(false, 1000 + t + 1), Action::Switch { to: 1 });
}

#[test]
fn clock_before_last_interaction_does_not_time_out() {
    let mut s = Scheduler::new(2, 0, 50).ok().unwrap();
    assert!(!s.timed_out(10));
    assert_eq!(s.tick(false, 10), Action::Stay);
}

#[test]
fn blit_truncates_long_frame() {
    let mut surface = vec![0u8; 8];
    let frame: Vec<u8> = (1..=12).collect();
    assert_eq!(blit(&mut surface, &frame), 8);
    assert_eq!(surface, vec![1, 2, 3, 4, 5, 6, 7, 8]);
}

#[test]
fn blit_short_frame_updates_prefix() {
    let mut surface = vec![9u8; 8];
    let frame = vec![1u8, 2, 3];
    assert_eq!(blit(&mut surface, &frame), 3);
    assert_eq!(surface, vec![1, 2, 3, 9, 9, 9, 9, 9]);
}

#[test]
fn put_pixel_writes_bgra() {
    let g = Geometry { width: 2, height: 2, stride: 8 };
    let mut surface = vec![0u8; 16];
    assert!(put_pixel(&mut surface, g, 1, 1, Rgb { r: 10, g: 20, b: 30 }));
    assert_eq!(&surface[12..16], &[30, 20, 10, 255]);
    assert!(surface[..12].iter().all(|&b| b == 0));
}

#[test]
fn put_pixel_drops_out_of_range() {
    let g = Geometry { width: 2, height: 2, stride: 8 };
    let mut surface = vec![0u8; 12];
    let c = Rgb { r: 1, g: 2, b: 3 };
    assert!(!put_pixel(&mut surface, g, -1, 0, c));
    assert!(!put_pixel(&mut surface, g, 2, 0, c));
    assert!(!put_pixel(&mut surface, g, 0, 2, c));
    // on the surface, but past the end of a short mapping
    assert!(!put_pixel(&mut surface, g, 1, 1, c));
    assert_eq!(surface, vec![0u8; 12]);
}

#[test]
fn fixed_geometry() {
    let g = Geometry::fixed();
    assert_eq!((g.width, g.height, g.stride), (800, 480, 3200));
    assert!(Geometry::packed(u32::MAX, 1).is_none());
    assert_eq!(Geometry::packed(10, 5), Some(Geometry { width: 10, height: 5, stride: 40 }));
}

#[test]
fn overlay_positions() {
    let o = overlay_layout(Geometry::fixed(), "Front");
    assert_eq!(o.name_at, Vertex { x: 375, y: 30 });
    assert_eq!((o.left.tip, o.left.upper, o.left.lower), (Vertex { x: 10, y: 240 }, Vertex { x: 60, y: 210 }, Vertex { x: 60, y: 270 }));
    assert_eq!((o.right.tip, o.right.upper, o.right.lower), (Vertex { x: 790, y: 240 }, Vertex { x: 740, y: 210 }, Vertex { x: 740, y: 270 }));
    let long = "x".repeat(100);
    assert_eq!(overlay_layout(Geometry::fixed(), &long).name_at.x, 0);
}

#[test]
fn touch_device_names() {
    assert!(is_touch_device("ADS7846 Touchscreen"));
    assert!(is_touch_device("WaveShare WS170120"));
    assert!(is_touch_device("generic TOUCH panel"));
    assert!(!is_touch_device("AT Translated Set 2 keyboard"));
    assert!(!matches_touch_keywords("TOUCH"));
    assert!(matches_touch_keywords("xtouchx"));
    assert!(contains_text("abc", ""));
    assert!(!contains_text("ab", "abc"));
    assert!(contains_text("aab", "ab"));
}

#[test]
fn touch_release_events() {
    assert!(is_touch_release(true, 0x14a, 0));
    assert!(!is_touch_release(true, 0x14a, 1));
    assert!(!is_touch_release(false, 0x14a, 0));
    assert!(!is_touch_release(true, 0x110, 0));
    let mut q = ActivationQueue::new();
    assert!(!record_event(&mut q, true, 0x14a, 1));
    assert!(record_event(&mut q, true, 0x14a, 0));
    assert_eq!(q.len(), 1);
}

#[test]
fn pipeline_description_holds_url() {
    let d = pipeline_description("rtsp://cam/1");
    assert!(d.starts_with("rtspsrc location=rtsp://cam/1 latency=0 protocols=tcp"));
    assert!(d.ends_with("format=BGRA,width=800,height=480 ! appsink name=sink drop=true max-buffers=1"));
}

#[test]
fn session_stop_precedes_next_start() {
    let mut slot = SessionSlot::new();
    assert_eq!(slot.begin_start(0), Ok(()));
    assert_eq!(slot.begin_start(1), Err(SessionError::StillActive));
    assert_eq!(slot.started(), Ok(()));
    assert_eq!(slot.begin_start(1), Err(SessionError::StillActive));
    assert_eq!(slot.stop(), Ok(()));
    assert_eq!(slot.state(), SessionState::Stopped);
    assert_eq!(slot.stop(), Err(SessionError::NotActive));
    assert_eq!(slot.begin_start(1), Ok(()));
    assert_eq!(slot.camera(), 1);
    assert_eq!(slot.started(), Ok(()));
    assert_eq!(slot.started(), Err(SessionError::NotStarting));
}

#[test]
fn three_cameras_cycle_on_timeout() {
    let names = ["A", "B", "C"];
    let t = AUTO_CYCLE_SECONDS;
    let mut s = Scheduler::new(3, t, 0).ok().unwrap();
    let mut q = ActivationQueue::new();
    let mut slot = SessionSlot::new();
    slot.begin_start(s.current()).unwrap();
    slot.started().unwrap();
    let mut shown = vec![names[s.current()]];
    let mut now = 0u64;
    while shown.len() < 4 {
        now += 1;
        if let Action::Switch { to } = s.poll(&mut q, now) {
            slot.stop().unwrap();
            slot.begin_start(to).unwrap();
            slot.started().unwrap();
            shown.push(names[to]);
        }
    }
    assert_eq!(shown, vec!["A", "B", "C", "A"]);
    assert_eq!(now, 3 * (t + 1));
}

#[test]
fn touch_switches_two_cameras() {
    let mut s = Scheduler::new(2, AUTO_CYCLE_SECONDS, 0).ok().unwrap();
    let mut q = ActivationQueue::new();
    q.push();
    assert_eq!(s.poll(&mut q, 42), Action::Switch { to: 1 });
    assert_eq!(s.current(), 1);
    assert_eq!(s.last_interaction(), 42);
    assert!(q.is_empty());
}

#[test]
fn failed_start_leaves_nothing_held() {
    let mut s = Scheduler::new(2, AUTO_CYCLE_SECONDS, 0).ok().unwrap();
    let mut q = ActivationQueue::new();
    let mut slot = SessionSlot::new();
    slot.begin_start(0).unwrap();
    slot.started().unwrap();
    q.push();
    let Action::Switch { to } = s.poll(&mut q, 5) else { panic!("expected a switch") };
    assert_eq!(slot.stop(), Ok(()));
    assert_eq!(slot.begin_start(to), Ok(()));
    // building camera B's pipeline fails
    assert_eq!(slot.start_failed(), Ok(()));
    assert_eq!(slot.state(), SessionState::Stopped);
    assert_eq!(slot.camera(), 1);
}
