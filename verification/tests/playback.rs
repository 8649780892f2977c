use frameview::cache::ResizeCache;
use frameview::clock::PlaybackClock;
use frameview::plane::{rgba_plane_to_rgb, RgbaPlane};
use frameview::sequence::{Sequence, SourceFrame};
use frameview::viewer::Viewer;

fn solid_plane(width: u32, height: u32, r: u8, g: u8, b: u8) -> RgbaPlane {
    let mut data: Vec<u8> = Vec::new();
    for _ in 0..(width as usize * height as usize) {
        data.push(r);
        data.push(g);
        data.push(b);
        data.push(255);
    }
    RgbaPlane { width, height, data }
}

fn solid_frame(width: u32, height: u32, r: u8, g: u8, b: u8, duration_ms: u64) -> SourceFrame {
    SourceFrame {
        pixels: solid_plane(width, height, r, g, b),
        duration_ms,
    }
}

#[test]
fn cache_returns_identical_plane_for_constant_size() {
    let seq = Sequence::Animated(vec![
        solid_frame(4, 4, 10, 20, 30, 100),
        solid_frame(4, 4, 40, 50, 60, 100),
    ]);
    let mut cache = ResizeCache::empty(2);
    cache.get_or_create(&seq, 0, 2, 2);
    let first: Vec<u8> = cache.plane_at(0).data.clone();
    cache.get_or_create(&seq, 1, 2, 2);
    cache.get_or_create(&seq, 0, 2, 2);
    let again = cache.plane_at(0);
    assert_eq!(again.width, 2);
    assert_eq!(again.height, 2);
    assert_eq!(again.data, first);
}

#[test]
fn resize_invalidates_all_entries() {
    let seq = Sequence::Animated(vec![
        solid_frame(8, 8, 1, 2, 3, 100),
        solid_frame(8, 8, 4, 5, 6, 100),
    ]);
    let mut cache = ResizeCache::empty(2);
    cache.get_or_create(&seq, 0, 8, 8);
    cache.get_or_create(&seq, 1, 8, 8);
    cache.get_or_create(&seq, 1, 4, 2);
    assert!(cache.entries[0].is_none());
    let plane = cache.plane_at(1);
    assert_eq!(plane.width, 4);
    assert_eq!(plane.height, 2);
    assert_eq!(plane.data.len(), 3 * 4 * 2);
}

#[test]
fn clock_cycles_in_order() {
    let mut clock = PlaybackClock {
        current_index: 0,
        last_advance_ms: 0,
    };
    let mut seen: Vec<usize> = vec![clock.current_index];
    let mut now: u64 = 0;
    for _ in 0..7 {
        now += 10;
        let advanced = clock.tick(now, 10, 3);
        assert!(advanced);
        seen.push(clock.current_index);
    }
    assert_eq!(seen, vec![0, 1, 2, 0, 1, 2, 0, 1]);
    // A huge elapsed time still advances by exactly one frame.
    let advanced = clock.tick(1_000_000, 10, 3);
    assert!(advanced);
    assert_eq!(clock.current_index, 2);
}

#[test]
fn single_frame_wraps_to_zero() {
    let mut clock = PlaybackClock {
        current_index: 0,
        last_advance_ms: 0,
    };
    for step in 1..20u64 {
        clock.tick(step * 7, 5, 1);
        assert_eq!(clock.current_index, 0);
    }
}

#[test]
fn static_render_leaves_clock_untouched() {
    let seq = Sequence::Static(solid_plane(1, 1, 5, 6, 7));
    let mut viewer = Viewer::new(seq, 42).unwrap();
    let mut dest: Vec<u32> = vec![0];
    for now in [100u64, 200, 300] {
        let redraw = viewer.render(1, 1, now, &mut dest);
        assert!(!redraw);
        assert_eq!(viewer.clock.current_index, 0);
        assert_eq!(viewer.clock.last_advance_ms, 42);
        assert_eq!(dest[0], 0x0005_0607);
    }
}

#[test]
fn three_frame_timing_scenario() {
    // Durations [100ms, 50ms, 200ms], starting at index 0 at time 0.
    let mut clock = PlaybackClock {
        current_index: 0,
        last_advance_ms: 0,
    };
    let durations: [u64; 3] = [100, 50, 200];
    // t = 60ms: elapsed 60 < 100, must not advance.
    let advanced = clock.tick(60, durations[clock.current_index], 3);
    assert!(!advanced);
    assert_eq!(clock.current_index, 0);
    assert_eq!(clock.last_advance_ms, 0);
    // t = 150ms: elapsed 150 >= 100, advance to 1 and reset to 150.
    let advanced = clock.tick(150, durations[clock.current_index], 3);
    assert!(advanced);
    assert_eq!(clock.current_index, 1);
    assert_eq!(clock.last_advance_ms, 150);
    // t = 210ms: elapsed 60 >= 50, advance to 2 and reset to 210.
    let advanced = clock.tick(210, durations[clock.current_index], 3);
    assert!(advanced);
    assert_eq!(clock.current_index, 2);
    assert_eq!(clock.last_advance_ms, 210);
}

#[test]
fn resize_mid_playback_keeps_index() {
    let frames = vec![
        solid_frame(800, 600, 10, 0, 0, u64::MAX),
        solid_frame(800, 600, 0, 10, 0, u64::MAX),
        solid_frame(800, 600, 0, 0, 10, u64::MAX),
    ];
    let mut viewer = Viewer::new(Sequence::Animated(frames), 0).unwrap();
    viewer.clock.current_index = 2;
    let mut dest: Vec<u32> = vec![0; 800 * 600];
    let redraw = viewer.render(800, 600, 1, &mut dest);
    assert!(redraw);
    assert_eq!(viewer.clock.current_index, 2);
    viewer.handle_resize(400, 300);
    assert_eq!(viewer.clock.current_index, 2);
    assert!(viewer.cache.entries.iter().all(|e| e.is_none()));
    let mut small: Vec<u32> = vec![0; 400 * 300];
    viewer.render(400, 300, 2, &mut small);
    assert_eq!(viewer.clock.current_index, 2);
    let plane = viewer.cache.plane_at(2);
    assert_eq!(plane.width, 400);
    assert_eq!(plane.height, 300);
    assert_eq!(plane.data.len(), 3 * 400 * 300);
    assert_eq!(small[0], 0x0000_000A);
}

#[test]
fn animated_render_composites_current_frame() {
    let frames = vec![
        solid_frame(1, 1, 10, 20, 30, 0),
        solid_frame(1, 1, 40, 50, 60, 0),
    ];
    let mut viewer = Viewer::new(Sequence::Animated(frames), 0).unwrap();
    let mut dest: Vec<u32> = vec![0];
    // Zero durations advance once per render, never more.
    let redraw = viewer.render(1, 1, 1, &mut dest);
    assert!(redraw);
    assert_eq!(dest[0], 0x000A_141E);
    assert_eq!(viewer.clock.current_index, 1);
    viewer.render(1, 1, 2, &mut dest);
    assert_eq!(dest[0], 0x0028_323C);
    assert_eq!(viewer.clock.current_index, 0);
}

#[test]
fn downscale_produces_target_dimensions() {
    let seq = Sequence::Animated(vec![solid_frame(2, 2, 9, 8, 7, 10)]);
    let mut cache = ResizeCache::empty(1);
    cache.get_or_create(&seq, 0, 1, 1);
    let plane = cache.plane_at(0);
    assert_eq!(plane.width, 1);
    assert_eq!(plane.height, 1);
    assert_eq!(plane.data, vec![9, 8, 7]);
}

#[test]
fn zero_target_skips_render() {
    let seq = Sequence::Static(solid_plane(2, 2, 1, 1, 1));
    let mut viewer = Viewer::new(seq, 0).unwrap();
    let mut dest: Vec<u32> = Vec::new();
    let redraw = viewer.render(0, 5, 1, &mut dest);
    assert!(!redraw);
    assert!(dest.is_empty());
    assert_eq!(viewer.cache.width, 0);
    assert!(viewer.cache.entries.iter().all(|e| e.is_none()));
}

#[test]
fn new_rejects_malformed_sequences() {
    assert!(Viewer::new(Sequence::Animated(Vec::new()), 0).is_none());
    let bad_len = RgbaPlane {
        width: 2,
        height: 2,
        data: vec![0; 7],
    };
    assert!(Viewer::new(Sequence::Static(bad_len), 0).is_none());
    let zero_dim = RgbaPlane {
        width: 0,
        height: 3,
        data: Vec::new(),
    };
    assert!(Viewer::new(Sequence::Static(zero_dim), 0).is_none());
    assert!(Viewer::new(Sequence::Static(solid_plane(1, 1, 0, 0, 0)), 0).is_some());
}

#[test]
fn alpha_channel_is_dropped() {
    let src = RgbaPlane {
        width: 2,
        height: 1,
        data: vec![1, 2, 3, 4, 5, 6, 7, 8],
    };
    let rgb = rgba_plane_to_rgb(&src);
    assert_eq!(rgb.width, 2);
    assert_eq!(rgb.height, 1);
    assert_eq!(rgb.data, vec![1, 2, 3, 5, 6, 7]);
}
