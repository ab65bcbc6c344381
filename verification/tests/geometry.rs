//! Rectangles, sizes and titles.

use tacky_borders::geometry::{
    are_rects_same_size, as_unsigned, at_least_one, composition_side, make_room, room_fits,
    Appearance, Offset, Rect, Size,
};
use tacky_borders::headroom::{round_to_single, scale};
use tacky_borders::protocol::{BorderConfig, ZOrderMode};
use tacky_borders::render_backend::RenderBackendConfig;
use tacky_borders::title::window_title;
use tacky_borders::window_border::{BorderDrawer, WindowBorder};

fn sized(width: i32, height: i32, render_backend: RenderBackendConfig) -> WindowBorder {
    let mut border = WindowBorder::new(
        1,
        BorderConfig {
            initialize_delay: 0,
            unminimize_delay: 0,
            follow_native_border: false,
            z_order: ZOrderMode::AboveWindow,
            render_backend,
            radius_auto: false,
        },
        BorderDrawer { stroke_width: 0, fill_outer_corners: false },
    );
    border.window_rect = Rect { left: 10, top: 20, right: 10 + width, bottom: 20 + height };
    border
}

#[test]
fn headroom_is_that_of_single_precision() {
    let mut widths: Vec<u32> = (0..70_000).collect();
    let mut n: u32 = 1;
    while n < 0x4000_0000 {
        for d in 0..200 {
            widths.push(n * 2 - 1 - d.min(n));
            widths.push(n + d);
        }
        n *= 2;
    }
    let mut seed: u64 = 12345;
    for _ in 0..200_000 {
        seed = seed.wrapping_mul(6364136223846793005).wrapping_add(1442695040888963407);
        widths.push((seed >> 33) as u32);
    }
    widths.push(0x7fff_ffff);
    for width in widths {
        let width = width.min(0x7fff_ffff);
        assert_eq!(scale(width), (width as i32 as f32 * 1.2) as u32, "{width}");
    }
}

#[test]
fn integers_are_rounded_to_single_precision() {
    for n in [0u64, 1, 16_777_215, 16_777_216, 16_777_217, 16_777_219, 33_554_435, 0x7f_ffff_ffff_ffff] {
        assert_eq!(round_to_single(n), n as f32 as u64);
    }
}

#[test]
fn the_side_of_a_surface_has_headroom_in_blocks() {
    for (extent, side) in [
        (-5, 128),
        (0, 128),
        (1, 128),
        (106, 128),
        (107, 128),
        (108, 256),
        (800, 1024),
        (1920, 2304),
        (3840, 4608),
    ] {
        assert_eq!(composition_side(extent), side);
        assert!(composition_side(extent) >= at_least_one(extent));
        assert!(composition_side(extent) as i64 >= extent as i64 * 6 / 5);
    }
}

#[test]
fn the_sizes_of_the_two_renderers() {
    let border = sized(800, 600, RenderBackendConfig::V2);
    let size = border.calculate_target_renderer_size();
    assert_eq!(size, Size { width: 1024, height: 768 });
    assert_eq!(size, border.calculate_target_v2_renderer_size());
    assert!(!border.outgrows(size));
    assert!(!border.outgrows(Size { width: 800, height: 600 }));
    assert!(border.outgrows(Size { width: 799, height: 600 }));
    assert!(border.outgrows(Size { width: 800, height: 599 }));
    let border = sized(800, 600, RenderBackendConfig::Legacy);
    let size = border.calculate_target_renderer_size();
    assert_eq!(size, Size { width: 800, height: 600 });
    assert_eq!(size, border.calculate_target_legacy_renderer_size());
    assert!(!border.outgrows(size));
    assert!(border.outgrows(Size { width: 801, height: 600 }));
    // Negative extents are read as they are, and count as one pixel on a surface.
    let border = sized(-2, 0, RenderBackendConfig::Legacy);
    assert_eq!(
        border.calculate_target_renderer_size(),
        Size { width: 0xffff_fffe, height: 0 }
    );
    let border = sized(-2, 0, RenderBackendConfig::V2);
    assert_eq!(border.calculate_target_renderer_size(), Size { width: 128, height: 128 });
    assert!(border.outgrows(Size { width: 0, height: 1 }));
    assert!(!border.outgrows(Size { width: 1, height: 1 }));
}

#[test]
fn the_bounds_of_a_border_lie_within_its_window() {
    let mut border = sized(800, 600, RenderBackendConfig::V2);
    border.border_padding = 30;
    let bounds = border.compute_border_bounds();
    assert_eq!((bounds.padding, bounds.width, bounds.height), (30, 800, 600));
}

#[test]
fn room_is_made_on_each_side() {
    let look = Appearance {
        stroke_width: 4,
        offset: Offset { top: 1, left: 2, right: -3, bottom: 4 },
        padding: 10,
    };
    let frame = Rect { left: 100, top: 200, right: 300, bottom: 400 };
    assert!(room_fits(frame, look));
    assert_eq!(
        make_room(frame, look),
        Rect { left: 84, top: 185, right: 311, bottom: 418 }
    );
    let wide = Appearance { stroke_width: i32::MAX, ..look };
    assert!(!room_fits(frame, wide));
}

#[test]
fn rectangles_of_the_same_size() {
    let a = Rect { left: 0, top: 0, right: 10, bottom: 20 };
    let b = Rect { left: 5, top: 7, right: 15, bottom: 27 };
    assert!(are_rects_same_size(a, b));
    assert!(!are_rects_same_size(a, Rect { right: 16, ..b }));
    assert!(!are_rects_same_size(a, Rect { bottom: 26, ..b }));
    let all = Rect { left: i32::MIN, top: 0, right: i32::MAX, bottom: 20 };
    assert!(are_rects_same_size(all, all));
    assert!(!all.is_measurable());
    assert!(a.is_measurable() && (a.width(), a.height()) == (10, 20));
    let mut border = sized(1, 1, RenderBackendConfig::V2);
    assert!(border.is_well_formed());
    border.window_rect = all;
    assert!(!border.is_well_formed());
    assert_eq!(as_unsigned(-1), u32::MAX);
    assert_eq!(as_unsigned(7), 7);
}

#[test]
fn the_title_of_a_border_window() {
    for title in ["", "Untitled - Notepad", "\u{e4}\u{ffff}\u{10000}\u{1f600}\u{10ffff}"] {
        let expected: Vec<u16> =
            format!("tacky-border | {} | {}\0", title, "HWND(0x2a)").encode_utf16().collect();
        assert_eq!(window_title(title, "HWND(0x2a)"), expected);
    }
}
