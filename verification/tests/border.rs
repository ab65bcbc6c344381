//! Borders in conversation with a desktop.

use tacky_borders::call::{Call, Next};
use tacky_borders::geometry::{Appearance, Bounds, Offset, Rect, Size};
use tacky_borders::protocol::{
    position_flags, read_message, BorderConfig, ColorRules, ColorSource, ErrorCode, Focus, KomorebiColors,
    Message, MessageNumbers, Outcome, Posted, Radius, Reply, Request, Scope, Slot, Visibility, WindowFacts,
    WindowKind, ZOrderMode,
};
use tacky_borders::render_backend::{
    LegacyRenderBackend, Luid, RenderBackend, RenderBackendConfig, V2RenderBackend,
};
use tacky_borders::window_border::{BorderDrawer, Route, Tie, WindowBorder, WindowState};

const WINDOW: isize = 100;
const BORDER: isize = 200;

/// A desktop that answers from its fields and takes down what it was asked.
struct Desk {
    exists: bool,
    arranged: bool,
    border_visible: bool,
    facts: WindowFacts,
    frame: Reply,
    monitor: isize,
    dpi: Reply,
    above: Reply,
    below: Reply,
    active: isize,
    backend: RenderBackend,
    target_size: Size,
    fade: bool,
    radius_differs: bool,
    time: u64,
    focus: Focus,
    colors: ColorRules,
    config: BorderConfig,
    look: Appearance,
    enter: bool,
    adapter: Reply,
    probe: Reply,
    radius_auto: bool,
    region: isize,
    /// What fails, and how often it still does.
    failures: Vec<(fn(&Request) -> bool, ErrorCode, u32)>,
    log: Vec<Request>,
}

fn on_screen() -> WindowFacts {
    WindowFacts { native_border: true, visible: true, cloaked: false, minimized: false }
}

fn plain_config() -> BorderConfig {
    BorderConfig {
        initialize_delay: 0,
        unminimize_delay: 0,
        follow_native_border: true,
        z_order: ZOrderMode::AboveWindow,
        render_backend: RenderBackendConfig::V2,
        radius_auto: false,
    }
}

fn look(width: i32, offset: i32, padding: i32) -> Appearance {
    Appearance {
        stroke_width: width,
        offset: Offset { top: offset, left: offset, right: offset, bottom: offset },
        padding,
    }
}

fn v2(width: u32, height: u32) -> RenderBackend {
    RenderBackend::V2(V2RenderBackend {
        surface_size: Size { width, height },
        border_bitmap: false,
        mask_bitmap: false,
        adapter_luid: Luid { low_part: 1, high_part: 2 },
    })
}

fn no_colors() -> KomorebiColors {
    KomorebiColors { enabled: false, has_stack: false, has_monocle: false, has_floating: false }
}

impl Desk {
    fn new() -> Desk {
        Desk {
            exists: true,
            arranged: false,
            border_visible: true,
            facts: on_screen(),
            frame: Reply::Frame(Rect { left: 100, top: 50, right: 900, bottom: 650 }),
            monitor: 11,
            dpi: Reply::Dpi(96),
            above: Reply::Handle(BORDER),
            below: Reply::Handle(BORDER),
            active: WINDOW,
            backend: v2(1024, 768),
            target_size: Size { width: 1, height: 1 },
            fade: false,
            radius_differs: false,
            time: 1_000_000_000,
            focus: Focus::NoIntegration,
            colors: ColorRules { rule: None, global: no_colors(), rule_has_active: false },
            config: plain_config(),
            look: look(4, 1, 0),
            enter: true,
            adapter: Reply::Adapter(Luid { low_part: 1, high_part: 2 }),
            probe: Reply::Done,
            radius_auto: false,
            region: 5,
            failures: Vec::new(),
            log: Vec::new(),
        }
    }

    fn failing(mut self, what: fn(&Request) -> bool, code: ErrorCode, times: u32) -> Desk {
        self.failures.push((what, code, times));
        self
    }

    fn reply(&mut self, request: Request) -> Reply {
        self.log.push(request);
        for failure in self.failures.iter_mut() {
            if failure.2 > 0 && (failure.0)(&request) {
                failure.2 -= 1;
                return Reply::Failed(failure.1);
            }
        }
        match request {
            Request::Monitor => Reply::Handle(self.monitor),
            Request::Dpi { .. } => self.dpi,
            Request::ResolveConfig { .. } => Reply::Config(self.config, self.look),
            Request::Rescale { .. } => Reply::Appearance(self.look),
            Request::AdoptWidth { .. } => Reply::StrokeWidth(self.look.stroke_width),
            Request::AdoptOffset { .. } => Reply::Offset(self.look.offset),
            Request::AdoptRadius => Reply::Flag(self.radius_auto),
            Request::WindowExists => Reply::Flag(self.exists),
            Request::IsArranged => Reply::Flag(self.arranged),
            Request::BorderVisible => Reply::Flag(self.border_visible),
            Request::Look => Reply::Facts(self.facts),
            Request::FrameBounds => self.frame,
            Request::WindowAbove => self.above,
            Request::WindowBelow => self.below,
            Request::ActiveWindow => Reply::Handle(self.active),
            Request::ScreenWidth => Reply::ScreenWidth(1920),
            Request::CreateRegion { .. } => Reply::Handle(self.region),
            Request::Now => Reply::Time(self.time),
            Request::Backend => Reply::Backend(self.backend),
            Request::TargetPixelSize => Reply::Size(self.target_size),
            Request::InitDrawer { size, backend, .. } => {
                self.backend = match backend {
                    RenderBackendConfig::V2 => v2(size.width, size.height),
                    RenderBackendConfig::Legacy => {
                        RenderBackend::Legacy(LegacyRenderBackend {})
                    }
                };
                Reply::Done
            }
            Request::UninitDrawer => {
                self.backend = RenderBackend::Absent;
                Reply::Done
            }
            Request::ResizeRenderer { size } => {
                if let RenderBackend::V2(backend) = &mut self.backend {
                    backend.surface_size = size;
                }
                self.target_size = size;
                Reply::Done
            }
            Request::HasFade { .. } => Reply::Flag(self.fade),
            Request::RadiusDiffers { .. } => Reply::Flag(self.radius_differs),
            Request::PrimaryAdapter => self.adapter,
            Request::ProbeTarget => self.probe,
            Request::EnterRecovery => Reply::Flag(self.enter),
            Request::KomorebiFocus => Reply::Focus(self.focus),
            Request::KomorebiColors => Reply::Colors(self.colors),
            _ => Reply::Done,
        }
    }

    fn run(&mut self, border: &mut WindowBorder, call: &mut Call, first: Next) -> Outcome {
        let mut next = first;
        loop {
            match next {
                Next::Return(outcome) => return outcome,
                Next::Ask(request) => {
                    let reply = self.reply(request);
                    assert!(border.accepts(reply));
                    next = border.resume(call, reply);
                }
            }
        }
    }

    fn send(&mut self, border: &mut WindowBorder, message: Message) -> Outcome {
        let mut call = Call::new();
        let first = border.wnd_proc(&mut call, message);
        self.run(border, &mut call, first)
    }

    fn count(&self, what: fn(&Request) -> bool) -> usize {
        self.log.iter().filter(|request| what(request)).count()
    }
}

fn is_render(request: &Request) -> bool {
    matches!(request, Request::Render { .. })
}

fn is_place(request: &Request) -> bool {
    matches!(request, Request::SetWindowPos { .. })
}

fn is_init(request: &Request) -> bool {
    matches!(request, Request::InitDrawer { .. })
}

fn is_resize(request: &Request) -> bool {
    matches!(request, Request::ResizeRenderer { .. })
}

fn is_close(request: &Request) -> bool {
    matches!(request, Request::Post { message: Posted::Close })
}

fn is_enter(request: &Request) -> bool {
    matches!(request, Request::EnterRecovery)
}

fn is_leave(request: &Request) -> bool {
    matches!(request, Request::LeaveRecovery)
}

fn fresh() -> WindowBorder {
    let mut border = WindowBorder::new(
        WINDOW,
        plain_config(),
        BorderDrawer { stroke_width: 0, fill_outer_corners: false },
    );
    assert_eq!(border.create_window(Ok(BORDER)), Ok(()));
    border
}

/// A border that is set up and shown.
fn ready(desk: &mut Desk) -> WindowBorder {
    let mut border = fresh();
    let mut call = Call::new();
    let first = border.init(&mut call);
    assert_eq!(desk.run(&mut border, &mut call, first), Ok(false));
    assert!(border.is_initialized);
    desk.log.clear();
    border
}

#[test]
fn a_new_border_has_no_window() {
    let border = WindowBorder::new(
        WINDOW,
        plain_config(),
        BorderDrawer { stroke_width: 3, fill_outer_corners: true },
    );
    assert_eq!(border.tracking_window, WINDOW);
    assert_eq!(border.border_window, 0);
    assert_eq!(border.window_state, WindowState::Active);
    assert_eq!(border.window_rect, Rect::default());
    assert_eq!(border.drawer.stroke_width, 3);
    assert!(!border.is_initialized && !border.is_paused && !border.is_raw_transferred);
    assert_eq!(border.last_reorder_time, None);
}

#[test]
fn a_window_that_cannot_be_made_is_not_taken_over() {
    let mut border = WindowBorder::new(
        WINDOW,
        plain_config(),
        BorderDrawer { stroke_width: 0, fill_outer_corners: false },
    );
    assert_eq!(border.create_window(Err(ErrorCode::AccessDenied)), Err(ErrorCode::AccessDenied));
    assert_eq!(border.border_window, 0);
}

#[test]
fn window_state_follows_the_focus() {
    let mut state = WindowState::default();
    assert_eq!(state, WindowState::Active);
    state.update(1, 2);
    assert_eq!(state, WindowState::Inactive);
    state.update(2, 2);
    assert_eq!(state, WindowState::Active);
}

#[test]
fn setting_up_without_a_delay_shows_the_border_at_once() {
    let mut desk = Desk::new();
    desk.backend = RenderBackend::Absent;
    let mut border = fresh();
    let mut call = Call::new();
    let first = border.init(&mut call);
    assert_eq!(desk.run(&mut border, &mut call, first), Ok(false));
    assert!(border.is_initialized);
    assert_eq!(border.current_monitor, 11);
    assert_eq!(border.current_dpi, 96);
    // The frame, 4 + 1 + 0 larger on each side.
    assert_eq!(border.window_rect, Rect { left: 95, top: 45, right: 905, bottom: 655 });
    let bounds = Bounds { padding: 0, width: 810, height: 610 };
    assert_eq!(
        desk.log,
        vec![
            Request::Monitor,
            Request::Dpi { monitor: 11 },
            Request::ResolveConfig { dpi: 96 },
            Request::IsArranged,
            Request::ScreenWidth,
            Request::CreateRegion { left: -1928, top: 0, right: -1927, bottom: 1 },
            Request::EnableBlur { region: Some(5) },
            Request::SetAlpha { alpha: 255 },
            Request::FrameBounds,
            Request::InitDrawer {
                size: Size { width: 1024, height: 768 },
                bounds,
                backend: RenderBackendConfig::V2,
            },
            Request::ActiveWindow,
            Request::HasFade { state: WindowState::Active },
            Request::SetOpacity { active: true, opaque: true },
            Request::SetOpacity { active: false, opaque: false },
            Request::FrameBounds,
            Request::Look,
            Request::WindowAbove,
            Request::SetWindowPos {
                insert_after: Some(BORDER),
                x: 95,
                y: 45,
                cx: 810,
                cy: 610,
                visibility: Visibility::Show,
                keep_z_order: true,
            },
            Request::Backend,
            Request::Backend,
            Request::IsArranged,
            Request::Render { bounds, state: WindowState::Active, fill_outer_corners: false },
            Request::SetAnimsTimer,
            Request::Look,
            Request::KomorebiFocus,
        ]
    );
}

#[test]
fn setting_up_with_a_delay_waits_for_the_timer() {
    let mut desk = Desk::new();
    desk.config.initialize_delay = 0x1_0000_00fa;
    let mut border = fresh();
    let mut call = Call::new();
    let first = border.init(&mut call);
    assert_eq!(desk.run(&mut border, &mut call, first), Ok(false));
    assert!(!border.is_initialized);
    assert_eq!(desk.log.last(), Some(&Request::SetTimer { id: 1, millis: 250 }));
    desk.log.clear();
    assert_eq!(desk.send(&mut border, Message::Timer { id: 1 }), Ok(false));
    assert!(border.is_initialized);
    assert_eq!(desk.log[0], Request::KillTimer { id: 1 });
    assert_eq!(desk.count(is_render), 1);
}

#[test]
fn setting_up_without_a_dpi_gives_up() {
    let mut desk = Desk::new();
    desk.dpi = Reply::Failed(ErrorCode::Other);
    let mut border = fresh();
    let mut call = Call::new();
    let first = border.init(&mut call);
    assert_eq!(desk.run(&mut border, &mut call, first), Err(ErrorCode::Other));
    assert!(border.is_paused);
    assert_eq!(desk.count(is_close), 1);
}

#[test]
fn a_region_that_cannot_be_made_is_left_out() {
    for region in [0, -1] {
        let mut desk = Desk::new();
        desk.region = region;
        let mut border = fresh();
        let mut call = Call::new();
        let first = border.complete_init(&mut call);
        assert_eq!(desk.run(&mut border, &mut call, first), Ok(false));
        assert_eq!(desk.log[2], Request::EnableBlur { region: None });
    }
}

#[test]
fn a_window_that_cannot_be_made_transparent_is_not_set_up() {
    let mut desk = Desk::new().failing(
        |request| matches!(request, Request::EnableBlur { .. }),
        ErrorCode::AccessDenied,
        1,
    );
    let mut border = fresh();
    let mut call = Call::new();
    let first = border.complete_init(&mut call);
    assert_eq!(desk.run(&mut border, &mut call, first), Err(ErrorCode::AccessDenied));
    assert!(!border.is_paused);
    assert_eq!(desk.log.len(), 3);
}

#[test]
fn a_window_minimized_from_the_start_is_dealt_with_by_a_message() {
    let mut desk = Desk::new();
    desk.facts.minimized = true;
    let mut border = fresh();
    let mut call = Call::new();
    let first = border.init(&mut call);
    assert_eq!(desk.run(&mut border, &mut call, first), Ok(false));
    assert_eq!(desk.count(is_place), 0);
    assert_eq!(
        desk.count(|request| matches!(request, Request::Post { message: Posted::MinimizeStart })),
        1
    );
}

#[test]
fn a_window_of_a_kind_of_its_own_is_dealt_with_by_a_message() {
    for (focus, posted) in [
        (Focus::NoIntegration, 0),
        (Focus::Unknown, 0),
        (Focus::Known(WindowKind::Single), 0),
        (Focus::Known(WindowKind::Unfocused), 0),
        (Focus::Known(WindowKind::Stack), 1),
        (Focus::Known(WindowKind::Monocle), 1),
        (Focus::Known(WindowKind::Floating), 1),
    ] {
        let mut desk = Desk::new();
        desk.focus = focus;
        let mut border = fresh();
        let mut call = Call::new();
        let first = border.init(&mut call);
        assert_eq!(desk.run(&mut border, &mut call, first), Ok(false));
        assert_eq!(
            desk.count(|request| matches!(request, Request::Post { message: Posted::Komorebi })),
            posted
        );
    }
}

#[test]
fn a_paused_border_only_notes_that_its_window_moved() {
    let mut desk = Desk::new();
    let mut border = ready(&mut desk);
    border.is_paused = true;
    assert_eq!(desk.send(&mut border, Message::LocationChange), Ok(false));
    assert!(border.has_pending_location);
    assert_eq!(desk.send(&mut border, Message::Animate), Ok(false));
    assert_eq!(desk.send(&mut border, Message::Timer { id: 3 }), Ok(false));
    assert_eq!(desk.log, vec![Request::KillTimer { id: 3 }]);
}

#[test]
fn a_border_that_is_not_initialized_only_notes_that_its_window_moved() {
    let mut desk = Desk::new();
    let mut border = fresh();
    assert_eq!(desk.send(&mut border, Message::LocationChange), Ok(false));
    assert!(border.has_pending_location);
    assert!(desk.log.is_empty());
}

#[test]
fn a_border_whose_window_is_gone_gives_up() {
    for message in [Message::LocationChange, Message::Reorder, Message::Foreground] {
        let mut desk = Desk::new();
        let mut border = ready(&mut desk);
        desk.exists = false;
        assert_eq!(desk.send(&mut border, message), Ok(false));
        assert!(border.is_paused);
        assert_eq!(
            desk.log,
            vec![
                Request::WindowExists,
                Request::DestroyAnimsTimer,
                Request::Post { message: Posted::Close },
            ]
        );
    }
}

#[test]
fn a_border_without_a_window_asks_none_to_close() {
    let mut desk = Desk::new();
    let mut border = ready(&mut desk);
    border.border_window = 0;
    desk.exists = false;
    assert_eq!(desk.send(&mut border, Message::Foreground), Ok(false));
    assert_eq!(desk.log, vec![Request::WindowExists, Request::DestroyAnimsTimer]);
}

#[test]
fn a_border_follows_a_window_that_moves() {
    let mut desk = Desk::new();
    let mut border = ready(&mut desk);
    desk.frame = Reply::Frame(Rect { left: 110, top: 60, right: 910, bottom: 660 });
    desk.border_visible = false;
    assert_eq!(desk.send(&mut border, Message::LocationChange), Ok(false));
    // The size is the same: nothing is drawn.
    assert_eq!(desk.count(is_render), 0);
    assert_eq!(
        desk.log[desk.log.len() - 2],
        Request::SetWindowPos {
            insert_after: Some(BORDER),
            x: 105,
            y: 55,
            cx: 810,
            cy: 610,
            visibility: Visibility::Show,
            keep_z_order: true,
        }
    );
    assert_eq!(desk.log.last(), Some(&Request::SetAnimsTimer));
}

#[test]
fn a_border_follows_a_window_that_grows() {
    let mut desk = Desk::new();
    let mut border = ready(&mut desk);
    // Within the headroom: drawn again, on the same surface.
    desk.frame = Reply::Frame(Rect { left: 100, top: 50, right: 1100, bottom: 650 });
    assert_eq!(desk.send(&mut border, Message::LocationChange), Ok(false));
    assert_eq!((desk.count(is_resize), desk.count(is_render)), (0, 1));
    desk.log.clear();
    // Beyond it: another surface. 1.2 times 1110 is 1332, which takes eleven blocks.
    desk.frame = Reply::Frame(Rect { left: 100, top: 50, right: 1200, bottom: 650 });
    assert_eq!(desk.send(&mut border, Message::LocationChange), Ok(false));
    assert_eq!((desk.count(is_resize), desk.count(is_render)), (1, 1));
    assert!(desk.log.contains(&Request::ResizeRenderer {
        size: Size { width: 1408, height: 768 }
    }));
}

#[test]
fn a_border_that_is_not_to_be_seen_is_hidden_without_a_pause() {
    let mut desk = Desk::new();
    let mut border = ready(&mut desk);
    desk.facts.native_border = false;
    assert_eq!(desk.send(&mut border, Message::LocationChange), Ok(false));
    assert!(!border.is_paused);
    assert_eq!(desk.count(is_render), 0);
    assert_eq!(desk.log.last(), Some(&Request::DestroyAnimsTimer));
    assert!(matches!(
        desk.log[desk.log.len() - 2],
        Request::SetWindowPos { visibility: Visibility::Hide, .. }
    ));
}

#[test]
fn another_monitor_with_another_dpi_rescales_the_border() {
    let mut desk = Desk::new();
    let mut border = ready(&mut desk);
    desk.monitor = 12;
    desk.dpi = Reply::Dpi(192);
    desk.look = look(8, 2, 3);
    assert_eq!(desk.send(&mut border, Message::LocationChange), Ok(false));
    assert_eq!(border.current_monitor, 12);
    assert_eq!(border.current_dpi, 192);
    assert_eq!(border.drawer.stroke_width, 8);
    assert_eq!(border.border_padding, 3);
    assert_eq!(border.window_rect, Rect { left: 87, top: 37, right: 913, bottom: 663 });
    assert!(desk.log.contains(&Request::Rescale { dpi: 192 }));
    assert!(desk.log.contains(&Request::InitEffects));
    assert_eq!(desk.count(is_render), 1);
}

#[test]
fn another_monitor_without_a_dpi_stops_the_border_from_following() {
    let mut desk = Desk::new();
    let mut border = ready(&mut desk);
    desk.monitor = 12;
    desk.dpi = Reply::Failed(ErrorCode::Other);
    assert_eq!(desk.send(&mut border, Message::LocationChange), Ok(false));
    assert_eq!(border.current_monitor, 12);
    assert_eq!(desk.log.last(), Some(&Request::Dpi { monitor: 12 }));
    assert_eq!(desk.count(is_place), 0);
}

#[test]
fn a_snapped_window_has_square_corners_until_it_is_released() {
    let mut desk = Desk::new();
    desk.config.radius_auto = true;
    let mut border = ready(&mut desk);
    assert!(!border.arranged_override_active);
    desk.arranged = true;
    desk.radius_differs = true;
    assert_eq!(desk.send(&mut border, Message::LocationChange), Ok(false));
    assert!(border.arranged_override_active);
    assert!(border.drawer.fill_outer_corners);
    assert!(desk.log.contains(&Request::SetRadius { radius: Radius::Square }));
    assert!(desk.log.contains(&Request::LockRadius));
    assert_eq!(desk.count(is_render), 1);
    desk.log.clear();
    desk.arranged = false;
    assert_eq!(desk.send(&mut border, Message::LocationChange), Ok(false));
    assert!(!border.arranged_override_active);
    assert!(desk.log.contains(&Request::UnlockRadius));
    assert!(desk.log.contains(&Request::SetRadius {
        radius: Radius::Configured { stroke_width: 4, dpi: 96 }
    }));
    assert_eq!(desk.count(is_render), 1);
}

#[test]
fn a_radius_of_its_own_is_kept_when_the_window_is_snapped() {
    let mut desk = Desk::new();
    let mut border = ready(&mut desk);
    desk.arranged = true;
    assert_eq!(desk.send(&mut border, Message::LocationChange), Ok(false));
    assert!(!border.arranged_override_active);
    assert!(border.drawer.fill_outer_corners);
    assert!(!desk.log.contains(&Request::LockRadius));
    // The corners are filled now: that is drawn.
    assert_eq!(desk.count(is_render), 1);
}

#[test]
fn a_border_whose_bounds_are_unknown_gives_up_but_goes_through() {
    let mut desk = Desk::new();
    let mut border = ready(&mut desk);
    desk.frame = Reply::Failed(ErrorCode::Other);
    assert_eq!(desk.send(&mut border, Message::LocationChange), Ok(false));
    assert!(border.is_paused);
    assert_eq!(desk.count(is_close), 1);
    assert_eq!(desk.count(is_place), 1);
}

#[test]
fn a_border_goes_to_the_top_where_nothing_lies_above_its_window() {
    let mut desk = Desk::new();
    let mut border = ready(&mut desk);
    desk.above = Reply::Failed(ErrorCode::Other);
    assert_eq!(desk.send(&mut border, Message::Foreground), Ok(false));
    assert!(desk.log.iter().any(|request| matches!(
        request,
        Request::SetWindowPos { insert_after: Some(0), keep_z_order: false, .. }
    )));
}

#[test]
fn a_border_below_its_window_is_put_behind_it() {
    let mut desk = Desk::new();
    desk.config.z_order = ZOrderMode::BelowWindow;
    let mut border = ready(&mut desk);
    assert_eq!(desk.send(&mut border, Message::Foreground), Ok(false));
    assert!(!desk.log.contains(&Request::WindowAbove));
    assert!(desk.log.iter().any(|request| matches!(
        request,
        Request::SetWindowPos { insert_after: Some(WINDOW), keep_z_order: false, .. }
    )));
}

#[test]
fn a_border_that_is_denied_its_order_is_moved_without_it() {
    let mut desk = Desk::new().failing(is_place, ErrorCode::AccessDenied, 1);
    desk.failures[0].2 = 0;
    let mut border = ready(&mut desk);
    desk.failures[0].2 = 1;
    desk.above = Reply::Handle(77);
    assert_eq!(desk.send(&mut border, Message::HideCloaked), Ok(false));
    let rect = border.window_rect;
    let place = |insert_after, keep_z_order| Request::SetWindowPos {
        insert_after,
        x: rect.left,
        y: rect.top,
        cx: rect.right - rect.left,
        cy: rect.bottom - rect.top,
        visibility: Visibility::Hide,
        keep_z_order,
    };
    assert_eq!(
        desk.log,
        vec![
            Request::WindowAbove,
            place(Some(77), false),
            place(None, true),
            Request::DestroyAnimsTimer,
        ]
    );
}

#[test]
fn a_border_that_is_denied_twice_gives_up() {
    let mut desk = Desk::new().failing(is_place, ErrorCode::AccessDenied, 0);
    let mut border = ready(&mut desk);
    desk.failures[0].2 = 2;
    assert_eq!(desk.send(&mut border, Message::HideCloaked), Ok(false));
    assert_eq!(desk.count(is_place), 2);
    assert_eq!(desk.count(is_close), 1);
}

#[test]
fn a_border_that_cannot_be_moved_for_another_reason_gives_up() {
    let mut desk = Desk::new().failing(is_place, ErrorCode::Other, 0);
    let mut border = ready(&mut desk);
    desk.failures[0].2 = 1;
    assert_eq!(desk.send(&mut border, Message::HideCloaked), Ok(false));
    assert_eq!(desk.count(is_place), 1);
    assert_eq!(desk.count(is_close), 1);
}

#[test]
fn hidden_and_minimized_windows_pause_their_border() {
    let mut desk = Desk::new();
    let mut border = ready(&mut desk);
    assert_eq!(desk.send(&mut border, Message::HideCloaked), Ok(false));
    assert!(border.is_paused);
    let mut border = ready(&mut desk);
    assert_eq!(desk.send(&mut border, Message::MinimizeStart), Ok(false));
    assert!(border.is_paused);
    assert!(desk.log.contains(&Request::SetOpacity { active: true, opaque: false }));
    assert!(desk.log.contains(&Request::SetOpacity { active: false, opaque: false }));
    assert_eq!(desk.log.last(), Some(&Request::DestroyAnimsTimer));
    let mut border = fresh();
    desk.log.clear();
    assert_eq!(desk.send(&mut border, Message::MinimizeStart), Ok(false));
    assert!(border.is_paused);
    assert!(!desk.log.contains(&Request::SetOpacity { active: true, opaque: false }));
}

#[test]
fn a_restored_window_ends_the_pause() {
    let mut desk = Desk::new();
    let mut border = ready(&mut desk);
    assert_eq!(desk.send(&mut border, Message::MinimizeStart), Ok(false));
    assert_eq!(desk.send(&mut border, Message::LocationChange), Ok(false));
    assert!(border.is_paused && border.has_pending_location);
    desk.log.clear();
    assert_eq!(desk.send(&mut border, Message::MinimizeEnd), Ok(false));
    assert!(!border.is_paused && !border.has_pending_location);
    assert_eq!(desk.count(is_render), 1);
    assert!(desk.log.contains(&Request::SetTimer { id: 3, millis: 250 }));
}

#[test]
fn a_restored_window_can_be_waited_for() {
    let mut desk = Desk::new();
    desk.config.unminimize_delay = 150;
    let mut border = ready(&mut desk);
    assert_eq!(desk.send(&mut border, Message::MinimizeStart), Ok(false));
    desk.log.clear();
    assert_eq!(desk.send(&mut border, Message::MinimizeEnd), Ok(false));
    assert!(border.is_paused);
    assert_eq!(desk.log, vec![Request::Look, Request::SetTimer { id: 2, millis: 150 }]);
    assert_eq!(desk.send(&mut border, Message::Timer { id: 2 }), Ok(false));
    assert!(!border.is_paused);
}

#[test]
fn a_window_that_is_restored_out_of_sight_changes_nothing() {
    let mut desk = Desk::new();
    let mut border = ready(&mut desk);
    border.is_paused = true;
    desk.facts.cloaked = true;
    assert_eq!(desk.send(&mut border, Message::MinimizeEnd), Ok(false));
    assert_eq!(desk.send(&mut border, Message::ShowUncloaked), Ok(false));
    assert!(border.is_paused);
    assert_eq!(desk.log, vec![Request::Look, Request::Look]);
}

#[test]
fn a_window_that_is_shown_ends_the_pause() {
    let mut desk = Desk::new();
    let mut border = ready(&mut desk);
    border.is_paused = true;
    assert_eq!(desk.send(&mut border, Message::ShowUncloaked), Ok(false));
    assert!(!border.is_paused);
    assert_eq!(desk.count(is_render), 1);
    // Without a native border nothing is shown, but the pause ends.
    border.is_paused = true;
    desk.facts.native_border = false;
    desk.log.clear();
    assert_eq!(desk.send(&mut border, Message::ShowUncloaked), Ok(false));
    assert!(!border.is_paused);
    assert_eq!(desk.log, vec![Request::Look, Request::Look]);
}

#[test]
fn a_restored_window_is_looked_at_again_when_it_has_come_to_rest() {
    let mut desk = Desk::new();
    let mut border = ready(&mut desk);
    desk.frame = Reply::Frame(Rect { left: 100, top: 50, right: 901, bottom: 650 });
    assert_eq!(desk.send(&mut border, Message::Timer { id: 3 }), Ok(false));
    assert_eq!(border.window_rect.right, 906);
    assert_eq!(desk.count(is_render), 1);
    assert!(!desk.log.contains(&Request::SetAnimsTimer));
    desk.log.clear();
    assert_eq!(desk.send(&mut border, Message::Timer { id: 3 }), Ok(false));
    assert_eq!(desk.count(is_render), 0);
    assert_eq!(desk.count(is_place), 1);
    desk.log.clear();
    desk.facts.visible = false;
    assert_eq!(desk.send(&mut border, Message::Timer { id: 3 }), Ok(false));
    assert_eq!(desk.log, vec![Request::KillTimer { id: 3 }, Request::Look]);
}

#[test]
fn an_unknown_timer_is_ignored() {
    let mut desk = Desk::new();
    let mut border = ready(&mut desk);
    assert_eq!(desk.send(&mut border, Message::Timer { id: 9 }), Ok(false));
    assert!(desk.log.is_empty());
}

#[test]
fn reorders_are_debounced_after_the_first_few() {
    let mut desk = Desk::new();
    let mut border = ready(&mut desk);
    assert_eq!(desk.send(&mut border, Message::Reorder), Ok(false));
    assert_eq!(border.last_reorder_time, Some(1_000_000_000));
    assert_eq!(
        desk.log,
        vec![
            Request::WindowExists,
            Request::DrainReorders,
            Request::WindowAbove,
            Request::Now,
        ]
    );
    // Seven more within the delay are dealt with at once.
    for i in 1..8u64 {
        desk.log.clear();
        desk.time += 1_000_000;
        assert_eq!(desk.send(&mut border, Message::Reorder), Ok(false));
        assert_eq!(border.consecutive_reorders, i);
        assert!(desk.log.contains(&Request::WindowAbove));
    }
    // The next one starts the timer, for what is left of the delay.
    desk.log.clear();
    desk.time += 5_500_000;
    assert_eq!(desk.send(&mut border, Message::Reorder), Ok(false));
    assert!(border.is_debouncing_reorder);
    assert_eq!(desk.log.last(), Some(&Request::SetTimer { id: 0, millis: 10 }));
    // Others are only counted.
    desk.log.clear();
    assert_eq!(desk.send(&mut border, Message::Reorder), Ok(false));
    assert_eq!(border.consecutive_reorders, 9);
    assert_eq!(
        desk.log,
        vec![Request::WindowExists, Request::DrainReorders, Request::Now]
    );
    // The timer ends it.
    desk.log.clear();
    desk.above = Reply::Handle(77);
    assert_eq!(desk.send(&mut border, Message::Timer { id: 0 }), Ok(false));
    assert!(!border.is_debouncing_reorder);
    assert_eq!(border.consecutive_reorders, 0);
    assert_eq!(desk.log[0], Request::KillTimer { id: 0 });
    assert_eq!(desk.count(is_place), 1);
    // After a pause the count begins anew.
    border.consecutive_reorders = 5;
    desk.time += 16_000_000;
    assert_eq!(desk.send(&mut border, Message::Reorder), Ok(false));
    assert_eq!(border.consecutive_reorders, 0);
}

#[test]
fn a_border_below_its_window_looks_for_itself_below() {
    let mut desk = Desk::new();
    desk.config.z_order = ZOrderMode::BelowWindow;
    let mut border = ready(&mut desk);
    assert_eq!(desk.send(&mut border, Message::Reorder), Ok(false));
    assert!(desk.log.contains(&Request::WindowBelow));
    assert_eq!(desk.count(is_place), 0);
    desk.below = Reply::Failed(ErrorCode::Other);
    assert_eq!(desk.send(&mut border, Message::Reorder), Ok(false));
    assert_eq!(desk.count(is_place), 1);
}

#[test]
fn the_focus_decides_which_brush_is_seen() {
    let mut desk = Desk::new();
    let mut border = ready(&mut desk);
    desk.active = 5;
    assert_eq!(desk.send(&mut border, Message::Foreground), Ok(false));
    assert_eq!(border.window_state, WindowState::Inactive);
    assert_eq!(
        desk.log[1..5],
        [
            Request::ActiveWindow,
            Request::HasFade { state: WindowState::Inactive },
            Request::SetOpacity { active: false, opaque: true },
            Request::SetOpacity { active: true, opaque: false },
        ]
    );
    // A fade takes care of the brushes by itself.
    desk.fade = true;
    desk.log.clear();
    assert_eq!(desk.send(&mut border, Message::Foreground), Ok(false));
    assert_eq!(
        desk.count(|request| matches!(request, Request::SetOpacity { .. })),
        0
    );
    // Unless there was no delay in which it could have been seen.
    desk.log.clear();
    let mut call = Call::new();
    let first = border.complete_unminimize(&mut call);
    assert_eq!(desk.run(&mut border, &mut call, first), Ok(false));
    assert_eq!(
        desk.count(|request| matches!(request, Request::SetOpacity { .. })),
        2
    );
    assert!(desk.log.contains(&Request::UpdateFadeProgress { state: WindowState::Inactive }));
}

#[test]
fn a_renderer_is_made_again_when_the_adapter_changed() {
    for code in [ErrorCode::RecreateTarget, ErrorCode::DeviceRemoved] {
        let mut desk = Desk::new().failing(is_render, code, 0);
        let mut border = ready(&mut desk);
        desk.failures[0].2 = 1;
        desk.adapter = Reply::Adapter(Luid { low_part: 3, high_part: 4 });
        let mut call = Call::new();
        let first = border.render(&mut call);
        assert_eq!(desk.run(&mut border, &mut call, first), Ok(false));
        assert_eq!((desk.count(is_enter), desk.count(is_leave)), (1, 1));
        assert_eq!(desk.count(|request| matches!(request, Request::RecreateDevices)), 1);
        assert_eq!(desk.count(is_init), 1);
        // The one that failed, the one in the recovery, and the second try.
        assert_eq!(desk.count(is_render), 3);
        assert!(!border.is_paused);
    }
}

#[test]
fn a_renderer_on_the_right_adapter_is_kept() {
    let mut desk = Desk::new().failing(is_render, ErrorCode::RecreateTarget, 0);
    let mut border = ready(&mut desk);
    desk.failures[0].2 = 1;
    let mut call = Call::new();
    let first = border.render(&mut call);
    assert_eq!(desk.run(&mut border, &mut call, first), Ok(false));
    assert_eq!(desk.count(is_init), 0);
    assert_eq!(desk.count(is_render), 2);
}

#[test]
fn a_recovery_does_not_begin_another() {
    let mut desk = Desk::new().failing(is_render, ErrorCode::DeviceRemoved, 0);
    let mut border = ready(&mut desk);
    desk.failures[0].2 = 2;
    desk.adapter = Reply::Adapter(Luid { low_part: 3, high_part: 4 });
    let mut call = Call::new();
    let first = border.render(&mut call);
    assert_eq!(desk.run(&mut border, &mut call, first), Err(ErrorCode::Reentrancy));
    assert_eq!((desk.count(is_enter), desk.count(is_leave)), (1, 1));
    // That will pass.
    assert_eq!(desk.count(is_close), 0);
    assert!(!border.is_paused);
}

#[test]
fn a_recovery_that_cannot_be_entered_fails_for_now() {
    let mut desk = Desk::new().failing(is_resize, ErrorCode::RecreateTarget, 0);
    let mut border = ready(&mut desk);
    desk.failures[0].2 = 1;
    desk.enter = false;
    assert_eq!(desk.send(&mut border, Message::SetOffset), Ok(false));
    assert_eq!((desk.count(is_enter), desk.count(is_leave)), (1, 0));
    assert_eq!(desk.count(is_close), 0);
}

#[test]
fn devices_that_cannot_be_made_again_end_a_border() {
    let mut desk = Desk::new()
        .failing(is_render, ErrorCode::DeviceRemoved, 0)
        .failing(|request| matches!(request, Request::RecreateDevices), ErrorCode::Other, 1);
    let mut border = ready(&mut desk);
    desk.failures[0].2 = 1;
    let mut call = Call::new();
    let first = border.render(&mut call);
    assert_eq!(desk.run(&mut border, &mut call, first), Err(ErrorCode::Other));
    assert_eq!((desk.count(is_enter), desk.count(is_leave)), (1, 1));
    assert_eq!(desk.count(is_close), 1);
}

#[test]
fn missing_things_are_worth_another_try() {
    let mut desk = Desk::new().failing(is_render, ErrorCode::Uninit, 0);
    let mut border = ready(&mut desk);
    desk.failures[0].2 = 1;
    let mut call = Call::new();
    let first = border.render(&mut call);
    assert_eq!(desk.run(&mut border, &mut call, first), Ok(false));
    assert_eq!(desk.count(is_render), 2);
    assert_eq!(desk.count(is_enter), 0);
    desk.failures[0].2 = 2;
    let first = border.render(&mut call);
    assert_eq!(desk.run(&mut border, &mut call, first), Err(ErrorCode::Uninit));
    assert_eq!(desk.count(is_close), 0);
}

#[test]
fn other_failures_of_the_renderer_are_final() {
    let mut desk = Desk::new().failing(is_render, ErrorCode::AccessDenied, 0);
    let mut border = ready(&mut desk);
    desk.failures[0].2 = 1;
    let mut call = Call::new();
    let first = border.render(&mut call);
    assert_eq!(desk.run(&mut border, &mut call, first), Err(ErrorCode::Failed));
    assert_eq!(desk.count(is_render), 1);
    assert_eq!(desk.count(is_close), 1);
    assert!(border.is_paused);
}

#[test]
fn the_target_of_a_legacy_renderer_has_the_size_of_the_window() {
    let mut desk = Desk::new();
    desk.config.render_backend = RenderBackendConfig::Legacy;
    desk.backend = RenderBackend::Absent;
    let mut border = ready(&mut desk);
    let size = Size { width: 810, height: 610 };
    // Of another size: the renderer is resized.
    let mut call = Call::new();
    let first = border.render(&mut call);
    desk.target_size = Size { width: 1, height: 1 };
    assert_eq!(desk.run(&mut border, &mut call, first), Ok(false));
    assert!(desk.log.contains(&Request::ResizeRenderer { size }));
    // Of the right size: the target is given it all the same.
    desk.log.clear();
    desk.target_size = size;
    let first = border.render(&mut call);
    assert_eq!(desk.run(&mut border, &mut call, first), Ok(false));
    assert_eq!(
        desk.log[..4],
        [
            Request::Backend,
            Request::TargetPixelSize,
            Request::Backend,
            Request::ResizeTarget { size },
        ]
    );
}

#[test]
fn a_legacy_renderer_that_no_longer_works_is_made_again() {
    let mut desk = Desk::new();
    desk.config.render_backend = RenderBackendConfig::Legacy;
    desk.backend = RenderBackend::Absent;
    let mut border = ready(&mut desk);
    assert_eq!(desk.send(&mut border, Message::RecreateDrawer), Ok(false));
    assert_eq!(desk.count(is_init), 0);
    desk.probe = Reply::Failed(ErrorCode::Other);
    assert_eq!(desk.send(&mut border, Message::RecreateDrawer), Ok(false));
    assert_eq!(desk.count(is_init), 1);
}

#[test]
fn an_unknown_adapter_ends_a_border() {
    let mut desk = Desk::new();
    let mut border = ready(&mut desk);
    desk.adapter = Reply::Failed(ErrorCode::Other);
    assert_eq!(desk.send(&mut border, Message::RecreateDrawer), Ok(false));
    assert_eq!(desk.count(is_close), 1);
    assert_eq!(desk.count(is_init), 0);
}

#[test]
fn only_a_change_of_the_device_tree_is_handled() {
    let mut desk = Desk::new();
    let mut border = ready(&mut desk);
    assert_eq!(desk.send(&mut border, Message::DeviceChange { wparam: 0x8000 }), Ok(true));
    assert!(desk.log.is_empty());
    assert_eq!(desk.send(&mut border, Message::DeviceChange { wparam: 7 }), Ok(false));
    assert_eq!(
        desk.log,
        vec![Request::RecreateDevices, Request::Backend, Request::PrimaryAdapter]
    );
    // Only the low 32 bits count.
    assert_eq!(
        desk.send(&mut border, Message::DeviceChange { wparam: 0x1_0000_0007 }),
        Ok(false)
    );
}

#[test]
fn the_renderer_is_given_up_while_the_system_sleeps() {
    let mut desk = Desk::new();
    let mut border = ready(&mut desk);
    assert_eq!(desk.send(&mut border, Message::PowerBroadcast { wparam: 4 }), Ok(false));
    assert_eq!(desk.log, vec![Request::DestroyAnimsTimer, Request::UninitDrawer]);
    for wparam in [7, 18] {
        desk.log.clear();
        desk.backend = RenderBackend::Absent;
        assert_eq!(desk.send(&mut border, Message::PowerBroadcast { wparam }), Ok(false));
        assert_eq!(desk.count(is_init), 1);
        assert_eq!(desk.count(is_render), 1);
    }
    // One that is still there is kept.
    desk.log.clear();
    assert_eq!(desk.send(&mut border, Message::PowerBroadcast { wparam: 18 }), Ok(false));
    assert_eq!(desk.log, vec![Request::Backend]);
    desk.log.clear();
    assert_eq!(desk.send(&mut border, Message::PowerBroadcast { wparam: 10 }), Ok(false));
    assert!(desk.log.is_empty());
}

#[test]
fn a_border_that_cannot_wake_up_gives_up() {
    let mut desk = Desk::new().failing(is_init, ErrorCode::Other, 0);
    let mut border = ready(&mut desk);
    desk.failures[0].2 = 1;
    desk.backend = RenderBackend::Absent;
    assert_eq!(desk.send(&mut border, Message::PowerBroadcast { wparam: 18 }), Ok(false));
    // Once because the renderer cannot be made, once because the border cannot wake up.
    assert_eq!(desk.count(is_close), 2);
    assert_eq!(desk.count(is_render), 0);
}

#[test]
fn a_brush_is_only_made_ready_with_a_renderer() {
    let mut desk = Desk::new();
    let mut border = ready(&mut desk);
    let message = Message::SetColors { active: true, inactive: true };
    assert_eq!(desk.send(&mut border, message), Ok(false));
    let bounds = Bounds { padding: 0, width: 810, height: 610 };
    assert_eq!(
        desk.log[..6],
        [
            Request::ReplaceBrush { active: true, source: ColorSource::Message },
            Request::Backend,
            Request::InitBrush { active: true, bounds },
            Request::ReplaceBrush { active: false, source: ColorSource::Message },
            Request::Backend,
            Request::InitBrush { active: false, bounds },
        ]
    );
    assert_eq!(desk.count(is_render), 1);
    desk.log.clear();
    desk.backend = RenderBackend::Absent;
    let message = Message::SetColors { active: false, inactive: true };
    assert_eq!(desk.send(&mut border, message), Ok(false));
    assert_eq!(
        desk.count(|request| matches!(request, Request::InitBrush { .. })),
        0
    );
}

#[test]
fn a_new_width_changes_the_place_of_the_border() {
    let mut desk = Desk::new();
    let mut border = ready(&mut desk);
    desk.look = look(10, 1, 0);
    assert_eq!(desk.send(&mut border, Message::SetWidth), Ok(false));
    assert_eq!(border.drawer.stroke_width, 10);
    assert_eq!(border.window_rect, Rect { left: 89, top: 39, right: 911, bottom: 661 });
    assert_eq!(desk.log[0], Request::AdoptWidth { dpi: 96 });
    assert_eq!((desk.count(is_resize), desk.count(is_place), desk.count(is_render)), (1, 1, 1));
}

#[test]
fn a_new_offset_changes_the_place_of_the_border() {
    let mut desk = Desk::new();
    let mut border = ready(&mut desk);
    desk.look.offset = Offset { top: 1, left: 2, right: 3, bottom: 4 };
    assert_eq!(desk.send(&mut border, Message::SetOffset), Ok(false));
    assert_eq!(border.window_rect, Rect { left: 94, top: 45, right: 907, bottom: 658 });
    assert_eq!(desk.log[0], Request::AdoptOffset { dpi: 96 });
}

#[test]
fn a_new_radius_is_drawn() {
    let mut desk = Desk::new();
    let mut border = ready(&mut desk);
    desk.radius_auto = true;
    desk.arranged = true;
    assert_eq!(desk.send(&mut border, Message::SetRadius), Ok(false));
    assert!(border.config.radius_auto);
    assert!(border.arranged_override_active);
    assert_eq!(desk.count(is_render), 1);
}

#[test]
fn a_display_change_is_drawn_if_it_changes_a_visible_border() {
    let mut desk = Desk::new();
    let mut border = ready(&mut desk);
    assert_eq!(desk.send(&mut border, Message::DisplayChange), Ok(false));
    assert_eq!(desk.count(is_render), 0);
    desk.dpi = Reply::Dpi(144);
    assert_eq!(desk.send(&mut border, Message::DisplayChange), Ok(false));
    assert_eq!(desk.count(is_render), 1);
    desk.dpi = Reply::Dpi(96);
    desk.border_visible = false;
    assert_eq!(desk.send(&mut border, Message::DisplayChange), Ok(false));
    assert_eq!(desk.count(is_render), 1);
    assert_eq!(border.current_dpi, 96);
    // Without a renderer it cannot be told whether it has to be resized.
    desk.log.clear();
    desk.backend = RenderBackend::Absent;
    assert_eq!(desk.send(&mut border, Message::DisplayChange), Ok(false));
    assert_eq!(desk.log, vec![Request::Dpi { monitor: 11 }, Request::Backend]);
}

#[test]
fn a_dpi_change_reads_the_low_word() {
    let mut desk = Desk::new();
    let mut border = ready(&mut desk);
    assert_eq!(desk.send(&mut border, Message::DpiChanged { wparam: 0x0060_0060 }), Ok(false));
    assert!(desk.log.is_empty());
    assert_eq!(desk.send(&mut border, Message::DpiChanged { wparam: 0x0078_0090 }), Ok(false));
    assert_eq!(border.current_dpi, 144);
    assert_eq!(desk.log[0], Request::Rescale { dpi: 144 });
    assert_eq!((desk.count(is_resize), desk.count(is_render)), (1, 1));
}

#[test]
fn the_tiling_window_manager_decides_about_colors() {
    let all = KomorebiColors { enabled: true, has_stack: true, has_monocle: true, has_floating: true };
    let none = KomorebiColors { enabled: true, ..no_colors() };
    let config = |scope, slot| Some(ColorSource::Config { scope, slot });
    for (rule, rule_has_active, kind, source) in [
        (None, false, WindowKind::Single, config(Scope::Global, Slot::Active)),
        (None, true, WindowKind::Single, config(Scope::Rule, Slot::Active)),
        (None, true, WindowKind::Stack, config(Scope::Global, Slot::Stack)),
        (Some(all), false, WindowKind::Monocle, config(Scope::Rule, Slot::Monocle)),
        (Some(all), false, WindowKind::Floating, config(Scope::Rule, Slot::Floating)),
        (Some(none), false, WindowKind::Stack, config(Scope::Global, Slot::Active)),
        (Some(none), true, WindowKind::Monocle, config(Scope::Rule, Slot::Active)),
        (Some(none), true, WindowKind::Floating, config(Scope::Rule, Slot::Active)),
        (None, false, WindowKind::Unfocused, None),
        (Some(no_colors()), false, WindowKind::Single, None),
    ] {
        let mut desk = Desk::new();
        let mut border = ready(&mut desk);
        desk.colors = ColorRules { rule, global: all, rule_has_active };
        desk.focus = Focus::Known(kind);
        assert_eq!(desk.send(&mut border, Message::Komorebi), Ok(false));
        let replaced = desk.log.iter().find_map(|request| match request {
            Request::ReplaceBrush { active: true, source } => Some(*source),
            _ => None,
        });
        assert_eq!(replaced, source);
        assert_eq!(desk.count(is_render), if source.is_some() { 1 } else { 0 });
    }
}

#[test]
fn a_window_unknown_to_the_tiling_window_manager_counts_as_single() {
    let mut desk = Desk::new();
    let mut border = ready(&mut desk);
    desk.colors.global.enabled = true;
    desk.focus = Focus::Unknown;
    assert_eq!(desk.send(&mut border, Message::Komorebi), Ok(false));
    assert_eq!(
        desk.log[2],
        Request::ReplaceBrush {
            active: true,
            source: ColorSource::Config { scope: Scope::Global, slot: Slot::Active },
        }
    );
    desk.log.clear();
    desk.focus = Focus::NoIntegration;
    assert_eq!(desk.send(&mut border, Message::Komorebi), Ok(false));
    assert_eq!(desk.log, vec![Request::KomorebiColors, Request::KomorebiFocus]);
}

#[test]
fn the_animations_are_drawn_with_the_corners_of_the_moment() {
    let mut desk = Desk::new();
    let mut border = ready(&mut desk);
    desk.arranged = true;
    assert_eq!(desk.send(&mut border, Message::Animate), Ok(false));
    assert!(border.drawer.fill_outer_corners);
    assert_eq!(
        desk.log,
        vec![
            Request::IsArranged,
            Request::Animate {
                bounds: Bounds { padding: 0, width: 810, height: 610 },
                state: WindowState::Active,
                fill_outer_corners: true,
            },
        ]
    );
}

#[test]
fn messages_of_the_window_itself() {
    let mut desk = Desk::new();
    let mut border = ready(&mut desk);
    assert_eq!(desk.send(&mut border, Message::Paint), Ok(false));
    assert_eq!(desk.send(&mut border, Message::Close), Ok(false));
    assert_eq!(desk.send(&mut border, Message::WindowPosChange), Ok(false));
    assert_eq!(desk.send(&mut border, Message::Other), Ok(true));
    assert_eq!(desk.log, vec![Request::ValidatePaint, Request::DestroyWindow]);
}

#[test]
fn calls_can_be_nested() {
    // While the border is being moved, its window is sent a message.
    let mut desk = Desk::new();
    let mut border = ready(&mut desk);
    let mut outer = Call::new();
    let mut next = border.wnd_proc(&mut outer, Message::HideCloaked);
    while let Next::Ask(request) = next {
        if is_place(&request) {
            let reply = desk.reply(request);
            assert_eq!(desk.send(&mut border, Message::MinimizeEnd), Ok(false));
            assert!(!border.is_paused);
            next = border.resume(&mut outer, reply);
        } else {
            let reply = desk.reply(request);
            next = border.resume(&mut outer, reply);
        }
    }
    assert_eq!(next, Next::Return(Ok(false)));
    assert!(border.is_paused);
}

#[test]
fn replies_that_do_not_fit_a_machine_word_are_refused() {
    let mut desk = Desk::new();
    let mut border = ready(&mut desk);
    assert!(!border.accepts(Reply::Frame(Rect {
        left: i32::MIN,
        top: 0,
        right: 0,
        bottom: 0,
    })));
    assert!(!border.accepts(Reply::Frame(Rect {
        left: -2_000_000_000,
        top: 0,
        right: 2_000_000_000,
        bottom: 0,
    })));
    assert!(border.accepts(Reply::Frame(Rect { left: -5, top: 0, right: 0, bottom: 0 })));
    assert!(border.accepts(Reply::ScreenWidth(i32::MAX - 7)));
    assert!(!border.accepts(Reply::ScreenWidth(i32::MAX - 6)));
    assert!(!border.accepts(Reply::ScreenWidth(i32::MIN)));
    border.consecutive_reorders = u64::MAX;
    assert!(!border.accepts(Reply::Time(0)));
    assert!(border.accepts(Reply::Done));
}

#[test]
fn a_window_keeps_its_border_until_it_is_gone() {
    assert_eq!(WindowBorder::s_wnd_proc(0, Tie::Unrelated), (None, Route::Default));
    assert_eq!(
        WindowBorder::s_wnd_proc(0, Tie::Create { border: 64 }),
        (Some(64), Route::Border(64))
    );
    assert_eq!(
        WindowBorder::s_wnd_proc(64, Tie::Create { border: 65 }),
        (None, Route::Border(64))
    );
    assert_eq!(WindowBorder::s_wnd_proc(64, Tie::Unrelated), (None, Route::Border(64)));
    assert_eq!(WindowBorder::s_wnd_proc(64, Tie::Destroyed), (Some(0), Route::Release(64)));
    assert_eq!(WindowBorder::s_wnd_proc(0, Tie::Destroyed), (Some(0), Route::Default));
    assert_eq!(
        WindowBorder::s_wnd_proc(0, Tie::Create { border: 0 }),
        (Some(0), Route::Default)
    );
}

#[test]
fn a_border_is_released_with_its_window() {
    let mut desk = Desk::new();
    let mut border = ready(&mut desk);
    border.transfer();
    assert!(border.is_raw_transferred);
    let mut call = Call::new();
    let (next, owned) = border.release(&mut call);
    assert!(owned);
    assert_eq!(desk.run(&mut border, &mut call, next), Ok(false));
    assert_eq!(border.border_window, 0);
    assert!(border.is_paused);
    assert_eq!(desk.log, vec![Request::DestroyAnimsTimer]);
    // One that does not belong to its window keeps the handle.
    let mut border = ready(&mut desk);
    let (next, owned) = border.release(&mut call);
    assert!(!owned);
    assert_eq!(desk.run(&mut border, &mut call, next), Ok(false));
    assert_eq!(border.border_window, BORDER);
}

#[test]
fn result_codes_are_told_apart() {
    assert_eq!(ErrorCode::from_hresult(0x8899_000C), ErrorCode::RecreateTarget);
    assert_eq!(ErrorCode::from_hresult(0x887A_0005), ErrorCode::DeviceRemoved);
    assert_eq!(ErrorCode::from_hresult(0x8007_0005), ErrorCode::AccessDenied);
    assert_eq!(ErrorCode::from_hresult(0x8000_4005), ErrorCode::Other);
    assert!(ErrorCode::Reentrancy.is_passing() && ErrorCode::Uninit.is_passing());
    assert!(!ErrorCode::Failed.is_passing() && !ErrorCode::Other.is_passing());
}

#[test]
fn messages_are_read_from_their_numbers() {
    let numbers = MessageNumbers {
        location_change: 0x8000,
        reorder: 0x8001,
        foreground: 0x8002,
        show_uncloaked: 0x8003,
        hide_cloaked: 0x8004,
        minimize_start: 0x8005,
        minimize_end: 0x8006,
        animate: 0x8007,
        komorebi: 0x8008,
        set_colors: 0x8009,
        set_width: 0x800a,
        set_offset: 0x800b,
        set_radius: 0x800c,
        recreate_drawer: 0x800d,
    };
    for (number, message) in [
        (0x8000, Message::LocationChange),
        (0x8001, Message::Reorder),
        (0x8002, Message::Foreground),
        (0x8003, Message::ShowUncloaked),
        (0x8004, Message::HideCloaked),
        (0x8005, Message::MinimizeStart),
        (0x8006, Message::MinimizeEnd),
        (0x8007, Message::Animate),
        (0x8008, Message::Komorebi),
        (0x8009, Message::SetColors { active: true, inactive: false }),
        (0x800a, Message::SetWidth),
        (0x800b, Message::SetOffset),
        (0x800c, Message::SetRadius),
        (0x800d, Message::RecreateDrawer),
        (0x113, Message::Timer { id: 3 }),
        (0xf, Message::Paint),
        (0x10, Message::Close),
        (0x7e, Message::DisplayChange),
        (0x2e0, Message::DpiChanged { wparam: 3 }),
        (0x219, Message::DeviceChange { wparam: 3 }),
        (0x218, Message::PowerBroadcast { wparam: 3 }),
        (0x46, Message::WindowPosChange),
        (0x47, Message::WindowPosChange),
        (0x1, Message::Other),
        (0x800e, Message::Other),
    ] {
        assert_eq!(read_message(numbers, number, 3, true, false), message);
    }
    assert_eq!(Tie::read(0x1, 64), Tie::Create { border: 64 });
    assert_eq!(Tie::read(0x82, 64), Tie::Destroyed);
    assert_eq!(Tie::read(0x10, 64), Tie::Unrelated);
}

#[test]
fn the_flags_for_moving_a_window() {
    assert_eq!(position_flags(Visibility::Keep, false), 0x418);
    assert_eq!(position_flags(Visibility::Show, false), 0x458);
    assert_eq!(position_flags(Visibility::Hide, true), 0x49c);
}
