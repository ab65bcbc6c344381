//! What a border does, as a conversation with the desktop.
//!
//! A [`Script`] is everything that a piece of work may do from some moment on: either it makes a
//! request, and every reply, found in whatever state the border is in by then, leads on to
//! another script; or it ends. The functions of this module are written in the order in which
//! things happen: each takes what is to come afterwards as its last argument, a function from
//! the state of the border and the [`Outcome`] of the work to the rest of the script. A function
//! without a comment goes on from the one above it, once its reply or its outcome is known.

use vstd::prelude::*;
use crate::geometry::{outset, side, surface_side, unsigned, Appearance, Bounds, Rect, Size};
use crate::protocol::{
    ColorRules, ColorSource, ErrorCode, Outcome, Posted, Radius, Reply, Request, Scope, Slot,
    Visibility, WindowFacts, WindowKind, ZOrderMode,
};
use crate::render_backend::{Luid, RenderBackend, RenderBackendConfig};
use crate::window_border::{BorderDrawer, WindowBorder, WindowState};

verus! {

/// Everything that a piece of work may do from some moment on. Every path through a script is
/// finite: whatever the desktop replies, the work ends.
#[verifier::ext_equal]
pub ghost enum Script {
    /// With the border in the state `now`, make a request; `next` is what follows, given the
    /// state that the border is in when the reply comes.
    Ask { now: WindowBorder, request: Request, next: spec_fn(WindowBorder, Reply) -> Script },
    /// End, with the border in the state `now`.
    Return { now: WindowBorder, outcome: Outcome },
}

/// What follows on a piece of work.
pub type Then = spec_fn(WindowBorder, Outcome) -> Script;

/// Makes a request.
pub open spec fn ask(
    s: WindowBorder,
    request: Request,
    next: spec_fn(WindowBorder, Reply) -> Script,
) -> Script {
    Script::Ask { now: s, request, next }
}

/// Makes a request and pays no heed to the reply.
pub open spec fn tell(s: WindowBorder, request: Request, k: Then) -> Script {
    ask(s, request, |s: WindowBorder, r: Reply| k(s, Ok(false)))
}

// Facts about one state.

/// The area of the border window in which the border is drawn.
pub open spec fn border_bounds(s: WindowBorder) -> Bounds {
    Bounds {
        padding: s.border_padding,
        width: s.window_rect.across() as i32,
        height: s.window_rect.down() as i32,
    }
}

/// The size that a composition surface for the border has.
pub open spec fn v2_size(rect: Rect) -> Size {
    Size { width: surface_side(rect.across()) as u32, height: surface_side(rect.down()) as u32 }
}

/// The size that a render target on the border window has: that of the window.
pub open spec fn legacy_size(rect: Rect) -> Size {
    Size { width: unsigned(rect.across()) as u32, height: unsigned(rect.down()) as u32 }
}

/// The size that the renderer ought to have.
pub open spec fn target_size(s: WindowBorder) -> Size {
    match s.config.render_backend {
        RenderBackendConfig::V2 => v2_size(s.window_rect),
        RenderBackendConfig::Legacy => legacy_size(s.window_rect),
    }
}

/// Whether a renderer of size `actual` has to be resized: a composition surface when it cannot
/// contain the border window, a render target when it has another size.
pub open spec fn is_outgrown(s: WindowBorder, actual: Size) -> bool {
    match s.config.render_backend {
        RenderBackendConfig::V2 => side(s.window_rect.across()) > actual.width || side(
            s.window_rect.down(),
        ) > actual.height,
        RenderBackendConfig::Legacy => legacy_size(s.window_rect) != actual,
    }
}

/// Whether the border is to be seen.
pub open spec fn shows_border(s: WindowBorder, facts: WindowFacts) -> bool {
    (!s.config.follow_native_border || facts.native_border) && facts.on_screen()
}

/// The request that moves the border window to its place.
pub open spec fn set_pos(
    s: WindowBorder,
    insert_after: Option<isize>,
    visibility: Visibility,
    keep_z_order: bool,
) -> Request {
    Request::SetWindowPos {
        insert_after,
        x: s.window_rect.left,
        y: s.window_rect.top,
        cx: s.window_rect.across() as i32,
        cy: s.window_rect.down() as i32,
        visibility,
        keep_z_order,
    }
}

/// The request that draws the border.
pub open spec fn render_request(s: WindowBorder) -> Request {
    Request::Render {
        bounds: border_bounds(s),
        state: s.window_state,
        fill_outer_corners: s.drawer.fill_outer_corners,
    }
}

/// The radius that the configuration gives.
pub open spec fn configured_radius(s: WindowBorder) -> Radius {
    Radius::Configured { stroke_width: s.drawer.stroke_width, dpi: s.current_dpi }
}

// Giving up.

/// Pauses the border and stops its animations.
pub open spec fn cleanup(s: WindowBorder, k: Then) -> Script {
    tell(WindowBorder { is_paused: true, ..s }, Request::DestroyAnimsTimer, k)
}

/// Cleans up and asks the border window to close, if there is one.
pub open spec fn cleanup_and_queue_exit(s: WindowBorder, k: Then) -> Script {
    cleanup(s, |s: WindowBorder, o: Outcome| queue_exit(s, k))
}

pub open spec fn queue_exit(s: WindowBorder, k: Then) -> Script {
    if s.border_window == 0 {
        k(s, Ok(false))
    } else {
        tell(s, Request::Post { message: Posted::Close }, k)
    }
}

/// Gives up and fails.
pub open spec fn give_up(s: WindowBorder, code: ErrorCode, k: Then) -> Script {
    cleanup_and_queue_exit(s, |s: WindowBorder, o: Outcome| k(s, Err(code)))
}

// Place.

/// Finds out where the window is. Fails, and gives up, if that cannot be found out.
pub open spec fn update_window_rect(s: WindowBorder, k: Then) -> Script {
    ask(s, Request::FrameBounds, |s: WindowBorder, r: Reply| frame_known(s, r, k))
}

pub open spec fn frame_known(s: WindowBorder, r: Reply, k: Then) -> Script {
    match r {
        Reply::Frame(frame) => k(
            WindowBorder { window_rect: outset(frame, s.appearance()), ..s },
            Ok(false),
        ),
        _ => give_up(s, r.failure(), k),
    }
}

/// Moves the border window to its place, next to the tracked window in the order of windows.
pub open spec fn update_position(s: WindowBorder, visibility: Visibility, k: Then) -> Script {
    match s.config.z_order {
        ZOrderMode::AboveWindow => ask(
            s,
            Request::WindowAbove,
            |s: WindowBorder, r: Reply| above_known(s, visibility, r, k),
        ),
        ZOrderMode::BelowWindow => place(s, s.tracking_window, visibility, false, k),
    }
}

/// A border that already lies above its window keeps its place in the order of windows; without
/// a window above, the border goes to the top, which the null handle stands for.
pub open spec fn above_known(
    s: WindowBorder,
    visibility: Visibility,
    r: Reply,
    k: Then,
) -> Script {
    place(s, r.handle(), visibility, r == Reply::Handle(s.border_window), k)
}

pub open spec fn place(
    s: WindowBorder,
    insert_after: isize,
    visibility: Visibility,
    keep_z_order: bool,
    k: Then,
) -> Script {
    ask(
        s,
        set_pos(s, Some(insert_after), visibility, keep_z_order),
        |s: WindowBorder, r: Reply| placed(s, visibility, r, k),
    )
}

/// Where the order of windows is what is not permitted, the border is moved without it.
pub open spec fn placed(s: WindowBorder, visibility: Visibility, r: Reply, k: Then) -> Script {
    if r == Reply::Failed(ErrorCode::AccessDenied) {
        ask(
            s,
            set_pos(s, None, visibility, true),
            |s: WindowBorder, r: Reply| positioned(s, r, k),
        )
    } else {
        positioned(s, r, k)
    }
}

pub open spec fn positioned(s: WindowBorder, r: Reply, k: Then) -> Script {
    match r.result() {
        Ok(done) => k(s, Ok(done)),
        Err(code) => give_up(s, code, k),
    }
}

// Color.

/// Finds out whether the window has the focus, and shows it in the brushes. A fade does so by
/// itself, unless there was no delay in which it could have been seen.
pub open spec fn update_color(s: WindowBorder, check_delay: Option<u64>, k: Then) -> Script {
    ask(s, Request::ActiveWindow, |s: WindowBorder, r: Reply| active_known(s, check_delay, r, k))
}

pub open spec fn active_known(
    s: WindowBorder,
    check_delay: Option<u64>,
    r: Reply,
    k: Then,
) -> Script {
    let s = WindowBorder {
        window_state: WindowState::of(s.tracking_window, r.handle()),
        ..s
    };
    ask(
        s,
        Request::HasFade { state: s.window_state },
        |s: WindowBorder, r: Reply| fade_known(s, check_delay, r, k),
    )
}

pub open spec fn fade_known(
    s: WindowBorder,
    check_delay: Option<u64>,
    r: Reply,
    k: Then,
) -> Script {
    if !r.flag() {
        update_brush_opacities(s, k)
    } else if check_delay == Some(0u64) {
        update_brush_opacities(s, |s: WindowBorder, o: Outcome| match_fade(s, k))
    } else {
        k(s, Ok(false))
    }
}

pub open spec fn match_fade(s: WindowBorder, k: Then) -> Script {
    tell(s, Request::UpdateFadeProgress { state: s.window_state }, k)
}

/// Makes the brush of the current state opaque and the other one invisible.
pub open spec fn update_brush_opacities(s: WindowBorder, k: Then) -> Script {
    let active = s.window_state is Active;
    ask(
        s,
        Request::SetOpacity { active, opaque: true },
        |s: WindowBorder, r: Reply| hide_brush(s, !active, k),
    )
}

pub open spec fn hide_brush(s: WindowBorder, active: bool, k: Then) -> Script {
    tell(s, Request::SetOpacity { active, opaque: false }, k)
}

/// Puts a new color in one of the brushes.
pub open spec fn update_color_brush(
    s: WindowBorder,
    active: bool,
    source: ColorSource,
    k: Then,
) -> Script {
    let bounds = border_bounds(s);
    ask(
        s,
        Request::ReplaceBrush { active, source },
        |s: WindowBorder, r: Reply| brush_replaced(s, active, bounds, k),
    )
}

pub open spec fn brush_replaced(
    s: WindowBorder,
    active: bool,
    bounds: Bounds,
    k: Then,
) -> Script {
    ask(
        s,
        Request::Backend,
        |s: WindowBorder, r: Reply| brush_backend_known(s, active, bounds, r, k),
    )
}

/// Without a renderer a brush cannot be made ready.
pub open spec fn brush_backend_known(
    s: WindowBorder,
    active: bool,
    bounds: Bounds,
    r: Reply,
    k: Then,
) -> Script {
    if r.backend() is Absent {
        k(s, Ok(false))
    } else {
        tell(s, Request::InitBrush { active, bounds }, k)
    }
}

/// The color that a window gets from the tiling window manager's view of it, if any.
pub open spec fn komorebi_color(rules: ColorRules, kind: WindowKind) -> Option<ColorSource> {
    let single = ColorSource::Config {
        scope: if rules.rule_has_active {
            Scope::Rule
        } else {
            Scope::Global
        },
        slot: Slot::Active,
    };
    let (colors, scope) = match rules.rule {
        Some(colors) => (colors, Scope::Rule),
        None => (rules.global, Scope::Global),
    };
    match kind {
        WindowKind::Single => Some(single),
        WindowKind::Stack => Some(
            if colors.has_stack {
                ColorSource::Config { scope, slot: Slot::Stack }
            } else {
                single
            },
        ),
        WindowKind::Monocle => Some(
            if colors.has_monocle {
                ColorSource::Config { scope, slot: Slot::Monocle }
            } else {
                single
            },
        ),
        WindowKind::Floating => Some(
            if colors.has_floating {
                ColorSource::Config { scope, slot: Slot::Floating }
            } else {
                single
            },
        ),
        WindowKind::Unfocused => None,
    }
}

/// Whether the window takes its colors from the tiling window manager.
pub open spec fn komorebi_enabled(rules: ColorRules) -> bool {
    match rules.rule {
        Some(colors) => colors.enabled,
        None => rules.global.enabled,
    }
}

// Renderer.

/// Finds out whether the renderer has to be resized. Fails without a renderer.
pub open spec fn needs_renderer_resize(s: WindowBorder, k: Then) -> Script {
    ask(s, Request::Backend, |s: WindowBorder, r: Reply| resize_backend_known(s, r, k))
}

pub open spec fn resize_backend_known(s: WindowBorder, r: Reply, k: Then) -> Script {
    match r.backend() {
        RenderBackend::Legacy(_) => ask(
            s,
            Request::TargetPixelSize,
            |s: WindowBorder, r: Reply| k(s, Ok(is_outgrown(s, r.size()))),
        ),
        RenderBackend::V2(backend) => k(s, Ok(is_outgrown(s, backend.surface_size))),
        RenderBackend::Absent => k(s, Err(ErrorCode::Uninit)),
    }
}

/// Work of the renderer that may fail because the display adapter changed.
#[derive(Debug, Clone, Copy, PartialEq, Eq, Structural)]
pub enum Attempt {
    InitDrawer,
    ResizeRenderer,
    Render,
}

/// Tries the work once.
pub open spec fn attempt(s: WindowBorder, work: Attempt, k: Then) -> Script {
    match work {
        Attempt::InitDrawer => ask(
            s,
            Request::InitDrawer {
                size: target_size(s),
                bounds: border_bounds(s),
                backend: s.config.render_backend,
            },
            |s: WindowBorder, r: Reply| k(s, r.result()),
        ),
        Attempt::ResizeRenderer => raw_resize_renderer(s, k),
        Attempt::Render => raw_render(s, k),
    }
}

pub open spec fn raw_resize_renderer(s: WindowBorder, k: Then) -> Script {
    ask(
        s,
        Request::ResizeRenderer { size: target_size(s) },
        |s: WindowBorder, r: Reply| k(s, r.result()),
    )
}

/// Draws, after the renderer was given the size that it needs. The render target on a window is
/// always given the size of the window.
pub open spec fn raw_render(s: WindowBorder, k: Then) -> Script {
    needs_renderer_resize(s, |s: WindowBorder, o: Outcome| render_need_known(s, o, k))
}

pub open spec fn render_need_known(s: WindowBorder, o: Outcome, k: Then) -> Script {
    if o == Ok::<bool, ErrorCode>(true) {
        raw_resize_renderer(s, |s: WindowBorder, o: Outcome| render_ready(s, o, k))
    } else {
        ask(s, Request::Backend, |s: WindowBorder, r: Reply| render_backend_known(s, r, k))
    }
}

pub open spec fn render_backend_known(s: WindowBorder, r: Reply, k: Then) -> Script {
    if r.backend() is Legacy {
        ask(
            s,
            Request::ResizeTarget { size: legacy_size(s.window_rect) },
            |s: WindowBorder, r: Reply| render_ready(s, r.result(), k),
        )
    } else {
        render_ready(s, Ok(false), k)
    }
}

pub open spec fn render_ready(s: WindowBorder, o: Outcome, k: Then) -> Script {
    match o {
        Ok(_) => ask(s, Request::IsArranged, |s: WindowBorder, r: Reply| draw(s, r, k)),
        Err(code) => k(s, Err(code)),
    }
}

/// The border of a snapped window fills its outer corners.
pub open spec fn filling_corners(s: WindowBorder, fill: bool) -> WindowBorder {
    WindowBorder {
        drawer: BorderDrawer { fill_outer_corners: fill, ..s.drawer },
        ..s
    }
}

pub open spec fn draw(s: WindowBorder, r: Reply, k: Then) -> Script {
    let s = filling_corners(s, r.flag());
    ask(s, render_request(s), |s: WindowBorder, r: Reply| k(s, r.result()))
}

/// How often the recovery can still be entered.
pub open spec fn entries_left(nested: bool) -> nat {
    if nested {
        0
    } else {
        1
    }
}

/// Tries the work; where it fails, handles the error, and tries once more if that succeeds. Gives
/// up on an error that will not pass. `nested` says that this happens in the middle of a
/// recovery.
pub open spec fn with_recovery(s: WindowBorder, work: Attempt, nested: bool, k: Then) -> Script
    decreases entries_left(nested), 6int,
{
    attempt(s, work, on_attempted(work, nested, k))
}

pub open spec fn on_attempted(work: Attempt, nested: bool, k: Then) -> Then
    decreases entries_left(nested), 5int,
{
    |s: WindowBorder, o: Outcome| attempted(s, work, nested, o, k)
}

pub open spec fn attempted(
    s: WindowBorder,
    work: Attempt,
    nested: bool,
    o: Outcome,
    k: Then,
) -> Script
    decreases entries_left(nested), 4int,
{
    match o {
        Ok(done) => k(s, Ok(done)),
        Err(code) => handle_directx_errors(
            s,
            code,
            nested,
            |s: WindowBorder, o: Outcome| recovered(s, work, o, k),
        ),
    }
}

pub open spec fn recovered(s: WindowBorder, work: Attempt, o: Outcome, k: Then) -> Script {
    match o {
        Ok(_) => attempt(s, work, |s: WindowBorder, o: Outcome| attempted_again(s, o, k)),
        Err(code) => report(s, code, k),
    }
}

pub open spec fn attempted_again(s: WindowBorder, o: Outcome, k: Then) -> Script {
    match o {
        Ok(done) => k(s, Ok(done)),
        Err(code) => report(s, code, k),
    }
}

/// Fails, and gives up unless the error will pass.
pub open spec fn report(s: WindowBorder, code: ErrorCode, k: Then) -> Script {
    if code.is_passing() {
        k(s, Err(code))
    } else {
        give_up(s, code, k)
    }
}

/// Handles a failure of the renderer. Where the adapter changed, the devices and the renderer are
/// made again, unless a recovery is going on already; something that does not exist yet is worth
/// another try; anything else is final.
pub open spec fn handle_directx_errors(
    s: WindowBorder,
    code: ErrorCode,
    nested: bool,
    k: Then,
) -> Script
    decreases entries_left(nested), 3int,
{
    match code {
        ErrorCode::RecreateTarget | ErrorCode::DeviceRemoved => if nested {
            k(s, Err(ErrorCode::Reentrancy))
        } else {
            ask(s, Request::EnterRecovery, |s: WindowBorder, r: Reply| recovery_entered(s, r, k))
        },
        ErrorCode::Uninit => k(s, Ok(false)),
        _ => k(s, Err(ErrorCode::Failed)),
    }
}

pub open spec fn recovery_entered(s: WindowBorder, r: Reply, k: Then) -> Script
    decreases entries_left(false), 2int,
{
    if r.flag() {
        ask(s, Request::RecreateDevices, |s: WindowBorder, r: Reply| devices_recreated(s, r, k))
    } else {
        k(s, Err(ErrorCode::Reentrancy))
    }
}

pub open spec fn devices_recreated(s: WindowBorder, r: Reply, k: Then) -> Script
    decreases entries_left(false), 1int,
{
    match r.result() {
        Ok(_) => recreate_drawer_if_needed(
            s,
            true,
            |s: WindowBorder, o: Outcome| leave_recovery(s, o, k),
        ),
        Err(code) => leave_recovery(s, Err(code), k),
    }
}

pub open spec fn leave_recovery(s: WindowBorder, o: Outcome, k: Then) -> Script {
    ask(s, Request::LeaveRecovery, |s: WindowBorder, r: Reply| k(s, o))
}

/// Makes the renderer again if it is not, or no longer, on the right adapter.
pub open spec fn recreate_drawer_if_needed(s: WindowBorder, nested: bool, k: Then) -> Script
    decreases entries_left(nested), 13int,
{
    ask(s, Request::Backend, |s: WindowBorder, r: Reply| recreate_backend_known(s, nested, r, k))
}

pub open spec fn recreate_backend_known(
    s: WindowBorder,
    nested: bool,
    r: Reply,
    k: Then,
) -> Script
    decreases entries_left(nested), 12int,
{
    match r.backend() {
        RenderBackend::V2(backend) => ask(
            s,
            Request::PrimaryAdapter,
            |s: WindowBorder, r: Reply| adapter_known(s, nested, backend.adapter_luid, r, k),
        ),
        RenderBackend::Legacy(_) => ask(
            s,
            Request::ProbeTarget,
            |s: WindowBorder, r: Reply| target_probed(s, nested, r, k),
        ),
        RenderBackend::Absent => recreate_drawer(s, nested, k),
    }
}

pub open spec fn adapter_known(
    s: WindowBorder,
    nested: bool,
    luid: Luid,
    r: Reply,
    k: Then,
) -> Script
    decreases entries_left(nested), 11int,
{
    match r {
        Reply::Adapter(primary) => if primary != luid {
            recreate_drawer(s, nested, k)
        } else {
            k(s, Ok(false))
        },
        _ => k(s, Err(r.failure())),
    }
}

pub open spec fn target_probed(s: WindowBorder, nested: bool, r: Reply, k: Then) -> Script
    decreases entries_left(nested), 11int,
{
    if r.result() is Err {
        recreate_drawer(s, nested, k)
    } else {
        k(s, Ok(false))
    }
}

pub open spec fn recreate_drawer(s: WindowBorder, nested: bool, k: Then) -> Script
    decreases entries_left(nested), 10int,
{
    with_recovery(s, Attempt::InitDrawer, nested, on_drawer_recreated(nested, k))
}

pub open spec fn on_drawer_recreated(nested: bool, k: Then) -> Then
    decreases entries_left(nested), 9int,
{
    |s: WindowBorder, o: Outcome| drawer_recreated(s, nested, o, k)
}

pub open spec fn drawer_recreated(s: WindowBorder, nested: bool, o: Outcome, k: Then) -> Script
    decreases entries_left(nested), 8int,
{
    match o {
        Ok(_) => update_color(s, None, on_recolored(nested, k)),
        Err(code) => k(s, Err(code)),
    }
}

pub open spec fn on_recolored(nested: bool, k: Then) -> Then
    decreases entries_left(nested), 7int,
{
    |s: WindowBorder, o: Outcome| with_recovery(s, Attempt::Render, nested, k)
}

/// Makes the drawer.
pub open spec fn init_drawer(s: WindowBorder, k: Then) -> Script {
    with_recovery(s, Attempt::InitDrawer, false, k)
}

/// Resizes the renderer.
pub open spec fn resize_renderer(s: WindowBorder, k: Then) -> Script {
    with_recovery(s, Attempt::ResizeRenderer, false, k)
}

/// Draws the border.
pub open spec fn render(s: WindowBorder, k: Then) -> Script {
    with_recovery(s, Attempt::Render, false, k)
}

// Scale.

/// Gives the corners their radius: none where it is automatic and the window is snapped, and
/// then nothing else changes it; the configured one otherwise. The flag says whether the radius
/// was changed.
pub open spec fn sync_border_radius(s: WindowBorder, k: Then) -> Script {
    ask(s, Request::IsArranged, |s: WindowBorder, r: Reply| radius_arranged_known(s, r, k))
}

pub open spec fn radius_arranged_known(s: WindowBorder, r: Reply, k: Then) -> Script {
    if s.config.radius_auto && r.flag() {
        ask(
            s,
            Request::RadiusDiffers { radius: Radius::Square },
            |s: WindowBorder, r: Reply| square_differs_known(s, r, k),
        )
    } else {
        ask(s, Request::UnlockRadius, |s: WindowBorder, r: Reply| radius_unlocked(s, k))
    }
}

pub open spec fn square_differs_known(s: WindowBorder, r: Reply, k: Then) -> Script {
    if r.flag() {
        ask(
            s,
            Request::SetRadius { radius: Radius::Square },
            |s: WindowBorder, r: Reply| lock_radius(s, r.result() is Ok, k),
        )
    } else {
        lock_radius(s, false, k)
    }
}

pub open spec fn lock_radius(s: WindowBorder, updated: bool, k: Then) -> Script {
    ask(
        s,
        Request::LockRadius,
        |s: WindowBorder, r: Reply|
            k(WindowBorder { arranged_override_active: true, ..s }, Ok(updated)),
    )
}

pub open spec fn radius_unlocked(s: WindowBorder, k: Then) -> Script {
    let radius = configured_radius(s);
    ask(
        s,
        Request::RadiusDiffers { radius },
        |s: WindowBorder, r: Reply| configured_differs_known(s, radius, r, k),
    )
}

pub open spec fn configured_differs_known(
    s: WindowBorder,
    radius: Radius,
    r: Reply,
    k: Then,
) -> Script {
    if r.flag() {
        ask(
            s,
            Request::SetRadius { radius },
            |s: WindowBorder, r: Reply| radius_synced(s, r.result() is Ok, k),
        )
    } else {
        radius_synced(s, false, k)
    }
}

pub open spec fn radius_synced(s: WindowBorder, updated: bool, k: Then) -> Script {
    k(WindowBorder { arranged_override_active: false, ..s }, Ok(updated))
}

/// The border with another appearance.
pub open spec fn restyled(
    s: WindowBorder,
    look: Appearance,
    dpi: u32,
) -> WindowBorder {
    WindowBorder {
        drawer: BorderDrawer { stroke_width: look.stroke_width, ..s.drawer },
        border_offset: look.offset,
        border_padding: look.padding,
        current_dpi: dpi,
        ..s
    }
}

/// Scales everything to another dpi.
pub open spec fn rescale_border(s: WindowBorder, dpi: u32, k: Then) -> Script {
    ask(s, Request::Rescale { dpi }, |s: WindowBorder, r: Reply| rescaled(s, dpi, r, k))
}

pub open spec fn rescaled(s: WindowBorder, dpi: u32, r: Reply, k: Then) -> Script {
    let s = match r {
        Reply::Appearance(look) => restyled(s, look, dpi),
        _ => WindowBorder { current_dpi: dpi, ..s },
    };
    sync_border_radius(s, |s: WindowBorder, o: Outcome| check_effects(s, k))
}

pub open spec fn check_effects(s: WindowBorder, k: Then) -> Script {
    ask(s, Request::Backend, |s: WindowBorder, r: Reply| effects_backend_known(s, r, k))
}

pub open spec fn effects_backend_known(s: WindowBorder, r: Reply, k: Then) -> Script {
    if r.backend().supports_effects() {
        tell(s, Request::InitEffects, k)
    } else {
        k(s, Ok(false))
    }
}

/// Adapts the border to the dpi of a monitor, and the renderer to the border. The flag says
/// whether anything changed.
pub open spec fn rescale_border_and_resize_renderer_if_needed(
    s: WindowBorder,
    monitor: isize,
    k: Then,
) -> Script {
    ask(s, Request::Dpi { monitor }, |s: WindowBorder, r: Reply| dpi_known(s, r, k))
}

pub open spec fn dpi_known(s: WindowBorder, r: Reply, k: Then) -> Script {
    match r {
        Reply::Dpi(dpi) => if dpi != s.current_dpi {
            rescale_border(
                WindowBorder { current_dpi: dpi, ..s },
                dpi,
                |s: WindowBorder, o: Outcome| check_size(s, true, k),
            )
        } else {
            check_size(s, false, k)
        },
        _ => k(s, Err(r.failure())),
    }
}

pub open spec fn check_size(s: WindowBorder, updated: bool, k: Then) -> Script {
    needs_renderer_resize(s, |s: WindowBorder, o: Outcome| size_checked(s, updated, o, k))
}

pub open spec fn size_checked(s: WindowBorder, updated: bool, o: Outcome, k: Then) -> Script {
    match o {
        Ok(true) => resize_renderer(s, |s: WindowBorder, o: Outcome| size_adapted(s, o, k)),
        Ok(false) => k(s, Ok(updated)),
        Err(code) => k(s, Err(code)),
    }
}

pub open spec fn size_adapted(s: WindowBorder, o: Outcome, k: Then) -> Script {
    match o {
        Ok(_) => k(s, Ok(true)),
        Err(code) => k(s, Err(code)),
    }
}

// Sequences.

/// Work whose failure changes nothing in what follows.
#[derive(Debug, Clone, Copy, PartialEq, Eq, Structural)]
pub enum Step {
    Tell(Request),
    UpdateColor(Option<u64>),
    UpdateWindowRect,
    UpdatePosition(Visibility),
    Render,
    ResizeRenderer,
    /// Resizes the renderer if it is known to have to be resized.
    ResizeIfNeeded,
    SyncRadius,
    UpdateColorBrush { active: bool, source: ColorSource },
    SetPaused(bool),
    ForgetPendingLocation,
}

pub open spec fn perform(s: WindowBorder, step: Step, k: Then) -> Script {
    match step {
        Step::Tell(request) => tell(s, request, k),
        Step::UpdateColor(check_delay) => update_color(s, check_delay, k),
        Step::UpdateWindowRect => update_window_rect(s, k),
        Step::UpdatePosition(visibility) => update_position(s, visibility, k),
        Step::Render => render(s, k),
        Step::ResizeRenderer => resize_renderer(s, k),
        Step::ResizeIfNeeded => needs_renderer_resize(
            s,
            |s: WindowBorder, o: Outcome| resize_need_known(s, o, k),
        ),
        Step::SyncRadius => sync_border_radius(s, k),
        Step::UpdateColorBrush { active, source } => update_color_brush(s, active, source, k),
        Step::SetPaused(paused) => k(WindowBorder { is_paused: paused, ..s }, Ok(false)),
        Step::ForgetPendingLocation => k(
            WindowBorder { has_pending_location: false, ..s },
            Ok(false),
        ),
    }
}

pub open spec fn resize_need_known(s: WindowBorder, o: Outcome, k: Then) -> Script {
    if o == Ok::<bool, ErrorCode>(true) {
        resize_renderer(s, k)
    } else {
        k(s, Ok(false))
    }
}

/// Takes one step after the other.
pub open spec fn sequence(s: WindowBorder, steps: Seq<Step>, k: Then) -> Script
    decreases steps.len(), 0int,
{
    if steps.len() == 0 {
        k(s, Ok(false))
    } else {
        perform(s, steps.first(), on_performed(steps.drop_first(), k))
    }
}

pub open spec fn on_performed(steps: Seq<Step>, k: Then) -> Then
    decreases steps.len(), 1int,
{
    |s: WindowBorder, o: Outcome| sequence(s, steps, k)
}

} // verus!
