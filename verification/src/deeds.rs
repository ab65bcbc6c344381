//! What a border does on a desktop that answers its questions and does what it is told.
//!
//! A [`Desk`] answers every request in its own way. What a border does on it, leaving out the
//! questions that it asks, are its deeds: they are what can be seen of a border.

use vstd::prelude::*;
use crate::behavior;
use crate::behavior::{Attempt, Script, Step, Then};
use crate::dispatch;
use crate::geometry::{Bounds, Rect, Size};
use crate::headroom::{lemma_scaled_is_at_least, scaled};
use crate::laws::{a_sequence_is_taken_in_order, finish};
use crate::protocol::{
    BorderConfig, ColorRules, ColorSource, ErrorCode, Focus, Message, Outcome, Posted, Radius,
    Reply, Request, Scope, Slot, Visibility, WindowFacts, WindowKind, ZOrderMode,
};
use crate::render_backend::{RenderBackend, RenderBackendConfig};
use crate::window_border::{BorderDrawer, WindowBorder, WindowState};

verus! {

/// What a desktop replies to each request.
pub type Desk = spec_fn(Request) -> Reply;

/// Whether a request only asks for something.
pub open spec fn is_question(request: Request) -> bool {
    match request {
        Request::Monitor
        | Request::Dpi { .. }
        | Request::WindowExists
        | Request::IsArranged
        | Request::BorderVisible
        | Request::Look
        | Request::FrameBounds
        | Request::WindowAbove
        | Request::WindowBelow
        | Request::ActiveWindow
        | Request::ScreenWidth
        | Request::Now
        | Request::Backend
        | Request::TargetPixelSize
        | Request::HasFade { .. }
        | Request::RadiusDiffers { .. }
        | Request::PrimaryAdapter
        | Request::ProbeTarget
        | Request::KomorebiFocus
        | Request::KomorebiColors => true,
        _ => false,
    }
}

/// What a conversation comes to: what was done, one thing after the other, the border that is
/// left, and how the work ended.
pub ghost struct Played {
    pub deeds: Seq<Request>,
    pub now: WindowBorder,
    pub outcome: Outcome,
}

/// What a conversation comes to on a desktop, where `done` was done before. Nothing else happens to
/// the border in the meantime.
#[verifier::opaque]
pub open spec fn played(script: Script, desk: Desk, done: Seq<Request>) -> Played
    decreases script,
{
    match script {
        Script::Return { now, outcome } => Played { deeds: done, now, outcome },
        Script::Ask { now, request, next } => played(
            next(now, desk(request)),
            desk,
            if is_question(request) {
                done
            } else {
                done.push(request)
            },
        ),
    }
}

/// What a border comes to on a message.
pub open spec fn on_message(s: WindowBorder, message: Message, desk: Desk) -> Played {
    played(dispatch::wnd_proc(s, message, finish()), desk, seq![])
}

/// Whether a reply is an answer to a request, and no failure.
pub open spec fn is_answer(request: Request, reply: Reply) -> bool {
    match request {
        Request::Monitor | Request::ActiveWindow => reply is Handle,
        Request::Dpi { .. } => reply is Dpi,
        Request::ResolveConfig { .. } => reply is Config,
        Request::Rescale { .. } => reply is Appearance,
        Request::AdoptWidth { .. } => reply is StrokeWidth,
        Request::AdoptOffset { .. } => reply is Offset,
        Request::Look => reply is Facts,
        Request::FrameBounds => reply is Frame,
        Request::ScreenWidth => reply is ScreenWidth,
        Request::Now => reply is Time,
        Request::Backend => reply is Backend,
        Request::TargetPixelSize => reply is Size,
        Request::PrimaryAdapter => reply is Adapter,
        Request::SetWindowPos { .. }
        | Request::EnableBlur { .. }
        | Request::SetAlpha { .. }
        | Request::Post { .. }
        | Request::InitDrawer { .. }
        | Request::ResizeRenderer { .. }
        | Request::ResizeTarget { .. }
        | Request::Render { .. }
        | Request::SetRadius { .. }
        | Request::RecreateDevices => reply is Done,
        _ => true,
    }
}

/// Whether a desktop answers every question and does whatever it is told.
pub open spec fn works(desk: Desk) -> bool {
    forall|request: Request| is_answer(request, #[trigger] desk(request))
}

/// Whether a desktop answers every question.
pub open spec fn informs(desk: Desk) -> bool {
    forall|request: Request|
        is_question(request) ==> is_answer(request, #[trigger] desk(request))
}

/// Whether a desktop says yes.
pub open spec fn yes(desk: Desk, request: Request) -> bool {
    desk(request) == Reply::Flag(true)
}

// What is to be seen.

/// What the desktop knows of the window.
pub open spec fn facts(desk: Desk) -> WindowFacts {
    desk(Request::Look)->Facts_0
}

/// Whether the window is on the screen.
pub open spec fn in_sight(desk: Desk) -> bool {
    facts(desk).visible && !facts(desk).cloaked && !facts(desk).minimized
}

/// Whether the window is on the screen and has the native border that the configuration may ask
/// for.
pub open spec fn to_be_framed(s: WindowBorder, desk: Desk) -> bool {
    in_sight(desk) && (s.config.follow_native_border ==> facts(desk).native_border)
}

/// The renderer that the border has.
pub open spec fn renderer(desk: Desk) -> RenderBackend {
    desk(Request::Backend)->Backend_0
}

/// The border at the place that its window gives it.
#[verifier::opaque]
pub open spec fn at_frame(s: WindowBorder, desk: Desk) -> WindowBorder {
    let frame = desk(Request::FrameBounds)->Frame_0;
    let (width, pad, off) = (s.drawer.stroke_width, s.border_padding, s.border_offset);
    WindowBorder {
        window_rect: Rect {
            left: (frame.left - (width + off.left + pad)) as i32,
            top: (frame.top - (width + off.top + pad)) as i32,
            right: (frame.right + (width + off.right + pad)) as i32,
            bottom: (frame.bottom + (width + off.bottom + pad)) as i32,
        },
        ..s
    }
}

/// The border window is moved to the border's place, and in the order of windows directly above
/// or below its window.
#[verifier::opaque]
pub open spec fn moved(s: WindowBorder, visibility: Visibility, desk: Desk) -> Request {
    let rect = s.window_rect;
    let (after, stay) = match s.config.z_order {
        ZOrderMode::BelowWindow => (s.tracking_window, false),
        ZOrderMode::AboveWindow => match desk(Request::WindowAbove) {
            Reply::Handle(above) => (above, above == s.border_window),
            _ => (0, false),
        },
    };
    Request::SetWindowPos {
        insert_after: Some(after),
        x: rect.left,
        y: rect.top,
        cx: (rect.right - rect.left) as i32,
        cy: (rect.bottom - rect.top) as i32,
        visibility,
        keep_z_order: stay,
    }
}

/// Where the border is drawn.
pub open spec fn area(s: WindowBorder) -> Bounds {
    Bounds {
        padding: s.border_padding,
        width: (s.window_rect.right - s.window_rect.left) as i32,
        height: (s.window_rect.bottom - s.window_rect.top) as i32,
    }
}

/// An extent of at least one pixel.
pub open spec fn at_least_a_pixel(extent: int) -> nat {
    if extent > 1 {
        extent as nat
    } else {
        1
    }
}

/// An extent in the bits of an unsigned number.
pub open spec fn in_bits(extent: int) -> u32 {
    if extent < 0 {
        (extent + 0x1_0000_0000) as u32
    } else {
        extent as u32
    }
}

/// The size of the border window.
pub open spec fn window_size(s: WindowBorder) -> Size {
    Size {
        width: in_bits(s.window_rect.right - s.window_rect.left),
        height: in_bits(s.window_rect.bottom - s.window_rect.top),
    }
}

/// The size that the renderer is given: that of the border window or, on a composition surface,
/// 20% more in blocks of 128 pixels.
pub open spec fn wanted_size(s: WindowBorder) -> Size {
    let width = at_least_a_pixel(s.window_rect.right - s.window_rect.left);
    let height = at_least_a_pixel(s.window_rect.bottom - s.window_rect.top);
    match s.config.render_backend {
        RenderBackendConfig::Legacy => window_size(s),
        RenderBackendConfig::V2 => Size {
            width: ((scaled(width) + 127) / 128 * 128) as u32,
            height: ((scaled(height) + 127) / 128 * 128) as u32,
        },
    }
}

/// Whether the renderer has to be resized: a composition surface if it is too small for the border
/// window, a render target if it has another size.
pub open spec fn is_unfit(s: WindowBorder, desk: Desk) -> bool {
    let actual = match renderer(desk) {
        RenderBackend::V2(backend) => backend.surface_size,
        _ => desk(Request::TargetPixelSize)->Size_0,
    };
    let width = at_least_a_pixel(s.window_rect.right - s.window_rect.left);
    let height = at_least_a_pixel(s.window_rect.bottom - s.window_rect.top);
    &&& !(renderer(desk) is Absent)
    &&& match s.config.render_backend {
        RenderBackendConfig::V2 => width > actual.width || height > actual.height,
        RenderBackendConfig::Legacy => window_size(s) != actual,
    }
}

/// The border with the corners that it is drawn with: filled while the window is snapped.
#[verifier::opaque]
pub open spec fn repainted(s: WindowBorder, desk: Desk) -> WindowBorder {
    WindowBorder {
        drawer: BorderDrawer {
            fill_outer_corners: yes(desk, Request::IsArranged),
            ..s.drawer
        },
        ..s
    }
}

/// The renderer is given the size that it needs, if it does not have it.
#[verifier::opaque]
pub open spec fn fitted(done: Seq<Request>, s: WindowBorder, desk: Desk) -> Seq<Request> {
    if is_unfit(s, desk) {
        done.push(Request::ResizeRenderer { size: wanted_size(s) })
    } else {
        done
    }
}

/// The border is drawn, with a renderer that fits.
#[verifier::opaque]
pub open spec fn painted(done: Seq<Request>, s: WindowBorder, desk: Desk) -> Seq<Request> {
    let ready = if !is_unfit(s, desk) && renderer(desk) is Legacy {
        done.push(Request::ResizeTarget { size: window_size(s) })
    } else {
        fitted(done, s, desk)
    };
    ready.push(
        Request::Render {
            bounds: area(s),
            state: s.window_state,
            fill_outer_corners: yes(desk, Request::IsArranged),
        },
    )
}

/// The border in the state that the focus gives it.
#[verifier::opaque]
pub open spec fn refocused(s: WindowBorder, desk: Desk) -> WindowBorder {
    WindowBorder {
        window_state: if desk(Request::ActiveWindow) == Reply::Handle(s.tracking_window) {
            WindowState::Active
        } else {
            WindowState::Inactive
        },
        ..s
    }
}

/// The brush of the border's state is made opaque and the other one invisible, unless a fade does
/// so; a fade that nobody could have seen is brought to its end.
#[verifier::opaque]
pub open spec fn brushed(
    done: Seq<Request>,
    s: WindowBorder,
    delay: Option<u64>,
    desk: Desk,
) -> Seq<Request> {
    let active = s.window_state == WindowState::Active;
    let set = done.push(Request::SetOpacity { active, opaque: true }).push(
        Request::SetOpacity { active: !active, opaque: false },
    );
    if !yes(desk, Request::HasFade { state: s.window_state }) {
        set
    } else if delay == Some(0u64) {
        set.push(Request::UpdateFadeProgress { state: s.window_state })
    } else {
        done
    }
}

/// Whether the corners are to be square.
pub open spec fn to_be_square(s: WindowBorder, desk: Desk) -> bool {
    s.config.radius_auto && yes(desk, Request::IsArranged)
}

/// The radius that the corners are to have.
pub open spec fn wanted_radius(s: WindowBorder, desk: Desk) -> Radius {
    if to_be_square(s, desk) {
        Radius::Square
    } else {
        Radius::Configured { stroke_width: s.drawer.stroke_width, dpi: s.current_dpi }
    }
}

/// The corners get their radius, if they have another one; a square that follows from the window
/// is locked, and anything else is not.
#[verifier::opaque]
pub open spec fn rounded(done: Seq<Request>, s: WindowBorder, desk: Desk) -> Seq<Request> {
    let radius = wanted_radius(s, desk);
    let open = if to_be_square(s, desk) {
        done
    } else {
        done.push(Request::UnlockRadius)
    };
    let set = if yes(desk, Request::RadiusDiffers { radius }) {
        open.push(Request::SetRadius { radius })
    } else {
        open
    };
    if to_be_square(s, desk) {
        set.push(Request::LockRadius)
    } else {
        set
    }
}

/// The border that knows whether its corners are square.
#[verifier::opaque]
pub open spec fn cornered(s: WindowBorder, desk: Desk) -> WindowBorder {
    WindowBorder { arranged_override_active: to_be_square(s, desk), ..s }
}

/// The border that gave up.
pub open spec fn ended(s: WindowBorder) -> WindowBorder {
    WindowBorder { is_paused: true, ..s }
}

/// The animations are stopped and the border window, if there is one, is asked to close.
pub open spec fn ending(done: Seq<Request>, s: WindowBorder) -> Seq<Request> {
    let still = done.push(Request::DestroyAnimsTimer);
    if s.border_window == 0 {
        still
    } else {
        still.push(Request::Post { message: Posted::Close })
    }
}

// One thing after the other.

/// A request is answered by the desktop, and done if it is no question.
pub broadcast proof fn lemma_asked(
    now: WindowBorder,
    request: Request,
    next: spec_fn(WindowBorder, Reply) -> Script,
    desk: Desk,
    done: Seq<Request>,
)
    ensures
        #[trigger] played(Script::Ask { now, request, next }, desk, done) == played(
            next(now, desk(request)),
            desk,
            if is_question(request) {
                done
            } else {
                done.push(request)
            },
        ),
{
    reveal(played);
    let script = Script::Ask { now, request, next };
    assert((script->next)(now, desk(request)) == next(now, desk(request)));
}

/// Nothing follows on a piece of work that was not begun by another one.
pub broadcast proof fn lemma_finished(s: WindowBorder, o: Outcome, desk: Desk, done: Seq<Request>)
    ensures
        #[trigger] played(finish()(s, o), desk, done) == (Played {
            deeds: done,
            now: s,
            outcome: o,
        }),
{
    reveal(played);
}

/// Giving up.
pub broadcast proof fn lemma_exit(s: WindowBorder, k: Then, desk: Desk, done: Seq<Request>)
    ensures
        #[trigger] played(behavior::cleanup_and_queue_exit(s, k), desk, done) == played(
            k(ended(s), Ok(false)),
            desk,
            ending(done, s),
        ),
{
    broadcast use lemma_asked;

}

/// The place that the window gives.
pub broadcast proof fn lemma_rect(s: WindowBorder, k: Then, desk: Desk, done: Seq<Request>)
    requires
        informs(desk),
    ensures
        #[trigger] played(behavior::update_window_rect(s, k), desk, done) == played(
            k(at_frame(s, desk), Ok(false)),
            desk,
            done,
        ),
{
    reveal(at_frame);
    broadcast use lemma_asked;

    assert(is_answer(Request::FrameBounds, desk(Request::FrameBounds)));
}

broadcast proof fn lemma_place(
    s: WindowBorder,
    visibility: Visibility,
    k: Then,
    desk: Desk,
    done: Seq<Request>,
)
    requires
        works(desk),
    ensures
        #[trigger] played(behavior::update_position(s, visibility, k), desk, done) == played(
            k(s, Ok(false)),
            desk,
            done.push(moved(s, visibility, desk)),
        ),
{
    reveal(moved);
    broadcast use lemma_asked;

    let request = moved(s, visibility, desk);
    assert(is_answer(request, desk(request)));
}

/// The color that the focus gives.
pub broadcast proof fn lemma_color(
    s: WindowBorder,
    delay: Option<u64>,
    k: Then,
    desk: Desk,
    done: Seq<Request>,
)
    requires
        informs(desk),
    ensures
        #[trigger] played(behavior::update_color(s, delay, k), desk, done) == played(
            k(refocused(s, desk), Ok(false)),
            desk,
            brushed(done, refocused(s, desk), delay, desk),
        ),
{
    reveal(refocused);
    reveal(brushed);
    broadcast use lemma_asked;

    assert(is_answer(Request::ActiveWindow, desk(Request::ActiveWindow)));
}

/// The sizes that a border gives to its renderer, and where it is drawn.
pub proof fn lemma_sizes(s: WindowBorder)
    ensures
        behavior::target_size(s) == wanted_size(s),
        behavior::legacy_size(s.window_rect) == window_size(s),
        behavior::border_bounds(s) == area(s),
{
    lemma_scaled_is_at_least(at_least_a_pixel(s.window_rect.right - s.window_rect.left));
    lemma_scaled_is_at_least(at_least_a_pixel(s.window_rect.bottom - s.window_rect.top));
}

/// Whether the renderer has to be resized.
pub broadcast proof fn lemma_need(s: WindowBorder, k: Then, desk: Desk, done: Seq<Request>)
    requires
        informs(desk),
    ensures
        #[trigger] played(behavior::needs_renderer_resize(s, k), desk, done) == played(
            k(
                s,
                if renderer(desk) is Absent {
                    Err(ErrorCode::Uninit)
                } else {
                    Ok(is_unfit(s, desk))
                },
            ),
            desk,
            done,
        ),
{
    broadcast use lemma_asked;

    lemma_sizes(s);
    assert(is_answer(Request::Backend, desk(Request::Backend)));
    assert(is_answer(Request::TargetPixelSize, desk(Request::TargetPixelSize)));
}

broadcast proof fn lemma_brush(
    s: WindowBorder,
    active: bool,
    source: ColorSource,
    k: Then,
    desk: Desk,
    done: Seq<Request>,
)
    requires
        informs(desk),
    ensures
        #[trigger] played(behavior::update_color_brush(s, active, source, k), desk, done)
            == played(k(s, Ok(false)), desk, colored(done, s, active, source, desk)),
{
    reveal(colored);
    broadcast use lemma_asked;

    lemma_sizes(s);
    assert(is_answer(Request::Backend, desk(Request::Backend)));
}

/// One of the brushes gets a new color, and is made ready if there is a renderer.
#[verifier::opaque]
pub open spec fn colored(
    done: Seq<Request>,
    s: WindowBorder,
    active: bool,
    source: ColorSource,
    desk: Desk,
) -> Seq<Request> {
    let replaced = done.push(Request::ReplaceBrush { active, source });
    if renderer(desk) is Absent {
        replaced
    } else {
        replaced.push(Request::InitBrush { active, bounds: area(s) })
    }
}

/// Work of the renderer that succeeds is done once.
proof fn lemma_succeeds(s: WindowBorder, work: Attempt, nested: bool, o: Outcome, k: Then)
    requires
        o is Ok,
    ensures
        behavior::with_recovery(s, work, nested, k) == behavior::attempt(
            s,
            work,
            behavior::on_attempted(work, nested, k),
        ),
        behavior::on_attempted(work, nested, k)(s, o) == k(s, o),
{
    assert(behavior::on_attempted(work, nested, k)(s, o) == behavior::attempted(
        s,
        work,
        nested,
        o,
        k,
    ));
}

proof fn lemma_renders(s: WindowBorder, nested: bool, k: Then, desk: Desk, done: Seq<Request>)
    requires
        works(desk),
    ensures
        played(behavior::with_recovery(s, Attempt::Render, nested, k), desk, done) == played(
            k(repainted(s, desk), Ok(false)),
            desk,
            painted(done, s, desk),
        ),
{
    reveal(repainted);
    reveal(painted);
    reveal(fitted);
    broadcast use {lemma_asked, lemma_need};

    lemma_sizes(s);
    lemma_sizes(repainted(s, desk));
    lemma_succeeds(repainted(s, desk), Attempt::Render, nested, Ok(false), k);
    lemma_succeeds(s, Attempt::Render, nested, Ok(false), k);
    assert(is_answer(Request::Backend, desk(Request::Backend)));
    let resize = Request::ResizeRenderer { size: wanted_size(s) };
    assert(is_answer(resize, desk(resize)));
    let fit = Request::ResizeTarget { size: window_size(s) };
    assert(is_answer(fit, desk(fit)));
    let render = Request::Render {
        bounds: area(s),
        state: s.window_state,
        fill_outer_corners: yes(desk, Request::IsArranged),
    };
    assert(is_answer(render, desk(render)));
}

broadcast proof fn lemma_render(s: WindowBorder, k: Then, desk: Desk, done: Seq<Request>)
    requires
        works(desk),
    ensures
        #[trigger] played(behavior::render(s, k), desk, done) == played(
            k(repainted(s, desk), Ok(false)),
            desk,
            painted(done, s, desk),
        ),
{
    lemma_renders(s, false, k, desk, done);
}

broadcast proof fn lemma_resize(s: WindowBorder, k: Then, desk: Desk, done: Seq<Request>)
    requires
        works(desk),
    ensures
        #[trigger] played(behavior::resize_renderer(s, k), desk, done) == played(
            k(s, Ok(false)),
            desk,
            done.push(Request::ResizeRenderer { size: wanted_size(s) }),
        ),
{
    broadcast use lemma_asked;

    lemma_sizes(s);
    lemma_succeeds(s, Attempt::ResizeRenderer, false, Ok(false), k);
    let resize = Request::ResizeRenderer { size: wanted_size(s) };
    assert(is_answer(resize, desk(resize)));
}

/// The renderer and the brushes are made.
pub open spec fn made(s: WindowBorder) -> Request {
    Request::InitDrawer {
        size: wanted_size(s),
        bounds: area(s),
        backend: s.config.render_backend,
    }
}

proof fn lemma_makes(s: WindowBorder, nested: bool, k: Then, desk: Desk, done: Seq<Request>)
    requires
        works(desk),
    ensures
        played(behavior::with_recovery(s, Attempt::InitDrawer, nested, k), desk, done) == played(
            k(s, Ok(false)),
            desk,
            done.push(made(s)),
        ),
{
    broadcast use lemma_asked;

    lemma_sizes(s);
    lemma_succeeds(s, Attempt::InitDrawer, nested, Ok(false), k);
    assert(is_answer(made(s), desk(made(s))));
}

broadcast proof fn lemma_make(s: WindowBorder, k: Then, desk: Desk, done: Seq<Request>)
    requires
        works(desk),
    ensures
        #[trigger] played(behavior::init_drawer(s, k), desk, done) == played(
            k(s, Ok(false)),
            desk,
            done.push(made(s)),
        ),
{
    lemma_makes(s, false, k, desk, done);
}

broadcast proof fn lemma_round(s: WindowBorder, k: Then, desk: Desk, done: Seq<Request>)
    requires
        works(desk),
    ensures
        #[trigger] played(behavior::sync_border_radius(s, k), desk, done) == played(
            k(
                cornered(s, desk),
                Ok(yes(desk, Request::RadiusDiffers { radius: wanted_radius(s, desk) })),
            ),
            desk,
            rounded(done, s, desk),
        ),
{
    reveal(rounded);
    reveal(cornered);
    broadcast use lemma_asked;

    let radius = wanted_radius(s, desk);
    assert(is_answer(Request::SetRadius { radius }, desk(Request::SetRadius { radius })));
}

/// The border with the look that it has at another dpi.
#[verifier::opaque]
pub open spec fn restyled(s: WindowBorder, dpi: u32, desk: Desk) -> WindowBorder {
    let look = desk(Request::Rescale { dpi })->Appearance_0;
    WindowBorder {
        drawer: BorderDrawer { stroke_width: look.stroke_width, ..s.drawer },
        border_offset: look.offset,
        border_padding: look.padding,
        current_dpi: dpi,
        ..s
    }
}

/// The border at another dpi.
pub open spec fn scaled_to(s: WindowBorder, dpi: u32, desk: Desk) -> WindowBorder {
    cornered(restyled(s, dpi, desk), desk)
}

/// Everything is scaled to another dpi, and the effects with it where there are any.
pub open spec fn scaling(done: Seq<Request>, s: WindowBorder, dpi: u32, desk: Desk) -> Seq<
    Request,
> {
    let round = rounded(done.push(Request::Rescale { dpi }), restyled(s, dpi, desk), desk);
    if renderer(desk) is V2 {
        round.push(Request::InitEffects)
    } else {
        round
    }
}

broadcast proof fn lemma_scale(
    s: WindowBorder,
    dpi: u32,
    k: Then,
    desk: Desk,
    done: Seq<Request>,
)
    requires
        works(desk),
    ensures
        #[trigger] played(behavior::rescale_border(s, dpi, k), desk, done) == played(
            k(scaled_to(s, dpi, desk), Ok(false)),
            desk,
            scaling(done, s, dpi, desk),
        ),
{
    reveal(restyled);
    broadcast use {lemma_asked, lemma_round};

    assert(is_answer(Request::Rescale { dpi }, desk(Request::Rescale { dpi })));
    assert(is_answer(Request::Backend, desk(Request::Backend)));
}

/// The dpi of a monitor.
pub open spec fn dpi_of(monitor: isize, desk: Desk) -> u32 {
    desk(Request::Dpi { monitor })->Dpi_0
}

/// The border at the dpi of a monitor.
pub open spec fn adapted(s: WindowBorder, monitor: isize, desk: Desk) -> WindowBorder {
    let dpi = dpi_of(monitor, desk);
    if dpi == s.current_dpi {
        s
    } else {
        scaled_to(s, dpi, desk)
    }
}

/// The border is adapted to the dpi of a monitor, and then its renderer to the border.
pub open spec fn adapting(
    done: Seq<Request>,
    s: WindowBorder,
    monitor: isize,
    desk: Desk,
) -> Seq<Request> {
    let dpi = dpi_of(monitor, desk);
    fitted(
        if dpi == s.current_dpi {
            done
        } else {
            scaling(done, s, dpi, desk)
        },
        adapted(s, monitor, desk),
        desk,
    )
}

/// Whether that changes anything.
pub open spec fn adapts(s: WindowBorder, monitor: isize, desk: Desk) -> bool {
    dpi_of(monitor, desk) != s.current_dpi || is_unfit(adapted(s, monitor, desk), desk)
}

broadcast proof fn lemma_adapt(
    s: WindowBorder,
    monitor: isize,
    k: Then,
    desk: Desk,
    done: Seq<Request>,
)
    requires
        works(desk),
        !(renderer(desk) is Absent),
    ensures
        #[trigger] played(
            behavior::rescale_border_and_resize_renderer_if_needed(s, monitor, k),
            desk,
            done,
        ) == played(
            k(adapted(s, monitor, desk), Ok(adapts(s, monitor, desk))),
            desk,
            adapting(done, s, monitor, desk),
        ),
{
    reveal(fitted);
    reveal(restyled);
    broadcast use {lemma_asked, lemma_scale, lemma_need, lemma_resize};

    let dpi = dpi_of(monitor, desk);
    assert(is_answer(Request::Dpi { monitor }, desk(Request::Dpi { monitor })));
    assert(restyled(WindowBorder { current_dpi: dpi, ..s }, dpi, desk) == restyled(s, dpi, desk));
}

/// The border after a step of a sequence.
spec fn stepped(s: WindowBorder, step: Step, desk: Desk) -> WindowBorder {
    match step {
        Step::UpdateColor(_) => refocused(s, desk),
        Step::UpdateWindowRect => at_frame(s, desk),
        Step::Render => repainted(s, desk),
        Step::SyncRadius => cornered(s, desk),
        Step::SetPaused(paused) => WindowBorder { is_paused: paused, ..s },
        Step::ForgetPendingLocation => WindowBorder { has_pending_location: false, ..s },
        _ => s,
    }
}

/// What is done in a step of a sequence.
spec fn stepping(done: Seq<Request>, s: WindowBorder, step: Step, desk: Desk) -> Seq<Request> {
    match step {
        Step::Tell(request) => done.push(request),
        Step::UpdateColor(delay) => brushed(done, refocused(s, desk), delay, desk),
        Step::UpdatePosition(visibility) => done.push(moved(s, visibility, desk)),
        Step::Render => painted(done, s, desk),
        Step::ResizeRenderer => done.push(Request::ResizeRenderer { size: wanted_size(s) }),
        Step::ResizeIfNeeded => fitted(done, s, desk),
        Step::SyncRadius => rounded(done, s, desk),
        Step::UpdateColorBrush { active, source } => colored(done, s, active, source, desk),
        _ => done,
    }
}

/// The border after a sequence of steps.
spec fn ran(s: WindowBorder, steps: Seq<Step>, desk: Desk) -> WindowBorder
    decreases steps.len(),
{
    if steps.len() == 0 {
        s
    } else {
        stepped(ran(s, steps.drop_last(), desk), steps.last(), desk)
    }
}

/// What is done in a sequence of steps.
spec fn running(done: Seq<Request>, s: WindowBorder, steps: Seq<Step>, desk: Desk) -> Seq<Request>
    decreases steps.len(),
{
    if steps.len() == 0 {
        done
    } else {
        stepping(
            running(done, s, steps.drop_last(), desk),
            ran(s, steps.drop_last(), desk),
            steps.last(),
            desk,
        )
    }
}

/// Whether some steps tell the desktop something, rather than asking it.
spec fn ask_nothing(steps: Seq<Step>) -> bool {
    forall|i: int|
        0 <= i < steps.len() ==> ((#[trigger] steps[i]) matches Step::Tell(request)
            ==> !is_question(request))
}

broadcast proof fn lemma_ran(s: WindowBorder, steps: Seq<Step>, step: Step, desk: Desk)
    ensures
        #[trigger] ran(s, steps.push(step), desk) == stepped(ran(s, steps, desk), step, desk),
{
    assert(steps.push(step).drop_last() =~= steps);
}

broadcast proof fn lemma_running(
    done: Seq<Request>,
    s: WindowBorder,
    steps: Seq<Step>,
    step: Step,
    desk: Desk,
)
    ensures
        #[trigger] running(done, s, steps.push(step), desk) == stepping(
            running(done, s, steps, desk),
            ran(s, steps, desk),
            step,
            desk,
        ),
{
    assert(steps.push(step).drop_last() =~= steps);
}

proof fn lemma_step(s: WindowBorder, step: Step, k: Then, desk: Desk, done: Seq<Request>)
    requires
        works(desk),
        step matches Step::Tell(request) ==> !is_question(request),
    ensures
        played(behavior::sequence(s, seq![step], k), desk, done) == played(
            k(stepped(s, step, desk), Ok(false)),
            desk,
            stepping(done, s, step, desk),
        ),
{
    reveal(fitted);
    broadcast use {
        lemma_asked, lemma_color, lemma_rect, lemma_place, lemma_render, lemma_resize, lemma_need,
        lemma_round, lemma_brush,
    };

    let steps = seq![step];
    let rest = behavior::on_performed(seq![], k);
    assert(steps.drop_first() =~= seq![]);
    assert(behavior::sequence(s, steps, k) == behavior::perform(s, step, rest));
    assert forall|s: WindowBorder, o: Outcome| #[trigger] rest(s, o) == k(s, Ok(false)) by {
    }
}

broadcast proof fn lemma_steps(
    s: WindowBorder,
    steps: Seq<Step>,
    k: Then,
    desk: Desk,
    done: Seq<Request>,
)
    requires
        works(desk),
        ask_nothing(steps),
    ensures
        #[trigger] played(behavior::sequence(s, steps, k), desk, done) == played(
            k(ran(s, steps, desk), Ok(false)),
            desk,
            running(done, s, steps, desk),
        ),
    decreases steps.len(),
{
    if steps.len() > 0 {
        let first = steps.drop_last();
        let step = steps.last();
        let then = |s: WindowBorder, o: Outcome| behavior::sequence(s, seq![step], k);
        assert(steps =~= first + seq![step]);
        assert(steps[steps.len() - 1] == step);
        a_sequence_is_taken_in_order(s, first, seq![step], k);
        lemma_steps(s, first, then, desk, done);
        lemma_step(ran(s, first, desk), step, k, desk, running(done, s, first, desk));
    }
}

/// What a sequence of steps comes to that nothing follows on.
proof fn lemma_run(s: WindowBorder, steps: Seq<Step>, desk: Desk, done: Seq<Request>)
    requires
        works(desk),
        ask_nothing(steps),
    ensures
        played(behavior::sequence(s, steps, finish()), desk, done) == (Played {
            deeds: running(done, s, steps, desk),
            now: ran(s, steps, desk),
            outcome: Ok(false),
        }),
{
    lemma_steps(s, steps, finish(), desk, done);
    lemma_finished(ran(s, steps, desk), Ok(false), desk, running(done, s, steps, desk));
}

// Messages.

/// When another window gets the focus, the border takes the color that the focus gives it, goes
/// next to its window again, is drawn in that color, and its animations begin.
pub proof fn a_border_shows_the_focus(s: WindowBorder, desk: Desk)
    requires
        works(desk),
        s.is_initialized,
        yes(desk, Request::WindowExists),
    ensures
        ({
            let colored = refocused(s, desk);
            let moved = brushed(seq![], colored, None, desk).push(
                moved(colored, Visibility::Keep, desk),
            );
            on_message(s, Message::Foreground, desk) == Played {
                deeds: painted(moved, colored, desk).push(Request::SetAnimsTimer),
                now: repainted(colored, desk),
                outcome: Ok(false),
            }
        }),
{
    broadcast use {lemma_ran, lemma_running};

    let steps = seq![Step::UpdateColor(None)].push(Step::UpdatePosition(Visibility::Keep)).push(
        Step::Render,
    ).push(Step::Tell(Request::SetAnimsTimer));
    assert(steps =~= seq![steps[0], steps[1], steps[2], steps[3]]);
    lemma_asked(
        s,
        Request::WindowExists,
        |s: WindowBorder, r: Reply| dispatch::foreground_exists_known(s, r, finish()),
        desk,
        seq![],
    );
    lemma_run(s, steps, desk, seq![]);
}

/// A border whose window is gone gives up when it is told that the window moved, that the order of
/// windows changed, or that another window got the focus: its animations stop, it pauses, and its
/// own window is asked to close. Nothing else is done.
pub proof fn a_border_without_a_window_ends(s: WindowBorder, message: Message, desk: Desk)
    requires
        !yes(desk, Request::WindowExists),
        message == Message::Foreground || message == Message::Reorder || (message
            == Message::LocationChange && s.is_initialized && !s.is_paused),
    ensures
        on_message(s, message, desk) == (Played {
            deeds: ending(seq![], s),
            now: ended(s),
            outcome: Ok(false),
        }),
{
    broadcast use {lemma_asked, lemma_finished, lemma_exit};

}

/// A border that is not initialized does nothing about its window's place, order, focus or
/// frames.
pub proof fn a_border_that_is_not_initialized_waits(s: WindowBorder, message: Message, desk: Desk)
    requires
        !s.is_initialized,
        yes(desk, Request::WindowExists),
        message == Message::Foreground || message == Message::Reorder || message
            == Message::ShowUncloaked || message == Message::Animate,
    ensures
        on_message(s, message, desk) == (Played { deeds: seq![], now: s, outcome: Ok(false) }),
{
    broadcast use {lemma_asked, lemma_finished, lemma_exit};

}

/// When its window is hidden or cloaked, a border is hidden, its animations stop, and it pauses.
pub proof fn a_border_goes_with_a_hidden_window(s: WindowBorder, desk: Desk)
    requires
        works(desk),
    ensures
        on_message(s, Message::HideCloaked, desk) == (Played {
            deeds: seq![moved(s, Visibility::Hide, desk)].push(Request::DestroyAnimsTimer),
            now: WindowBorder { is_paused: true, ..s },
            outcome: Ok(false),
        }),
{
    broadcast use {lemma_ran, lemma_running};

    let steps = seq![Step::UpdatePosition(Visibility::Hide)].push(
        Step::Tell(Request::DestroyAnimsTimer),
    ).push(Step::SetPaused(true));
    assert(steps =~= seq![steps[0], steps[1], steps[2]]);
    lemma_run(s, steps, desk, seq![]);
}

/// When its window is minimized, a border is hidden, both of its brushes become invisible, its
/// animations stop, and it pauses. Before it is initialized it has no brushes.
pub proof fn a_border_goes_with_a_minimized_window(s: WindowBorder, desk: Desk)
    requires
        works(desk),
    ensures
        ({
            let hidden = seq![moved(s, Visibility::Hide, desk)];
            let dimmed = if s.is_initialized {
                hidden.push(Request::SetOpacity { active: true, opaque: false }).push(
                    Request::SetOpacity { active: false, opaque: false },
                )
            } else {
                hidden
            };
            on_message(s, Message::MinimizeStart, desk) == (Played {
                deeds: dimmed.push(Request::DestroyAnimsTimer),
                now: WindowBorder { is_paused: true, ..s },
                outcome: Ok(false),
            })
        }),
{
    broadcast use {lemma_ran, lemma_running};

    let then = |s: WindowBorder, o: Outcome| dispatch::minimize_hidden(s, finish());
    let hide = seq![Step::UpdatePosition(Visibility::Hide)];
    lemma_steps(s, hide, then, desk, seq![]);
    let hidden = seq![moved(s, Visibility::Hide, desk)];
    let steps = if s.is_initialized {
        seq![Step::Tell(Request::SetOpacity { active: true, opaque: false })].push(
            Step::Tell(Request::SetOpacity { active: false, opaque: false }),
        ).push(Step::Tell(Request::DestroyAnimsTimer)).push(Step::SetPaused(true))
    } else {
        seq![Step::Tell(Request::DestroyAnimsTimer)].push(Step::SetPaused(true))
    };
    if s.is_initialized {
        assert(steps =~= seq![steps[0], steps[1], steps[2], steps[3]]);
    } else {
        assert(steps =~= seq![steps[0], steps[1]]);
    }
    lemma_run(s, steps, desk, hidden);
}

/// What the border of a window that comes into sight does: it takes the color that the focus gives
/// it, goes to its window, is shown and drawn, and its animations begin.
pub open spec fn appearing(
    done: Seq<Request>,
    s: WindowBorder,
    delay: Option<u64>,
    fit: bool,
    desk: Desk,
) -> Seq<Request> {
    let there = at_frame(refocused(s, desk), desk);
    let brushed = brushed(done, refocused(s, desk), delay, desk);
    let fitted = if fit {
        fitted(brushed, there, desk)
    } else {
        brushed
    };
    painted(fitted.push(moved(there, Visibility::Show, desk)), there, desk).push(
        Request::SetAnimsTimer,
    )
}

/// The border of a window that came into sight.
pub open spec fn appeared(s: WindowBorder, desk: Desk) -> WindowBorder {
    repainted(at_frame(refocused(s, desk), desk), desk)
}

/// When its window is shown or uncloaked and is on the screen, an initialized border appears,
/// if the window is to be framed, and is not paused any more.
pub proof fn a_border_comes_back_with_a_shown_window(s: WindowBorder, desk: Desk)
    requires
        works(desk),
        s.is_initialized,
    ensures
        on_message(s, Message::ShowUncloaked, desk) == (Played {
            deeds: if to_be_framed(s, desk) {
                appearing(seq![], s, None, false, desk)
            } else {
                seq![]
            },
            now: if to_be_framed(s, desk) {
                WindowBorder { is_paused: false, ..appeared(s, desk) }
            } else if in_sight(desk) {
                WindowBorder { is_paused: false, ..s }
            } else {
                s
            },
            outcome: Ok(false),
        }),
{
    broadcast use {lemma_ran, lemma_running, lemma_finished};

    assert(is_answer(Request::Look, desk(Request::Look)));
    lemma_asked(
        s,
        Request::Look,
        |s: WindowBorder, r: Reply| dispatch::shown_known(s, r, finish()),
        desk,
        seq![],
    );
    lemma_asked(
        s,
        Request::Look,
        |s: WindowBorder, r: Reply| dispatch::shown_facts_known(s, r, finish()),
        desk,
        seq![],
    );
    if to_be_framed(s, desk) {
        let steps = seq![Step::UpdateColor(None)].push(Step::UpdateWindowRect).push(
            Step::UpdatePosition(Visibility::Show),
        ).push(Step::Render).push(Step::Tell(Request::SetAnimsTimer)).push(Step::SetPaused(false));
        assert(steps =~= seq![steps[0], steps[1], steps[2], steps[3], steps[4], steps[5]]);
        assert(ask_nothing(steps));
        lemma_run(s, steps, desk, seq![]);
    } else {
        lemma_run(s, seq![Step::SetPaused(false)], desk, seq![]);
    }
}

/// What the border of a restored window comes to: it appears, with a renderer that fits, and a
/// last look is taken a quarter of a second later, if the window is to be framed; in any case it
/// is not paused any more and has no change of location left to see to.
pub open spec fn restored(s: WindowBorder, done: Seq<Request>, desk: Desk) -> Played {
    let back = if to_be_framed(s, desk) {
        appeared(s, desk)
    } else {
        s
    };
    Played {
        deeds: if to_be_framed(s, desk) {
            appearing(done, s, Some(s.config.unminimize_delay), true, desk).push(
                Request::SetTimer { id: 3, millis: 250 },
            )
        } else {
            done
        },
        now: WindowBorder { is_paused: false, has_pending_location: false, ..back },
        outcome: Ok(false),
    }
}

proof fn lemma_restored(s: WindowBorder, done: Seq<Request>, desk: Desk)
    requires
        works(desk),
    ensures
        played(dispatch::complete_unminimize(s, finish()), desk, done) == restored(s, done, desk),
{
    assert(is_answer(Request::Look, desk(Request::Look)));
    lemma_asked(
        s,
        Request::Look,
        |s: WindowBorder, r: Reply| dispatch::unminimize_facts_known(s, r, finish()),
        desk,
        done,
    );
    if to_be_framed(s, desk) {
        lemma_restored_in_sight(s, done, desk);
    } else {
        broadcast use {lemma_ran, lemma_running};

        let steps = seq![Step::SetPaused(false)].push(Step::ForgetPendingLocation);
        assert(steps =~= seq![steps[0], steps[1]]);
        lemma_run(s, steps, desk, done);
    }
}

proof fn lemma_restored_in_sight(s: WindowBorder, done: Seq<Request>, desk: Desk)
    requires
        works(desk),
        to_be_framed(s, desk),
    ensures
        played(
            dispatch::unminimize_facts_known(s, desk(Request::Look), finish()),
            desk,
            done,
        ) == restored(s, done, desk),
{
    broadcast use {lemma_ran, lemma_running};

    assert(is_answer(Request::Look, desk(Request::Look)));
    let steps = seq![Step::UpdateColor(Some(s.config.unminimize_delay))].push(
        Step::UpdateWindowRect,
    ).push(Step::ResizeIfNeeded).push(Step::UpdatePosition(Visibility::Show)).push(
        Step::Render,
    ).push(Step::Tell(Request::SetAnimsTimer)).push(
        Step::Tell(Request::SetTimer { id: 3, millis: 250 }),
    ).push(Step::SetPaused(false)).push(Step::ForgetPendingLocation);
    assert(steps =~= seq![
        steps[0],
        steps[1],
        steps[2],
        steps[3],
        steps[4],
        steps[5],
        steps[6],
        steps[7],
        steps[8],
    ]);
    assert(ask_nothing(steps));
    lemma_run(s, steps, desk, done);
}

/// When its window is restored and is on the screen, a border comes back, after the delay that the
/// configuration may ask for.
pub proof fn a_border_comes_back_with_a_restored_window(s: WindowBorder, desk: Desk)
    requires
        works(desk),
    ensures
        on_message(s, Message::MinimizeEnd, desk) == if !in_sight(desk) {
            Played { deeds: seq![], now: s, outcome: Ok(false) }
        } else if s.config.unminimize_delay > 0 {
            Played {
                deeds: seq![
                    Request::SetTimer {
                        id: 2,
                        millis: (s.config.unminimize_delay as int % 0x1_0000_0000) as u32,
                    },
                ],
                now: s,
                outcome: Ok(false),
            }
        } else {
            restored(s, seq![], desk)
        },
        on_message(s, Message::Timer { id: 2 }, desk) == restored(
            s,
            seq![Request::KillTimer { id: 2 }],
            desk,
        ),
{
    broadcast use lemma_finished;

    assert(is_answer(Request::Look, desk(Request::Look)));
    lemma_restored(s, seq![], desk);
    lemma_restored(s, seq![Request::KillTimer { id: 2 }], desk);
    lemma_asked(
        s,
        Request::Look,
        |s: WindowBorder, r: Reply| dispatch::restored_known(s, r, finish()),
        desk,
        seq![],
    );
    let timer = Request::SetTimer {
        id: 2,
        millis: (s.config.unminimize_delay as int % 0x1_0000_0000) as u32,
    };
    lemma_asked(s, timer, |s: WindowBorder, r: Reply| finish()(s, Ok(false)), desk, seq![]);
    lemma_asked(
        s,
        Request::KillTimer { id: 2 },
        |s: WindowBorder, r: Reply| dispatch::timer_stopped(s, 2, finish()),
        desk,
        seq![],
    );
}

/// A frame of the animations is drawn for a border that is initialized and not paused, with the
/// corners of the moment.
pub proof fn the_animations_go_on(s: WindowBorder, desk: Desk)
    requires
        s.is_initialized,
        !s.is_paused,
    ensures
        on_message(s, Message::Animate, desk) == (Played {
            deeds: seq![
                Request::Animate {
                    bounds: area(s),
                    state: s.window_state,
                    fill_outer_corners: yes(desk, Request::IsArranged),
                },
            ],
            now: repainted(s, desk),
            outcome: Ok(false),
        }),
{
    reveal(repainted);
    broadcast use {lemma_asked, lemma_finished, lemma_exit};

    lemma_sizes(repainted(s, desk));
}

/// New colors are put in the brushes that they are for, and drawn.
pub proof fn new_colors_are_drawn(s: WindowBorder, active: bool, inactive: bool, desk: Desk)
    requires
        works(desk),
    ensures
        ({
            let one = if active {
                colored(seq![], s, true, ColorSource::Message, desk)
            } else {
                seq![]
            };
            let both = if inactive {
                colored(one, s, false, ColorSource::Message, desk)
            } else {
                one
            };
            on_message(s, Message::SetColors { active, inactive }, desk) == (Played {
                deeds: painted(both, s, desk),
                now: repainted(s, desk),
                outcome: Ok(false),
            })
        }),
{
    broadcast use {lemma_ran, lemma_running};

    lemma_run(s, dispatch::color_steps(active, inactive), desk, seq![]);
}

/// A border that got another width or offset gets a renderer of the size that it needs so far,
/// goes to the place that follows, and is drawn.
pub open spec fn refit(done: Seq<Request>, s: WindowBorder, desk: Desk) -> Seq<Request> {
    let there = at_frame(s, desk);
    painted(
        done.push(Request::ResizeRenderer { size: wanted_size(s) }).push(
            moved(there, Visibility::Keep, desk),
        ),
        there,
        desk,
    )
}

/// A new width is taken over, also for the corners, and the border moved and drawn with it.
pub proof fn a_new_width_is_drawn(s: WindowBorder, desk: Desk)
    requires
        works(desk),
    ensures
        ({
            let adopt = Request::AdoptWidth { dpi: s.current_dpi };
            let wide = WindowBorder {
                drawer: BorderDrawer {
                    stroke_width: desk(adopt)->StrokeWidth_0,
                    ..s.drawer
                },
                ..s
            };
            on_message(s, Message::SetWidth, desk) == (Played {
                deeds: refit(rounded(seq![adopt], wide, desk), cornered(wide, desk), desk),
                now: repainted(at_frame(cornered(wide, desk), desk), desk),
                outcome: Ok(false),
            })
        }),
{
    broadcast use {lemma_ran, lemma_running};

    let adopt = Request::AdoptWidth { dpi: s.current_dpi };
    assert(is_answer(adopt, desk(adopt)));
    let wide = WindowBorder {
        drawer: BorderDrawer { stroke_width: desk(adopt)->StrokeWidth_0, ..s.drawer },
        ..s
    };
    let steps = seq![Step::SyncRadius].push(Step::ResizeRenderer).push(
        Step::UpdateWindowRect,
    ).push(Step::UpdatePosition(Visibility::Keep)).push(Step::Render);
    assert(steps =~= seq![steps[0], steps[1], steps[2], steps[3], steps[4]]);
    lemma_asked(
        s,
        adopt,
        |s: WindowBorder, r: Reply| dispatch::width_adopted(s, r, finish()),
        desk,
        seq![],
    );
    lemma_run(wide, steps, desk, seq![adopt]);
}

/// A new offset is taken over, and the border moved and drawn with it.
pub proof fn a_new_offset_is_drawn(s: WindowBorder, desk: Desk)
    requires
        works(desk),
    ensures
        ({
            let adopt = Request::AdoptOffset { dpi: s.current_dpi };
            let off = WindowBorder { border_offset: desk(adopt)->Offset_0, ..s };
            on_message(s, Message::SetOffset, desk) == (Played {
                deeds: refit(seq![adopt], off, desk),
                now: repainted(at_frame(off, desk), desk),
                outcome: Ok(false),
            })
        }),
{
    broadcast use {lemma_ran, lemma_running};

    let adopt = Request::AdoptOffset { dpi: s.current_dpi };
    assert(is_answer(adopt, desk(adopt)));
    let off = WindowBorder { border_offset: desk(adopt)->Offset_0, ..s };
    let steps = seq![Step::ResizeRenderer].push(Step::UpdateWindowRect).push(
        Step::UpdatePosition(Visibility::Keep),
    ).push(Step::Render);
    assert(steps =~= seq![steps[0], steps[1], steps[2], steps[3]]);
    lemma_asked(
        s,
        adopt,
        |s: WindowBorder, r: Reply| dispatch::offset_adopted(s, r, finish()),
        desk,
        seq![],
    );
    lemma_run(off, steps, desk, seq![adopt]);
}

/// A new radius is taken over, set and drawn.
#[verifier::rlimit(40)]
pub proof fn a_new_radius_is_drawn(s: WindowBorder, desk: Desk)
    requires
        works(desk),
    ensures
        ({
            let round = WindowBorder {
                config: BorderConfig {
                    radius_auto: yes(desk, Request::AdoptRadius),
                    ..s.config
                },
                ..s
            };
            on_message(s, Message::SetRadius, desk) == (Played {
                deeds: painted(
                    rounded(seq![Request::AdoptRadius], round, desk),
                    cornered(round, desk),
                    desk,
                ),
                now: repainted(cornered(round, desk), desk),
                outcome: Ok(false),
            })
        }),
{
    broadcast use {lemma_ran, lemma_running};

    let round = WindowBorder {
        config: BorderConfig { radius_auto: yes(desk, Request::AdoptRadius), ..s.config },
        ..s
    };
    let steps = seq![Step::SyncRadius].push(Step::Render);
    assert(steps =~= seq![steps[0], steps[1]]);
    lemma_asked(
        s,
        Request::AdoptRadius,
        |s: WindowBorder, r: Reply| dispatch::radius_adopted(s, r, finish()),
        desk,
        seq![],
    );
    lemma_run(round, steps, desk, seq![Request::AdoptRadius]);
}

/// The border window is validated when it is to be painted, and destroyed when it is to close;
/// being moved means nothing, and any other message is left to the default procedure.
pub proof fn the_window_itself_is_attended_to(s: WindowBorder, desk: Desk)
    ensures
        on_message(s, Message::Paint, desk) == (Played {
            deeds: seq![Request::ValidatePaint],
            now: s,
            outcome: Ok(false),
        }),
        on_message(s, Message::Close, desk) == (Played {
            deeds: seq![Request::DestroyWindow],
            now: s,
            outcome: Ok(false),
        }),
        on_message(s, Message::WindowPosChange, desk) == (Played {
            deeds: seq![],
            now: s,
            outcome: Ok(false),
        }),
        on_message(s, Message::Other, desk) == (Played {
            deeds: seq![],
            now: s,
            outcome: Ok(true),
        }),
        forall|id: usize|
            id > 3 ==> #[trigger] on_message(s, Message::Timer { id }, desk) == (Played {
                deeds: seq![],
                now: s,
                outcome: Ok(false),
            }),
{
    broadcast use {lemma_asked, lemma_finished, lemma_exit};

}

/// When a setting of the display changes, the border is adapted to its monitor, and drawn if that
/// changed anything and the border can be seen.
pub proof fn a_display_change_is_adapted_to(s: WindowBorder, desk: Desk)
    requires
        works(desk),
        !(renderer(desk) is Absent),
    ensures
        ({
            let monitor = s.current_monitor;
            let there = adapted(s, monitor, desk);
            let drawn = adapts(s, monitor, desk) && yes(desk, Request::BorderVisible);
            on_message(s, Message::DisplayChange, desk) == (Played {
                deeds: if drawn {
                    painted(adapting(seq![], s, monitor, desk), there, desk)
                } else {
                    adapting(seq![], s, monitor, desk)
                },
                now: if drawn {
                    repainted(there, desk)
                } else {
                    there
                },
                outcome: Ok(false),
            })
        }),
{
    broadcast use {lemma_ran, lemma_running, lemma_finished};

    let monitor = s.current_monitor;
    let there = adapted(s, monitor, desk);
    let done = adapting(seq![], s, monitor, desk);
    let then = |s: WindowBorder, o: Outcome| dispatch::display_adapted(s, o, finish());
    lemma_adapt(s, monitor, then, desk, seq![]);
    lemma_asked(
        there,
        Request::BorderVisible,
        |s: WindowBorder, r: Reply| dispatch::display_visible_known(s, r, finish()),
        desk,
        done,
    );
    lemma_run(there, seq![Step::Render], desk, done);
}

/// When the dpi changes to the one in the low word of the parameter, everything is scaled to it,
/// the renderer is resized, and the border is drawn.
pub proof fn a_dpi_change_is_adapted_to(s: WindowBorder, wparam: usize, desk: Desk)
    requires
        works(desk),
    ensures
        ({
            let dpi = (wparam as int % 0x1_0000) as u32;
            let there = scaled_to(s, dpi, desk);
            let sized = scaling(seq![], s, dpi, desk).push(
                Request::ResizeRenderer { size: wanted_size(there) },
            );
            on_message(s, Message::DpiChanged { wparam }, desk) == if dpi == s.current_dpi {
                Played { deeds: seq![], now: s, outcome: Ok(false) }
            } else {
                Played {
                    deeds: painted(sized, there, desk),
                    now: repainted(there, desk),
                    outcome: Ok(false),
                }
            }
        }),
{
    broadcast use {lemma_ran, lemma_running, lemma_finished};

    let dpi = (wparam as int % 0x1_0000) as u32;
    let noted = WindowBorder { current_dpi: dpi, ..s };
    assert(restyled(noted, dpi, desk) == restyled(s, dpi, desk)) by {
        reveal(restyled);
    }
    let then = |s: WindowBorder, o: Outcome| dispatch::dpi_adapted(s, finish());
    lemma_scale(noted, dpi, then, desk, seq![]);
    let steps = seq![Step::ResizeRenderer].push(Step::Render);
    assert(steps =~= seq![steps[0], steps[1]]);
    lemma_run(scaled_to(s, dpi, desk), steps, desk, scaling(seq![], s, dpi, desk));
}

/// Whether the border window has another size at the place that its window gives it.
pub open spec fn is_resized(s: WindowBorder, desk: Desk) -> bool {
    let (before, after) = (s.window_rect, at_frame(s, desk).window_rect);
    ||| after.right - after.left != before.right - before.left
    ||| after.bottom - after.top != before.bottom - before.top
}

/// The border goes to its window, and is drawn again if it has another size, if its renderer had to
/// be resized, or if something else about it changed.
pub open spec fn going(
    done: Seq<Request>,
    s: WindowBorder,
    changed: bool,
    visibility: Visibility,
    desk: Desk,
) -> Seq<Request> {
    let there = at_frame(s, desk);
    let gone = fitted(done, there, desk).push(moved(there, visibility, desk));
    if changed || is_unfit(there, desk) || is_resized(s, desk) {
        painted(gone, there, desk)
    } else {
        gone
    }
}

/// The border that went to its window.
pub open spec fn gone(s: WindowBorder, changed: bool, desk: Desk) -> WindowBorder {
    let there = at_frame(s, desk);
    if changed || is_unfit(there, desk) || is_resized(s, desk) {
        repainted(there, desk)
    } else {
        there
    }
}

#[verifier::rlimit(40)]
proof fn lemma_going(s: WindowBorder, live: bool, changed: bool, desk: Desk, done: Seq<Request>)
    requires
        works(desk),
    ensures
        ({
            let visibility = if !live || yes(desk, Request::BorderVisible) {
                Visibility::Keep
            } else {
                Visibility::Show
            };
            let deeds = going(done, s, changed, visibility, desk);
            played(dispatch::follow(s, live, changed, finish()), desk, done) == (Played {
                deeds: if live {
                    deeds.push(Request::SetAnimsTimer)
                } else {
                    deeds
                },
                now: gone(s, changed, desk),
                outcome: Ok(false),
            })
        }),
{
    broadcast use {lemma_ran, lemma_running};

    let there = at_frame(s, desk);
    let before = s.window_rect;
    let updated = changed || is_unfit(there, desk) || is_resized(s, desk);
    let visibility = if !live || yes(desk, Request::BorderVisible) {
        Visibility::Keep
    } else {
        Visibility::Show
    };
    let steps = dispatch::follow_steps(live, updated, visibility);
    assert(played(dispatch::follow(s, live, changed, finish()), desk, done) == played(
        dispatch::follow_place(there, live, updated, finish()),
        desk,
        fitted(done, there, desk),
    )) by {
        broadcast use {lemma_asked, lemma_rect, lemma_need, lemma_resize};

        reveal(fitted);
    }
    assert(played(
        dispatch::follow_place(there, live, updated, finish()),
        desk,
        fitted(done, there, desk),
    ) == played(behavior::sequence(there, steps, finish()), desk, fitted(done, there, desk))) by {
        if live {
            lemma_asked(
                there,
                Request::BorderVisible,
                |s: WindowBorder, r: Reply|
                    dispatch::border_visible_known(s, updated, r, finish()),
                desk,
                fitted(done, there, desk),
            );
        }
    }
    lemma_run(there, steps, desk, fitted(done, there, desk));
}

/// The border on the monitor that its window is on.
pub open spec fn on_monitor(s: WindowBorder, desk: Desk) -> WindowBorder {
    let monitor = desk(Request::Monitor)->Handle_0;
    if monitor == s.current_monitor {
        s
    } else {
        adapted(WindowBorder { current_monitor: monitor, ..s }, monitor, desk)
    }
}

/// The border is adapted to the monitor that its window is on, if that is another one.
pub open spec fn monitoring(done: Seq<Request>, s: WindowBorder, desk: Desk) -> Seq<Request> {
    let monitor = desk(Request::Monitor)->Handle_0;
    if monitor == s.current_monitor {
        done
    } else {
        adapting(done, WindowBorder { current_monitor: monitor, ..s }, monitor, desk)
    }
}

/// Whether that changes anything.
pub open spec fn is_elsewhere(s: WindowBorder, desk: Desk) -> bool {
    let monitor = desk(Request::Monitor)->Handle_0;
    monitor != s.current_monitor && adapts(
        WindowBorder { current_monitor: monitor, ..s },
        monitor,
        desk,
    )
}

proof fn lemma_monitoring(s: WindowBorder, live: bool, desk: Desk, done: Seq<Request>)
    requires
        works(desk),
        renderer(desk) is Absent ==> desk(Request::Monitor) == Reply::Handle(s.current_monitor),
    ensures
        played(dispatch::check_monitor(s, live, finish()), desk, done) == played(
            dispatch::monitor_checked(
                on_monitor(s, desk),
                live,
                is_elsewhere(s, desk),
                finish(),
            ),
            desk,
            monitoring(done, s, desk),
        ),
{
    broadcast use lemma_adapt;

    assert(is_answer(Request::Monitor, desk(Request::Monitor)));
    lemma_asked(
        s,
        Request::Monitor,
        |s: WindowBorder, r: Reply| dispatch::monitor_known(s, live, r, finish()),
        desk,
        done,
    );
}

/// Without a renderer it cannot be told whether it fits: a border that has to be adapted to a
/// monitor is scaled to its dpi, and nothing more is done, be it that a setting of the display
/// changed or that its window moved to another monitor.
pub proof fn a_border_without_a_renderer_is_only_scaled(s: WindowBorder, desk: Desk)
    requires
        works(desk),
        renderer(desk) is Absent,
    ensures
        ({
            let monitor = desk(Request::Monitor)->Handle_0;
            let there = WindowBorder { current_monitor: monitor, ..s };
            let scaled = |s: WindowBorder|
                if dpi_of(s.current_monitor, desk) == s.current_dpi {
                    seq![]
                } else {
                    scaling(seq![], s, dpi_of(s.current_monitor, desk), desk)
                };
            &&& on_message(s, Message::DisplayChange, desk) == (Played {
                deeds: scaled(s),
                now: adapted(s, s.current_monitor, desk),
                outcome: Ok(false),
            })
            &&& s.is_initialized && !s.is_paused && yes(desk, Request::WindowExists)
                && to_be_framed(s, desk) && monitor != s.current_monitor ==> on_message(
                s,
                Message::LocationChange,
                desk,
            ) == (Played {
                deeds: scaled(there),
                now: adapted(there, monitor, desk),
                outcome: Ok(false),
            })
        }),
{
    broadcast use lemma_finished;

    assert(is_answer(Request::Look, desk(Request::Look)));
    assert(is_answer(Request::Monitor, desk(Request::Monitor)));
    let monitor = desk(Request::Monitor)->Handle_0;
    let there = WindowBorder { current_monitor: monitor, ..s };
    lemma_unadapted(
        s,
        s.current_monitor,
        |s: WindowBorder, o: Outcome| dispatch::display_adapted(s, o, finish()),
        desk,
    );
    lemma_unadapted(
        there,
        monitor,
        |s: WindowBorder, o: Outcome| dispatch::monitor_adapted(s, true, o, finish()),
        desk,
    );
    lemma_asked(
        s,
        Request::WindowExists,
        |s: WindowBorder, r: Reply| dispatch::location_exists_known(s, r, finish()),
        desk,
        seq![],
    );
    lemma_asked(
        s,
        Request::Look,
        |s: WindowBorder, r: Reply| dispatch::location_facts_known(s, r, finish()),
        desk,
        seq![],
    );
    lemma_asked(
        s,
        Request::Monitor,
        |s: WindowBorder, r: Reply| dispatch::monitor_known(s, true, r, finish()),
        desk,
        seq![],
    );
}

proof fn lemma_unadapted(s: WindowBorder, monitor: isize, k: Then, desk: Desk)
    requires
        works(desk),
        renderer(desk) is Absent,
    ensures
        played(
            behavior::rescale_border_and_resize_renderer_if_needed(s, monitor, k),
            desk,
            seq![],
        ) == played(
            k(adapted(s, monitor, desk), Err(ErrorCode::Uninit)),
            desk,
            if dpi_of(monitor, desk) == s.current_dpi {
                seq![]
            } else {
                scaling(seq![], s, dpi_of(monitor, desk), desk)
            },
        ),
{
    broadcast use {lemma_asked, lemma_scale, lemma_need};

    reveal(restyled);
    let dpi = dpi_of(monitor, desk);
    assert(is_answer(Request::Dpi { monitor }, desk(Request::Dpi { monitor })));
    assert(restyled(WindowBorder { current_dpi: dpi, ..s }, dpi, desk) == restyled(s, dpi, desk));
}

/// Whether the window was snapped, or released, since the corners last got their radius, and the
/// radius follows from that.
pub open spec fn is_snap_new(s: WindowBorder, desk: Desk) -> bool {
    s.config.radius_auto && yes(desk, Request::IsArranged) != s.arranged_override_active
}

proof fn lemma_snapping(s: WindowBorder, changed: bool, desk: Desk, done: Seq<Request>)
    requires
        works(desk),
    ensures
        ({
            let snapped = if is_snap_new(s, desk) {
                cornered(s, desk)
            } else {
                s
            };
            let differs = Request::RadiusDiffers { radius: wanted_radius(s, desk) };
            played(dispatch::monitor_checked(s, true, changed, finish()), desk, done) == played(
                dispatch::follow(
                    repainted(snapped, desk),
                    true,
                    changed || (is_snap_new(s, desk) && yes(desk, differs))
                        || s.drawer.fill_outer_corners != yes(desk, Request::IsArranged),
                    finish(),
                ),
                desk,
                if is_snap_new(s, desk) {
                    rounded(done, s, desk)
                } else {
                    done
                },
            )
        }),
{
    broadcast use {lemma_asked, lemma_round};

    reveal(repainted);
    reveal(cornered);
}

/// When its window moved, exists and is to be framed, an initialized border that is not paused
/// follows it: it is adapted to the monitor, its corners to whether the window is snapped, and it
/// goes to its window, visible, and is drawn again if anything about it changed. Its animations
/// go on.
pub proof fn a_border_follows_its_window(s: WindowBorder, desk: Desk)
    requires
        works(desk),
        s.is_initialized,
        !s.is_paused,
        yes(desk, Request::WindowExists),
        to_be_framed(s, desk),
        renderer(desk) is Absent ==> desk(Request::Monitor) == Reply::Handle(s.current_monitor),
    ensures
        ({
            let there = on_monitor(s, desk);
            let turned = is_snap_new(there, desk);
            let differs = Request::RadiusDiffers { radius: wanted_radius(there, desk) };
            let snapped = if turned {
                cornered(there, desk)
            } else {
                there
            };
            let rounded = if turned {
                rounded(monitoring(seq![], s, desk), there, desk)
            } else {
                monitoring(seq![], s, desk)
            };
            let changed = is_elsewhere(s, desk) || (turned && yes(desk, differs))
                || there.drawer.fill_outer_corners != yes(desk, Request::IsArranged);
            let visibility = if yes(desk, Request::BorderVisible) {
                Visibility::Keep
            } else {
                Visibility::Show
            };
            on_message(s, Message::LocationChange, desk) == (Played {
                deeds: going(rounded, repainted(snapped, desk), changed, visibility, desk).push(
                    Request::SetAnimsTimer,
                ),
                now: gone(repainted(snapped, desk), changed, desk),
                outcome: Ok(false),
            })
        }),
{
    assert(is_answer(Request::Look, desk(Request::Look)));
    let there = on_monitor(s, desk);
    let turned = is_snap_new(there, desk);
    let differs = Request::RadiusDiffers { radius: wanted_radius(there, desk) };
    let snapped = if turned {
        cornered(there, desk)
    } else {
        there
    };
    let done = if turned {
        rounded(monitoring(seq![], s, desk), there, desk)
    } else {
        monitoring(seq![], s, desk)
    };
    let changed = is_elsewhere(s, desk) || (turned && yes(desk, differs))
        || there.drawer.fill_outer_corners != yes(desk, Request::IsArranged);
    lemma_asked(
        s,
        Request::WindowExists,
        |s: WindowBorder, r: Reply| dispatch::location_exists_known(s, r, finish()),
        desk,
        seq![],
    );
    lemma_asked(
        s,
        Request::Look,
        |s: WindowBorder, r: Reply| dispatch::location_facts_known(s, r, finish()),
        desk,
        seq![],
    );
    lemma_monitoring(s, true, desk, seq![]);
    lemma_snapping(there, is_elsewhere(s, desk), desk, monitoring(seq![], s, desk));
    lemma_going(repainted(snapped, desk), true, changed, desk, done);
}

/// When its window moved but is not to be framed, a border is hidden and its animations stop; it
/// is not paused.
pub proof fn a_border_leaves_a_window_that_is_not_to_be_framed(s: WindowBorder, desk: Desk)
    requires
        works(desk),
        s.is_initialized,
        !s.is_paused,
        yes(desk, Request::WindowExists),
        !to_be_framed(s, desk),
    ensures
        on_message(s, Message::LocationChange, desk) == (Played {
            deeds: seq![moved(s, Visibility::Hide, desk)].push(Request::DestroyAnimsTimer),
            now: s,
            outcome: Ok(false),
        }),
{
    broadcast use {lemma_ran, lemma_running};

    assert(is_answer(Request::Look, desk(Request::Look)));
    lemma_asked(
        s,
        Request::WindowExists,
        |s: WindowBorder, r: Reply| dispatch::location_exists_known(s, r, finish()),
        desk,
        seq![],
    );
    lemma_asked(
        s,
        Request::Look,
        |s: WindowBorder, r: Reply| dispatch::location_facts_known(s, r, finish()),
        desk,
        seq![],
    );
    let steps = seq![Step::UpdatePosition(Visibility::Hide)].push(
        Step::Tell(Request::DestroyAnimsTimer),
    );
    assert(steps =~= seq![steps[0], steps[1]]);
    lemma_run(s, steps, desk, seq![]);
}

/// While a border is paused or not initialized, a change of its window's location is noted and
/// nothing is done; no frame is drawn either.
pub proof fn a_paused_border_only_takes_note(s: WindowBorder, desk: Desk)
    requires
        s.is_paused || !s.is_initialized,
    ensures
        on_message(s, Message::LocationChange, desk) == (Played {
            deeds: seq![],
            now: WindowBorder { has_pending_location: true, ..s },
            outcome: Ok(false),
        }),
        on_message(s, Message::Animate, desk) == (Played {
            deeds: seq![],
            now: s,
            outcome: Ok(false),
        }),
        on_message(s, Message::Timer { id: 3 }, desk) == (Played {
            deeds: seq![Request::KillTimer { id: 3 }],
            now: s,
            outcome: Ok(false),
        }),
{
    broadcast use {lemma_asked, lemma_finished};

}

/// The last look at a restored window that is on the screen: the border is adapted to the monitor
/// and goes to its window, as visible as it is, and is drawn again if anything about it changed.
pub proof fn a_border_settles_on_its_window(s: WindowBorder, desk: Desk)
    requires
        works(desk),
        s.is_initialized,
        !s.is_paused,
        renderer(desk) is Absent ==> desk(Request::Monitor) == Reply::Handle(s.current_monitor),
    ensures
        ({
            let killed = seq![Request::KillTimer { id: 3 }];
            let there = on_monitor(s, desk);
            let changed = is_elsewhere(s, desk);
            on_message(s, Message::Timer { id: 3 }, desk) == if in_sight(desk) {
                Played {
                    deeds: going(
                        monitoring(killed, s, desk),
                        there,
                        changed,
                        Visibility::Keep,
                        desk,
                    ),
                    now: gone(there, changed, desk),
                    outcome: Ok(false),
                }
            } else {
                Played { deeds: killed, now: s, outcome: Ok(false) }
            }
        }),
{
    broadcast use lemma_finished;

    let killed = seq![Request::KillTimer { id: 3 }];
    assert(is_answer(Request::Look, desk(Request::Look)));
    lemma_asked(
        s,
        Request::KillTimer { id: 3 },
        |s: WindowBorder, r: Reply| dispatch::timer_stopped(s, 3, finish()),
        desk,
        seq![],
    );
    lemma_asked(
        s,
        Request::Look,
        |s: WindowBorder, r: Reply| dispatch::settle_facts_known(s, r, finish()),
        desk,
        killed,
    );
    lemma_monitoring(s, false, desk, killed);
    lemma_going(
        on_monitor(s, desk),
        false,
        is_elsewhere(s, desk),
        desk,
        monitoring(killed, s, desk),
    );
}

/// Whether the border lies directly above or below its window, as the configuration asks for.
pub open spec fn is_in_order(s: WindowBorder, desk: Desk) -> bool {
    let neighbor = match s.config.z_order {
        ZOrderMode::AboveWindow => desk(Request::WindowAbove),
        ZOrderMode::BelowWindow => desk(Request::WindowBelow),
    };
    neighbor == Reply::Handle(s.border_window)
}

/// The time on the desktop, in nanoseconds.
pub open spec fn time(desk: Desk) -> u64 {
    desk(Request::Now)->Time_0
}

/// What putting the order of windows right comes to: the border is moved, as visible as it is,
/// unless it is in order, and the time is noted.
pub open spec fn ordered(done: Seq<Request>, s: WindowBorder, desk: Desk) -> Played {
    Played {
        deeds: if is_in_order(s, desk) {
            done
        } else {
            done.push(moved(s, Visibility::Keep, desk))
        },
        now: WindowBorder { last_reorder_time: Some(time(desk)), ..s },
        outcome: Ok(false),
    }
}

proof fn lemma_ordered(s: WindowBorder, desk: Desk, done: Seq<Request>)
    requires
        works(desk),
    ensures
        played(dispatch::handle_reorder(s, finish()), desk, done) == ordered(done, s, desk),
{
    broadcast use {lemma_asked, lemma_finished, lemma_place};

    assert(is_answer(Request::Now, desk(Request::Now)));
}

/// When the order of windows changed, an initialized border puts itself in order at once, unless
/// it did so less than 16 milliseconds ago for the eighth time in a row: then a timer is started
/// for the rest of that time, if there is none yet, and the change is only counted.
pub proof fn the_order_of_windows_is_kept(s: WindowBorder, desk: Desk)
    requires
        works(desk),
        s.is_initialized,
        yes(desk, Request::WindowExists),
        s.consecutive_reorders < u64::MAX,
    ensures
        ({
            let drained = seq![Request::DrainReorders];
            let since = match s.last_reorder_time {
                Some(last) if time(desk) >= last => Some(time(desk) - last),
                Some(_) => Some(0),
                None => None,
            };
            let counted = WindowBorder {
                consecutive_reorders: (s.consecutive_reorders + 1) as u64,
                ..s
            };
            let played = on_message(s, Message::Reorder, desk);
            match since {
                Some(since) if since < 16_000_000 => if s.consecutive_reorders < 7 {
                    played == ordered(drained, counted, desk)
                } else if s.is_debouncing_reorder {
                    played == (Played { deeds: drained, now: counted, outcome: Ok(false) })
                } else {
                    played == (Played {
                        deeds: drained.push(
                            Request::SetTimer {
                                id: 0,
                                millis: ((16_000_000 - since) / 1_000_000) as u32,
                            },
                        ),
                        now: WindowBorder { is_debouncing_reorder: true, ..counted },
                        outcome: Ok(false),
                    })
                },
                _ => played == ordered(
                    drained,
                    WindowBorder { consecutive_reorders: 0, ..s },
                    desk,
                ),
            }
        }),
{
    broadcast use lemma_finished;

    let drained = seq![Request::DrainReorders];
    assert(is_answer(Request::Now, desk(Request::Now)));
    let counted = WindowBorder { consecutive_reorders: (s.consecutive_reorders + 1) as u64, ..s };
    lemma_asked(
        s,
        Request::WindowExists,
        |s: WindowBorder, r: Reply| dispatch::reorder_exists_known(s, r, finish()),
        desk,
        seq![],
    );
    lemma_asked(
        s,
        Request::DrainReorders,
        |s: WindowBorder, r: Reply| dispatch::reorders_drained(s, finish()),
        desk,
        seq![],
    );
    lemma_ordered(counted, desk, drained);
    lemma_ordered(WindowBorder { consecutive_reorders: 0, ..s }, desk, drained);
    if let Some(last) = s.last_reorder_time {
        lemma_asked(
            s,
            Request::Now,
            |s: WindowBorder, r: Reply| dispatch::reorder_time_known(s, last, r, finish()),
            desk,
            drained,
        );
        let elapsed = dispatch::elapsed(last, time(desk));
        let timer = Request::SetTimer {
            id: 0,
            millis: ((16_000_000 - elapsed) / 1_000_000) as u32,
        };
        lemma_asked(
            counted,
            timer,
            |s: WindowBorder, r: Reply|
                finish()(WindowBorder { is_debouncing_reorder: true, ..s }, Ok(false)),
            desk,
            drained,
        );
    }
}

/// When the timer for that runs out, the border puts itself in order, and the count begins anew.
pub proof fn the_order_of_windows_is_put_right_in_the_end(s: WindowBorder, desk: Desk)
    requires
        works(desk),
    ensures
        on_message(s, Message::Timer { id: 0 }, desk) == ordered(
            seq![Request::KillTimer { id: 0 }],
            WindowBorder { is_debouncing_reorder: false, consecutive_reorders: 0, ..s },
            desk,
        ),
{
    lemma_asked(
        s,
        Request::KillTimer { id: 0 },
        |s: WindowBorder, r: Reply| dispatch::timer_stopped(s, 0, finish()),
        desk,
        seq![],
    );
    lemma_ordered(
        WindowBorder { is_debouncing_reorder: false, consecutive_reorders: 0, ..s },
        desk,
        seq![Request::KillTimer { id: 0 }],
    );
}

/// The color that a window gets from the way in which the tiling window manager sees it: the one
/// for its kind, from the rule for the window if that says anything of such colors and from the
/// global configuration otherwise, and for want of one the active color, from the rule if it has
/// one. An unfocused window gets none.
pub open spec fn color_of(rules: ColorRules, kind: WindowKind) -> Option<ColorSource> {
    let colors = match rules.rule {
        Some(colors) => colors,
        None => rules.global,
    };
    let (has, slot) = match kind {
        WindowKind::Stack => (colors.has_stack, Slot::Stack),
        WindowKind::Monocle => (colors.has_monocle, Slot::Monocle),
        WindowKind::Floating => (colors.has_floating, Slot::Floating),
        _ => (false, Slot::Active),
    };
    let of_rule = if has {
        rules.rule is Some
    } else {
        rules.rule_has_active
    };
    if kind == WindowKind::Unfocused {
        None
    } else {
        Some(
            ColorSource::Config {
                scope: if of_rule {
                    Scope::Rule
                } else {
                    Scope::Global
                },
                slot: if has {
                    slot
                } else {
                    Slot::Active
                },
            },
        )
    }
}

/// When the tiling window manager sees the window differently, and the window takes its colors
/// from it, the active brush gets the color for that and is drawn. A window that the manager does
/// not know counts as a single one; without the manager nothing is done.
pub proof fn the_tiling_window_manager_gives_colors(
    s: WindowBorder,
    rules: ColorRules,
    focus: Focus,
    desk: Desk,
)
    requires
        works(desk),
        desk(Request::KomorebiColors) == Reply::Colors(rules),
        desk(Request::KomorebiFocus) == Reply::Focus(focus),
    ensures
        ({
            let enabled = match rules.rule {
                Some(colors) => colors.enabled,
                None => rules.global.enabled,
            };
            let color = match focus {
                Focus::NoIntegration => None,
                Focus::Unknown => color_of(rules, WindowKind::Single),
                Focus::Known(kind) => color_of(rules, kind),
            };
            on_message(s, Message::Komorebi, desk) == match color {
                Some(source) if enabled => Played {
                    deeds: painted(colored(seq![], s, true, source, desk), s, desk),
                    now: repainted(s, desk),
                    outcome: Ok(false),
                },
                _ => Played { deeds: seq![], now: s, outcome: Ok(false) },
            }
        }),
{
    broadcast use {lemma_ran, lemma_running, lemma_finished};

    lemma_asked(
        s,
        Request::KomorebiColors,
        |s: WindowBorder, r: Reply| dispatch::colors_known(s, r, finish()),
        desk,
        seq![],
    );
    lemma_asked(
        s,
        Request::KomorebiFocus,
        |s: WindowBorder, r: Reply| dispatch::focus_known(s, rules, r, finish()),
        desk,
        seq![],
    );
    let color = match focus {
        Focus::NoIntegration => None,
        Focus::Unknown => color_of(rules, WindowKind::Single),
        Focus::Known(kind) => color_of(rules, kind),
    };
    assert(focus is Unknown ==> behavior::komorebi_color(rules, WindowKind::Single) == color);
    assert(focus matches Focus::Known(kind) ==> behavior::komorebi_color(rules, kind) == color);
    if let Some(source) = color {
        let steps = seq![Step::UpdateColorBrush { active: true, source }].push(Step::Render);
        assert(steps =~= seq![steps[0], steps[1]]);
        lemma_run(s, steps, desk, seq![]);
    }
}

/// Whether the renderer has to be made again: if there is none, if it is not on the adapter that
/// the system prefers, or if its render target does not work any more.
pub open spec fn is_stale(desk: Desk) -> bool {
    match renderer(desk) {
        RenderBackend::V2(backend) => desk(Request::PrimaryAdapter) != Reply::Adapter(
            backend.adapter_luid,
        ),
        RenderBackend::Legacy(_) => desk(Request::ProbeTarget) != Reply::Done,
        RenderBackend::Absent => true,
    }
}

/// What making the renderer again, where that is needed, comes to: it is made, the brushes take the
/// color that the focus gives them, and the border is drawn.
pub open spec fn renewed(done: Seq<Request>, s: WindowBorder, desk: Desk) -> Played {
    let colored = refocused(s, desk);
    if is_stale(desk) {
        Played {
            deeds: painted(brushed(done.push(made(s)), colored, None, desk), colored, desk),
            now: repainted(colored, desk),
            outcome: Ok(false),
        }
    } else {
        Played { deeds: done, now: s, outcome: Ok(false) }
    }
}

proof fn lemma_renewed(s: WindowBorder, desk: Desk, done: Seq<Request>)
    requires
        works(desk),
    ensures
        played(dispatch::on_recreate_drawer(s, finish()), desk, done) == renewed(done, s, desk),
{
    broadcast use lemma_finished;

    assert(is_answer(Request::Backend, desk(Request::Backend)));
    assert(is_answer(Request::PrimaryAdapter, desk(Request::PrimaryAdapter)));
    let k = |s: WindowBorder, o: Outcome| dispatch::drawer_checked(s, o, finish());
    let script = behavior::recreate_drawer_if_needed(s, false, k);
    lemma_asked(s, Request::Backend, script->next, desk, done);
    assert((script->next)(s, desk(Request::Backend)) == behavior::recreate_backend_known(
        s,
        false,
        desk(Request::Backend),
        k,
    ));
    let known = behavior::recreate_backend_known(s, false, desk(Request::Backend), k);
    match renderer(desk) {
        RenderBackend::V2(backend) => {
            lemma_asked(s, Request::PrimaryAdapter, known->next, desk, done);
            let reply = desk(Request::PrimaryAdapter);
            assert((known->next)(s, reply) == behavior::adapter_known(
                s,
                false,
                backend.adapter_luid,
                reply,
                k,
            ));
        },
        RenderBackend::Legacy(_) => {
            lemma_asked(s, Request::ProbeTarget, known->next, desk, done);
            let reply = desk(Request::ProbeTarget);
            assert((known->next)(s, reply) == behavior::target_probed(s, false, reply, k));
        },
        RenderBackend::Absent => {},
    }
    let again = behavior::recreate_drawer(s, false, k);
    let then = behavior::on_drawer_recreated(false, k);
    assert(again == behavior::with_recovery(s, Attempt::InitDrawer, false, then));
    lemma_makes(s, false, then, desk, done);
    let render = behavior::on_recolored(false, k);
    assert(then(s, Ok(false)) == behavior::drawer_recreated(s, false, Ok(false), k));
    assert(behavior::drawer_recreated(s, false, Ok(false), k) == behavior::update_color(
        s,
        None,
        render,
    ));
    let colored = refocused(s, desk);
    let brushed = brushed(done.push(made(s)), colored, None, desk);
    lemma_color(s, None, render, desk, done.push(made(s)));
    assert(render(colored, Ok(false)) == behavior::with_recovery(
        colored,
        Attempt::Render,
        false,
        k,
    ));
    lemma_renders(colored, false, k, desk, brushed);
}

/// When the display adapters changed, a border renews its renderer if that is needed. When a
/// device came or went and the device tree changed with it, the shared devices are seen to first;
/// any other news of devices is left to the default procedure.
pub proof fn a_change_of_adapters_renews_the_renderer(s: WindowBorder, wparam: usize, desk: Desk)
    requires
        works(desk),
    ensures
        on_message(s, Message::RecreateDrawer, desk) == renewed(seq![], s, desk),
        on_message(s, Message::DeviceChange { wparam }, desk) == if wparam as int % 0x1_0000_0000
            == 7 {
            renewed(seq![Request::RecreateDevices], s, desk)
        } else {
            Played { deeds: seq![], now: s, outcome: Ok(true) }
        },
{
    broadcast use lemma_finished;

    assert(is_answer(Request::RecreateDevices, desk(Request::RecreateDevices)));
    lemma_renewed(s, desk, seq![]);
    lemma_renewed(s, desk, seq![Request::RecreateDevices]);
    lemma_asked(
        s,
        Request::RecreateDevices,
        |s: WindowBorder, r: Reply| dispatch::devices_checked(s, r, finish()),
        desk,
        seq![],
    );
}

/// A border shows itself for the first time: it takes the color that the focus gives it, goes to
/// its window and, if that is to be framed, is shown and drawn, and its animations begin. A window
/// that is minimized, or that the tiling window manager sees as something of a kind of its own, is
/// dealt with by a message.
pub open spec fn opening(done: Seq<Request>, s: WindowBorder, desk: Desk) -> Seq<Request> {
    let there = at_frame(refocused(s, desk), desk);
    let brushed = brushed(done, refocused(s, desk), Some(s.config.initialize_delay), desk);
    let shown = if to_be_framed(s, desk) {
        painted(brushed.push(moved(there, Visibility::Show, desk)), there, desk).push(
            Request::SetAnimsTimer,
        )
    } else {
        brushed
    };
    let minimized = if facts(desk).minimized {
        shown.push(Request::Post { message: Posted::MinimizeStart })
    } else {
        shown
    };
    let focus = desk(Request::KomorebiFocus);
    if focus == Reply::Focus(Focus::Known(WindowKind::Stack)) || focus == Reply::Focus(
        Focus::Known(WindowKind::Monocle),
    ) || focus == Reply::Focus(Focus::Known(WindowKind::Floating)) {
        minimized.push(Request::Post { message: Posted::Komorebi })
    } else {
        minimized
    }
}

/// The border that showed itself for the first time.
pub open spec fn opened(s: WindowBorder, desk: Desk) -> WindowBorder {
    if to_be_framed(s, desk) {
        appeared(s, desk)
    } else {
        at_frame(refocused(s, desk), desk)
    }
}

proof fn lemma_opening(s: WindowBorder, k: Then, desk: Desk, done: Seq<Request>)
    requires
        works(desk),
    ensures
        played(dispatch::init_border(s, k), desk, done) == played(
            k(opened(s, desk), Ok(false)),
            desk,
            opening(done, s, desk),
        ),
{
    broadcast use {lemma_ran, lemma_running};

    assert(is_answer(Request::Look, desk(Request::Look)));
    let there = at_frame(refocused(s, desk), desk);
    assert(to_be_framed(there, desk) == to_be_framed(s, desk)) by {
        reveal(at_frame);
        reveal(refocused);
    }
    let brushed = brushed(done, refocused(s, desk), Some(s.config.initialize_delay), desk);
    let look = |s: WindowBorder, o: Outcome| dispatch::init_look(s, k);
    let steps = seq![Step::UpdateColor(Some(s.config.initialize_delay))].push(
        Step::UpdateWindowRect,
    );
    assert(steps =~= seq![steps[0], steps[1]]);
    lemma_steps(s, steps, look, desk, done);
    lemma_asked(
        there,
        Request::Look,
        |s: WindowBorder, r: Reply| dispatch::init_facts_known(s, r, k),
        desk,
        brushed,
    );
    let check = |s: WindowBorder, o: Outcome| dispatch::check_minimized(s, k);
    let show = seq![Step::UpdatePosition(Visibility::Show)].push(Step::Render).push(
        Step::Tell(Request::SetAnimsTimer),
    );
    assert(show =~= seq![show[0], show[1], show[2]]);
    lemma_steps(there, show, check, desk, brushed);
    let shown = if to_be_framed(s, desk) {
        painted(brushed.push(moved(there, Visibility::Show, desk)), there, desk).push(
            Request::SetAnimsTimer,
        )
    } else {
        brushed
    };
    assert(played(dispatch::init_border(s, k), desk, done) == played(
        dispatch::check_minimized(opened(s, desk), k),
        desk,
        shown,
    ));
    lemma_opened(opened(s, desk), k, desk, shown);
}

/// The messages that a border posts to itself when it showed itself for the first time.
proof fn lemma_opened(s: WindowBorder, k: Then, desk: Desk, done: Seq<Request>)
    requires
        works(desk),
    ensures
        ({
            let minimized = if facts(desk).minimized {
                done.push(Request::Post { message: Posted::MinimizeStart })
            } else {
                done
            };
            let focus = desk(Request::KomorebiFocus);
            let kind = focus == Reply::Focus(Focus::Known(WindowKind::Stack)) || focus
                == Reply::Focus(Focus::Known(WindowKind::Monocle)) || focus == Reply::Focus(
                Focus::Known(WindowKind::Floating),
            );
            played(dispatch::check_minimized(s, k), desk, done) == played(
                k(s, Ok(false)),
                desk,
                if kind {
                    minimized.push(Request::Post { message: Posted::Komorebi })
                } else {
                    minimized
                },
            )
        }),
{
    broadcast use lemma_asked;

    let post = Request::Post { message: Posted::MinimizeStart };
    assert(is_answer(post, desk(post)));
    assert(is_answer(Request::Look, desk(Request::Look)));
}

/// The border window is made transparent by means of a region to the left of everything that is on
/// the screen, if that can be made, and opaque otherwise; then the border gets its place and its
/// renderer, and shows itself.
pub open spec fn founding(done: Seq<Request>, s: WindowBorder, desk: Desk) -> Seq<Request> {
    let left = -(desk(Request::ScreenWidth)->ScreenWidth_0) - 8;
    let region = Request::CreateRegion {
        left: left as i32,
        top: 0,
        right: (left + 1) as i32,
        bottom: 1,
    };
    let made_region = match desk(region) {
        Reply::Handle(handle) if handle != 0 && handle != -1 => Some(handle),
        _ => None,
    };
    let there = at_frame(s, desk);
    opening(
        done.push(region).push(Request::EnableBlur { region: made_region }).push(
            Request::SetAlpha { alpha: 255 },
        ).push(made(there)),
        there,
        desk,
    )
}

proof fn lemma_founding(s: WindowBorder, k: Then, desk: Desk, done: Seq<Request>)
    requires
        works(desk),
    ensures
        played(dispatch::complete_init(s, k), desk, done) == played(
            k(opened(at_frame(s, desk), desk), Ok(false)),
            desk,
            founding(done, s, desk),
        ),
{
    assert(is_answer(Request::ScreenWidth, desk(Request::ScreenWidth)));
    let left = -(desk(Request::ScreenWidth)->ScreenWidth_0) - 8;
    let region = Request::CreateRegion {
        left: left as i32,
        top: 0,
        right: (left + 1) as i32,
        bottom: 1,
    };
    let made_region = match desk(region) {
        Reply::Handle(handle) if handle != 0 && handle != -1 => Some(handle),
        _ => None,
    };
    let blur = Request::EnableBlur { region: made_region };
    let alpha = Request::SetAlpha { alpha: 255 };
    assert(is_answer(blur, desk(blur)));
    assert(is_answer(alpha, desk(alpha)));
    let there = at_frame(s, desk);
    let clear = done.push(region).push(blur).push(alpha);
    let make = |s: WindowBorder, o: Outcome| dispatch::make_drawer(s, k);
    assert(played(dispatch::complete_init(s, k), desk, done) == played(
        behavior::update_window_rect(s, make),
        desk,
        clear,
    )) by {
        broadcast use lemma_asked;

    }
    lemma_rect(s, make, desk, clear);
    let open = |s: WindowBorder, o: Outcome| dispatch::drawer_made(s, o, k);
    lemma_make(there, open, desk, clear);
    lemma_opening(there, k, desk, clear.push(made(there)));
}

/// The border with the configuration for its window, on the monitor that the window is on.
pub open spec fn configured(s: WindowBorder, desk: Desk) -> WindowBorder {
    let monitor = desk(Request::Monitor)->Handle_0;
    let dpi = dpi_of(monitor, desk);
    let reply = desk(Request::ResolveConfig { dpi });
    WindowBorder {
        current_monitor: monitor,
        current_dpi: dpi,
        config: reply->Config_0,
        drawer: BorderDrawer { stroke_width: reply->Config_1.stroke_width, ..s.drawer },
        border_offset: reply->Config_1.offset,
        border_padding: reply->Config_1.padding,
        ..s
    }
}

/// Setting a border up: it takes over the configuration for its window, and the corners of a
/// snapped window are seen to; then it is founded at once, and initialized, or a timer is started
/// for the delay that the configuration asks for.
pub proof fn a_border_is_set_up(s: WindowBorder, desk: Desk)
    requires
        works(desk),
    ensures
        ({
            let plain = configured(s, desk);
            let arranged = yes(desk, Request::IsArranged);
            let set = if arranged {
                cornered(plain, desk)
            } else {
                plain
            };
            let resolved = seq![Request::ResolveConfig { dpi: plain.current_dpi }];
            let done = if arranged {
                rounded(resolved, plain, desk)
            } else {
                resolved
            };
            let delay = plain.config.initialize_delay;
            played(dispatch::init(s, finish()), desk, seq![]) == if delay > 0 {
                Played {
                    deeds: done.push(
                        Request::SetTimer {
                            id: 1,
                            millis: (delay as int % 0x1_0000_0000) as u32,
                        },
                    ),
                    now: set,
                    outcome: Ok(false),
                }
            } else {
                Played {
                    deeds: founding(done, set, desk),
                    now: WindowBorder {
                        is_initialized: true,
                        ..opened(at_frame(set, desk), desk)
                    },
                    outcome: Ok(false),
                }
            }
        }),
{
    broadcast use lemma_finished;

    assert(is_answer(Request::Monitor, desk(Request::Monitor)));
    let monitor = desk(Request::Monitor)->Handle_0;
    assert(is_answer(Request::Dpi { monitor }, desk(Request::Dpi { monitor })));
    let dpi = dpi_of(monitor, desk);
    let resolve = Request::ResolveConfig { dpi };
    assert(is_answer(resolve, desk(resolve)));
    let plain = configured(s, desk);
    let arranged = yes(desk, Request::IsArranged);
    let set = if arranged {
        cornered(plain, desk)
    } else {
        plain
    };
    let done = if arranged {
        rounded(seq![resolve], plain, desk)
    } else {
        seq![resolve]
    };
    assert(set.config == plain.config) by {
        reveal(cornered);
    }
    assert(played(dispatch::init(s, finish()), desk, seq![]) == played(
        dispatch::config_loaded(set, finish()),
        desk,
        done,
    )) by {
        broadcast use {lemma_asked, lemma_round};

    }
    let end = |s: WindowBorder, o: Outcome| dispatch::init_completed(s, o, finish());
    lemma_founding(set, end, desk, done);
    let timer = Request::SetTimer {
        id: 1,
        millis: (set.config.initialize_delay as int % 0x1_0000_0000) as u32,
    };
    lemma_asked(set, timer, |s: WindowBorder, r: Reply| finish()(s, Ok(false)), desk, done);
}

/// When the timer for that runs out, the border is founded and initialized.
pub proof fn a_border_is_founded_after_the_delay(s: WindowBorder, desk: Desk)
    requires
        works(desk),
    ensures
        on_message(s, Message::Timer { id: 1 }, desk) == (Played {
            deeds: founding(seq![Request::KillTimer { id: 1 }], s, desk),
            now: WindowBorder { is_initialized: true, ..opened(at_frame(s, desk), desk) },
            outcome: Ok(false),
        }),
{
    broadcast use lemma_finished;

    lemma_asked(
        s,
        Request::KillTimer { id: 1 },
        |s: WindowBorder, r: Reply| dispatch::timer_stopped(s, 1, finish()),
        desk,
        seq![],
    );
    let end = |s: WindowBorder, o: Outcome| dispatch::late_init_completed(s, o, finish());
    lemma_founding(s, end, desk, seq![Request::KillTimer { id: 1 }]);
}

/// When the system goes to sleep, the animations stop and the renderer is given up. When it wakes
/// up, a border without a renderer makes one and shows itself; one that has a renderer does
/// nothing, and neither does any border on other news.
pub proof fn a_border_sleeps_and_wakes_up(s: WindowBorder, wparam: usize, desk: Desk)
    requires
        works(desk),
    ensures
        ({
            let event = wparam as int % 0x1_0000_0000;
            on_message(s, Message::PowerBroadcast { wparam }, desk) == if event == 4 {
                Played {
                    deeds: seq![Request::DestroyAnimsTimer].push(Request::UninitDrawer),
                    now: s,
                    outcome: Ok(false),
                }
            } else if (event == 7 || event == 18) && renderer(desk) is Absent {
                Played {
                    deeds: opening(seq![made(s)], s, desk),
                    now: opened(s, desk),
                    outcome: Ok(false),
                }
            } else {
                Played { deeds: seq![], now: s, outcome: Ok(false) }
            }
        }),
{
    broadcast use {lemma_ran, lemma_running, lemma_finished};

    assert(is_answer(Request::Backend, desk(Request::Backend)));
    let steps = seq![Step::Tell(Request::DestroyAnimsTimer)].push(
        Step::Tell(Request::UninitDrawer),
    );
    assert(steps =~= seq![steps[0], steps[1]]);
    lemma_run(s, steps, desk, seq![]);
    lemma_asked(
        s,
        Request::Backend,
        |s: WindowBorder, r: Reply| dispatch::resume_backend_known(s, r, finish()),
        desk,
        seq![],
    );
    let open = |s: WindowBorder, o: Outcome| dispatch::resume_drawer_made(s, o, finish());
    lemma_make(s, open, desk, seq![]);
    let end = |s: WindowBorder, o: Outcome| finish()(s, Ok(false));
    lemma_opening(s, end, desk, seq![made(s)]);
}

// Conversations in which nothing fails.

/// Whatever the desktop answers, as long as nothing fails and nothing else happens to the border
/// in the meantime: a certain request is made before the conversation ends.
#[verifier::opaque]
pub open spec fn reaches(script: Script, goal: spec_fn(Request) -> bool) -> bool
    decreases script,
{
    match script {
        Script::Return { .. } => false,
        Script::Ask { now, request, next } => {
            ||| goal(request)
            ||| forall|r: Reply|
                now.can_take(r) && is_answer(request, r) ==> reaches(#[trigger] next(now, r), goal)
        },
    }
}

broadcast proof fn lemma_reach(
    now: WindowBorder,
    request: Request,
    next: spec_fn(WindowBorder, Reply) -> Script,
    goal: spec_fn(Request) -> bool,
)
    requires
        goal(request) || forall|r: Reply|
            now.can_take(r) && is_answer(request, r) ==> reaches(#[trigger] next(now, r), goal),
    ensures
        #[trigger] reaches(Script::Ask { now, request, next }, goal),
{
    reveal(reaches);
}

proof fn lemma_reach_past_position(
    s: WindowBorder,
    visibility: Visibility,
    k: Then,
    goal: spec_fn(Request) -> bool,
)
    requires
        reaches(k(s, Ok(false)), goal),
    ensures
        reaches(behavior::update_position(s, visibility, k), goal),
{
    broadcast use lemma_reach;

}

proof fn lemma_reach_past_fade(
    s: WindowBorder,
    delay: Option<u64>,
    r: Reply,
    k: Then,
    goal: spec_fn(Request) -> bool,
)
    requires
        reaches(k(s, Ok(false)), goal),
    ensures
        reaches(behavior::fade_known(s, delay, r, k), goal),
{
    broadcast use lemma_reach;

}

proof fn lemma_reach_render(s: WindowBorder, k: Then, goal: spec_fn(Request) -> bool)
    requires
        forall|bounds: Bounds, fill: bool|
            #[trigger] goal(
                Request::Render { bounds, state: s.window_state, fill_outer_corners: fill },
            ),
    ensures
        reaches(behavior::render(s, k), goal),
{
    broadcast use lemma_reach;

    let then = behavior::on_attempted(Attempt::Render, false, k);
    assert(behavior::render(s, k) == behavior::raw_render(s, then));
    assert forall|o: Outcome| o is Ok implies reaches(
        #[trigger] behavior::render_ready(s, o, then),
        goal,
    ) by {
        assert forall|r: Reply| reaches(#[trigger] behavior::draw(s, r, then), goal) by {
            let filled = behavior::filling_corners(s, r.flag());
            assert(goal(
                Request::Render {
                    bounds: behavior::border_bounds(filled),
                    state: s.window_state,
                    fill_outer_corners: r.flag(),
                },
            ));
        }
    }
    assert forall|o: Outcome| reaches(#[trigger] behavior::render_need_known(s, o, then), goal) by {
    }
}

/// Whatever the desktop answers, as long as nothing fails: when another window gets the focus, an
/// initialized border whose window exists is drawn in the state that the answer to the question
/// for the active window gives it.
pub proof fn the_focus_is_drawn(s: WindowBorder, active: isize)
    requires
        s.is_initialized,
    ensures
        ({
            let script = dispatch::wnd_proc(s, Message::Foreground, finish());
            let found = (script->next)(s, Reply::Flag(true));
            let known = (found->next)(s, Reply::Handle(active));
            let state = if active == s.tracking_window {
                WindowState::Active
            } else {
                WindowState::Inactive
            };
            &&& script is Ask && script->request == Request::WindowExists
            &&& found is Ask && found->request == Request::ActiveWindow
            &&& reaches(
                known,
                |request: Request| request matches Request::Render { state: drawn, .. } && drawn
                    == state,
            )
        }),
{
    broadcast use lemma_reach;

    let script = dispatch::wnd_proc(s, Message::Foreground, finish());
    let found = (script->next)(s, Reply::Flag(true));
    let known = (found->next)(s, Reply::Handle(active));
    let state = if active == s.tracking_window {
        WindowState::Active
    } else {
        WindowState::Inactive
    };
    let goal = |request: Request|
        request matches Request::Render { state: drawn, .. } && drawn == state;
    let colored = WindowBorder { window_state: state, ..s };
    let steps = seq![
        Step::UpdateColor(None),
        Step::UpdatePosition(Visibility::Keep),
        Step::Render,
        Step::Tell(Request::SetAnimsTimer),
    ];
    let first = behavior::on_performed(steps.drop_first(), finish());
    let second = behavior::on_performed(steps.drop_first().drop_first(), finish());
    let third = behavior::on_performed(steps.drop_first().drop_first().drop_first(), finish());
    assert(behavior::sequence(s, steps, finish()) == behavior::perform(s, steps.first(), first));
    assert(first(colored, Ok(false)) == behavior::sequence(colored, steps.drop_first(), finish()));
    assert(steps.drop_first().first() == Step::UpdatePosition(Visibility::Keep));
    assert(first(colored, Ok(false)) == behavior::update_position(
        colored,
        Visibility::Keep,
        second,
    ));
    assert(second(colored, Ok(false)) == behavior::sequence(
        colored,
        steps.drop_first().drop_first(),
        finish(),
    ));
    assert(steps.drop_first().drop_first().first() == Step::Render);
    assert(second(colored, Ok(false)) == behavior::render(colored, third));
    lemma_reach_render(colored, third, goal);
    lemma_reach_past_position(colored, Visibility::Keep, second, goal);
    assert(known == behavior::active_known(s, None, Reply::Handle(active), first));
    assert forall|r: Reply| reaches(
        #[trigger] behavior::fade_known(colored, None, r, first),
        goal,
    ) by {
        lemma_reach_past_fade(colored, None, r, first, goal);
    }
}

} // verus!
