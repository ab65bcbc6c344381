//! What holds of every conversation of a border with the desktop.
//!
//! The lemmas of this module show piece by piece that the work of a border [`conforms`], whatever
//! the desktop replies and whatever the border goes through between a request and its reply.

use vstd::prelude::*;
use crate::behavior;
use crate::behavior::{Attempt, Script, Step, Then};
use crate::dispatch;
use crate::protocol::{
    low32, timer_millis, ColorSource, ErrorCode, Message, Outcome, Reply, Request, Visibility,
    DBT_DEVNODES_CHANGED,
};
use crate::render_backend::RenderBackend;
use crate::window_border::{
    WindowBorder, REORDER_TIMER_ID, TIMER_INIT_ID, TIMER_UNMINIMIZE_ID,
    TIMER_UNMINIMIZE_SETTLE_ID,
};

verus! {

/// Whether a request speaks of the border as it is: of its place, its size, its look, its monitor
/// and its configuration. A border without a window is not asked to close, and the
/// timer for reorder messages is not started again while they are debounced.
pub open spec fn is_up_to_date(s: WindowBorder, request: Request) -> bool {
    match request {
        Request::Dpi { monitor } => monitor == s.current_monitor,
        Request::ResolveConfig { dpi } => dpi == s.current_dpi,
        Request::Rescale { dpi } => dpi == s.current_dpi,
        Request::AdoptWidth { dpi } => dpi == s.current_dpi,
        Request::AdoptOffset { dpi } => dpi == s.current_dpi,
        Request::SetWindowPos { x, y, cx, cy, .. } => {
            &&& x == s.window_rect.left
            &&& y == s.window_rect.top
            &&& cx == s.window_rect.across()
            &&& cy == s.window_rect.down()
        },
        Request::SetTimer { id, millis } => {
            ||| id == TIMER_INIT_ID && millis == timer_millis(s.config.initialize_delay)
            ||| id == TIMER_UNMINIMIZE_ID && millis == timer_millis(s.config.unminimize_delay)
            ||| id == TIMER_UNMINIMIZE_SETTLE_ID && millis == 250
            ||| id == REORDER_TIMER_ID && millis <= 16 && !s.is_debouncing_reorder
                && s.consecutive_reorders >= dispatch::NUM_REORDERS_BEFORE_DEBOUNCE
        },
        Request::Post { message } => message is Close ==> s.border_window != 0,
        Request::InitDrawer { size, bounds, backend } => {
            &&& size == behavior::target_size(s)
            &&& bounds == behavior::border_bounds(s)
            &&& backend == s.config.render_backend
        },
        Request::ResizeRenderer { size } => size == behavior::target_size(s),
        Request::ResizeTarget { size } => size == behavior::legacy_size(s.window_rect),
        Request::HasFade { state } => state == s.window_state,
        Request::UpdateFadeProgress { state } => state == s.window_state,
        Request::Render { bounds, state, fill_outer_corners } => {
            &&& bounds == behavior::border_bounds(s)
            &&& state == s.window_state
            &&& fill_outer_corners == s.drawer.fill_outer_corners
        },
        Request::Animate { bounds, state, fill_outer_corners } => {
            &&& bounds == behavior::border_bounds(s)
            &&& state == s.window_state
            &&& fill_outer_corners == s.drawer.fill_outer_corners
        },
        _ => true,
    }
}

/// Whether the recovery is held once a request has been replied to.
pub open spec fn held_after(request: Request, reply: Reply, held: bool) -> bool {
    match request {
        Request::EnterRecovery => reply.flag(),
        Request::LeaveRecovery => false,
        _ => held,
    }
}

/// What the border was stays true of it: it belongs to the same window and has the same window of
/// its own, and once initialized it stays so. Its extents are representable.
pub open spec fn keeps(was: WindowBorder, s: WindowBorder) -> bool {
    &&& s.tracking_window == was.tracking_window
    &&& s.border_window == was.border_window
    &&& s.is_raw_transferred == was.is_raw_transferred
    &&& was.is_initialized ==> s.is_initialized
    &&& s.well_formed()
}

/// What is to hold when a piece of work ends.
pub type End = spec_fn(WindowBorder, Outcome) -> bool;

/// Whatever the desktop replies, and whatever happens to the border in the meantime as long as it
/// keeps what it was: the border keeps what it was; every request is up to date; the recovery is
/// entered only while it is not held and left only while it is, and it is not held at the end;
/// and at the end `end` holds. `held` says whether the recovery is held at the start.
#[verifier::opaque]
pub open spec fn conforms(script: Script, was: WindowBorder, held: bool, end: End) -> bool
    decreases script,
{
    match script {
        Script::Return { now, outcome } => keeps(was, now) && !held && end(now, outcome),
        Script::Ask { now, request, next } => {
            &&& keeps(was, now)
            &&& is_up_to_date(now, request)
            &&& request is EnterRecovery ==> !held
            &&& request is LeaveRecovery ==> held
            &&& forall|s: WindowBorder, r: Reply|
                keeps(was, s) && s.can_take(r) ==> conforms(
                    #[trigger] next(s, r),
                    was,
                    held_after(request, r, held),
                    end,
                )
        },
    }
}

/// Whatever follows on a piece of work conforms.
pub open spec fn follows(k: Then, was: WindowBorder, held: bool, end: End) -> bool {
    forall|s: WindowBorder, o: Outcome|
        keeps(was, s) ==> conforms(#[trigger] k(s, o), was, held, end)
}

/// Whatever follows on a piece of work that ends with a certain flag conforms.
pub open spec fn follows_done(
    k: Then,
    flag: bool,
    was: WindowBorder,
    held: bool,
    end: End,
) -> bool {
    forall|s: WindowBorder|
        keeps(was, s) ==> conforms(#[trigger] k(s, Ok::<bool, ErrorCode>(flag)), was, held, end)
}

/// Whatever follows on a piece of work that fails conforms.
pub open spec fn follows_failed(k: Then, was: WindowBorder, held: bool, end: End) -> bool {
    forall|s: WindowBorder, code: ErrorCode|
        keeps(was, s) ==> conforms(#[trigger] k(s, Err::<bool, ErrorCode>(code)), was, held, end)
}

/// A request conforms if it is up to date and whatever follows on its reply conforms.
pub broadcast proof fn lemma_ask(
    now: WindowBorder,
    request: Request,
    next: spec_fn(WindowBorder, Reply) -> Script,
    was: WindowBorder,
    held: bool,
    end: End,
)
    requires
        keeps(was, now),
        is_up_to_date(now, request),
        request is EnterRecovery ==> !held,
        request is LeaveRecovery ==> held,
        forall|s: WindowBorder, r: Reply|
            keeps(was, s) && s.can_take(r) ==> conforms(
                #[trigger] next(s, r),
                was,
                held_after(request, r, held),
                end,
            ),
    ensures
        #[trigger] conforms(Script::Ask { now, request, next }, was, held, end),
{
    reveal(conforms);
}

broadcast proof fn lemma_cleanup(
    s: WindowBorder,
    k: Then,
    was: WindowBorder,
    held: bool,
    end: End,
)
    requires
        keeps(was, s),
        follows_done(k, false, was, held, end),
    ensures
        #[trigger] conforms(behavior::cleanup(s, k), was, held, end),
{
    broadcast use lemma_ask;

}

broadcast proof fn lemma_cleanup_and_queue_exit(
    s: WindowBorder,
    k: Then,
    was: WindowBorder,
    held: bool,
    end: End,
)
    requires
        keeps(was, s),
        follows_done(k, false, was, held, end),
    ensures
        #[trigger] conforms(behavior::cleanup_and_queue_exit(s, k), was, held, end),
{
    broadcast use {lemma_ask, lemma_cleanup};

}

broadcast proof fn lemma_give_up(
    s: WindowBorder,
    code: ErrorCode,
    k: Then,
    was: WindowBorder,
    held: bool,
    end: End,
)
    requires
        keeps(was, s),
        follows_failed(k, was, held, end),
    ensures
        #[trigger] conforms(behavior::give_up(s, code, k), was, held, end),
{
    broadcast use {lemma_ask, lemma_cleanup_and_queue_exit};

}

broadcast proof fn lemma_update_window_rect(
    s: WindowBorder,
    k: Then,
    was: WindowBorder,
    held: bool,
    end: End,
)
    requires
        keeps(was, s),
        follows(k, was, held, end),
    ensures
        #[trigger] conforms(behavior::update_window_rect(s, k), was, held, end),
{
    broadcast use {lemma_ask, lemma_give_up};

}

broadcast proof fn lemma_update_position(
    s: WindowBorder,
    visibility: Visibility,
    k: Then,
    was: WindowBorder,
    held: bool,
    end: End,
)
    requires
        keeps(was, s),
        follows(k, was, held, end),
    ensures
        #[trigger] conforms(behavior::update_position(s, visibility, k), was, held, end),
{
    broadcast use {lemma_ask, lemma_give_up};

}

broadcast proof fn lemma_update_color(
    s: WindowBorder,
    check_delay: Option<u64>,
    k: Then,
    was: WindowBorder,
    held: bool,
    end: End,
)
    requires
        keeps(was, s),
        follows(k, was, held, end),
    ensures
        #[trigger] conforms(behavior::update_color(s, check_delay, k), was, held, end),
{
    broadcast use lemma_ask;

}

broadcast proof fn lemma_update_color_brush(
    s: WindowBorder,
    active: bool,
    source: ColorSource,
    k: Then,
    was: WindowBorder,
    held: bool,
    end: End,
)
    requires
        keeps(was, s),
        follows(k, was, held, end),
    ensures
        #[trigger] conforms(behavior::update_color_brush(s, active, source, k), was, held, end),
{
    broadcast use lemma_ask;

}

broadcast proof fn lemma_needs_renderer_resize(
    s: WindowBorder,
    k: Then,
    was: WindowBorder,
    held: bool,
    end: End,
)
    requires
        keeps(was, s),
        follows(k, was, held, end),
    ensures
        #[trigger] conforms(behavior::needs_renderer_resize(s, k), was, held, end),
{
    broadcast use lemma_ask;

}

broadcast proof fn lemma_raw_render(
    s: WindowBorder,
    k: Then,
    was: WindowBorder,
    held: bool,
    end: End,
)
    requires
        keeps(was, s),
        follows(k, was, held, end),
    ensures
        #[trigger] conforms(behavior::raw_render(s, k), was, held, end),
{
    broadcast use {lemma_ask, lemma_needs_renderer_resize};

}

broadcast proof fn lemma_attempt(
    s: WindowBorder,
    work: Attempt,
    k: Then,
    was: WindowBorder,
    held: bool,
    end: End,
)
    requires
        keeps(was, s),
        follows(k, was, held, end),
    ensures
        #[trigger] conforms(behavior::attempt(s, work, k), was, held, end),
{
    broadcast use {lemma_ask, lemma_raw_render};

}

broadcast proof fn lemma_report(
    s: WindowBorder,
    code: ErrorCode,
    k: Then,
    was: WindowBorder,
    held: bool,
    end: End,
)
    requires
        keeps(was, s),
        follows(k, was, held, end),
    ensures
        #[trigger] conforms(behavior::report(s, code, k), was, held, end),
{
    broadcast use {lemma_ask, lemma_give_up};

}

/// Conversations with the renderer conform, in the middle of a recovery or not.
proof fn lemma_with_recovery(
    s: WindowBorder,
    work: Attempt,
    nested: bool,
    k: Then,
    was: WindowBorder,
    held: bool,
    end: End,
)
    requires
        keeps(was, s),
        follows(k, was, held, end),
        nested || !held,
    ensures
        conforms(behavior::with_recovery(s, work, nested, k), was, held, end),
    decreases behavior::entries_left(nested), 1int,
{
    broadcast use {lemma_ask, lemma_attempt, lemma_report};

    let recovered = |s: WindowBorder, o: Outcome| behavior::recovered(s, work, o, k);
    assert(follows(recovered, was, held, end));
    assert forall|s: WindowBorder, o: Outcome| keeps(was, s) implies
        conforms(#[trigger] behavior::on_attempted(work, nested, k)(s, o), was, held, end) by {
        let script = behavior::attempted(s, work, nested, o, k);
        assert(behavior::on_attempted(work, nested, k)(s, o) == script);
        if let Err(code) = o {
            lemma_handle_directx_errors(s, code, nested, recovered, was, held, end);
            assert(script == behavior::handle_directx_errors(s, code, nested, recovered));
        }
    }
    assert(behavior::with_recovery(s, work, nested, k) == behavior::attempt(
        s,
        work,
        behavior::on_attempted(work, nested, k),
    ));
}

proof fn lemma_handle_directx_errors(
    s: WindowBorder,
    code: ErrorCode,
    nested: bool,
    k: Then,
    was: WindowBorder,
    held: bool,
    end: End,
)
    requires
        keeps(was, s),
        follows(k, was, held, end),
        nested || !held,
    ensures
        conforms(behavior::handle_directx_errors(s, code, nested, k), was, held, end),
    decreases behavior::entries_left(nested), 0int,
{
    broadcast use lemma_ask;

    if !nested && (code is RecreateTarget || code is DeviceRemoved) {
        let leave = |s: WindowBorder, o: Outcome| behavior::leave_recovery(s, o, k);
        assert(follows(leave, was, true, end));
        assert forall|s: WindowBorder, r: Reply| keeps(was, s) && s.can_take(r) implies
            conforms(#[trigger] behavior::devices_recreated(s, r, k), was, true, end) by {
            lemma_recreate_drawer_if_needed(s, true, leave, was, true, end);
        }
        assert forall|s: WindowBorder, r: Reply| keeps(was, s) && s.can_take(r) implies
            conforms(#[trigger] behavior::recovery_entered(s, r, k), was, r.flag(), end) by {
            assert(r.flag() ==> behavior::recovery_entered(s, r, k)->next =~= (
            |s: WindowBorder, r: Reply| behavior::devices_recreated(s, r, k)));
        }
        assert(behavior::handle_directx_errors(s, code, nested, k)->next =~= (
        |s: WindowBorder, r: Reply| behavior::recovery_entered(s, r, k)));
    }
}

/// Making the renderer again conforms, in the middle of a recovery or not.
proof fn lemma_recreate_drawer_if_needed(
    s: WindowBorder,
    nested: bool,
    k: Then,
    was: WindowBorder,
    held: bool,
    end: End,
)
    requires
        keeps(was, s),
        follows(k, was, held, end),
        nested || !held,
    ensures
        conforms(behavior::recreate_drawer_if_needed(s, nested, k), was, held, end),
    decreases behavior::entries_left(nested), 2int,
{
    broadcast use {lemma_ask, lemma_update_color};

    assert forall|s: WindowBorder, o: Outcome| keeps(was, s) implies
        conforms(#[trigger] behavior::on_recolored(nested, k)(s, o), was, held, end) by {
        lemma_with_recovery(s, Attempt::Render, nested, k, was, held, end);
    }
    let made = behavior::on_drawer_recreated(nested, k);
    assert forall|s: WindowBorder, o: Outcome| keeps(was, s) implies conforms(
        #[trigger] made(s, o),
        was,
        held,
        end,
    ) by {
        assert(made(s, o) == behavior::drawer_recreated(s, nested, o, k));
        if o is Ok {
            let render = behavior::on_recolored(nested, k);
            assert(made(s, o) == behavior::update_color(s, None, render));
        }
    }
    assert forall|s: WindowBorder| keeps(was, s) implies
        conforms(#[trigger] behavior::recreate_drawer(s, nested, k), was, held, end) by {
        lemma_with_recovery(s, Attempt::InitDrawer, nested, made, was, held, end);
    }
    assert forall|s: WindowBorder, r: Reply| keeps(was, s) && s.can_take(r) implies
        conforms(#[trigger] behavior::recreate_backend_known(s, nested, r, k), was, held, end) by {
        let script = behavior::recreate_backend_known(s, nested, r, k);
        match r.backend() {
            RenderBackend::V2(backend) => {
                let luid = backend.adapter_luid;
                assert forall|s: WindowBorder, r: Reply| keeps(was, s) && s.can_take(r) implies
                    conforms(
                        #[trigger] behavior::adapter_known(s, nested, luid, r, k),
                        was,
                        held,
                        end,
                    ) by {
                    assert(conforms(behavior::recreate_drawer(s, nested, k), was, held, end));
                }
                assert(script->next =~= (
                |s: WindowBorder, r: Reply| behavior::adapter_known(s, nested, luid, r, k)));
            },
            RenderBackend::Legacy(_) => {
                assert forall|s: WindowBorder, r: Reply| keeps(was, s) && s.can_take(r) implies
                    conforms(
                        #[trigger] behavior::target_probed(s, nested, r, k),
                        was,
                        held,
                        end,
                    ) by {
                    assert(conforms(behavior::recreate_drawer(s, nested, k), was, held, end));
                }
                assert(script->next =~= (
                |s: WindowBorder, r: Reply| behavior::target_probed(s, nested, r, k)));
            },
            RenderBackend::Absent => {
                assert(conforms(behavior::recreate_drawer(s, nested, k), was, held, end));
            },
        }
    }
    assert(behavior::recreate_drawer_if_needed(s, nested, k)->next =~= (
    |s: WindowBorder, r: Reply| behavior::recreate_backend_known(s, nested, r, k)));
}

broadcast proof fn lemma_init_drawer(
    s: WindowBorder,
    k: Then,
    was: WindowBorder,
    end: End,
)
    requires
        keeps(was, s),
        follows(k, was, false, end),
    ensures
        #[trigger] conforms(behavior::init_drawer(s, k), was, false, end),
{
    broadcast use lemma_ask;

    lemma_with_recovery(s, Attempt::InitDrawer, false, k, was, false, end);
}

broadcast proof fn lemma_resize_renderer(
    s: WindowBorder,
    k: Then,
    was: WindowBorder,
    end: End,
)
    requires
        keeps(was, s),
        follows(k, was, false, end),
    ensures
        #[trigger] conforms(behavior::resize_renderer(s, k), was, false, end),
{
    broadcast use lemma_ask;

    lemma_with_recovery(s, Attempt::ResizeRenderer, false, k, was, false, end);
}

broadcast proof fn lemma_render(
    s: WindowBorder,
    k: Then,
    was: WindowBorder,
    end: End,
)
    requires
        keeps(was, s),
        follows(k, was, false, end),
    ensures
        #[trigger] conforms(behavior::render(s, k), was, false, end),
{
    broadcast use lemma_ask;

    lemma_with_recovery(s, Attempt::Render, false, k, was, false, end);
}

broadcast proof fn lemma_sync_border_radius(
    s: WindowBorder,
    k: Then,
    was: WindowBorder,
    held: bool,
    end: End,
)
    requires
        keeps(was, s),
        follows(k, was, held, end),
    ensures
        #[trigger] conforms(behavior::sync_border_radius(s, k), was, held, end),
{
    broadcast use lemma_ask;

}

broadcast proof fn lemma_rescale_border(
    s: WindowBorder,
    dpi: u32,
    k: Then,
    was: WindowBorder,
    held: bool,
    end: End,
)
    requires
        keeps(was, s),
        follows(k, was, held, end),
        dpi == s.current_dpi,
    ensures
        #[trigger] conforms(behavior::rescale_border(s, dpi, k), was, held, end),
{
    broadcast use {lemma_ask, lemma_sync_border_radius};

}

broadcast proof fn lemma_rescale_border_and_resize_renderer_if_needed(
    s: WindowBorder,
    monitor: isize,
    k: Then,
    was: WindowBorder,
    end: End,
)
    requires
        keeps(was, s),
        follows(k, was, false, end),
        monitor == s.current_monitor,
    ensures
        #[trigger] conforms(
            behavior::rescale_border_and_resize_renderer_if_needed(s, monitor, k),
            was,
            false,
            end,
        ),
{
    broadcast use {
        lemma_ask, lemma_rescale_border, lemma_needs_renderer_resize, lemma_resize_renderer,
    };

}

/// Requests that are up to date at all times and do not touch the recovery.
pub open spec fn is_plain(request: Request) -> bool {
    &&& !(request is EnterRecovery)
    &&& !(request is LeaveRecovery)
    &&& forall|s: WindowBorder| #[trigger] is_up_to_date(s, request)
}

/// Sequences of steps whose requests are plain.
pub open spec fn are_plain(steps: Seq<Step>) -> bool {
    forall|i: int|
        0 <= i < steps.len() ==> ((#[trigger] steps[i]) matches Step::Tell(request) ==> is_plain(
            request,
        ))
}

broadcast proof fn lemma_perform(
    s: WindowBorder,
    step: Step,
    k: Then,
    was: WindowBorder,
    end: End,
)
    requires
        keeps(was, s),
        follows(k, was, false, end),
        step matches Step::Tell(request) ==> is_plain(request),
    ensures
        #[trigger] conforms(behavior::perform(s, step, k), was, false, end),
{
    broadcast use {lemma_ask, lemma_update_color, lemma_update_window_rect,
        lemma_update_position, lemma_render, lemma_resize_renderer, lemma_needs_renderer_resize,
        lemma_sync_border_radius, lemma_update_color_brush};

}

/// A sequence of steps conforms if their requests are plain and whatever follows conforms.
pub broadcast proof fn lemma_sequence(
    s: WindowBorder,
    steps: Seq<Step>,
    k: Then,
    was: WindowBorder,
    end: End,
)
    requires
        keeps(was, s),
        follows_done(k, false, was, false, end),
        are_plain(steps),
    ensures
        #[trigger] conforms(behavior::sequence(s, steps, k), was, false, end),
    decreases steps.len(),
{
    if steps.len() > 0 {
        let rest = behavior::on_performed(steps.drop_first(), k);
        assert(are_plain(steps.drop_first()));
        assert forall|s: WindowBorder, o: Outcome| keeps(was, s) implies conforms(
            #[trigger] rest(s, o),
            was,
            false,
            end,
        ) by {
            lemma_sequence(s, steps.drop_first(), k, was, end);
            assert(rest(s, o) == behavior::sequence(s, steps.drop_first(), k));
        }
        lemma_perform(s, steps.first(), rest, was, end);
        assert(behavior::sequence(s, steps, k) == behavior::perform(s, steps.first(), rest));
    }
}

broadcast proof fn lemma_init_border(
    s: WindowBorder,
    k: Then,
    was: WindowBorder,
    end: End,
)
    requires
        keeps(was, s),
        follows_done(k, false, was, false, end),
        follows_failed(k, was, false, end),
    ensures
        #[trigger] conforms(dispatch::init_border(s, k), was, false, end),
{
    broadcast use {lemma_ask, lemma_sequence};

}

broadcast proof fn lemma_complete_init(
    s: WindowBorder,
    k: Then,
    was: WindowBorder,
    end: End,
)
    requires
        keeps(was, s),
        follows_done(k, false, was, false, end),
        follows_failed(k, was, false, end),
    ensures
        #[trigger] conforms(dispatch::complete_init(s, k), was, false, end),
{
    broadcast use {lemma_ask, lemma_update_window_rect, lemma_init_drawer, lemma_init_border};

}

broadcast proof fn lemma_load_from_config(
    s: WindowBorder,
    dpi: u32,
    k: Then,
    was: WindowBorder,
    end: End,
)
    requires
        keeps(was, s),
        follows_done(k, false, was, false, end),
        dpi == s.current_dpi,
    ensures
        #[trigger] conforms(dispatch::load_from_config(s, dpi, k), was, false, end),
{
    broadcast use {lemma_ask, lemma_sync_border_radius};

}

/// Setting a border up conforms if whatever follows conforms.
pub broadcast proof fn lemma_init(
    s: WindowBorder,
    k: Then,
    was: WindowBorder,
    end: End,
)
    requires
        keeps(was, s),
        follows_done(k, false, was, false, end),
        follows_failed(k, was, false, end),
    ensures
        #[trigger] conforms(dispatch::init(s, k), was, false, end),
{
    broadcast use {lemma_ask, lemma_give_up, lemma_load_from_config, lemma_complete_init};

}

broadcast proof fn lemma_complete_unminimize(
    s: WindowBorder,
    k: Then,
    was: WindowBorder,
    end: End,
)
    requires
        keeps(was, s),
        follows_done(k, false, was, false, end),
    ensures
        #[trigger] conforms(dispatch::complete_unminimize(s, k), was, false, end),
{
    broadcast use {lemma_ask, lemma_sequence};

}

broadcast proof fn lemma_follow(
    s: WindowBorder,
    live: bool,
    updated: bool,
    k: Then,
    was: WindowBorder,
    end: End,
)
    requires
        keeps(was, s),
        follows_done(k, false, was, false, end),
    ensures
        #[trigger] conforms(dispatch::follow(s, live, updated, k), was, false, end),
{
    broadcast use {
        lemma_ask, lemma_update_window_rect, lemma_needs_renderer_resize, lemma_resize_renderer,
        lemma_sequence,
    };

}

broadcast proof fn lemma_check_monitor(
    s: WindowBorder,
    live: bool,
    k: Then,
    was: WindowBorder,
    end: End,
)
    requires
        keeps(was, s),
        follows_done(k, false, was, false, end),
    ensures
        #[trigger] conforms(dispatch::check_monitor(s, live, k), was, false, end),
{
    broadcast use {
        lemma_ask, lemma_rescale_border_and_resize_renderer_if_needed, lemma_sync_border_radius,
        lemma_follow,
    };

}

broadcast proof fn lemma_handle_unminimize_settle(
    s: WindowBorder,
    k: Then,
    was: WindowBorder,
    end: End,
)
    requires
        keeps(was, s),
        follows_done(k, false, was, false, end),
    ensures
        #[trigger] conforms(dispatch::handle_unminimize_settle(s, k), was, false, end),
{
    broadcast use {lemma_ask, lemma_check_monitor};

}

broadcast proof fn lemma_handle_reorder(
    s: WindowBorder,
    k: Then,
    was: WindowBorder,
    end: End,
)
    requires
        keeps(was, s),
        follows_done(k, false, was, false, end),
    ensures
        #[trigger] conforms(dispatch::handle_reorder(s, k), was, false, end),
{
    broadcast use {lemma_ask, lemma_update_position};

}

broadcast proof fn lemma_on_location_change(
    s: WindowBorder,
    k: Then,
    was: WindowBorder,
    end: End,
)
    requires
        keeps(was, s),
        follows_done(k, false, was, false, end),
    ensures
        #[trigger] conforms(dispatch::on_location_change(s, k), was, false, end),
{
    broadcast use {lemma_ask, lemma_cleanup_and_queue_exit, lemma_check_monitor, lemma_sequence};

}

broadcast proof fn lemma_on_reorder(
    s: WindowBorder,
    k: Then,
    was: WindowBorder,
    end: End,
)
    requires
        keeps(was, s),
        follows_done(k, false, was, false, end),
    ensures
        #[trigger] conforms(dispatch::on_reorder(s, k), was, false, end),
{
    broadcast use {lemma_ask, lemma_cleanup_and_queue_exit, lemma_handle_reorder};

}

broadcast proof fn lemma_on_timer(
    s: WindowBorder,
    id: usize,
    k: Then,
    was: WindowBorder,
    end: End,
)
    requires
        keeps(was, s),
        follows_done(k, false, was, false, end),
    ensures
        #[trigger] conforms(dispatch::on_timer(s, id, k), was, false, end),
{
    broadcast use {
        lemma_ask, lemma_complete_init, lemma_complete_unminimize, lemma_handle_unminimize_settle,
        lemma_handle_reorder,
    };

}

broadcast proof fn lemma_on_foreground(
    s: WindowBorder,
    k: Then,
    was: WindowBorder,
    end: End,
)
    requires
        keeps(was, s),
        follows_done(k, false, was, false, end),
    ensures
        #[trigger] conforms(dispatch::on_foreground(s, k), was, false, end),
{
    broadcast use {lemma_ask, lemma_cleanup_and_queue_exit, lemma_sequence};

}

broadcast proof fn lemma_on_show_uncloaked(
    s: WindowBorder,
    k: Then,
    was: WindowBorder,
    end: End,
)
    requires
        keeps(was, s),
        follows_done(k, false, was, false, end),
    ensures
        #[trigger] conforms(dispatch::on_show_uncloaked(s, k), was, false, end),
{
    broadcast use {lemma_ask, lemma_sequence};

}

broadcast proof fn lemma_on_hide_cloaked(
    s: WindowBorder,
    k: Then,
    was: WindowBorder,
    end: End,
)
    requires
        keeps(was, s),
        follows_done(k, false, was, false, end),
    ensures
        #[trigger] conforms(dispatch::on_hide_cloaked(s, k), was, false, end),
{
    broadcast use {lemma_ask, lemma_sequence};

}

broadcast proof fn lemma_on_minimize_start(
    s: WindowBorder,
    k: Then,
    was: WindowBorder,
    end: End,
)
    requires
        keeps(was, s),
        follows_done(k, false, was, false, end),
    ensures
        #[trigger] conforms(dispatch::on_minimize_start(s, k), was, false, end),
{
    broadcast use {lemma_ask, lemma_sequence};

}

broadcast proof fn lemma_on_minimize_end(
    s: WindowBorder,
    k: Then,
    was: WindowBorder,
    end: End,
)
    requires
        keeps(was, s),
        follows_done(k, false, was, false, end),
    ensures
        #[trigger] conforms(dispatch::on_minimize_end(s, k), was, false, end),
{
    broadcast use {lemma_ask, lemma_complete_unminimize};

}

broadcast proof fn lemma_on_animate(
    s: WindowBorder,
    k: Then,
    was: WindowBorder,
    end: End,
)
    requires
        keeps(was, s),
        follows_done(k, false, was, false, end),
    ensures
        #[trigger] conforms(dispatch::on_animate(s, k), was, false, end),
{
    broadcast use lemma_ask;

}

broadcast proof fn lemma_on_komorebi(
    s: WindowBorder,
    k: Then,
    was: WindowBorder,
    end: End,
)
    requires
        keeps(was, s),
        follows_done(k, false, was, false, end),
    ensures
        #[trigger] conforms(dispatch::on_komorebi(s, k), was, false, end),
{
    broadcast use {lemma_ask, lemma_sequence};

}

broadcast proof fn lemma_on_set_colors(
    s: WindowBorder,
    active: bool,
    inactive: bool,
    k: Then,
    was: WindowBorder,
    end: End,
)
    requires
        keeps(was, s),
        follows_done(k, false, was, false, end),
    ensures
        #[trigger] conforms(dispatch::on_set_colors(s, active, inactive, k), was, false, end),
{
    broadcast use {lemma_ask, lemma_sequence};

}

broadcast proof fn lemma_on_set_width(
    s: WindowBorder,
    k: Then,
    was: WindowBorder,
    end: End,
)
    requires
        keeps(was, s),
        follows_done(k, false, was, false, end),
    ensures
        #[trigger] conforms(dispatch::on_set_width(s, k), was, false, end),
{
    broadcast use {lemma_ask, lemma_sequence};

}

broadcast proof fn lemma_on_set_offset(
    s: WindowBorder,
    k: Then,
    was: WindowBorder,
    end: End,
)
    requires
        keeps(was, s),
        follows_done(k, false, was, false, end),
    ensures
        #[trigger] conforms(dispatch::on_set_offset(s, k), was, false, end),
{
    broadcast use {lemma_ask, lemma_sequence};

}

broadcast proof fn lemma_on_set_radius(
    s: WindowBorder,
    k: Then,
    was: WindowBorder,
    end: End,
)
    requires
        keeps(was, s),
        follows_done(k, false, was, false, end),
    ensures
        #[trigger] conforms(dispatch::on_set_radius(s, k), was, false, end),
{
    broadcast use {lemma_ask, lemma_sequence};

}

broadcast proof fn lemma_on_display_change(
    s: WindowBorder,
    k: Then,
    was: WindowBorder,
    end: End,
)
    requires
        keeps(was, s),
        follows_done(k, false, was, false, end),
    ensures
        #[trigger] conforms(dispatch::on_display_change(s, k), was, false, end),
{
    broadcast use {lemma_ask, lemma_rescale_border_and_resize_renderer_if_needed, lemma_sequence};

}

broadcast proof fn lemma_on_dpi_changed(
    s: WindowBorder,
    wparam: usize,
    k: Then,
    was: WindowBorder,
    end: End,
)
    requires
        keeps(was, s),
        follows_done(k, false, was, false, end),
    ensures
        #[trigger] conforms(dispatch::on_dpi_changed(s, wparam, k), was, false, end),
{
    broadcast use {lemma_ask, lemma_rescale_border, lemma_sequence};

}

broadcast proof fn lemma_on_recreate_drawer(
    s: WindowBorder,
    k: Then,
    was: WindowBorder,
    end: End,
)
    requires
        keeps(was, s),
        follows_done(k, false, was, false, end),
    ensures
        #[trigger] conforms(dispatch::on_recreate_drawer(s, k), was, false, end),
{
    broadcast use {lemma_ask, lemma_cleanup_and_queue_exit};

    let checked = |s: WindowBorder, o: Outcome| dispatch::drawer_checked(s, o, k);
    assert(follows(checked, was, false, end));
    lemma_recreate_drawer_if_needed(s, false, checked, was, false, end);
}

broadcast proof fn lemma_on_device_change(
    s: WindowBorder,
    wparam: usize,
    k: Then,
    was: WindowBorder,
    end: End,
)
    requires
        keeps(was, s),
        follows_done(k, low32(wparam) != DBT_DEVNODES_CHANGED, was, false, end),
    ensures
        #[trigger] conforms(dispatch::on_device_change(s, wparam, k), was, false, end),
{
    broadcast use {lemma_ask, lemma_cleanup_and_queue_exit, lemma_on_recreate_drawer};

}

broadcast proof fn lemma_on_power_broadcast(
    s: WindowBorder,
    wparam: usize,
    k: Then,
    was: WindowBorder,
    end: End,
)
    requires
        keeps(was, s),
        follows_done(k, false, was, false, end),
    ensures
        #[trigger] conforms(dispatch::on_power_broadcast(s, wparam, k), was, false, end),
{
    broadcast use {
        lemma_ask, lemma_sequence, lemma_init_drawer, lemma_cleanup_and_queue_exit,
        lemma_init_border,
    };

}

/// Whether a message is left to the default procedure.
pub open spec fn is_deferred(message: Message) -> bool {
    match message {
        Message::Other => true,
        Message::DeviceChange { wparam } => low32(wparam) != DBT_DEVNODES_CHANGED,
        _ => false,
    }
}

/// Handling a message conforms if whatever follows conforms.
pub broadcast proof fn lemma_wnd_proc(
    s: WindowBorder,
    message: Message,
    k: Then,
    was: WindowBorder,
    end: End,
)
    requires
        keeps(was, s),
        follows_done(k, is_deferred(message), was, false, end),
    ensures
        #[trigger] conforms(dispatch::wnd_proc(s, message, k), was, false, end),
{
    broadcast use {
        lemma_ask, lemma_on_location_change, lemma_on_reorder, lemma_on_timer, lemma_on_foreground,
        lemma_on_show_uncloaked, lemma_on_hide_cloaked, lemma_on_minimize_start,
        lemma_on_minimize_end, lemma_on_animate, lemma_on_komorebi, lemma_on_set_colors,
        lemma_on_set_width, lemma_on_set_offset, lemma_on_set_radius, lemma_on_display_change,
        lemma_on_dpi_changed, lemma_on_device_change, lemma_on_recreate_drawer,
        lemma_on_power_broadcast,
    };

}

} // verus!
