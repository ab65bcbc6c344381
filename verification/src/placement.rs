//! When a border window is shown, hidden or only moved.
//!
//! The lemmas of this module show piece by piece with what visibility a border [`places`] its
//! window, whatever the desktop replies and whatever the border goes through between a request
//! and its reply.

use vstd::prelude::*;
use crate::behavior;
use crate::behavior::{Attempt, Script, Step, Then};
use crate::conduct::keeps;
use crate::dispatch;
use crate::laws::finish;
use crate::protocol::{
    ColorSource, ErrorCode, Message, Outcome, Reply, Request, Visibility, WindowFacts,
};
use crate::render_backend::RenderBackend;
use crate::window_border::{
    WindowBorder, REORDER_TIMER_ID, TIMER_INIT_ID, TIMER_UNMINIMIZE_ID,
    TIMER_UNMINIMIZE_SETTLE_ID,
};

verus! {

/// With what visibility a border window may be placed, given whether it was visible when the
/// desktop was last asked, if it was asked.
pub type Manner = spec_fn(Option<bool>, Visibility) -> bool;

/// What is known of whether the border window is visible, after a request was replied to.
pub open spec fn seen_after(request: Request, reply: Reply, seen: Option<bool>) -> Option<bool> {
    match request {
        Request::BorderVisible => Some(reply == Reply::Flag(true)),
        _ => seen,
    }
}

/// Whatever the desktop replies, and whatever happens to the border in the meantime as long as it
/// keeps what it was: every request that places the border window does so in a certain manner.
#[verifier::opaque]
pub open spec fn places(script: Script, was: WindowBorder, seen: Option<bool>, ok: Manner) -> bool
    decreases script,
{
    match script {
        Script::Return { .. } => true,
        Script::Ask { now, request, next } => {
            &&& request matches Request::SetWindowPos { visibility, .. } ==> ok(seen, visibility)
            &&& forall|s: WindowBorder, r: Reply|
                keeps(was, s) && s.can_take(r) ==> places(
                    #[trigger] next(s, r),
                    was,
                    seen_after(request, r, seen),
                    ok,
                )
        },
    }
}

spec fn follows(k: Then, was: WindowBorder, seen: Option<bool>, ok: Manner) -> bool {
    forall|s: WindowBorder, o: Outcome|
        keeps(was, s) ==> places(#[trigger] k(s, o), was, seen, ok)
}

spec fn follows_either(k: Then, was: WindowBorder, seen: Option<bool>, ok: Manner) -> bool {
    &&& follows(k, was, seen, ok)
    &&& follows(k, was, Some(true), ok)
    &&& follows(k, was, Some(false), ok)
}

broadcast proof fn lemma_ask(
    now: WindowBorder,
    request: Request,
    next: spec_fn(WindowBorder, Reply) -> Script,
    was: WindowBorder,
    seen: Option<bool>,
    ok: Manner,
)
    requires
        request matches Request::SetWindowPos { visibility, .. } ==> ok(seen, visibility),
        forall|s: WindowBorder, r: Reply|
            keeps(was, s) && s.can_take(r) ==> places(
                #[trigger] next(s, r),
                was,
                seen_after(request, r, seen),
                ok,
            ),
    ensures
        #[trigger] places(Script::Ask { now, request, next }, was, seen, ok),
{
    reveal(places);
}

broadcast proof fn lemma_cleanup(
    s: WindowBorder,
    k: Then,
    was: WindowBorder,
    seen: Option<bool>,
    ok: Manner,
)
    requires
        keeps(was, s),
        follows(k, was, seen, ok),
    ensures
        #[trigger] places(behavior::cleanup(s, k), was, seen, ok),
{
    broadcast use lemma_ask;

}

broadcast proof fn lemma_cleanup_and_queue_exit(
    s: WindowBorder,
    k: Then,
    was: WindowBorder,
    seen: Option<bool>,
    ok: Manner,
)
    requires
        keeps(was, s),
        follows(k, was, seen, ok),
    ensures
        #[trigger] places(behavior::cleanup_and_queue_exit(s, k), was, seen, ok),
{
    broadcast use {lemma_ask, lemma_cleanup};

}

broadcast proof fn lemma_give_up(
    s: WindowBorder,
    code: ErrorCode,
    k: Then,
    was: WindowBorder,
    seen: Option<bool>,
    ok: Manner,
)
    requires
        keeps(was, s),
        follows(k, was, seen, ok),
    ensures
        #[trigger] places(behavior::give_up(s, code, k), was, seen, ok),
{
    broadcast use {lemma_ask, lemma_cleanup_and_queue_exit};

}

broadcast proof fn lemma_update_window_rect(
    s: WindowBorder,
    k: Then,
    was: WindowBorder,
    seen: Option<bool>,
    ok: Manner,
)
    requires
        keeps(was, s),
        follows(k, was, seen, ok),
    ensures
        #[trigger] places(behavior::update_window_rect(s, k), was, seen, ok),
{
    broadcast use {lemma_ask, lemma_give_up};

}

broadcast proof fn lemma_update_position(
    s: WindowBorder,
    visibility: Visibility,
    k: Then,
    was: WindowBorder,
    seen: Option<bool>,
    ok: Manner,
)
    requires
        keeps(was, s),
        follows(k, was, seen, ok),
        ok(seen, visibility),
    ensures
        #[trigger] places(behavior::update_position(s, visibility, k), was, seen, ok),
{
    broadcast use {lemma_ask, lemma_give_up};

}

broadcast proof fn lemma_update_color(
    s: WindowBorder,
    check_delay: Option<u64>,
    k: Then,
    was: WindowBorder,
    seen: Option<bool>,
    ok: Manner,
)
    requires
        keeps(was, s),
        follows(k, was, seen, ok),
    ensures
        #[trigger] places(behavior::update_color(s, check_delay, k), was, seen, ok),
{
    broadcast use lemma_ask;

}

broadcast proof fn lemma_update_color_brush(
    s: WindowBorder,
    active: bool,
    source: ColorSource,
    k: Then,
    was: WindowBorder,
    seen: Option<bool>,
    ok: Manner,
)
    requires
        keeps(was, s),
        follows(k, was, seen, ok),
    ensures
        #[trigger] places(behavior::update_color_brush(s, active, source, k), was, seen, ok),
{
    broadcast use lemma_ask;

}

broadcast proof fn lemma_needs_renderer_resize(
    s: WindowBorder,
    k: Then,
    was: WindowBorder,
    seen: Option<bool>,
    ok: Manner,
)
    requires
        keeps(was, s),
        follows(k, was, seen, ok),
    ensures
        #[trigger] places(behavior::needs_renderer_resize(s, k), was, seen, ok),
{
    broadcast use lemma_ask;

}

broadcast proof fn lemma_raw_render(
    s: WindowBorder,
    k: Then,
    was: WindowBorder,
    seen: Option<bool>,
    ok: Manner,
)
    requires
        keeps(was, s),
        follows(k, was, seen, ok),
    ensures
        #[trigger] places(behavior::raw_render(s, k), was, seen, ok),
{
    broadcast use {lemma_ask, lemma_needs_renderer_resize};

}

broadcast proof fn lemma_attempt(
    s: WindowBorder,
    work: Attempt,
    k: Then,
    was: WindowBorder,
    seen: Option<bool>,
    ok: Manner,
)
    requires
        keeps(was, s),
        follows(k, was, seen, ok),
    ensures
        #[trigger] places(behavior::attempt(s, work, k), was, seen, ok),
{
    broadcast use {lemma_ask, lemma_raw_render};

}

broadcast proof fn lemma_report(
    s: WindowBorder,
    code: ErrorCode,
    k: Then,
    was: WindowBorder,
    seen: Option<bool>,
    ok: Manner,
)
    requires
        keeps(was, s),
        follows(k, was, seen, ok),
    ensures
        #[trigger] places(behavior::report(s, code, k), was, seen, ok),
{
    broadcast use {lemma_ask, lemma_give_up};

}

/// Conversations with the renderer conform, in the middle of a recovery or not.
proof fn lemma_with_recovery(
    s: WindowBorder,
    work: Attempt,
    nested: bool,
    k: Then,
    was: WindowBorder,
    seen: Option<bool>,
    ok: Manner,
)
    requires
        keeps(was, s),
        follows(k, was, seen, ok),
    ensures
        places(behavior::with_recovery(s, work, nested, k), was, seen, ok),
    decreases behavior::entries_left(nested), 1int,
{
    broadcast use {lemma_ask, lemma_attempt, lemma_report};

    let recovered = |s: WindowBorder, o: Outcome| behavior::recovered(s, work, o, k);
    assert(follows(recovered, was, seen, ok));
    assert forall|s: WindowBorder, o: Outcome| keeps(was, s) implies
        places(#[trigger] behavior::on_attempted(work, nested, k)(s, o), was, seen, ok) by {
        let script = behavior::attempted(s, work, nested, o, k);
        assert(behavior::on_attempted(work, nested, k)(s, o) == script);
        if let Err(code) = o {
            lemma_handle_directx_errors(s, code, nested, recovered, was, seen, ok);
            assert(script == behavior::handle_directx_errors(s, code, nested, recovered));
        }
    }
    assert(behavior::with_recovery(s, work, nested, k) == behavior::attempt(
        s,
        work,
        behavior::on_attempted(work, nested, k),
    ));
}

proof fn lemma_handle_directx_errors(
    s: WindowBorder,
    code: ErrorCode,
    nested: bool,
    k: Then,
    was: WindowBorder,
    seen: Option<bool>,
    ok: Manner,
)
    requires
        keeps(was, s),
        follows(k, was, seen, ok),
    ensures
        places(behavior::handle_directx_errors(s, code, nested, k), was, seen, ok),
    decreases behavior::entries_left(nested), 0int,
{
    broadcast use lemma_ask;

    if !nested && (code is RecreateTarget || code is DeviceRemoved) {
        let leave = |s: WindowBorder, o: Outcome| behavior::leave_recovery(s, o, k);
        assert(follows(leave, was, seen, ok));
        assert forall|s: WindowBorder, r: Reply| keeps(was, s) && s.can_take(r) implies
            places(#[trigger] behavior::devices_recreated(s, r, k), was, seen, ok) by {
            lemma_recreate_drawer_if_needed(s, true, leave, was, seen, ok);
        }
        assert forall|s: WindowBorder, r: Reply| keeps(was, s) && s.can_take(r) implies
            places(#[trigger] behavior::recovery_entered(s, r, k), was, seen, ok) by {
            assert(r.flag() ==> behavior::recovery_entered(s, r, k)->next =~= (
            |s: WindowBorder, r: Reply| behavior::devices_recreated(s, r, k)));
        }
        assert(behavior::handle_directx_errors(s, code, nested, k)->next =~= (
        |s: WindowBorder, r: Reply| behavior::recovery_entered(s, r, k)));
    }
}

proof fn lemma_recreate_drawer_if_needed(
    s: WindowBorder,
    nested: bool,
    k: Then,
    was: WindowBorder,
    seen: Option<bool>,
    ok: Manner,
)
    requires
        keeps(was, s),
        follows(k, was, seen, ok),
    ensures
        places(behavior::recreate_drawer_if_needed(s, nested, k), was, seen, ok),
    decreases behavior::entries_left(nested), 2int,
{
    broadcast use {lemma_ask, lemma_update_color};

    assert forall|s: WindowBorder, o: Outcome| keeps(was, s) implies
        places(#[trigger] behavior::on_recolored(nested, k)(s, o), was, seen, ok) by {
        lemma_with_recovery(s, Attempt::Render, nested, k, was, seen, ok);
    }
    let made = behavior::on_drawer_recreated(nested, k);
    assert forall|s: WindowBorder, o: Outcome| keeps(was, s) implies places(
        #[trigger] made(s, o),
        was,
        seen,
        ok,
    ) by {
        assert(made(s, o) == behavior::drawer_recreated(s, nested, o, k));
        if o is Ok {
            let render = behavior::on_recolored(nested, k);
            assert(made(s, o) == behavior::update_color(s, None, render));
        }
    }
    assert forall|s: WindowBorder| keeps(was, s) implies
        places(#[trigger] behavior::recreate_drawer(s, nested, k), was, seen, ok) by {
        lemma_with_recovery(s, Attempt::InitDrawer, nested, made, was, seen, ok);
    }
    assert forall|s: WindowBorder, r: Reply| keeps(was, s) && s.can_take(r) implies
        places(#[trigger] behavior::recreate_backend_known(s, nested, r, k), was, seen, ok) by {
        let script = behavior::recreate_backend_known(s, nested, r, k);
        match r.backend() {
            RenderBackend::V2(backend) => {
                let luid = backend.adapter_luid;
                assert forall|s: WindowBorder, r: Reply| keeps(was, s) && s.can_take(r) implies
                    places(
                        #[trigger] behavior::adapter_known(s, nested, luid, r, k),
                        was,
                        seen,
                        ok,
                    ) by {
                    assert(places(behavior::recreate_drawer(s, nested, k), was, seen, ok));
                }
                assert(script->next =~= (
                |s: WindowBorder, r: Reply| behavior::adapter_known(s, nested, luid, r, k)));
            },
            RenderBackend::Legacy(_) => {
                assert forall|s: WindowBorder, r: Reply| keeps(was, s) && s.can_take(r) implies
                    places(
                        #[trigger] behavior::target_probed(s, nested, r, k),
                        was,
                        seen,
                        ok,
                    ) by {
                    assert(places(behavior::recreate_drawer(s, nested, k), was, seen, ok));
                }
                assert(script->next =~= (
                |s: WindowBorder, r: Reply| behavior::target_probed(s, nested, r, k)));
            },
            RenderBackend::Absent => {
                assert(places(behavior::recreate_drawer(s, nested, k), was, seen, ok));
            },
        }
    }
    assert(behavior::recreate_drawer_if_needed(s, nested, k)->next =~= (
    |s: WindowBorder, r: Reply| behavior::recreate_backend_known(s, nested, r, k)));
}

broadcast proof fn lemma_init_drawer(
    s: WindowBorder,
    k: Then,
    was: WindowBorder,
    seen: Option<bool>,
    ok: Manner,
)
    requires
        keeps(was, s),
        follows(k, was, seen, ok),
    ensures
        #[trigger] places(behavior::init_drawer(s, k), was, seen, ok),
{
    broadcast use lemma_ask;

    lemma_with_recovery(s, Attempt::InitDrawer, false, k, was, seen, ok);
}

broadcast proof fn lemma_resize_renderer(
    s: WindowBorder,
    k: Then,
    was: WindowBorder,
    seen: Option<bool>,
    ok: Manner,
)
    requires
        keeps(was, s),
        follows(k, was, seen, ok),
    ensures
        #[trigger] places(behavior::resize_renderer(s, k), was, seen, ok),
{
    broadcast use lemma_ask;

    lemma_with_recovery(s, Attempt::ResizeRenderer, false, k, was, seen, ok);
}

broadcast proof fn lemma_render(
    s: WindowBorder,
    k: Then,
    was: WindowBorder,
    seen: Option<bool>,
    ok: Manner,
)
    requires
        keeps(was, s),
        follows(k, was, seen, ok),
    ensures
        #[trigger] places(behavior::render(s, k), was, seen, ok),
{
    broadcast use lemma_ask;

    lemma_with_recovery(s, Attempt::Render, false, k, was, seen, ok);
}

broadcast proof fn lemma_sync_border_radius(
    s: WindowBorder,
    k: Then,
    was: WindowBorder,
    seen: Option<bool>,
    ok: Manner,
)
    requires
        keeps(was, s),
        follows(k, was, seen, ok),
    ensures
        #[trigger] places(behavior::sync_border_radius(s, k), was, seen, ok),
{
    broadcast use lemma_ask;

}

broadcast proof fn lemma_rescale_border(
    s: WindowBorder,
    dpi: u32,
    k: Then,
    was: WindowBorder,
    seen: Option<bool>,
    ok: Manner,
)
    requires
        keeps(was, s),
        follows(k, was, seen, ok),
    ensures
        #[trigger] places(behavior::rescale_border(s, dpi, k), was, seen, ok),
{
    broadcast use {lemma_ask, lemma_sync_border_radius};

}

broadcast proof fn lemma_rescale_border_and_resize_renderer_if_needed(
    s: WindowBorder,
    monitor: isize,
    k: Then,
    was: WindowBorder,
    seen: Option<bool>,
    ok: Manner,
)
    requires
        keeps(was, s),
        follows(k, was, seen, ok),
    ensures
        #[trigger] places(
            behavior::rescale_border_and_resize_renderer_if_needed(s, monitor, k),
            was,
            seen,
            ok,
        ),
{
    broadcast use {
        lemma_ask, lemma_rescale_border, lemma_needs_renderer_resize, lemma_resize_renderer,
    };

}

/// Whether some steps tell the desktop nothing about placing a window.
spec fn tell_no_place(steps: Seq<Step>) -> bool {
    forall|i: int|
        0 <= i < steps.len() ==> ((#[trigger] steps[i]) matches Step::Tell(request) ==> !(request
            is SetWindowPos) && !(request is BorderVisible))
}

/// Whether some steps place the border window in a certain manner.
spec fn place_well(steps: Seq<Step>, seen: Option<bool>, ok: Manner) -> bool {
    forall|i: int|
        0 <= i < steps.len() ==> ((#[trigger] steps[i]) matches Step::UpdatePosition(visibility)
            ==> ok(seen, visibility))
}

broadcast proof fn lemma_perform(
    s: WindowBorder,
    step: Step,
    k: Then,
    was: WindowBorder,
    seen: Option<bool>,
    ok: Manner,
)
    requires
        keeps(was, s),
        follows(k, was, seen, ok),
        step matches Step::Tell(request) ==> !(request is SetWindowPos) && !(request
            is BorderVisible),
        step matches Step::UpdatePosition(visibility) ==> ok(seen, visibility),
    ensures
        #[trigger] places(behavior::perform(s, step, k), was, seen, ok),
{
    broadcast use {
        lemma_ask, lemma_update_color, lemma_update_window_rect, lemma_update_position,
        lemma_render, lemma_resize_renderer, lemma_needs_renderer_resize,
        lemma_sync_border_radius, lemma_update_color_brush,
    };

}

broadcast proof fn lemma_sequence(
    s: WindowBorder,
    steps: Seq<Step>,
    k: Then,
    was: WindowBorder,
    seen: Option<bool>,
    ok: Manner,
)
    requires
        keeps(was, s),
        follows(k, was, seen, ok),
        tell_no_place(steps),
        place_well(steps, seen, ok),
    ensures
        #[trigger] places(behavior::sequence(s, steps, k), was, seen, ok),
    decreases steps.len(),
{
    if steps.len() > 0 {
        let rest = behavior::on_performed(steps.drop_first(), k);
        assert(tell_no_place(steps.drop_first()) && place_well(steps.drop_first(), seen, ok)) by {
            assert forall|i: int| 0 <= i < steps.drop_first().len() implies (
            #[trigger] steps.drop_first()[i]) == steps[i + 1] by {
            }
        }
        assert forall|s: WindowBorder, o: Outcome| keeps(was, s) implies places(
            #[trigger] rest(s, o),
            was,
            seen,
            ok,
        ) by {
            lemma_sequence(s, steps.drop_first(), k, was, seen, ok);
            assert(rest(s, o) == behavior::sequence(s, steps.drop_first(), k));
        }
        assert(steps[0] == steps.first());
        lemma_perform(s, steps.first(), rest, was, seen, ok);
        assert(behavior::sequence(s, steps, k) == behavior::perform(s, steps.first(), rest));
    }
}

broadcast proof fn lemma_init_border(
    s: WindowBorder,
    k: Then,
    was: WindowBorder,
    seen: Option<bool>,
    ok: Manner,
)
    requires
        keeps(was, s),
        follows(k, was, seen, ok),
        ok(seen, Visibility::Show),
    ensures
        #[trigger] places(dispatch::init_border(s, k), was, seen, ok),
{
    broadcast use {lemma_ask, lemma_sequence};

}

broadcast proof fn lemma_complete_init(
    s: WindowBorder,
    k: Then,
    was: WindowBorder,
    seen: Option<bool>,
    ok: Manner,
)
    requires
        keeps(was, s),
        follows(k, was, seen, ok),
        ok(seen, Visibility::Show),
    ensures
        #[trigger] places(dispatch::complete_init(s, k), was, seen, ok),
{
    broadcast use {lemma_ask, lemma_update_window_rect, lemma_init_drawer, lemma_init_border};

}

broadcast proof fn lemma_load_from_config(
    s: WindowBorder,
    dpi: u32,
    k: Then,
    was: WindowBorder,
    seen: Option<bool>,
    ok: Manner,
)
    requires
        keeps(was, s),
        follows(k, was, seen, ok),
    ensures
        #[trigger] places(dispatch::load_from_config(s, dpi, k), was, seen, ok),
{
    broadcast use {lemma_ask, lemma_sync_border_radius};

}

broadcast proof fn lemma_init(
    s: WindowBorder,
    k: Then,
    was: WindowBorder,
    seen: Option<bool>,
    ok: Manner,
)
    requires
        keeps(was, s),
        follows(k, was, seen, ok),
        ok(seen, Visibility::Show),
    ensures
        #[trigger] places(dispatch::init(s, k), was, seen, ok),
{
    broadcast use {lemma_ask, lemma_give_up, lemma_load_from_config, lemma_complete_init};

}

broadcast proof fn lemma_complete_unminimize(
    s: WindowBorder,
    k: Then,
    was: WindowBorder,
    seen: Option<bool>,
    ok: Manner,
)
    requires
        keeps(was, s),
        follows(k, was, seen, ok),
        ok(seen, Visibility::Show),
    ensures
        #[trigger] places(dispatch::complete_unminimize(s, k), was, seen, ok),
{
    broadcast use {lemma_ask, lemma_sequence};

}

broadcast proof fn lemma_follow(
    s: WindowBorder,
    live: bool,
    updated: bool,
    k: Then,
    was: WindowBorder,
    seen: Option<bool>,
    ok: Manner,
)
    requires
        keeps(was, s),
        follows_either(k, was, seen, ok),
        live ==> ok(Some(true), Visibility::Keep) && ok(Some(false), Visibility::Show),
        !live ==> ok(seen, Visibility::Keep),
    ensures
        #[trigger] places(dispatch::follow(s, live, updated, k), was, seen, ok),
{
    broadcast use {
        lemma_ask, lemma_update_window_rect, lemma_needs_renderer_resize, lemma_resize_renderer,
        lemma_sequence,
    };

}

broadcast proof fn lemma_check_monitor(
    s: WindowBorder,
    live: bool,
    k: Then,
    was: WindowBorder,
    seen: Option<bool>,
    ok: Manner,
)
    requires
        keeps(was, s),
        follows_either(k, was, seen, ok),
        live ==> ok(Some(true), Visibility::Keep) && ok(Some(false), Visibility::Show),
        !live ==> ok(seen, Visibility::Keep),
    ensures
        #[trigger] places(dispatch::check_monitor(s, live, k), was, seen, ok),
{
    broadcast use {
        lemma_ask, lemma_rescale_border_and_resize_renderer_if_needed, lemma_sync_border_radius,
        lemma_follow,
    };

}

broadcast proof fn lemma_handle_unminimize_settle(
    s: WindowBorder,
    k: Then,
    was: WindowBorder,
    seen: Option<bool>,
    ok: Manner,
)
    requires
        keeps(was, s),
        follows_either(k, was, seen, ok),
        ok(seen, Visibility::Keep),
    ensures
        #[trigger] places(dispatch::handle_unminimize_settle(s, k), was, seen, ok),
{
    broadcast use {lemma_ask, lemma_check_monitor};

}

broadcast proof fn lemma_handle_reorder(
    s: WindowBorder,
    k: Then,
    was: WindowBorder,
    seen: Option<bool>,
    ok: Manner,
)
    requires
        keeps(was, s),
        follows(k, was, seen, ok),
        ok(seen, Visibility::Keep),
    ensures
        #[trigger] places(dispatch::handle_reorder(s, k), was, seen, ok),
{
    broadcast use {lemma_ask, lemma_update_position};

}

broadcast proof fn lemma_location_facts_known(
    s: WindowBorder,
    r: Reply,
    k: Then,
    was: WindowBorder,
    seen: Option<bool>,
    ok: Manner,
)
    requires
        keeps(was, s),
        follows_either(k, was, seen, ok),
        behavior::shows_border(s, r.facts()) ==> ok(Some(true), Visibility::Keep) && ok(
            Some(false),
            Visibility::Show,
        ),
        !behavior::shows_border(s, r.facts()) ==> ok(seen, Visibility::Hide),
    ensures
        #[trigger] places(dispatch::location_facts_known(s, r, k), was, seen, ok),
{
    broadcast use {lemma_ask, lemma_check_monitor, lemma_sequence};

}

broadcast proof fn lemma_on_reorder(
    s: WindowBorder,
    k: Then,
    was: WindowBorder,
    seen: Option<bool>,
    ok: Manner,
)
    requires
        keeps(was, s),
        follows(k, was, seen, ok),
        ok(seen, Visibility::Keep),
    ensures
        #[trigger] places(dispatch::on_reorder(s, k), was, seen, ok),
{
    broadcast use {lemma_ask, lemma_cleanup_and_queue_exit, lemma_handle_reorder};

}

broadcast proof fn lemma_on_timer(
    s: WindowBorder,
    id: usize,
    k: Then,
    was: WindowBorder,
    seen: Option<bool>,
    ok: Manner,
)
    requires
        keeps(was, s),
        follows_either(k, was, seen, ok),
        id == TIMER_INIT_ID || id == TIMER_UNMINIMIZE_ID ==> ok(seen, Visibility::Show),
        id == TIMER_UNMINIMIZE_SETTLE_ID || id == REORDER_TIMER_ID ==> ok(
            seen,
            Visibility::Keep,
        ),
    ensures
        #[trigger] places(dispatch::on_timer(s, id, k), was, seen, ok),
{
    broadcast use {
        lemma_ask, lemma_complete_init, lemma_complete_unminimize, lemma_handle_unminimize_settle,
        lemma_handle_reorder,
    };

}

broadcast proof fn lemma_on_foreground(
    s: WindowBorder,
    k: Then,
    was: WindowBorder,
    seen: Option<bool>,
    ok: Manner,
)
    requires
        keeps(was, s),
        follows(k, was, seen, ok),
        ok(seen, Visibility::Keep),
    ensures
        #[trigger] places(dispatch::on_foreground(s, k), was, seen, ok),
{
    broadcast use {lemma_ask, lemma_cleanup_and_queue_exit, lemma_sequence};

}

broadcast proof fn lemma_on_show_uncloaked(
    s: WindowBorder,
    k: Then,
    was: WindowBorder,
    seen: Option<bool>,
    ok: Manner,
)
    requires
        keeps(was, s),
        follows(k, was, seen, ok),
        ok(seen, Visibility::Show),
    ensures
        #[trigger] places(dispatch::on_show_uncloaked(s, k), was, seen, ok),
{
    broadcast use {lemma_ask, lemma_sequence};

}

broadcast proof fn lemma_on_hide_cloaked(
    s: WindowBorder,
    k: Then,
    was: WindowBorder,
    seen: Option<bool>,
    ok: Manner,
)
    requires
        keeps(was, s),
        follows(k, was, seen, ok),
        ok(seen, Visibility::Hide),
    ensures
        #[trigger] places(dispatch::on_hide_cloaked(s, k), was, seen, ok),
{
    broadcast use {lemma_ask, lemma_sequence};

}

broadcast proof fn lemma_on_minimize_start(
    s: WindowBorder,
    k: Then,
    was: WindowBorder,
    seen: Option<bool>,
    ok: Manner,
)
    requires
        keeps(was, s),
        follows(k, was, seen, ok),
        ok(seen, Visibility::Hide),
    ensures
        #[trigger] places(dispatch::on_minimize_start(s, k), was, seen, ok),
{
    broadcast use {lemma_ask, lemma_sequence};

}

broadcast proof fn lemma_on_minimize_end(
    s: WindowBorder,
    k: Then,
    was: WindowBorder,
    seen: Option<bool>,
    ok: Manner,
)
    requires
        keeps(was, s),
        follows(k, was, seen, ok),
        ok(seen, Visibility::Show),
    ensures
        #[trigger] places(dispatch::on_minimize_end(s, k), was, seen, ok),
{
    broadcast use {lemma_ask, lemma_complete_unminimize};

}

broadcast proof fn lemma_on_komorebi(
    s: WindowBorder,
    k: Then,
    was: WindowBorder,
    seen: Option<bool>,
    ok: Manner,
)
    requires
        keeps(was, s),
        follows(k, was, seen, ok),
    ensures
        #[trigger] places(dispatch::on_komorebi(s, k), was, seen, ok),
{
    broadcast use {lemma_ask, lemma_sequence};

}

broadcast proof fn lemma_on_set_colors(
    s: WindowBorder,
    active: bool,
    inactive: bool,
    k: Then,
    was: WindowBorder,
    seen: Option<bool>,
    ok: Manner,
)
    requires
        keeps(was, s),
        follows(k, was, seen, ok),
    ensures
        #[trigger] places(dispatch::on_set_colors(s, active, inactive, k), was, seen, ok),
{
    broadcast use {lemma_ask, lemma_sequence};

}

broadcast proof fn lemma_on_set_width(
    s: WindowBorder,
    k: Then,
    was: WindowBorder,
    seen: Option<bool>,
    ok: Manner,
)
    requires
        keeps(was, s),
        follows(k, was, seen, ok),
        ok(seen, Visibility::Keep),
    ensures
        #[trigger] places(dispatch::on_set_width(s, k), was, seen, ok),
{
    broadcast use {lemma_ask, lemma_sequence};

}

broadcast proof fn lemma_on_set_offset(
    s: WindowBorder,
    k: Then,
    was: WindowBorder,
    seen: Option<bool>,
    ok: Manner,
)
    requires
        keeps(was, s),
        follows(k, was, seen, ok),
        ok(seen, Visibility::Keep),
    ensures
        #[trigger] places(dispatch::on_set_offset(s, k), was, seen, ok),
{
    broadcast use {lemma_ask, lemma_sequence};

}

broadcast proof fn lemma_on_set_radius(
    s: WindowBorder,
    k: Then,
    was: WindowBorder,
    seen: Option<bool>,
    ok: Manner,
)
    requires
        keeps(was, s),
        follows(k, was, seen, ok),
    ensures
        #[trigger] places(dispatch::on_set_radius(s, k), was, seen, ok),
{
    broadcast use {lemma_ask, lemma_sequence};

}

broadcast proof fn lemma_on_display_change(
    s: WindowBorder,
    k: Then,
    was: WindowBorder,
    seen: Option<bool>,
    ok: Manner,
)
    requires
        keeps(was, s),
        follows_either(k, was, seen, ok),
    ensures
        #[trigger] places(dispatch::on_display_change(s, k), was, seen, ok),
{
    broadcast use {lemma_ask, lemma_rescale_border_and_resize_renderer_if_needed, lemma_sequence};

}

broadcast proof fn lemma_on_dpi_changed(
    s: WindowBorder,
    wparam: usize,
    k: Then,
    was: WindowBorder,
    seen: Option<bool>,
    ok: Manner,
)
    requires
        keeps(was, s),
        follows(k, was, seen, ok),
    ensures
        #[trigger] places(dispatch::on_dpi_changed(s, wparam, k), was, seen, ok),
{
    broadcast use {lemma_ask, lemma_rescale_border, lemma_sequence};

}

broadcast proof fn lemma_on_recreate_drawer(
    s: WindowBorder,
    k: Then,
    was: WindowBorder,
    seen: Option<bool>,
    ok: Manner,
)
    requires
        keeps(was, s),
        follows(k, was, seen, ok),
    ensures
        #[trigger] places(dispatch::on_recreate_drawer(s, k), was, seen, ok),
{
    broadcast use {lemma_ask, lemma_cleanup_and_queue_exit};

    let checked = |s: WindowBorder, o: Outcome| dispatch::drawer_checked(s, o, k);
    assert(follows(checked, was, seen, ok));
    lemma_recreate_drawer_if_needed(s, false, checked, was, seen, ok);
}

broadcast proof fn lemma_on_device_change(
    s: WindowBorder,
    wparam: usize,
    k: Then,
    was: WindowBorder,
    seen: Option<bool>,
    ok: Manner,
)
    requires
        keeps(was, s),
        follows(k, was, seen, ok),
    ensures
        #[trigger] places(dispatch::on_device_change(s, wparam, k), was, seen, ok),
{
    broadcast use {lemma_ask, lemma_cleanup_and_queue_exit, lemma_on_recreate_drawer};

}

broadcast proof fn lemma_on_power_broadcast(
    s: WindowBorder,
    wparam: usize,
    k: Then,
    was: WindowBorder,
    seen: Option<bool>,
    ok: Manner,
)
    requires
        keeps(was, s),
        follows(k, was, seen, ok),
        ok(seen, Visibility::Show),
    ensures
        #[trigger] places(dispatch::on_power_broadcast(s, wparam, k), was, seen, ok),
{
    broadcast use {
        lemma_ask, lemma_sequence, lemma_init_drawer, lemma_cleanup_and_queue_exit,
        lemma_init_border,
    };

}

proof fn lemma_finish(was: WindowBorder, ok: Manner)
    ensures
        forall|seen: Option<bool>| #[trigger] follows(finish(), was, seen, ok),
{
    reveal(places);
    assert forall|seen: Option<bool>| #[trigger] follows(finish(), was, seen, ok) by {
        assert forall|s: WindowBorder, o: Outcome| keeps(was, s) implies places(
            #[trigger] finish()(s, o),
            was,
            seen,
            ok,
        ) by {
        }
    }
}

/// The border of a window that moved, still exists, is on the screen and has the native border
/// that the configuration may ask for, is never hidden: a border window that is visible is only
/// moved, and one that is not is shown. The desktop is asked which before the window is moved.
pub proof fn a_border_that_follows_its_window_is_seen(
    s: WindowBorder,
    found: WindowBorder,
    looked_at: WindowBorder,
    facts: WindowFacts,
)
    requires
        s.well_formed(),
        s.is_initialized,
        !s.is_paused,
        keeps(s, found),
        keeps(s, looked_at),
        facts.visible && !facts.cloaked && !facts.minimized,
        looked_at.config.follow_native_border ==> facts.native_border,
    ensures
        ({
            let script = dispatch::wnd_proc(s, Message::LocationChange, finish());
            let exists = (script->next)(found, Reply::Flag(true));
            let shown = (exists->next)(looked_at, Reply::Facts(facts));
            &&& script is Ask && script->request == Request::WindowExists
            &&& exists is Ask && exists->request == Request::Look
            &&& places(
                shown,
                s,
                None,
                |seen: Option<bool>, visibility: Visibility|
                    (seen == Some(true) && visibility == Visibility::Keep) || (seen == Some(false)
                        && visibility == Visibility::Show),
            )
        }),
{
    let ok = |seen: Option<bool>, visibility: Visibility|
        (seen == Some(true) && visibility == Visibility::Keep) || (seen == Some(false)
            && visibility == Visibility::Show);
    lemma_finish(s, ok);
    lemma_location_facts_known(looked_at, Reply::Facts(facts), finish(), s, None, ok);
}

/// The border of a window that moved, but cannot be seen or lacks the native border that the
/// configuration asks for, is hidden and never shown.
pub proof fn a_border_that_loses_its_window_from_sight_is_hidden(
    s: WindowBorder,
    found: WindowBorder,
    looked_at: WindowBorder,
    facts: WindowFacts,
)
    requires
        s.well_formed(),
        s.is_initialized,
        !s.is_paused,
        keeps(s, found),
        keeps(s, looked_at),
        !facts.visible || facts.cloaked || facts.minimized || (
        looked_at.config.follow_native_border && !facts.native_border),
    ensures
        ({
            let script = dispatch::wnd_proc(s, Message::LocationChange, finish());
            let exists = (script->next)(found, Reply::Flag(true));
            let hidden = (exists->next)(looked_at, Reply::Facts(facts));
            &&& places(
                hidden,
                s,
                None,
                |seen: Option<bool>, visibility: Visibility| visibility == Visibility::Hide,
            )
            &&& comes_to_place(hidden, s)
        }),
{
    broadcast use lemma_comes;

    let ok = |seen: Option<bool>, visibility: Visibility| visibility == Visibility::Hide;
    lemma_finish(s, ok);
    lemma_location_facts_known(looked_at, Reply::Facts(facts), finish(), s, None, ok);
    lemma_first_step_places(
        looked_at,
        Visibility::Hide,
        seq![Step::Tell(Request::DestroyAnimsTimer)],
        finish(),
        s,
    );
    assert(seq![Step::UpdatePosition(Visibility::Hide)] + seq![
        Step::Tell(Request::DestroyAnimsTimer),
    ] =~= seq![Step::UpdatePosition(Visibility::Hide), Step::Tell(Request::DestroyAnimsTimer)]);
}

/// Whatever the desktop replies, and whatever happens to the border in the meantime as long as it
/// keeps what it was: the border window is placed before the conversation ends.
#[verifier::opaque]
pub open spec fn comes_to_place(script: Script, was: WindowBorder) -> bool
    decreases script,
{
    match script {
        Script::Return { .. } => false,
        Script::Ask { now, request, next } => {
            ||| request is SetWindowPos
            ||| forall|s: WindowBorder, r: Reply|
                keeps(was, s) && s.can_take(r) ==> comes_to_place(#[trigger] next(s, r), was)
        },
    }
}

broadcast proof fn lemma_comes(
    now: WindowBorder,
    request: Request,
    next: spec_fn(WindowBorder, Reply) -> Script,
    was: WindowBorder,
)
    requires
        request is SetWindowPos || forall|s: WindowBorder, r: Reply|
            keeps(was, s) && s.can_take(r) ==> comes_to_place(#[trigger] next(s, r), was),
    ensures
        #[trigger] comes_to_place(Script::Ask { now, request, next }, was),
{
    reveal(comes_to_place);
}

proof fn lemma_first_step_places(
    s: WindowBorder,
    visibility: Visibility,
    rest: Seq<Step>,
    k: Then,
    was: WindowBorder,
)
    ensures
        comes_to_place(
            behavior::sequence(s, seq![Step::UpdatePosition(visibility)] + rest, k),
            was,
        ),
{
    broadcast use lemma_comes;

    let steps = seq![Step::UpdatePosition(visibility)] + rest;
    assert(steps.drop_first() =~= rest);
    assert(behavior::sequence(s, steps, k) == behavior::perform(
        s,
        steps.first(),
        behavior::on_performed(rest, k),
    ));
}

/// A border is hidden when its window is hidden, cloaked or minimized: its window is placed, and
/// whenever it is placed it is hidden.
pub proof fn a_border_is_hidden_with_its_window(s: WindowBorder, message: Message)
    requires
        s.well_formed(),
        message == Message::HideCloaked || message == Message::MinimizeStart,
    ensures
        comes_to_place(dispatch::wnd_proc(s, message, finish()), s),
        places(
            dispatch::wnd_proc(s, message, finish()),
            s,
            None,
            |seen: Option<bool>, visibility: Visibility| visibility == Visibility::Hide,
        ),
{
    let ok = |seen: Option<bool>, visibility: Visibility| visibility == Visibility::Hide;
    lemma_finish(s, ok);
    lemma_on_hide_cloaked(s, finish(), s, None, ok);
    lemma_on_minimize_start(s, finish(), s, None, ok);
    let hide = Step::UpdatePosition(Visibility::Hide);
    let rest = seq![Step::Tell(Request::DestroyAnimsTimer), Step::SetPaused(true)];
    lemma_first_step_places(s, Visibility::Hide, rest, finish(), s);
    assert(seq![hide] + rest =~= seq![hide, rest[0], rest[1]]);
    let hidden = |s: WindowBorder, o: Outcome| dispatch::minimize_hidden(s, finish());
    lemma_first_step_places(s, Visibility::Hide, seq![], hidden, s);
    assert(seq![hide] + Seq::<Step>::empty() =~= seq![hide]);
}

/// Putting a border back in the order of windows never shows or hides it, and neither does
/// following the focus, a new width or offset, or the last look at a restored window.
pub proof fn a_border_that_is_only_moved_stays_as_visible_as_it_was(
    s: WindowBorder,
    message: Message,
)
    requires
        s.well_formed(),
        message == Message::Reorder || message == Message::Foreground || message
            == Message::SetWidth || message == Message::SetOffset || message == (Message::Timer {
            id: 0,
        }) || message == (Message::Timer { id: 3 }),
    ensures
        places(
            dispatch::wnd_proc(s, message, finish()),
            s,
            None,
            |seen: Option<bool>, visibility: Visibility| visibility == Visibility::Keep,
        ),
{
    let ok = |seen: Option<bool>, visibility: Visibility| visibility == Visibility::Keep;
    lemma_finish(s, ok);
    lemma_on_reorder(s, finish(), s, None, ok);
    lemma_on_foreground(s, finish(), s, None, ok);
    lemma_on_set_width(s, finish(), s, None, ok);
    lemma_on_set_offset(s, finish(), s, None, ok);
    lemma_on_timer(s, 0, finish(), s, None, ok);
    lemma_on_timer(s, 3, finish(), s, None, ok);
}

/// A border that comes into sight, because it is set up, because its window is shown or restored,
/// or because the system wakes up, is shown whenever it is placed.
pub proof fn a_border_that_comes_into_sight_is_shown(s: WindowBorder, message: Message)
    requires
        s.well_formed(),
        message == Message::ShowUncloaked || message == Message::MinimizeEnd || message is
            PowerBroadcast || message == (Message::Timer { id: 1 }) || message == (Message::Timer {
            id: 2,
        }),
    ensures
        places(
            dispatch::wnd_proc(s, message, finish()),
            s,
            None,
            |seen: Option<bool>, visibility: Visibility| visibility == Visibility::Show,
        ),
        places(
            dispatch::init(s, finish()),
            s,
            None,
            |seen: Option<bool>, visibility: Visibility| visibility == Visibility::Show,
        ),
{
    let ok = |seen: Option<bool>, visibility: Visibility| visibility == Visibility::Show;
    lemma_finish(s, ok);
    lemma_init(s, finish(), s, None, ok);
    lemma_on_show_uncloaked(s, finish(), s, None, ok);
    lemma_on_minimize_end(s, finish(), s, None, ok);
    lemma_on_timer(s, 1, finish(), s, None, ok);
    lemma_on_timer(s, 2, finish(), s, None, ok);
    if let Message::PowerBroadcast { wparam } = message {
        lemma_on_power_broadcast(s, wparam, finish(), s, None, ok);
    }
}

/// No other message places the border window at all.
pub proof fn other_messages_do_not_place_the_border(s: WindowBorder, message: Message)
    requires
        s.well_formed(),
        message == Message::Animate || message == Message::Komorebi || message is SetColors
            || message == Message::SetRadius || message == Message::Paint || message
            == Message::Close || message == Message::DisplayChange || message is DpiChanged
            || message is DeviceChange || message == Message::RecreateDrawer || message
            == Message::WindowPosChange || message == Message::Other || (message matches
            Message::Timer { id } && id > 3),
    ensures
        places(
            dispatch::wnd_proc(s, message, finish()),
            s,
            None,
            |seen: Option<bool>, visibility: Visibility| false,
        ),
{
    broadcast use {
        lemma_ask, lemma_on_komorebi, lemma_on_set_colors, lemma_on_set_radius,
        lemma_on_display_change, lemma_on_dpi_changed, lemma_on_recreate_drawer,
        lemma_on_device_change,
    };

    let ok = |seen: Option<bool>, visibility: Visibility| false;
    lemma_finish(s, ok);
    assert(follows(finish(), s, None, ok));
    assert(follows(finish(), s, Some(true), ok));
    assert(follows(finish(), s, Some(false), ok));
}

} // verus!
