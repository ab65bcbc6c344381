//! What holds of the library as a whole.

use vstd::prelude::*;
use crate::behavior;
use crate::behavior::{Attempt, Script, Step, Then};
use crate::call::{rest, Frame};
use crate::conduct;
use crate::conduct::{conforms, is_deferred, keeps, End};
use crate::dispatch;
use crate::geometry::{outset, outset_fits, side, surface_side, Appearance, Rect, Size};
use crate::headroom::{
    lemma_scaled_is_at_least, lemma_scaled_is_at_most, lemma_scaled_is_six_fifths,
};
use crate::protocol::{
    low32, timer_millis, ColorRules, ErrorCode, Focus, Message, Outcome, Posted, Radius, Reply,
    Request, Visibility, WindowKind, PBT_APMRESUMEAUTOMATIC, PBT_APMRESUMESUSPEND,
};
use crate::render_backend::RenderBackend;
use crate::resume::released;
use crate::window_border::{
    route, Route, Tie, WindowBorder, REORDER_TIMER_ID, TIMER_INIT_ID,
    TIMER_UNMINIMIZE_SETTLE_ID,
};

verus! {

/// What follows on a piece of work that was not begun by another one: nothing.
pub open spec fn finish() -> Then {
    rest(Seq::<Frame>::empty())
}

proof fn lemma_finish(was: WindowBorder, end: End)
    ensures
        forall|s: WindowBorder, o: Outcome|
            keeps(was, s) && end(s, o) ==> conforms(#[trigger] finish()(s, o), was, false, end),
{
    reveal(conforms);
}

/// Whatever message comes, and whatever the desktop replies: the border keeps its windows and
/// stays initialized, every request speaks of the border as it is, a recovery that is entered is
/// left before the end and not entered twice, and the message is left to the default procedure if
/// and only if it is none of the border's.
pub proof fn every_message_is_handled(s: WindowBorder, message: Message)
    requires
        s.well_formed(),
    ensures
        conforms(
            dispatch::wnd_proc(s, message, finish()),
            s,
            false,
            |now: WindowBorder, o: Outcome| o == Ok::<bool, ErrorCode>(is_deferred(message)),
        ),
{
    let end = |now: WindowBorder, o: Outcome| o == Ok::<bool, ErrorCode>(is_deferred(message));
    lemma_finish(s, end);
    conduct::lemma_wnd_proc(s, message, finish(), s, end);
}

/// A border that is being set up conforms as well. Setting it up ends with the flag unset, or
/// fails.
pub proof fn setting_up_conforms(s: WindowBorder)
    requires
        s.well_formed(),
    ensures
        conforms(
            dispatch::init(s, finish()),
            s,
            false,
            |now: WindowBorder, o: Outcome| o is Ok ==> o == Ok::<bool, ErrorCode>(false),
        ),
{
    let end = |now: WindowBorder, o: Outcome| o is Ok ==> o == Ok::<bool, ErrorCode>(false);
    lemma_finish(s, end);
    conduct::lemma_init(s, finish(), s, end);
}

/// A border counts as initialized once everything was made and shown without a failure, and not
/// before; that happens at once without an initial delay, and when the timer for it runs out
/// otherwise.
pub proof fn a_border_is_initialized_by_a_complete_setup(
    s: WindowBorder,
    o: Outcome,
    k: Then,
)
    ensures
        dispatch::init_completed(s, o, k) == match o {
            Ok(_) => k(WindowBorder { is_initialized: true, ..s }, Ok(false)),
            Err(code) => k(s, Err(code)),
        },
        dispatch::late_init_completed(s, o, k) == match o {
            Ok(_) => k(WindowBorder { is_initialized: true, ..s }, Ok(false)),
            Err(_) => k(s, Ok(false)),
        },
        s.config.initialize_delay == 0 ==> dispatch::config_loaded(s, k)
            == dispatch::complete_init(
            s,
            |s: WindowBorder, o: Outcome| dispatch::init_completed(s, o, k),
        ),
        s.config.initialize_delay > 0 ==> dispatch::config_loaded(s, k) == behavior::tell(
            s,
            Request::SetTimer {
                id: TIMER_INIT_ID,
                millis: timer_millis(s.config.initialize_delay),
            },
            k,
        ),
        dispatch::timer_stopped(s, TIMER_INIT_ID, k) == dispatch::complete_init(
            s,
            |s: WindowBorder, o: Outcome| dispatch::late_init_completed(s, o, k),
        ),
{
}

/// A conversation that conforms goes on conforming with every reply.
pub proof fn a_reply_goes_on_conforming(
    now: WindowBorder,
    request: Request,
    next: spec_fn(WindowBorder, Reply) -> Script,
    was: WindowBorder,
    held: bool,
    end: End,
    s: WindowBorder,
    reply: Reply,
)
    requires
        conforms(Script::Ask { now, request, next }, was, held, end),
        keeps(was, s),
        s.can_take(reply),
    ensures
        conforms(next(s, reply), was, conduct::held_after(request, reply, held), end),
{
    reveal(conforms);
    let script = Script::Ask { now, request, next };
    assert((script->next)(s, reply) == next(s, reply));
}

// Pauses.

/// The steps of a sequence are taken one part after the other.
pub proof fn a_sequence_is_taken_in_order(
    s: WindowBorder,
    first: Seq<Step>,
    second: Seq<Step>,
    k: Then,
)
    ensures
        behavior::sequence(s, first + second, k) == behavior::sequence(
            s,
            first,
            |s: WindowBorder, o: Outcome| behavior::sequence(s, second, k),
        ),
    decreases first.len(),
{
    let then = |s: WindowBorder, o: Outcome| behavior::sequence(s, second, k);
    if first.len() == 0 {
        assert(first + second =~= second);
        assert(behavior::sequence(s, first, then) == then(s, Ok(false)));
    } else {
        let both = first + second;
        assert(both.drop_first() =~= first.drop_first() + second);
        assert forall|s: WindowBorder, o: Outcome|
            #[trigger] behavior::on_performed(both.drop_first(), k)(s, o)
                == behavior::on_performed(first.drop_first(), then)(s, o) by {
            a_sequence_is_taken_in_order(s, first.drop_first(), second, k);
        }
        assert(behavior::on_performed(both.drop_first(), k) =~= behavior::on_performed(
            first.drop_first(),
            then,
        ));
        assert(behavior::sequence(s, both, k) == behavior::perform(
            s,
            both.first(),
            behavior::on_performed(both.drop_first(), k),
        ));
    }
}

/// A border whose window is hidden, cloaked or minimized is paused in the end.
pub proof fn a_window_out_of_sight_pauses_its_border(s: WindowBorder, message: Message)
    requires
        s.well_formed(),
        message is HideCloaked || message is MinimizeStart,
    ensures
        conforms(
            dispatch::wnd_proc(s, message, finish()),
            s,
            false,
            |now: WindowBorder, o: Outcome| now.is_paused,
        ),
{
    broadcast use conduct::lemma_sequence;

    let end = |now: WindowBorder, o: Outcome| now.is_paused;
    lemma_finish(s, end);
    let last = seq![Step::SetPaused(true)];
    assert forall|now: WindowBorder| keeps(s, now) implies conforms(
        #[trigger] behavior::sequence(now, last, finish()),
        s,
        false,
        end,
    ) by {
        lemma_pause_step(now, true, finish());
    }
    let hide = seq![
        Step::UpdatePosition(Visibility::Hide),
        Step::Tell(Request::DestroyAnimsTimer),
    ];
    if message is HideCloaked {
        a_sequence_is_taken_in_order(s, hide, last, finish());
        assert(hide + last =~= seq![hide[0], hide[1], last[0]]);
    } else {
        let dim = seq![
            Step::Tell(Request::SetOpacity { active: true, opaque: false }),
            Step::Tell(Request::SetOpacity { active: false, opaque: false }),
            Step::Tell(Request::DestroyAnimsTimer),
        ];
        let still = seq![Step::Tell(Request::DestroyAnimsTimer)];
        assert forall|now: WindowBorder| keeps(s, now) implies conforms(
            #[trigger] dispatch::minimize_hidden(now, finish()),
            s,
            false,
            end,
        ) by {
            a_sequence_is_taken_in_order(now, dim, last, finish());
            a_sequence_is_taken_in_order(now, still, last, finish());
            assert(dim + last =~= seq![dim[0], dim[1], dim[2], last[0]]);
            assert(still + last =~= seq![still[0], last[0]]);
        }
    }
}

/// A step that only sets a flag of the border leaves the rest to what follows.
proof fn lemma_pause_step(s: WindowBorder, paused: bool, k: Then)
    ensures
        behavior::sequence(s, seq![Step::SetPaused(paused)], k) == k(
            WindowBorder { is_paused: paused, ..s },
            Ok(false),
        ),
{
    reveal_with_fuel(behavior::sequence, 2);
    assert(seq![Step::SetPaused(paused)].drop_first() =~= seq![]);
}

proof fn lemma_unpause_steps(s: WindowBorder, k: Then)
    ensures
        behavior::sequence(s, seq![Step::SetPaused(false), Step::ForgetPendingLocation], k) == k(
            WindowBorder { is_paused: false, has_pending_location: false, ..s },
            Ok(false),
        ),
{
    let steps = seq![Step::SetPaused(false), Step::ForgetPendingLocation];
    let last = seq![Step::ForgetPendingLocation];
    let unpaused = WindowBorder { is_paused: false, ..s };
    assert(steps.drop_first() =~= last);
    assert(last.drop_first() =~= seq![]);
    assert(behavior::sequence(s, steps, k) == behavior::on_performed(last, k)(
        unpaused,
        Ok(false),
    ));
    assert(behavior::sequence(unpaused, last, k) == behavior::on_performed(seq![], k)(
        WindowBorder { has_pending_location: false, ..unpaused },
        Ok(false),
    ));
}

/// The border of a restored window is no longer paused in the end, and has no change of location
/// left to see to.
pub proof fn a_restored_window_ends_the_pause(s: WindowBorder)
    requires
        s.well_formed(),
    ensures
        conforms(
            dispatch::complete_unminimize(s, finish()),
            s,
            false,
            |now: WindowBorder, o: Outcome| !now.is_paused && !now.has_pending_location,
        ),
{
    broadcast use {conduct::lemma_ask, conduct::lemma_sequence};

    let end = |now: WindowBorder, o: Outcome| !now.is_paused && !now.has_pending_location;
    lemma_finish(s, end);
    let last = seq![Step::SetPaused(false), Step::ForgetPendingLocation];
    assert forall|now: WindowBorder| keeps(s, now) implies conforms(
        #[trigger] behavior::sequence(now, last, finish()),
        s,
        false,
        end,
    ) by {
        lemma_unpause_steps(now, finish());
    }
    assert forall|now: WindowBorder, r: Reply| keeps(s, now) implies conforms(
        #[trigger] dispatch::unminimize_facts_known(now, r, finish()),
        s,
        false,
        end,
    ) by {
        let show = seq![
            Step::UpdateColor(Some(now.config.unminimize_delay)),
            Step::UpdateWindowRect,
            Step::ResizeIfNeeded,
            Step::UpdatePosition(Visibility::Show),
            Step::Render,
            Step::Tell(Request::SetAnimsTimer),
            Step::Tell(Request::SetTimer { id: TIMER_UNMINIMIZE_SETTLE_ID, millis: 250 }),
        ];
        a_sequence_is_taken_in_order(now, show, last, finish());
        assert(show + last =~= seq![
            show[0],
            show[1],
            show[2],
            show[3],
            show[4],
            show[5],
            show[6],
            last[0],
            last[1],
        ]);
    }
}

/// The border of a window that is shown again is no longer paused in the end, once the window is
/// known to be on the screen and the border to be initialized.
#[verifier::rlimit(40)]
pub proof fn a_window_in_sight_ends_the_pause(s: WindowBorder, reply: Reply)
    requires
        s.well_formed(),
        s.is_initialized,
        reply.facts().on_screen(),
    ensures
        dispatch::wnd_proc(s, Message::ShowUncloaked, finish()) == behavior::ask(
            s,
            Request::Look,
            |s: WindowBorder, r: Reply| dispatch::shown_known(s, r, finish()),
        ),
        conforms(
            dispatch::shown_known(s, reply, finish()),
            s,
            false,
            |now: WindowBorder, o: Outcome| !now.is_paused,
        ),
{
    broadcast use {conduct::lemma_ask, conduct::lemma_sequence};

    let end = |now: WindowBorder, o: Outcome| !now.is_paused;
    lemma_finish(s, end);
    let last = seq![Step::SetPaused(false)];
    assert forall|now: WindowBorder| keeps(s, now) implies conforms(
        #[trigger] behavior::sequence(now, last, finish()),
        s,
        false,
        end,
    ) by {
        lemma_pause_step(now, false, finish());
    }
    assert forall|now: WindowBorder, r: Reply| keeps(s, now) implies conforms(
        #[trigger] dispatch::shown_facts_known(now, r, finish()),
        s,
        false,
        end,
    ) by {
        let show = seq![
            Step::UpdateColor(None),
            Step::UpdateWindowRect,
            Step::UpdatePosition(Visibility::Show),
            Step::Render,
            Step::Tell(Request::SetAnimsTimer),
        ];
        a_sequence_is_taken_in_order(now, show, last, finish());
        assert(show + last =~= seq![show[0], show[1], show[2], show[3], show[4], last[0]]);
    }
}

/// While a border is paused or not initialized, a change of its window's location is noted and
/// nothing else happens, and no frame is drawn.
pub proof fn a_paused_border_does_nothing(s: WindowBorder, k: Then)
    requires
        s.is_paused || !s.is_initialized,
    ensures
        dispatch::wnd_proc(s, Message::LocationChange, k) == k(
            WindowBorder { has_pending_location: true, ..s },
            Ok(false),
        ),
        dispatch::wnd_proc(s, Message::Animate, k) == k(s, Ok(false)),
        dispatch::handle_unminimize_settle(s, k) == k(s, Ok(false)),
{
}

// Ends.

/// A border whose window no longer exists gives up when it is told that the window moved, that
/// the order of windows changed, or that another window got the focus.
pub proof fn a_border_does_not_outlive_its_window(s: WindowBorder, message: Message, k: Then)
    requires
        message is Reorder || message is Foreground || (message is LocationChange && !s.is_paused
            && s.is_initialized),
    ensures
        ({
            let script = dispatch::wnd_proc(s, message, k);
            &&& script is Ask
            &&& script->Ask_now == s
            &&& script->request == Request::WindowExists
            &&& forall|now: WindowBorder, r: Reply|
                !r.flag() ==> #[trigger] (script->next)(now, r) == behavior::cleanup_and_queue_exit(
                    now,
                    k,
                )
        }),
{
}

/// A border that gives up pauses, stops its animations and then, if it has a window, asks that
/// window to close.
pub proof fn giving_up_closes_the_window(s: WindowBorder, k: Then)
    ensures
        ({
            let script = behavior::cleanup_and_queue_exit(s, k);
            &&& script is Ask
            &&& script->Ask_now == WindowBorder { is_paused: true, ..s }
            &&& script->request == Request::DestroyAnimsTimer
            &&& forall|now: WindowBorder, r: Reply|
                {
                    let then = #[trigger] (script->next)(now, r);
                    if now.border_window == 0 {
                        then == k(now, Ok(false))
                    } else {
                        &&& then is Ask
                        &&& then->Ask_now == now
                        &&& then->request == Request::Post { message: Posted::Close }
                        &&& forall|now: WindowBorder, r: Reply|
                            #[trigger] (then->next)(now, r) == k(now, Ok(false))
                    }
                }
        }),
{
}

// Sizes.

/// A renderer that was made with, or resized to, the size that it ought to have does not have to
/// be resized.
pub proof fn a_resized_renderer_is_large_enough(s: WindowBorder)
    requires
        s.well_formed(),
    ensures
        !behavior::is_outgrown(s, behavior::target_size(s)),
{
    lemma_surface_contains(s.window_rect.across());
    lemma_surface_contains(s.window_rect.down());
}

proof fn lemma_surface_contains(extent: int)
    requires
        extent <= i32::MAX,
    ensures
        side(extent) <= surface_side(extent) <= u32::MAX,
{
    lemma_scaled_is_at_least(side(extent));
    lemma_scaled_is_at_most(side(extent));
}

/// As long as the border of a window fits the composition surface that it has, the surface is
/// kept: moving a window or making it smaller does not take another one.
pub proof fn a_surface_is_kept_while_it_suffices(s: WindowBorder, actual: Size)
    requires
        s.config.render_backend is V2,
        s.window_rect.across() <= actual.width,
        s.window_rect.down() <= actual.height,
        actual.width > 0,
        actual.height > 0,
    ensures
        !behavior::is_outgrown(s, actual),
{
}

/// A composition surface has at least 20% of spare room, and consists of blocks of 128 pixels.
/// The extents are those up to which single precision numbers are at most one pixel apart.
pub proof fn a_surface_has_headroom(extent: int)
    requires
        1 <= extent <= 13_981_012,
    ensures
        surface_side(extent) >= extent * 6 / 5,
        surface_side(extent) % 128 == 0,
        surface_side(extent) <= extent * 6 / 5 + 129,
{
    lemma_scaled_is_six_fifths(extent as nat);
}

// Places.

/// A border that may not be put next to its window in the order of windows is moved once more
/// without touching the order; if that fails as well, for whatever reason, the border gives up.
pub proof fn a_border_that_is_denied_its_order_is_still_moved(
    s: WindowBorder,
    visibility: Visibility,
    k: Then,
)
    ensures
        ({
            let script = behavior::placed(
                s,
                visibility,
                Reply::Failed(ErrorCode::AccessDenied),
                k,
            );
            &&& script is Ask
            &&& script->Ask_now == s
            &&& script->request == behavior::set_pos(s, None, visibility, true)
            &&& forall|now: WindowBorder|
                #[trigger] (script->next)(now, Reply::Done) == k(now, Ok(false))
            &&& forall|now: WindowBorder, code: ErrorCode|
                #[trigger] (script->next)(now, Reply::Failed(code)) == behavior::give_up(
                    now,
                    code,
                    k,
                )
        }),
{
}

/// A border that already lies directly above its window keeps its place in the order of windows.
pub proof fn a_border_above_its_window_stays_there(s: WindowBorder, visibility: Visibility, k: Then)
    ensures
        ({
            let script = behavior::above_known(
                s,
                visibility,
                Reply::Handle(s.border_window),
                k,
            );
            &&& script is Ask
            &&& script->request == behavior::set_pos(s, Some(s.border_window), visibility, true)
        }),
{
}

/// The border of a window that moved but is not to have one, such as one that fills the screen, is
/// hidden and stops its animations; it is not paused, so that it can come back.
pub proof fn a_border_that_is_not_to_be_seen_is_hidden(s: WindowBorder, reply: Reply, k: Then)
    requires
        !behavior::shows_border(s, reply.facts()),
    ensures
        dispatch::location_facts_known(s, reply, k) == behavior::sequence(
            s,
            seq![
                Step::UpdatePosition(Visibility::Hide),
                Step::Tell(Request::DestroyAnimsTimer),
            ],
            k,
        ),
{
}

/// Making room around a window for its border can be undone: without the margins the border's
/// place is that of the window.
pub proof fn a_border_surrounds_its_window(frame: Rect, look: Appearance)
    requires
        outset_fits(frame, look),
    ensures
        ({
            let place = outset(frame, look);
            &&& place.left + look.stroke_width + look.offset.left + look.padding == frame.left
            &&& place.top + look.stroke_width + look.offset.top + look.padding == frame.top
            &&& place.right - look.stroke_width - look.offset.right - look.padding == frame.right
            &&& place.bottom - look.stroke_width - look.offset.bottom - look.padding
                == frame.bottom
        }),
{
}

// The order of windows.

/// The first few reorder messages that follow closely on each other are dealt with at once; a
/// pause ends the count.
pub proof fn a_few_reorders_are_dealt_with_at_once(
    s: WindowBorder,
    since: u64,
    now: u64,
    k: Then,
)
    ensures
        dispatch::elapsed(since, now) >= dispatch::DEBOUNCE_DELAY ==> dispatch::reorder_time_known(
            s,
            since,
            Reply::Time(now),
            k,
        ) == dispatch::handle_reorder(WindowBorder { consecutive_reorders: 0, ..s }, k),
        dispatch::elapsed(since, now) < dispatch::DEBOUNCE_DELAY && s.consecutive_reorders + 1
            < dispatch::NUM_REORDERS_BEFORE_DEBOUNCE ==> dispatch::reorder_time_known(
            s,
            since,
            Reply::Time(now),
            k,
        ) == dispatch::handle_reorder(
            WindowBorder { consecutive_reorders: (s.consecutive_reorders + 1) as u64, ..s },
            k,
        ),
{
}

/// Further ones are dealt with together when the timer runs out: the first of them starts it, for
/// what is left of the delay, and the others are only counted.
pub proof fn many_reorders_are_debounced(s: WindowBorder, since: u64, now: u64, k: Then)
    requires
        dispatch::elapsed(since, now) < dispatch::DEBOUNCE_DELAY,
        s.consecutive_reorders + 1 >= dispatch::NUM_REORDERS_BEFORE_DEBOUNCE,
        s.consecutive_reorders < u64::MAX,
    ensures
        ({
            let counted = WindowBorder {
                consecutive_reorders: (s.consecutive_reorders + 1) as u64,
                ..s
            };
            let script = dispatch::reorder_time_known(s, since, Reply::Time(now), k);
            if s.is_debouncing_reorder {
                script == k(counted, Ok(false))
            } else {
                &&& script is Ask
                &&& script->Ask_now == counted
                &&& script->request == Request::SetTimer {
                    id: REORDER_TIMER_ID,
                    millis: ((dispatch::DEBOUNCE_DELAY - dispatch::elapsed(since, now))
                        / 1_000_000) as u32,
                }
                &&& forall|then: WindowBorder, r: Reply|
                    #[trigger] (script->next)(then, r) == k(
                        WindowBorder { is_debouncing_reorder: true, ..then },
                        Ok(false),
                    )
            }
        }),
{
}

/// When the timer runs out, the debouncing is over and the count begins anew.
pub proof fn the_timer_ends_the_debouncing(s: WindowBorder, k: Then)
    ensures
        ({
            let script = dispatch::wnd_proc(s, Message::Timer { id: REORDER_TIMER_ID }, k);
            &&& script is Ask
            &&& script->request == Request::KillTimer { id: REORDER_TIMER_ID }
            &&& forall|now: WindowBorder, r: Reply|
                #[trigger] (script->next)(now, r) == dispatch::handle_reorder(
                    WindowBorder {
                        is_debouncing_reorder: false,
                        consecutive_reorders: 0,
                        ..now
                    },
                    k,
                )
        }),
{
}

// Failures of the renderer.

/// An error that will pass does not make a border give up; any other one does.
pub proof fn only_lasting_errors_end_a_border(s: WindowBorder, code: ErrorCode, k: Then)
    ensures
        behavior::report(s, code, k) == if code is Reentrancy || code is Uninit {
            k(s, Err(code))
        } else {
            behavior::give_up(s, code, k)
        },
{
}

/// Where the display adapter changes again in the middle of a recovery, or the recovery cannot be
/// entered, the work fails with an error that will pass; nothing is recovered twice.
pub proof fn a_recovery_does_not_begin_another(s: WindowBorder, code: ErrorCode, k: Then)
    requires
        code is RecreateTarget || code is DeviceRemoved,
    ensures
        behavior::handle_directx_errors(s, code, true, k) == k(s, Err(ErrorCode::Reentrancy)),
        behavior::recovery_entered(s, Reply::Flag(false), k) == k(s, Err(ErrorCode::Reentrancy)),
        ErrorCode::Reentrancy.is_passing(),
{
}

/// Work that fails because something does not exist yet is tried once more, without a recovery.
pub proof fn missing_things_are_worth_another_try(
    s: WindowBorder,
    work: Attempt,
    nested: bool,
    k: Then,
)
    ensures
        behavior::attempted(s, work, nested, Err(ErrorCode::Uninit), k) == behavior::attempt(
            s,
            work,
            |s: WindowBorder, o: Outcome| behavior::attempted_again(s, o, k),
        ),
{
}

/// Work that fails for a reason that no recovery is known for is not tried again: the border
/// gives up.
pub proof fn other_errors_are_final(
    s: WindowBorder,
    work: Attempt,
    nested: bool,
    code: ErrorCode,
    k: Then,
)
    requires
        !(code is RecreateTarget || code is DeviceRemoved || code is Uninit),
    ensures
        behavior::attempted(s, work, nested, Err(code), k) == behavior::give_up(
            s,
            ErrorCode::Failed,
            k,
        ),
{
}

// Looks.

/// Corners whose radius is automatic are square, and stay so, while the window is snapped;
/// otherwise they are as configured. The border knows which in the end.
pub proof fn the_corners_of_a_snapped_window_are_square(s: WindowBorder, arranged: bool)
    requires
        s.well_formed(),
    ensures
        conforms(
            behavior::radius_arranged_known(s, Reply::Flag(arranged), finish()),
            s,
            false,
            |now: WindowBorder, o: Outcome|
                now.arranged_override_active == (s.config.radius_auto && arranged),
        ),
        behavior::radius_arranged_known(s, Reply::Flag(arranged), finish()) is Ask,
        behavior::radius_arranged_known(s, Reply::Flag(arranged), finish())->request == if
            s.config.radius_auto && arranged {
            Request::RadiusDiffers { radius: Radius::Square }
        } else {
            Request::UnlockRadius
        },
{
    broadcast use conduct::lemma_ask;

    let end = |now: WindowBorder, o: Outcome|
        now.arranged_override_active == (s.config.radius_auto && arranged);
    lemma_finish(s, end);
}

/// A radius that does not differ is not set, and counts as not updated.
pub proof fn an_equal_radius_is_not_set(s: WindowBorder, radius: Radius, k: Then)
    ensures
        behavior::square_differs_known(s, Reply::Flag(false), k) == behavior::lock_radius(
            s,
            false,
            k,
        ),
        behavior::configured_differs_known(s, radius, Reply::Flag(false), k) == k(
            WindowBorder { arranged_override_active: false, ..s },
            Ok(false),
        ),
{
}

/// Where the animations fade from one color to the other, the brushes are left to them, unless
/// there was no delay in which the fade could have been seen.
pub proof fn a_fade_takes_care_of_the_brushes(s: WindowBorder, check_delay: Option<u64>, k: Then)
    requires
        check_delay != Some(0u64),
    ensures
        behavior::fade_known(s, check_delay, Reply::Flag(true), k) == k(s, Ok(false)),
        behavior::fade_known(s, check_delay, Reply::Flag(false), k)
            == behavior::update_brush_opacities(s, k),
{
}

/// Exactly one of the two brushes is made opaque and the other one invisible, according to
/// whether the window has the focus.
pub proof fn one_brush_is_seen(s: WindowBorder, k: Then)
    ensures
        ({
            let script = behavior::update_brush_opacities(s, k);
            &&& script is Ask
            &&& script->request == Request::SetOpacity {
                active: s.window_state is Active,
                opaque: true,
            }
            &&& forall|now: WindowBorder, r: Reply|
                {
                    let then = #[trigger] (script->next)(now, r);
                    &&& then is Ask
                    &&& then->request == Request::SetOpacity {
                        active: !(s.window_state is Active),
                        opaque: false,
                    }
                }
        }),
{
}

/// A border is drawn again when its window moved if and only if something about it changed.
pub proof fn a_border_is_drawn_again_if_it_changed(
    live: bool,
    updated: bool,
    visibility: Visibility,
)
    ensures
        dispatch::follow_steps(live, updated, visibility).contains(Step::Render) <==> updated,
        dispatch::follow_steps(live, updated, visibility).first() == Step::UpdatePosition(
            visibility,
        ),
{
    let steps = dispatch::follow_steps(live, updated, visibility);
    if updated {
        assert(steps[1] == Step::Render);
    }
}

/// A window that the tiling window manager does not know counts as a single one, and one that it
/// sees as unfocused keeps its colors.
pub proof fn unfocused_windows_keep_their_colors(s: WindowBorder, rules: ColorRules, k: Then)
    ensures
        dispatch::focus_known(s, rules, Reply::Focus(Focus::Known(WindowKind::Unfocused)), k) == k(
            s,
            Ok(false),
        ),
        dispatch::focus_known(s, rules, Reply::Focus(Focus::Unknown), k) == dispatch::focus_known(
            s,
            rules,
            Reply::Focus(Focus::Known(WindowKind::Single)),
            k,
        ),
{
}

// Windows.

/// What a window keeps after a message to it.
pub open spec fn kept_after(kept: isize, tie: Tie) -> isize {
    match route(kept, tie).0 {
        Some(address) => address,
        None => kept,
    }
}

/// A window takes over the border that it is created for, hands it every message until it is
/// destroyed, then releases it once, and hands nothing to it any more.
pub proof fn a_window_keeps_its_border_until_it_is_gone(border: isize)
    requires
        border != 0,
    ensures
        route(0, Tie::Unrelated) == (None::<isize>, Route::Default),
        route(0, Tie::Create { border }).1 == Route::Border(border),
        kept_after(0, Tie::Create { border }) == border,
        route(border, Tie::Unrelated).1 == Route::Border(border),
        kept_after(border, Tie::Unrelated) == border,
        forall|other: isize|
            #[trigger] route(border, Tie::Create { border: other }).1 == Route::Border(border)
                && kept_after(border, Tie::Create { border: other }) == border,
        route(border, Tie::Destroyed).1 == Route::Release(border),
        kept_after(border, Tie::Destroyed) == 0,
        route(0, Tie::Destroyed).1 == Route::Default,
{
}

/// Releasing a border only pauses it and stops its animations; it asks no window to close, since
/// the window is gone.
pub proof fn a_released_border_asks_no_more(s: WindowBorder)
    requires
        s.is_raw_transferred,
    ensures
        ({
            let script = behavior::cleanup(released(s), finish());
            &&& script is Ask
            &&& script->Ask_now.border_window == 0
            &&& script->Ask_now.is_paused
            &&& script->request == Request::DestroyAnimsTimer
            &&& forall|now: WindowBorder, r: Reply|
                #[trigger] (script->next)(now, r) == (Script::Return {
                    now,
                    outcome: Ok(false),
                })
        }),
{
}

// Sleep.

/// When the system wakes up, a border that has no renderer any more makes it again and shows
/// itself, and one that still has it does nothing.
pub proof fn a_border_wakes_up_with_a_new_renderer(s: WindowBorder, wparam: usize, k: Then)
    requires
        low32(wparam) == PBT_APMRESUMESUSPEND || low32(wparam) == PBT_APMRESUMEAUTOMATIC,
    ensures
        ({
            let script = dispatch::wnd_proc(s, Message::PowerBroadcast { wparam }, k);
            &&& script is Ask
            &&& script->request == Request::Backend
            &&& forall|now: WindowBorder, backend: RenderBackend|
                #[trigger] (script->next)(now, Reply::Backend(backend)) == if backend is Absent {
                    behavior::init_drawer(
                        now,
                        |s: WindowBorder, o: Outcome| dispatch::resume_drawer_made(s, o, k),
                    )
                } else {
                    k(now, Ok(false))
                }
        }),
        dispatch::resume_drawer_made(s, Ok(false), k) == dispatch::init_border(
            s,
            |s: WindowBorder, o: Outcome| k(s, Ok(false)),
        ),
{
}

} // verus!
