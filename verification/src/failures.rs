//! What a border does on a desktop on which something fails.

use vstd::prelude::*;
use crate::behavior;
use crate::behavior::{Attempt, Then};
use crate::deeds::{
    area, at_frame, cornered, ended, ending, fitted, informs, is_answer, is_stale, lemma_asked,
    lemma_exit, lemma_finished, lemma_need, lemma_rect, lemma_sizes, made, moved, on_message,
    painted, played, renderer, repainted, rounded, wanted_radius, wanted_size, window_size, yes,
    Desk, Played,
};
use crate::dispatch;
use crate::laws::finish;
use crate::protocol::{ErrorCode, Message, Outcome, Posted, Reply, Request, Visibility};
use crate::render_backend::RenderBackend;
use crate::window_border::WindowBorder;

verus! {

/// A border that cannot find out where its window is gives up, and the work fails with the same
/// error.
pub proof fn an_unknown_place_ends_a_border(
    s: WindowBorder,
    code: ErrorCode,
    k: Then,
    desk: Desk,
    done: Seq<Request>,
)
    requires
        desk(Request::FrameBounds) == Reply::Failed(code),
    ensures
        played(behavior::update_window_rect(s, k), desk, done) == played(
            k(ended(s), Err(code)),
            desk,
            ending(done, s),
        ),
{
    broadcast use {lemma_asked, lemma_exit};

}

/// The same move without a place in the order of windows.
pub open spec fn without_order(request: Request) -> Request {
    match request {
        Request::SetWindowPos { x, y, cx, cy, visibility, .. } => Request::SetWindowPos {
            insert_after: None,
            x,
            y,
            cx,
            cy,
            visibility,
            keep_z_order: true,
        },
        _ => request,
    }
}

/// A border is moved once. If that is not permitted it is moved once more, by the same request
/// without a place in the order of windows. If the last move fails the border gives up, and the
/// work fails with the same error.
pub proof fn a_border_is_moved_once_or_twice(
    s: WindowBorder,
    visibility: Visibility,
    code: ErrorCode,
    k: Then,
    desk: Desk,
    done: Seq<Request>,
)
    ensures
        ({
            let first = moved(s, visibility, desk);
            let again = without_order(first);
            let once = done.push(first);
            let twice = once.push(again);
            let whole = played(behavior::update_position(s, visibility, k), desk, done);
            &&& desk(first) == Reply::Done ==> whole == played(k(s, Ok(false)), desk, once)
            &&& desk(first) == Reply::Failed(ErrorCode::AccessDenied) && desk(again)
                == Reply::Done ==> whole == played(k(s, Ok(false)), desk, twice)
            &&& desk(first) == Reply::Failed(ErrorCode::AccessDenied) && desk(again)
                == Reply::Failed(code) ==> whole == played(
                k(ended(s), Err(code)),
                desk,
                ending(twice, s),
            )
            &&& desk(first) == Reply::Failed(code) && code != ErrorCode::AccessDenied ==> whole
                == played(k(ended(s), Err(code)), desk, ending(once, s))
        }),
{
    broadcast use {lemma_asked, lemma_exit};

    reveal(moved);
}

/// A radius that cannot be set counts as not updated; the corners are locked or not all the same.
pub proof fn a_radius_that_cannot_be_set_is_not_updated(
    s: WindowBorder,
    code: ErrorCode,
    k: Then,
    desk: Desk,
    done: Seq<Request>,
)
    requires
        desk(Request::SetRadius { radius: wanted_radius(s, desk) }) == Reply::Failed(code),
    ensures
        played(behavior::sync_border_radius(s, k), desk, done) == played(
            k(cornered(s, desk), Ok(false)),
            desk,
            rounded(done, s, desk),
        ),
{
    broadcast use lemma_asked;

    reveal(rounded);
    reveal(cornered);
}

/// A border whose window cannot be made transparent, or opaque otherwise, fails to be founded with
/// the same error: it gets no renderer and is not shown. It does not give up.
pub proof fn a_border_that_is_not_transparent_is_not_founded(
    s: WindowBorder,
    code: ErrorCode,
    k: Then,
    desk: Desk,
    done: Seq<Request>,
)
    requires
        desk(Request::ScreenWidth) is ScreenWidth,
    ensures
        ({
            let left = -(desk(Request::ScreenWidth)->ScreenWidth_0) - 8;
            let region = Request::CreateRegion {
                left: left as i32,
                top: 0,
                right: (left + 1) as i32,
                bottom: 1,
            };
            let blur = Request::EnableBlur {
                region: match desk(region) {
                    Reply::Handle(handle) if handle != 0 && handle != -1 => Some(handle),
                    _ => None,
                },
            };
            let alpha = Request::SetAlpha { alpha: 255 };
            let whole = played(dispatch::complete_init(s, k), desk, done);
            &&& desk(blur) == Reply::Failed(code) ==> whole == played(
                k(s, Err(code)),
                desk,
                done.push(region).push(blur),
            )
            &&& desk(blur) == Reply::Done && desk(alpha) == Reply::Failed(code) ==> whole
                == played(k(s, Err(code)), desk, done.push(region).push(blur).push(alpha))
        }),
{
    broadcast use lemma_asked;

}

/// A border that cannot find out the dpi of its monitor when it is set up gives up and fails.
pub proof fn an_unknown_dpi_ends_a_new_border(
    s: WindowBorder,
    monitor: isize,
    code: ErrorCode,
    desk: Desk,
)
    requires
        desk(Request::Monitor) == Reply::Handle(monitor),
        desk(Request::Dpi { monitor }) == Reply::Failed(code),
    ensures
        played(dispatch::init(s, finish()), desk, seq![]) == (Played {
            deeds: ending(seq![], s),
            now: ended(WindowBorder { current_monitor: monitor, ..s }),
            outcome: Err(code),
        }),
{
    broadcast use {lemma_asked, lemma_exit, lemma_finished};

}

/// Devices that cannot be made again end a border.
pub proof fn lost_devices_end_a_border(
    s: WindowBorder,
    wparam: usize,
    code: ErrorCode,
    desk: Desk,
)
    requires
        wparam as int % 0x1_0000_0000 == 7,
        desk(Request::RecreateDevices) == Reply::Failed(code),
    ensures
        on_message(s, Message::DeviceChange { wparam }, desk) == (Played {
            deeds: ending(seq![Request::RecreateDevices], s),
            now: ended(s),
            outcome: Ok(false),
        }),
{
    broadcast use {lemma_asked, lemma_exit, lemma_finished};

}

// The renderer.

/// What work of the renderer comes down to.
pub open spec fn crucial(s: WindowBorder, work: Attempt, desk: Desk) -> Request {
    match work {
        Attempt::InitDrawer => made(s),
        Attempt::ResizeRenderer => Request::ResizeRenderer { size: wanted_size(s) },
        Attempt::Render => Request::Render {
            bounds: area(s),
            state: s.window_state,
            fill_outer_corners: yes(desk, Request::IsArranged),
        },
    }
}

/// The renderer can be fitted to the border before it is drawn.
pub open spec fn is_ready(s: WindowBorder, work: Attempt, desk: Desk) -> bool {
    work == Attempt::Render ==> {
        &&& desk(Request::ResizeRenderer { size: wanted_size(s) }) == Reply::Done
        &&& desk(Request::ResizeTarget { size: window_size(s) }) == Reply::Done
    }
}

/// The work is tried once.
pub open spec fn trying(
    done: Seq<Request>,
    s: WindowBorder,
    work: Attempt,
    desk: Desk,
) -> Seq<Request> {
    match work {
        Attempt::Render => painted(done, s, desk),
        _ => done.push(crucial(s, work, desk)),
    }
}

/// The border after that.
pub open spec fn tried(s: WindowBorder, work: Attempt, desk: Desk) -> WindowBorder {
    match work {
        Attempt::Render => repainted(s, desk),
        _ => s,
    }
}

proof fn lemma_tries(
    s: WindowBorder,
    work: Attempt,
    k: Then,
    desk: Desk,
    done: Seq<Request>,
)
    requires
        informs(desk),
        is_ready(s, work, desk),
    ensures
        played(behavior::attempt(s, work, k), desk, done) == played(
            k(tried(s, work, desk), desk(crucial(s, work, desk)).result()),
            desk,
            trying(done, s, work, desk),
        ),
{
    broadcast use {lemma_asked, lemma_need};

    reveal(painted);
    reveal(repainted);
    reveal(fitted);
    lemma_sizes(s);
    lemma_sizes(repainted(s, desk));
    assert(is_answer(Request::Backend, desk(Request::Backend)));
}

/// Trying again is trying the same.
proof fn lemma_tries_again(s: WindowBorder, work: Attempt, desk: Desk, done: Seq<Request>)
    requires
        is_ready(s, work, desk),
    ensures
        ({
            let again = tried(s, work, desk);
            &&& tried(again, work, desk) == again
            &&& is_ready(again, work, desk)
            &&& crucial(again, work, desk) == crucial(s, work, desk)
        }),
{
    reveal(repainted);
}

/// Work of the renderer that fails because something does not exist yet is tried once more, and
/// fails if that fails; the border does not give up.
pub proof fn missing_things_do_not_end_a_border(s: WindowBorder, work: Attempt, desk: Desk)
    requires
        informs(desk),
        is_ready(s, work, desk),
        desk(crucial(s, work, desk)) == Reply::Failed(ErrorCode::Uninit),
    ensures
        ({
            let again = tried(s, work, desk);
            let once = trying(seq![], s, work, desk);
            played(behavior::with_recovery(s, work, false, finish()), desk, seq![]) == (Played {
                deeds: trying(once, again, work, desk),
                now: again,
                outcome: Err(ErrorCode::Uninit),
            })
        }),
{
    broadcast use lemma_finished;

    let again = tried(s, work, desk);
    let once = trying(seq![], s, work, desk);
    let first = behavior::on_attempted(work, false, finish());
    lemma_unfold(s, work, Err(ErrorCode::Uninit), finish(), desk);
    lemma_tries(s, work, first, desk, seq![]);
    lemma_tries_again(s, work, desk, seq![]);
    let second = |s: WindowBorder, o: Outcome| behavior::attempted_again(s, o, finish());
    lemma_tries(again, work, second, desk, once);
}

/// What is done about a failure is decided where the work was tried.
proof fn lemma_unfold(s: WindowBorder, work: Attempt, o: Outcome, k: Then, desk: Desk)
    ensures
        behavior::with_recovery(s, work, false, k) == behavior::attempt(
            s,
            work,
            behavior::on_attempted(work, false, k),
        ),
        behavior::on_attempted(work, false, k)(tried(s, work, desk), o) == behavior::attempted(
            tried(s, work, desk),
            work,
            false,
            o,
            k,
        ),
        o matches Err(code) ==> behavior::attempted(tried(s, work, desk), work, false, o, k)
            == behavior::handle_directx_errors(
            tried(s, work, desk),
            code,
            false,
            |s: WindowBorder, o: Outcome| behavior::recovered(s, work, o, k),
        ),
{
}

/// Work of the renderer that fails for a reason that no recovery is known for is not tried again:
/// the border gives up.
pub proof fn hopeless_failures_end_a_border(
    s: WindowBorder,
    work: Attempt,
    code: ErrorCode,
    desk: Desk,
)
    requires
        informs(desk),
        is_ready(s, work, desk),
        desk(crucial(s, work, desk)) == Reply::Failed(code),
        code != ErrorCode::Uninit,
        code != ErrorCode::RecreateTarget,
        code != ErrorCode::DeviceRemoved,
    ensures
        ({
            let again = tried(s, work, desk);
            played(behavior::with_recovery(s, work, false, finish()), desk, seq![]) == (Played {
                deeds: ending(trying(seq![], s, work, desk), again),
                now: ended(again),
                outcome: Err(ErrorCode::Failed),
            })
        }),
{
    broadcast use {lemma_finished, lemma_exit};

    lemma_unfold(s, work, Err(code), finish(), desk);
    lemma_tries(s, work, behavior::on_attempted(work, false, finish()), desk, seq![]);
}

/// The calls of a recovery that does not get beyond the devices, or need not.
pub open spec fn recovering(done: Seq<Request>) -> Seq<Request> {
    done.push(Request::EnterRecovery).push(Request::RecreateDevices).push(Request::LeaveRecovery)
}

/// Work of the renderer that fails because the adapter changed is recovered from: without the
/// recovery, which may be going on already, it fails for now; where the devices cannot be made
/// again it fails with that error, and the border gives up unless that will pass; where nothing
/// has to be made again the work is tried once more, and the border gives up if it fails again.
/// The recovery is left in any case.
pub proof fn a_lost_adapter_is_recovered_from(
    s: WindowBorder,
    work: Attempt,
    code: ErrorCode,
    lost: ErrorCode,
    desk: Desk,
)
    requires
        informs(desk),
        is_ready(s, work, desk),
        desk(crucial(s, work, desk)) == Reply::Failed(code),
        code == ErrorCode::RecreateTarget || code == ErrorCode::DeviceRemoved,
    ensures
        ({
            let again = tried(s, work, desk);
            let once = trying(seq![], s, work, desk);
            let whole = played(
                behavior::with_recovery(s, work, false, finish()),
                desk,
                seq![],
            );
            &&& !yes(desk, Request::EnterRecovery) ==> whole == (Played {
                deeds: once.push(Request::EnterRecovery),
                now: again,
                outcome: Err(ErrorCode::Reentrancy),
            })
            &&& yes(desk, Request::EnterRecovery) && desk(Request::RecreateDevices)
                == Reply::Failed(lost) ==> whole == if lost == ErrorCode::Reentrancy || lost
                == ErrorCode::Uninit {
                Played { deeds: recovering(once), now: again, outcome: Err(lost) }
            } else {
                Played {
                    deeds: ending(recovering(once), again),
                    now: ended(again),
                    outcome: Err(lost),
                }
            }
            &&& yes(desk, Request::EnterRecovery) && desk(Request::RecreateDevices) == Reply::Done
                && !is_stale(desk) ==> whole == (Played {
                deeds: ending(trying(recovering(once), again, work, desk), again),
                now: ended(again),
                outcome: Err(code),
            })
        }),
{
    broadcast use lemma_finished;

    let again = tried(s, work, desk);
    let once = trying(seq![], s, work, desk);
    let k = |s: WindowBorder, o: Outcome| behavior::recovered(s, work, o, finish());
    lemma_unfold(s, work, Err(code), finish(), desk);
    lemma_tries(s, work, behavior::on_attempted(work, false, finish()), desk, seq![]);
    let entering = behavior::handle_directx_errors(again, code, false, k);
    lemma_asked(again, Request::EnterRecovery, entering->next, desk, once);
    let entered = desk(Request::EnterRecovery);
    assert((entering->next)(again, entered) == behavior::recovery_entered(again, entered, k));
    let inside = behavior::recovery_entered(again, entered, k);
    if yes(desk, Request::EnterRecovery) {
        let done = once.push(Request::EnterRecovery);
        lemma_asked(again, Request::RecreateDevices, inside->next, desk, done);
        let devices = desk(Request::RecreateDevices);
        assert((inside->next)(again, devices) == behavior::devices_recreated(again, devices, k));
        if devices == Reply::Failed(lost) {
            broadcast use {lemma_asked, lemma_exit};

        } else if devices == Reply::Done && !is_stale(desk) {
            let leave = |s: WindowBorder, o: Outcome| behavior::leave_recovery(s, o, k);
            let made = done.push(Request::RecreateDevices);
            lemma_not_stale(again, leave, desk, made);
            lemma_asked(
                again,
                Request::LeaveRecovery,
                |s: WindowBorder, r: Reply| k(s, Ok(false)),
                desk,
                made,
            );
            lemma_tries_again(s, work, desk, seq![]);
            let second = |s: WindowBorder, o: Outcome| behavior::attempted_again(s, o, finish());
            lemma_tries(again, work, second, desk, recovering(once));
            lemma_exit(
                again,
                |s: WindowBorder, o: Outcome| finish()(s, Err(code)),
                desk,
                trying(recovering(once), again, work, desk),
            );
        }
    }
}

/// A renderer that is not stale is not made again.
proof fn lemma_not_stale(s: WindowBorder, k: Then, desk: Desk, done: Seq<Request>)
    requires
        informs(desk),
        !is_stale(desk),
    ensures
        played(behavior::recreate_drawer_if_needed(s, true, k), desk, done) == played(
            k(s, Ok(false)),
            desk,
            done,
        ),
{
    assert(is_answer(Request::Backend, desk(Request::Backend)));
    assert(is_answer(Request::PrimaryAdapter, desk(Request::PrimaryAdapter)));
    let script = behavior::recreate_drawer_if_needed(s, true, k);
    lemma_asked(s, Request::Backend, script->next, desk, done);
    let reply = desk(Request::Backend);
    assert((script->next)(s, reply) == behavior::recreate_backend_known(s, true, reply, k));
    let known = behavior::recreate_backend_known(s, true, reply, k);
    match renderer(desk) {
        RenderBackend::V2(backend) => {
            lemma_asked(s, Request::PrimaryAdapter, known->next, desk, done);
            let adapter = desk(Request::PrimaryAdapter);
            assert((known->next)(s, adapter) == behavior::adapter_known(
                s,
                true,
                backend.adapter_luid,
                adapter,
                k,
            ));
        },
        RenderBackend::Legacy(_) => {
            lemma_asked(s, Request::ProbeTarget, known->next, desk, done);
            let probe = desk(Request::ProbeTarget);
            assert((known->next)(s, probe) == behavior::target_probed(s, true, probe, k));
        },
        RenderBackend::Absent => {},
    }
}

/// A border that gets no renderer, for a reason that no recovery is known for, is not founded: it
/// gives up, fails, and is not shown.
pub proof fn a_border_without_a_renderer_is_not_founded(
    s: WindowBorder,
    code: ErrorCode,
    k: Then,
    desk: Desk,
    done: Seq<Request>,
)
    requires
        informs(desk),
        desk(made(at_frame(s, desk))) == Reply::Failed(code),
        code != ErrorCode::Uninit,
        code != ErrorCode::RecreateTarget,
        code != ErrorCode::DeviceRemoved,
    ensures
        ({
            let there = at_frame(s, desk);
            played(dispatch::make_drawer(there, k), desk, done) == played(
                k(ended(there), Err(ErrorCode::Failed)),
                desk,
                ending(done.push(made(there)), there),
            )
        }),
        desk(Request::SetAlpha { alpha: 255 }) == Reply::Done ==> played(
            dispatch::alpha_set(s, Reply::Done, k),
            desk,
            done,
        ) == played(dispatch::make_drawer(at_frame(s, desk), k), desk, done),
{
    broadcast use {lemma_exit, lemma_rect};

    let there = at_frame(s, desk);
    let then = |s: WindowBorder, o: Outcome| dispatch::drawer_made(s, o, k);
    lemma_unfold(there, Attempt::InitDrawer, Err(code), then, desk);
    lemma_tries(
        there,
        Attempt::InitDrawer,
        behavior::on_attempted(Attempt::InitDrawer, false, then),
        desk,
        done,
    );
}

/// A border of a minimized window that cannot post itself the message for that fails to show
/// itself.
pub proof fn a_message_that_cannot_be_posted_fails_the_setup(
    s: WindowBorder,
    code: ErrorCode,
    k: Then,
    desk: Desk,
    done: Seq<Request>,
)
    requires
        informs(desk),
        desk(Request::Look)->Facts_0.minimized,
        desk(Request::Post { message: Posted::MinimizeStart }) == Reply::Failed(code),
    ensures
        played(dispatch::check_minimized(s, k), desk, done) == played(
            k(s, Err(code)),
            desk,
            done.push(Request::Post { message: Posted::MinimizeStart }),
        ),
{
    broadcast use lemma_asked;

    assert(is_answer(Request::Look, desk(Request::Look)));
}

} // verus!
