//! How a border comes to be, and what it does on each message, written in the manner of
//! [`crate::behavior`].

use vstd::prelude::*;
use crate::behavior::{
    ask, border_bounds, cleanup_and_queue_exit, filling_corners, give_up, init_drawer,
    komorebi_color, komorebi_enabled, needs_renderer_resize, recreate_drawer_if_needed,
    rescale_border, rescale_border_and_resize_renderer_if_needed, resize_renderer, restyled,
    sequence, shows_border, sync_border_radius, tell, update_position, update_window_rect, Script,
    Step, Then,
};
use crate::geometry::{same_size, Rect};
use crate::protocol::{
    low32, loword, timer_millis, BorderConfig, ColorRules, ColorSource, ErrorCode, Focus, Message,
    Outcome, Posted, Reply, Request, Visibility, WindowKind, ZOrderMode, DBT_DEVNODES_CHANGED,
    PBT_APMRESUMEAUTOMATIC, PBT_APMRESUMESUSPEND, PBT_APMSUSPEND,
};
use crate::window_border::{
    BorderDrawer, WindowBorder, REORDER_TIMER_ID, TIMER_INIT_ID, TIMER_UNMINIMIZE_ID,
    TIMER_UNMINIMIZE_SETTLE_ID,
};

verus! {

// Coming to be.

/// Sets the border up for its window. With an initial delay it is shown only after it; without
/// one, at once.
pub open spec fn init(s: WindowBorder, k: Then) -> Script {
    ask(s, Request::Monitor, |s: WindowBorder, r: Reply| init_monitor_known(s, r, k))
}

pub open spec fn init_monitor_known(s: WindowBorder, r: Reply, k: Then) -> Script {
    let s = WindowBorder { current_monitor: r.handle(), ..s };
    ask(
        s,
        Request::Dpi { monitor: s.current_monitor },
        |s: WindowBorder, r: Reply| init_dpi_known(s, r, k),
    )
}

pub open spec fn init_dpi_known(s: WindowBorder, r: Reply, k: Then) -> Script {
    match r {
        Reply::Dpi(dpi) => load_from_config(
            WindowBorder { current_dpi: dpi, ..s },
            dpi,
            |s: WindowBorder, o: Outcome| config_loaded(s, k),
        ),
        _ => give_up(s, r.failure(), k),
    }
}

pub open spec fn config_loaded(s: WindowBorder, k: Then) -> Script {
    if s.config.initialize_delay > 0 {
        tell(
            s,
            Request::SetTimer {
                id: TIMER_INIT_ID,
                millis: timer_millis(s.config.initialize_delay),
            },
            k,
        )
    } else {
        complete_init(s, |s: WindowBorder, o: Outcome| init_completed(s, o, k))
    }
}

pub open spec fn init_completed(s: WindowBorder, o: Outcome, k: Then) -> Script {
    match o {
        Ok(_) => k(WindowBorder { is_initialized: true, ..s }, Ok(false)),
        Err(code) => k(s, Err(code)),
    }
}

/// Takes over the configuration for the window. The corners of a window that is snapped from the
/// start are seen to.
pub open spec fn load_from_config(s: WindowBorder, dpi: u32, k: Then) -> Script {
    ask(s, Request::ResolveConfig { dpi }, |s: WindowBorder, r: Reply| config_known(s, dpi, r, k))
}

pub open spec fn config_known(s: WindowBorder, dpi: u32, r: Reply, k: Then) -> Script {
    let s = match r {
        Reply::Config(config, look) => restyled(WindowBorder { config, ..s }, look, dpi),
        _ => WindowBorder { current_dpi: dpi, ..s },
    };
    ask(s, Request::IsArranged, |s: WindowBorder, r: Reply| load_arranged_known(s, r, k))
}

pub open spec fn load_arranged_known(s: WindowBorder, r: Reply, k: Then) -> Script {
    if r.flag() {
        sync_border_radius(s, |s: WindowBorder, o: Outcome| k(s, Ok(false)))
    } else {
        k(s, Ok(false))
    }
}

/// Makes the border window transparent, makes the drawer, and shows the border.
pub open spec fn complete_init(s: WindowBorder, k: Then) -> Script {
    ask(s, Request::ScreenWidth, |s: WindowBorder, r: Reply| screen_width_known(s, r, k))
}

/// The region lies to the left of everything that is on the screen.
pub open spec fn screen_width_known(s: WindowBorder, r: Reply, k: Then) -> Script {
    let pos = -r.screen_width() - 8;
    ask(
        s,
        Request::CreateRegion { left: pos as i32, top: 0, right: (pos + 1) as i32, bottom: 1 },
        |s: WindowBorder, r: Reply| region_known(s, r, k),
    )
}

/// A region whose handle is null or -1 was not made.
pub open spec fn region_known(s: WindowBorder, r: Reply, k: Then) -> Script {
    let region = if r.handle() == 0 || r.handle() == -1 {
        None
    } else {
        Some(r.handle())
    };
    ask(s, Request::EnableBlur { region }, |s: WindowBorder, r: Reply| blur_enabled(s, r, k))
}

pub open spec fn blur_enabled(s: WindowBorder, r: Reply, k: Then) -> Script {
    match r.result() {
        Ok(_) => ask(
            s,
            Request::SetAlpha { alpha: 255 },
            |s: WindowBorder, r: Reply| alpha_set(s, r, k),
        ),
        Err(code) => k(s, Err(code)),
    }
}

pub open spec fn alpha_set(s: WindowBorder, r: Reply, k: Then) -> Script {
    match r.result() {
        Ok(_) => update_window_rect(s, |s: WindowBorder, o: Outcome| make_drawer(s, k)),
        Err(code) => k(s, Err(code)),
    }
}

pub open spec fn make_drawer(s: WindowBorder, k: Then) -> Script {
    init_drawer(s, |s: WindowBorder, o: Outcome| drawer_made(s, o, k))
}

pub open spec fn drawer_made(s: WindowBorder, o: Outcome, k: Then) -> Script {
    match o {
        Ok(_) => init_border(s, k),
        Err(code) => k(s, Err(code)),
    }
}

/// Shows the border for the first time, if it is to be seen. A window that is minimized already,
/// or that the tiling window manager already sees as something of its own kind, is dealt with by
/// a message.
pub open spec fn init_border(s: WindowBorder, k: Then) -> Script {
    sequence(
        s,
        seq![Step::UpdateColor(Some(s.config.initialize_delay)), Step::UpdateWindowRect],
        |s: WindowBorder, o: Outcome| init_look(s, k),
    )
}

pub open spec fn init_look(s: WindowBorder, k: Then) -> Script {
    ask(s, Request::Look, |s: WindowBorder, r: Reply| init_facts_known(s, r, k))
}

pub open spec fn init_facts_known(s: WindowBorder, r: Reply, k: Then) -> Script {
    if shows_border(s, r.facts()) {
        sequence(
            s,
            seq![
                Step::UpdatePosition(Visibility::Show),
                Step::Render,
                Step::Tell(Request::SetAnimsTimer),
            ],
            |s: WindowBorder, o: Outcome| check_minimized(s, k),
        )
    } else {
        check_minimized(s, k)
    }
}

pub open spec fn check_minimized(s: WindowBorder, k: Then) -> Script {
    ask(s, Request::Look, |s: WindowBorder, r: Reply| minimized_known(s, r, k))
}

pub open spec fn minimized_known(s: WindowBorder, r: Reply, k: Then) -> Script {
    if r.facts().minimized {
        ask(
            s,
            Request::Post { message: Posted::MinimizeStart },
            |s: WindowBorder, r: Reply| minimize_posted(s, r, k),
        )
    } else {
        check_focus(s, k)
    }
}

pub open spec fn minimize_posted(s: WindowBorder, r: Reply, k: Then) -> Script {
    match r.result() {
        Ok(_) => check_focus(s, k),
        Err(code) => k(s, Err(code)),
    }
}

pub open spec fn check_focus(s: WindowBorder, k: Then) -> Script {
    ask(s, Request::KomorebiFocus, |s: WindowBorder, r: Reply| init_focus_known(s, r, k))
}

/// Whether the tiling window manager sees the window as something of its own kind.
pub open spec fn is_komorebi_kind(focus: Focus) -> bool {
    match focus {
        Focus::Known(kind) => !(kind is Single) && !(kind is Unfocused),
        _ => false,
    }
}

pub open spec fn init_focus_known(s: WindowBorder, r: Reply, k: Then) -> Script {
    if is_komorebi_kind(r.focus()) {
        tell(s, Request::Post { message: Posted::Komorebi }, k)
    } else {
        k(s, Ok(false))
    }
}

// Coming back from being minimized.

/// Shows the border of a restored window, if it is to be seen, and looks again a little later,
/// when the window has come to rest.
pub open spec fn complete_unminimize(s: WindowBorder, k: Then) -> Script {
    ask(s, Request::Look, |s: WindowBorder, r: Reply| unminimize_facts_known(s, r, k))
}

pub open spec fn unminimize_facts_known(s: WindowBorder, r: Reply, k: Then) -> Script {
    if shows_border(s, r.facts()) {
        sequence(
            s,
            seq![
                Step::UpdateColor(Some(s.config.unminimize_delay)),
                Step::UpdateWindowRect,
                Step::ResizeIfNeeded,
                Step::UpdatePosition(Visibility::Show),
                Step::Render,
                Step::Tell(Request::SetAnimsTimer),
                Step::Tell(Request::SetTimer { id: TIMER_UNMINIMIZE_SETTLE_ID, millis: 250 }),
                Step::SetPaused(false),
                Step::ForgetPendingLocation,
            ],
            k,
        )
    } else {
        sequence(s, seq![Step::SetPaused(false), Step::ForgetPendingLocation], k)
    }
}

/// Brings the border in line with where the restored window came to rest.
pub open spec fn handle_unminimize_settle(s: WindowBorder, k: Then) -> Script {
    if s.is_paused || !s.is_initialized {
        k(s, Ok(false))
    } else {
        ask(s, Request::Look, |s: WindowBorder, r: Reply| settle_facts_known(s, r, k))
    }
}

pub open spec fn settle_facts_known(s: WindowBorder, r: Reply, k: Then) -> Script {
    if r.facts().on_screen() {
        check_monitor(s, false, k)
    } else {
        k(s, Ok(false))
    }
}

// Following the window.

/// Adapts the border to the monitor, the corners and the place of its window. `live` says that
/// the window was seen to move; otherwise only the monitor and the place are looked at.
pub open spec fn check_monitor(s: WindowBorder, live: bool, k: Then) -> Script {
    ask(s, Request::Monitor, |s: WindowBorder, r: Reply| monitor_known(s, live, r, k))
}

pub open spec fn monitor_known(s: WindowBorder, live: bool, r: Reply, k: Then) -> Script {
    if r.handle() != s.current_monitor {
        rescale_border_and_resize_renderer_if_needed(
            WindowBorder { current_monitor: r.handle(), ..s },
            r.handle(),
            |s: WindowBorder, o: Outcome| monitor_adapted(s, live, o, k),
        )
    } else {
        monitor_checked(s, live, false, k)
    }
}

pub open spec fn monitor_adapted(s: WindowBorder, live: bool, o: Outcome, k: Then) -> Script {
    match o {
        Ok(updated) => monitor_checked(s, live, updated, k),
        Err(_) => k(s, Ok(false)),
    }
}

pub open spec fn monitor_checked(s: WindowBorder, live: bool, updated: bool, k: Then) -> Script {
    if live {
        check_radius(s, updated, k)
    } else {
        follow(s, live, updated, k)
    }
}

/// An automatic radius changes with whether the window is snapped.
pub open spec fn check_radius(s: WindowBorder, updated: bool, k: Then) -> Script {
    if s.config.radius_auto {
        ask(s, Request::IsArranged, |s: WindowBorder, r: Reply| snap_known(s, updated, r, k))
    } else {
        check_corners(s, updated, k)
    }
}

pub open spec fn snap_known(s: WindowBorder, updated: bool, r: Reply, k: Then) -> Script {
    if r.flag() != s.arranged_override_active {
        sync_border_radius(s, |s: WindowBorder, o: Outcome| radius_checked(s, updated, o, k))
    } else {
        check_corners(s, updated, k)
    }
}

pub open spec fn radius_checked(s: WindowBorder, updated: bool, o: Outcome, k: Then) -> Script {
    check_corners(s, updated || o == Ok::<bool, ErrorCode>(true), k)
}

pub open spec fn check_corners(s: WindowBorder, updated: bool, k: Then) -> Script {
    ask(s, Request::IsArranged, |s: WindowBorder, r: Reply| corners_known(s, updated, r, k))
}

pub open spec fn corners_known(s: WindowBorder, updated: bool, r: Reply, k: Then) -> Script {
    follow(
        filling_corners(s, r.flag()),
        true,
        updated || s.drawer.fill_outer_corners != r.flag(),
        k,
    )
}

/// Follows the window to its place. The border is drawn again if its size changed, if its
/// renderer was resized, or if `updated` says that something else changed.
pub open spec fn follow(s: WindowBorder, live: bool, updated: bool, k: Then) -> Script {
    let before = s.window_rect;
    update_window_rect(s, |s: WindowBorder, o: Outcome| followed(s, live, updated, before, k))
}

pub open spec fn followed(
    s: WindowBorder,
    live: bool,
    updated: bool,
    before: Rect,
    k: Then,
) -> Script {
    needs_renderer_resize(
        s,
        |s: WindowBorder, o: Outcome| follow_need_known(s, live, updated, before, o, k),
    )
}

pub open spec fn follow_need_known(
    s: WindowBorder,
    live: bool,
    updated: bool,
    before: Rect,
    o: Outcome,
    k: Then,
) -> Script {
    if o == Ok::<bool, ErrorCode>(true) {
        resize_renderer(s, |s: WindowBorder, o: Outcome| follow_place(s, live, true, k))
    } else {
        follow_place(s, live, updated || !same_size(s.window_rect, before), k)
    }
}

pub open spec fn follow_place(s: WindowBorder, live: bool, updated: bool, k: Then) -> Script {
    if live {
        ask(
            s,
            Request::BorderVisible,
            |s: WindowBorder, r: Reply| border_visible_known(s, updated, r, k),
        )
    } else {
        sequence(s, follow_steps(false, updated, Visibility::Keep), k)
    }
}

pub open spec fn border_visible_known(
    s: WindowBorder,
    updated: bool,
    r: Reply,
    k: Then,
) -> Script {
    sequence(
        s,
        follow_steps(
            true,
            updated,
            if r.flag() {
                Visibility::Keep
            } else {
                Visibility::Show
            },
        ),
        k,
    )
}

/// What is done once it is known what has changed.
pub open spec fn follow_steps(live: bool, updated: bool, visibility: Visibility) -> Seq<Step> {
    let placed = seq![Step::UpdatePosition(visibility)];
    let drawn = if updated {
        placed.push(Step::Render)
    } else {
        placed
    };
    if live {
        drawn.push(Step::Tell(Request::SetAnimsTimer))
    } else {
        drawn
    }
}

// Messages.

/// The window moved. While the border is paused or not there yet, that is only noted. A border
/// whose window is gone gives up; one that is not to be seen is hidden, without being paused.
pub open spec fn on_location_change(s: WindowBorder, k: Then) -> Script {
    if s.is_paused || !s.is_initialized {
        k(WindowBorder { has_pending_location: true, ..s }, Ok(false))
    } else {
        ask(s, Request::WindowExists, |s: WindowBorder, r: Reply| location_exists_known(s, r, k))
    }
}

pub open spec fn location_exists_known(s: WindowBorder, r: Reply, k: Then) -> Script {
    if r.flag() {
        ask(s, Request::Look, |s: WindowBorder, r: Reply| location_facts_known(s, r, k))
    } else {
        cleanup_and_queue_exit(s, k)
    }
}

pub open spec fn location_facts_known(s: WindowBorder, r: Reply, k: Then) -> Script {
    if shows_border(s, r.facts()) {
        check_monitor(s, true, k)
    } else {
        sequence(
            s,
            seq![
                Step::UpdatePosition(Visibility::Hide),
                Step::Tell(Request::DestroyAnimsTimer),
            ],
            k,
        )
    }
}

/// How many reorder messages may follow closely on each other before they are debounced.
pub const NUM_REORDERS_BEFORE_DEBOUNCE: u64 = 8;

/// How soon after the last time counts as closely, in nanoseconds.
pub const DEBOUNCE_DELAY: u64 = 16_000_000;

/// The time between two moments, none if the second is the earlier one.
pub open spec fn elapsed(since: u64, now: u64) -> u64 {
    if now < since {
        0
    } else {
        (now - since) as u64
    }
}

/// The order of windows changed. All messages of this kind that wait are taken together. The
/// first few that follow closely on each other are dealt with at once; after that a timer is
/// started, and they are dealt with when it runs out.
pub open spec fn on_reorder(s: WindowBorder, k: Then) -> Script {
    ask(s, Request::WindowExists, |s: WindowBorder, r: Reply| reorder_exists_known(s, r, k))
}

pub open spec fn reorder_exists_known(s: WindowBorder, r: Reply, k: Then) -> Script {
    if !r.flag() {
        cleanup_and_queue_exit(s, k)
    } else if !s.is_initialized {
        k(s, Ok(false))
    } else {
        ask(s, Request::DrainReorders, |s: WindowBorder, r: Reply| reorders_drained(s, k))
    }
}

pub open spec fn reorders_drained(s: WindowBorder, k: Then) -> Script {
    match s.last_reorder_time {
        Some(since) => ask(
            s,
            Request::Now,
            |s: WindowBorder, r: Reply| reorder_time_known(s, since, r, k),
        ),
        None => handle_reorder(WindowBorder { consecutive_reorders: 0, ..s }, k),
    }
}

pub open spec fn reorder_time_known(s: WindowBorder, since: u64, r: Reply, k: Then) -> Script {
    match r {
        Reply::Time(now) if elapsed(since, now) < DEBOUNCE_DELAY => reorder_soon(
            s,
            elapsed(since, now),
            k,
        ),
        _ => handle_reorder(WindowBorder { consecutive_reorders: 0, ..s }, k),
    }
}

pub open spec fn reorder_soon(s: WindowBorder, elapsed: u64, k: Then) -> Script {
    let s = WindowBorder { consecutive_reorders: (s.consecutive_reorders + 1) as u64, ..s };
    if s.consecutive_reorders < NUM_REORDERS_BEFORE_DEBOUNCE {
        handle_reorder(s, k)
    } else if s.is_debouncing_reorder {
        k(s, Ok(false))
    } else {
        ask(
            s,
            Request::SetTimer {
                id: REORDER_TIMER_ID,
                millis: ((DEBOUNCE_DELAY - elapsed) / 1_000_000) as u32,
            },
            |s: WindowBorder, r: Reply|
                k(WindowBorder { is_debouncing_reorder: true, ..s }, Ok(false)),
        )
    }
}

/// Puts the border back next to its window if it is no longer there.
pub open spec fn handle_reorder(s: WindowBorder, k: Then) -> Script {
    ask(
        s,
        match s.config.z_order {
            ZOrderMode::AboveWindow => Request::WindowAbove,
            ZOrderMode::BelowWindow => Request::WindowBelow,
        },
        |s: WindowBorder, r: Reply| neighbor_known(s, r, k),
    )
}

pub open spec fn neighbor_known(s: WindowBorder, r: Reply, k: Then) -> Script {
    if r == Reply::Handle(s.border_window) {
        note_reorder(s, k)
    } else {
        update_position(s, Visibility::Keep, |s: WindowBorder, o: Outcome| note_reorder(s, k))
    }
}

pub open spec fn note_reorder(s: WindowBorder, k: Then) -> Script {
    ask(
        s,
        Request::Now,
        |s: WindowBorder, r: Reply|
            k(WindowBorder { last_reorder_time: Some(r.time()), ..s }, Ok(false)),
    )
}

/// A timer ran out. It is stopped, and what waited for it is done.
pub open spec fn on_timer(s: WindowBorder, id: usize, k: Then) -> Script {
    if id == TIMER_INIT_ID || id == TIMER_UNMINIMIZE_ID || id == TIMER_UNMINIMIZE_SETTLE_ID || id
        == REORDER_TIMER_ID {
        ask(s, Request::KillTimer { id }, |s: WindowBorder, r: Reply| timer_stopped(s, id, k))
    } else {
        k(s, Ok(false))
    }
}

pub open spec fn timer_stopped(s: WindowBorder, id: usize, k: Then) -> Script {
    if id == TIMER_INIT_ID {
        complete_init(s, |s: WindowBorder, o: Outcome| late_init_completed(s, o, k))
    } else if id == TIMER_UNMINIMIZE_ID {
        complete_unminimize(s, k)
    } else if id == TIMER_UNMINIMIZE_SETTLE_ID {
        handle_unminimize_settle(s, k)
    } else {
        handle_reorder(
            WindowBorder { is_debouncing_reorder: false, consecutive_reorders: 0, ..s },
            k,
        )
    }
}

pub open spec fn late_init_completed(s: WindowBorder, o: Outcome, k: Then) -> Script {
    match o {
        Ok(_) => k(WindowBorder { is_initialized: true, ..s }, Ok(false)),
        Err(_) => k(s, Ok(false)),
    }
}

/// Another window got the focus.
pub open spec fn on_foreground(s: WindowBorder, k: Then) -> Script {
    ask(s, Request::WindowExists, |s: WindowBorder, r: Reply| foreground_exists_known(s, r, k))
}

pub open spec fn foreground_exists_known(s: WindowBorder, r: Reply, k: Then) -> Script {
    if !r.flag() {
        cleanup_and_queue_exit(s, k)
    } else if !s.is_initialized {
        k(s, Ok(false))
    } else {
        sequence(
            s,
            seq![
                Step::UpdateColor(None),
                Step::UpdatePosition(Visibility::Keep),
                Step::Render,
                Step::Tell(Request::SetAnimsTimer),
            ],
            k,
        )
    }
}

/// The window was shown or uncloaked, which does not mean that it can be seen.
pub open spec fn on_show_uncloaked(s: WindowBorder, k: Then) -> Script {
    ask(s, Request::Look, |s: WindowBorder, r: Reply| shown_known(s, r, k))
}

pub open spec fn shown_known(s: WindowBorder, r: Reply, k: Then) -> Script {
    if !r.facts().on_screen() || !s.is_initialized {
        k(s, Ok(false))
    } else {
        ask(s, Request::Look, |s: WindowBorder, r: Reply| shown_facts_known(s, r, k))
    }
}

pub open spec fn shown_facts_known(s: WindowBorder, r: Reply, k: Then) -> Script {
    if shows_border(s, r.facts()) {
        sequence(
            s,
            seq![
                Step::UpdateColor(None),
                Step::UpdateWindowRect,
                Step::UpdatePosition(Visibility::Show),
                Step::Render,
                Step::Tell(Request::SetAnimsTimer),
                Step::SetPaused(false),
            ],
            k,
        )
    } else {
        sequence(s, seq![Step::SetPaused(false)], k)
    }
}

/// The window was hidden or cloaked.
pub open spec fn on_hide_cloaked(s: WindowBorder, k: Then) -> Script {
    sequence(
        s,
        seq![
            Step::UpdatePosition(Visibility::Hide),
            Step::Tell(Request::DestroyAnimsTimer),
            Step::SetPaused(true),
        ],
        k,
    )
}

/// The window was minimized. Both brushes are made invisible, so that a fade can begin from there
/// when the window is restored.
pub open spec fn on_minimize_start(s: WindowBorder, k: Then) -> Script {
    sequence(
        s,
        seq![Step::UpdatePosition(Visibility::Hide)],
        |s: WindowBorder, o: Outcome| minimize_hidden(s, k),
    )
}

pub open spec fn minimize_hidden(s: WindowBorder, k: Then) -> Script {
    if s.is_initialized {
        sequence(
            s,
            seq![
                Step::Tell(Request::SetOpacity { active: true, opaque: false }),
                Step::Tell(Request::SetOpacity { active: false, opaque: false }),
                Step::Tell(Request::DestroyAnimsTimer),
                Step::SetPaused(true),
            ],
            k,
        )
    } else {
        sequence(
            s,
            seq![Step::Tell(Request::DestroyAnimsTimer), Step::SetPaused(true)],
            k,
        )
    }
}

/// The window was restored.
pub open spec fn on_minimize_end(s: WindowBorder, k: Then) -> Script {
    ask(s, Request::Look, |s: WindowBorder, r: Reply| restored_known(s, r, k))
}

pub open spec fn restored_known(s: WindowBorder, r: Reply, k: Then) -> Script {
    if !r.facts().on_screen() {
        k(s, Ok(false))
    } else if s.config.unminimize_delay > 0 {
        tell(
            s,
            Request::SetTimer {
                id: TIMER_UNMINIMIZE_ID,
                millis: timer_millis(s.config.unminimize_delay),
            },
            k,
        )
    } else {
        complete_unminimize(s, k)
    }
}

/// It is time for the next frame of the animations.
pub open spec fn on_animate(s: WindowBorder, k: Then) -> Script {
    if s.is_paused || !s.is_initialized {
        k(s, Ok(false))
    } else {
        ask(s, Request::IsArranged, |s: WindowBorder, r: Reply| animate_arranged_known(s, r, k))
    }
}

pub open spec fn animate_arranged_known(s: WindowBorder, r: Reply, k: Then) -> Script {
    let s = filling_corners(s, r.flag());
    tell(
        s,
        Request::Animate {
            bounds: border_bounds(s),
            state: s.window_state,
            fill_outer_corners: s.drawer.fill_outer_corners,
        },
        k,
    )
}

/// The tiling window manager sees the window differently.
pub open spec fn on_komorebi(s: WindowBorder, k: Then) -> Script {
    ask(s, Request::KomorebiColors, |s: WindowBorder, r: Reply| colors_known(s, r, k))
}

pub open spec fn colors_known(s: WindowBorder, r: Reply, k: Then) -> Script {
    match r {
        Reply::Colors(rules) if komorebi_enabled(rules) => ask(
            s,
            Request::KomorebiFocus,
            |s: WindowBorder, r: Reply| focus_known(s, rules, r, k),
        ),
        _ => k(s, Ok(false)),
    }
}

/// A window that the integration does not know counts as a single one.
pub open spec fn focus_known(s: WindowBorder, rules: ColorRules, r: Reply, k: Then) -> Script {
    match r.focus() {
        Focus::NoIntegration => k(s, Ok(false)),
        Focus::Unknown => recolor(s, komorebi_color(rules, WindowKind::Single), k),
        Focus::Known(kind) => recolor(s, komorebi_color(rules, kind), k),
    }
}

pub open spec fn recolor(s: WindowBorder, source: Option<ColorSource>, k: Then) -> Script {
    match source {
        Some(source) => sequence(
            s,
            seq![Step::UpdateColorBrush { active: true, source }, Step::Render],
            k,
        ),
        None => k(s, Ok(false)),
    }
}

/// New colors.
pub open spec fn on_set_colors(s: WindowBorder, active: bool, inactive: bool, k: Then) -> Script {
    sequence(s, color_steps(active, inactive), k)
}

pub open spec fn color_steps(active: bool, inactive: bool) -> Seq<Step> {
    let one = if active {
        seq![Step::UpdateColorBrush { active: true, source: ColorSource::Message }]
    } else {
        seq![]
    };
    let both = if inactive {
        one.push(Step::UpdateColorBrush { active: false, source: ColorSource::Message })
    } else {
        one
    };
    both.push(Step::Render)
}

/// A new width.
pub open spec fn on_set_width(s: WindowBorder, k: Then) -> Script {
    ask(
        s,
        Request::AdoptWidth { dpi: s.current_dpi },
        |s: WindowBorder, r: Reply| width_adopted(s, r, k),
    )
}

pub open spec fn width_adopted(s: WindowBorder, r: Reply, k: Then) -> Script {
    let s = match r {
        Reply::StrokeWidth(stroke_width) => WindowBorder {
            drawer: BorderDrawer { stroke_width, ..s.drawer },
            ..s
        },
        _ => s,
    };
    sequence(
        s,
        seq![
            Step::SyncRadius,
            Step::ResizeRenderer,
            Step::UpdateWindowRect,
            Step::UpdatePosition(Visibility::Keep),
            Step::Render,
        ],
        k,
    )
}

/// A new offset.
pub open spec fn on_set_offset(s: WindowBorder, k: Then) -> Script {
    ask(
        s,
        Request::AdoptOffset { dpi: s.current_dpi },
        |s: WindowBorder, r: Reply| offset_adopted(s, r, k),
    )
}

pub open spec fn offset_adopted(s: WindowBorder, r: Reply, k: Then) -> Script {
    let s = match r {
        Reply::Offset(offset) => WindowBorder { border_offset: offset, ..s },
        _ => s,
    };
    sequence(
        s,
        seq![
            Step::ResizeRenderer,
            Step::UpdateWindowRect,
            Step::UpdatePosition(Visibility::Keep),
            Step::Render,
        ],
        k,
    )
}

/// A new radius.
pub open spec fn on_set_radius(s: WindowBorder, k: Then) -> Script {
    ask(s, Request::AdoptRadius, |s: WindowBorder, r: Reply| radius_adopted(s, r, k))
}

pub open spec fn radius_adopted(s: WindowBorder, r: Reply, k: Then) -> Script {
    let s = WindowBorder {
        config: BorderConfig { radius_auto: r.flag(), ..s.config },
        ..s
    };
    sequence(s, seq![Step::SyncRadius, Step::Render], k)
}

/// A setting of the display changed.
pub open spec fn on_display_change(s: WindowBorder, k: Then) -> Script {
    rescale_border_and_resize_renderer_if_needed(
        s,
        s.current_monitor,
        |s: WindowBorder, o: Outcome| display_adapted(s, o, k),
    )
}

pub open spec fn display_adapted(s: WindowBorder, o: Outcome, k: Then) -> Script {
    if o == Ok::<bool, ErrorCode>(true) {
        ask(
            s,
            Request::BorderVisible,
            |s: WindowBorder, r: Reply| display_visible_known(s, r, k),
        )
    } else {
        k(s, Ok(false))
    }
}

pub open spec fn display_visible_known(s: WindowBorder, r: Reply, k: Then) -> Script {
    if r.flag() {
        sequence(s, seq![Step::Render], k)
    } else {
        k(s, Ok(false))
    }
}

/// The dpi changed; the low word of the parameter holds the new one.
pub open spec fn on_dpi_changed(s: WindowBorder, wparam: usize, k: Then) -> Script {
    let dpi = loword(wparam);
    if dpi != s.current_dpi {
        rescale_border(
            WindowBorder { current_dpi: dpi, ..s },
            dpi,
            |s: WindowBorder, o: Outcome| dpi_adapted(s, k),
        )
    } else {
        k(s, Ok(false))
    }
}

pub open spec fn dpi_adapted(s: WindowBorder, k: Then) -> Script {
    sequence(s, seq![Step::ResizeRenderer, Step::Render], k)
}

/// A device came or went. Only a change of the device tree is of interest.
pub open spec fn on_device_change(s: WindowBorder, wparam: usize, k: Then) -> Script {
    if low32(wparam) == DBT_DEVNODES_CHANGED {
        ask(s, Request::RecreateDevices, |s: WindowBorder, r: Reply| devices_checked(s, r, k))
    } else {
        k(s, Ok(true))
    }
}

pub open spec fn devices_checked(s: WindowBorder, r: Reply, k: Then) -> Script {
    match r.result() {
        Ok(_) => on_recreate_drawer(s, k),
        Err(_) => cleanup_and_queue_exit(s, k),
    }
}

/// The display adapters changed.
pub open spec fn on_recreate_drawer(s: WindowBorder, k: Then) -> Script {
    recreate_drawer_if_needed(s, false, |s: WindowBorder, o: Outcome| drawer_checked(s, o, k))
}

pub open spec fn drawer_checked(s: WindowBorder, o: Outcome, k: Then) -> Script {
    match o {
        Ok(_) => k(s, Ok(false)),
        Err(_) => cleanup_and_queue_exit(s, k),
    }
}

/// The system goes to sleep, when the renderer is given up, or wakes up, when it is made again.
pub open spec fn on_power_broadcast(s: WindowBorder, wparam: usize, k: Then) -> Script {
    if low32(wparam) == PBT_APMSUSPEND {
        sequence(
            s,
            seq![Step::Tell(Request::DestroyAnimsTimer), Step::Tell(Request::UninitDrawer)],
            k,
        )
    } else if low32(wparam) == PBT_APMRESUMESUSPEND || low32(wparam) == PBT_APMRESUMEAUTOMATIC {
        ask(s, Request::Backend, |s: WindowBorder, r: Reply| resume_backend_known(s, r, k))
    } else {
        k(s, Ok(false))
    }
}

pub open spec fn resume_backend_known(s: WindowBorder, r: Reply, k: Then) -> Script {
    if r.backend() is Absent {
        init_drawer(s, |s: WindowBorder, o: Outcome| resume_drawer_made(s, o, k))
    } else {
        k(s, Ok(false))
    }
}

pub open spec fn resume_drawer_made(s: WindowBorder, o: Outcome, k: Then) -> Script {
    match o {
        Ok(_) => init_border(s, |s: WindowBorder, o: Outcome| k(s, Ok(false))),
        Err(_) => cleanup_and_queue_exit(s, k),
    }
}

/// What a border does on a message. The flag of the outcome says that the message is left to the
/// default procedure.
pub open spec fn wnd_proc(s: WindowBorder, message: Message, k: Then) -> Script {
    match message {
        Message::LocationChange => on_location_change(s, k),
        Message::Reorder => on_reorder(s, k),
        Message::Timer { id } => on_timer(s, id, k),
        Message::Foreground => on_foreground(s, k),
        Message::ShowUncloaked => on_show_uncloaked(s, k),
        Message::HideCloaked => on_hide_cloaked(s, k),
        Message::MinimizeStart => on_minimize_start(s, k),
        Message::MinimizeEnd => on_minimize_end(s, k),
        Message::Animate => on_animate(s, k),
        Message::Komorebi => on_komorebi(s, k),
        Message::SetColors { active, inactive } => on_set_colors(s, active, inactive, k),
        Message::SetWidth => on_set_width(s, k),
        Message::SetOffset => on_set_offset(s, k),
        Message::SetRadius => on_set_radius(s, k),
        Message::Paint => tell(s, Request::ValidatePaint, k),
        Message::Close => tell(s, Request::DestroyWindow, k),
        Message::DisplayChange => on_display_change(s, k),
        Message::DpiChanged { wparam } => on_dpi_changed(s, wparam, k),
        Message::DeviceChange { wparam } => on_device_change(s, wparam, k),
        Message::RecreateDrawer => on_recreate_drawer(s, k),
        Message::PowerBroadcast { wparam } => on_power_broadcast(s, wparam, k),
        Message::WindowPosChange => k(s, Ok(false)),
        Message::Other => k(s, Ok(true)),
    }
}

} // verus!
