//! Work of a border that waits for the desktop.
//!
//! A [`Call`] holds what is left to be done of one piece of work: what the reply to the pending
//! request is needed for, and below it, in [`Frame`]s, what is to be done with the outcome of
//! that. Any number of calls of one border can be under way, one inside the other, as happens
//! when a request makes the desktop send the border a message.

use vstd::prelude::*;
use crate::behavior::{
    above_known, active_known, adapter_known, attempted, attempted_again,
    brush_backend_known, brush_replaced, check_effects, check_size, configured_differs_known,
    devices_recreated, dpi_known, draw, drawer_recreated, effects_backend_known, fade_known,
    frame_known, hide_brush, is_outgrown, leave_recovery, lock_radius, match_fade, placed,
    positioned, queue_exit, radius_arranged_known, radius_synced, radius_unlocked, recovered,
    recovery_entered, recreate_backend_known, render_backend_known, render_need_known,
    render_ready, rescaled, resize_backend_known, resize_need_known, sequence, size_adapted,
    size_checked, square_differs_known, target_probed, with_recovery, Attempt, Script, Step, Then,
};
use crate::dispatch::{
    alpha_set, animate_arranged_known, blur_enabled, border_visible_known, check_minimized,
    colors_known, config_known, config_loaded, corners_known, devices_checked, display_adapted,
    display_visible_known, dpi_adapted, drawer_checked, drawer_made, focus_known, follow_need_known,
    follow_place, followed, foreground_exists_known, init_completed, init_dpi_known,
    init_facts_known, init_focus_known, init_look, init_monitor_known, late_init_completed,
    load_arranged_known, location_exists_known, location_facts_known, make_drawer,
    minimize_hidden, minimize_posted, minimized_known, monitor_adapted, monitor_known,
    neighbor_known, note_reorder, offset_adopted, radius_adopted, radius_checked, region_known,
    reorder_exists_known, reorder_time_known, reorders_drained, restored_known,
    resume_backend_known, resume_drawer_made, screen_width_known, settle_facts_known,
    shown_facts_known, shown_known, snap_known, timer_stopped, unminimize_facts_known,
    width_adopted,
};
use crate::geometry::{Bounds, Rect};
use crate::protocol::{ColorRules, Outcome, Radius, Reply, Request, Visibility};
use crate::render_backend::Luid;
use crate::window_border::WindowBorder;

verus! {

/// What the reply to a pending request is needed for.
#[derive(Debug, Clone, Copy, PartialEq, Eq)]
pub enum Wait {
    Ignored,
    Result,
    Answer(Outcome),
    FrameBounds,
    Above { visibility: Visibility },
    Placed { visibility: Visibility },
    Positioned,
    Active { check_delay: Option<u64> },
    Fade { check_delay: Option<u64> },
    HideBrush { active: bool },
    BrushReplaced { active: bool, bounds: Bounds },
    BrushBackend { active: bool, bounds: Bounds },
    ResizeBackend,
    TargetSize,
    RenderBackend,
    TargetResized,
    Draw,
    RecoveryEntered,
    DevicesRecreated,
    RecreateBackend { nested: bool },
    Adapter { nested: bool, luid: Luid },
    Probe { nested: bool },
    RadiusArranged,
    SquareDiffers,
    SquareSet,
    RadiusLocked { updated: bool },
    RadiusUnlocked,
    ConfiguredDiffers { radius: Radius },
    ConfiguredSet,
    Rescaled { dpi: u32 },
    EffectsBackend,
    Dpi,
    InitMonitor,
    InitDpi,
    Config { dpi: u32 },
    LoadArranged,
    ScreenWidth,
    Region,
    Blur,
    Alpha,
    InitFacts,
    Minimized,
    MinimizePosted,
    InitFocus,
    UnminimizeFacts,
    SettleFacts,
    Monitor { live: bool },
    Snap { updated: bool },
    Corners { updated: bool },
    BorderVisible { updated: bool },
    LocationExists,
    LocationFacts,
    ReorderExists,
    ReordersDrained,
    ReorderTime { since: u64 },
    Debounced,
    Neighbor,
    ReorderNoted,
    TimerStopped { id: usize },
    ForegroundExists,
    Shown,
    ShownFacts,
    Restored,
    AnimateArranged,
    Colors,
    Focus { rules: ColorRules },
    WidthAdopted,
    OffsetAdopted,
    RadiusAdopted,
    DisplayVisible,
    DevicesChecked,
    ResumeBackend,
}

/// What is to be done with the outcome of some work.
#[derive(Debug)]
pub enum Frame {
    Answer(Outcome),
    QueueExit,
    MatchFade,
    RenderNeed,
    RenderReady,
    Attempted { work: Attempt, nested: bool },
    Recovered { work: Attempt },
    AttemptedAgain,
    LeaveRecovery,
    DrawerRecreated { nested: bool },
    RenderAgain { nested: bool },
    CheckEffects,
    CheckSize { updated: bool },
    SizeChecked { updated: bool },
    SizeAdapted,
    ResizeNeed,
    Sequence(Vec<Step>),
    ConfigLoaded,
    InitCompleted,
    MakeDrawer,
    DrawerMade,
    InitLook,
    CheckMinimized,
    MonitorAdapted { live: bool },
    RadiusChecked { updated: bool },
    Followed { live: bool, updated: bool, before: Rect },
    FollowNeed { live: bool, updated: bool, before: Rect },
    FollowPlace { live: bool },
    NoteReorder,
    LateInitCompleted,
    MinimizeHidden,
    DisplayAdapted,
    DpiAdapted,
    DrawerChecked,
    ResumeDrawerMade,
}

/// What follows on a reply.
pub open spec fn on_reply(w: Wait, s: WindowBorder, r: Reply, k: Then) -> Script {
    match w {
        Wait::Ignored => k(s, Ok(false)),
        Wait::Result => k(s, r.result()),
        Wait::Answer(o) => k(s, o),
        Wait::FrameBounds => frame_known(s, r, k),
        Wait::Above { visibility } => above_known(s, visibility, r, k),
        Wait::Placed { visibility } => placed(s, visibility, r, k),
        Wait::Positioned => positioned(s, r, k),
        Wait::Active { check_delay } => active_known(s, check_delay, r, k),
        Wait::Fade { check_delay } => fade_known(s, check_delay, r, k),
        Wait::HideBrush { active } => hide_brush(s, active, k),
        Wait::BrushReplaced { active, bounds } => brush_replaced(s, active, bounds, k),
        Wait::BrushBackend { active, bounds } => brush_backend_known(s, active, bounds, r, k),
        Wait::ResizeBackend => resize_backend_known(s, r, k),
        Wait::TargetSize => k(s, Ok(is_outgrown(s, r.size()))),
        Wait::RenderBackend => render_backend_known(s, r, k),
        Wait::TargetResized => render_ready(s, r.result(), k),
        Wait::Draw => draw(s, r, k),
        Wait::RecoveryEntered => recovery_entered(s, r, k),
        Wait::DevicesRecreated => devices_recreated(s, r, k),
        Wait::RecreateBackend { nested } => recreate_backend_known(s, nested, r, k),
        Wait::Adapter { nested, luid } => adapter_known(s, nested, luid, r, k),
        Wait::Probe { nested } => target_probed(s, nested, r, k),
        Wait::RadiusArranged => radius_arranged_known(s, r, k),
        Wait::SquareDiffers => square_differs_known(s, r, k),
        Wait::SquareSet => lock_radius(s, r.result() is Ok, k),
        Wait::RadiusLocked { updated } => k(
            WindowBorder { arranged_override_active: true, ..s },
            Ok(updated),
        ),
        Wait::RadiusUnlocked => radius_unlocked(s, k),
        Wait::ConfiguredDiffers { radius } => configured_differs_known(s, radius, r, k),
        Wait::ConfiguredSet => radius_synced(s, r.result() is Ok, k),
        Wait::Rescaled { dpi } => rescaled(s, dpi, r, k),
        Wait::EffectsBackend => effects_backend_known(s, r, k),
        Wait::Dpi => dpi_known(s, r, k),
        Wait::InitMonitor => init_monitor_known(s, r, k),
        Wait::InitDpi => init_dpi_known(s, r, k),
        Wait::Config { dpi } => config_known(s, dpi, r, k),
        Wait::LoadArranged => load_arranged_known(s, r, k),
        Wait::ScreenWidth => screen_width_known(s, r, k),
        Wait::Region => region_known(s, r, k),
        Wait::Blur => blur_enabled(s, r, k),
        Wait::Alpha => alpha_set(s, r, k),
        Wait::InitFacts => init_facts_known(s, r, k),
        Wait::Minimized => minimized_known(s, r, k),
        Wait::MinimizePosted => minimize_posted(s, r, k),
        Wait::InitFocus => init_focus_known(s, r, k),
        Wait::UnminimizeFacts => unminimize_facts_known(s, r, k),
        Wait::SettleFacts => settle_facts_known(s, r, k),
        Wait::Monitor { live } => monitor_known(s, live, r, k),
        Wait::Snap { updated } => snap_known(s, updated, r, k),
        Wait::Corners { updated } => corners_known(s, updated, r, k),
        Wait::BorderVisible { updated } => border_visible_known(s, updated, r, k),
        Wait::LocationExists => location_exists_known(s, r, k),
        Wait::LocationFacts => location_facts_known(s, r, k),
        Wait::ReorderExists => reorder_exists_known(s, r, k),
        Wait::ReordersDrained => reorders_drained(s, k),
        Wait::ReorderTime { since } => reorder_time_known(s, since, r, k),
        Wait::Debounced => k(WindowBorder { is_debouncing_reorder: true, ..s }, Ok(false)),
        Wait::Neighbor => neighbor_known(s, r, k),
        Wait::ReorderNoted => k(
            WindowBorder { last_reorder_time: Some(r.time()), ..s },
            Ok(false),
        ),
        Wait::TimerStopped { id } => timer_stopped(s, id, k),
        Wait::ForegroundExists => foreground_exists_known(s, r, k),
        Wait::Shown => shown_known(s, r, k),
        Wait::ShownFacts => shown_facts_known(s, r, k),
        Wait::Restored => restored_known(s, r, k),
        Wait::AnimateArranged => animate_arranged_known(s, r, k),
        Wait::Colors => colors_known(s, r, k),
        Wait::Focus { rules } => focus_known(s, rules, r, k),
        Wait::WidthAdopted => width_adopted(s, r, k),
        Wait::OffsetAdopted => offset_adopted(s, r, k),
        Wait::RadiusAdopted => radius_adopted(s, r, k),
        Wait::DisplayVisible => display_visible_known(s, r, k),
        Wait::DevicesChecked => devices_checked(s, r, k),
        Wait::ResumeBackend => resume_backend_known(s, r, k),
    }
}

/// What follows on an outcome.
pub open spec fn on_outcome(f: Frame, s: WindowBorder, o: Outcome, k: Then) -> Script {
    match f {
        Frame::Answer(answer) => k(s, answer),
        Frame::QueueExit => queue_exit(s, k),
        Frame::MatchFade => match_fade(s, k),
        Frame::RenderNeed => render_need_known(s, o, k),
        Frame::RenderReady => render_ready(s, o, k),
        Frame::Attempted { work, nested } => attempted(s, work, nested, o, k),
        Frame::Recovered { work } => recovered(s, work, o, k),
        Frame::AttemptedAgain => attempted_again(s, o, k),
        Frame::LeaveRecovery => leave_recovery(s, o, k),
        Frame::DrawerRecreated { nested } => drawer_recreated(s, nested, o, k),
        Frame::RenderAgain { nested } => with_recovery(s, Attempt::Render, nested, k),
        Frame::CheckEffects => check_effects(s, k),
        Frame::CheckSize { updated } => check_size(s, updated, k),
        Frame::SizeChecked { updated } => size_checked(s, updated, o, k),
        Frame::SizeAdapted => size_adapted(s, o, k),
        Frame::ResizeNeed => resize_need_known(s, o, k),
        Frame::Sequence(steps) => sequence(s, steps@, k),
        Frame::ConfigLoaded => config_loaded(s, k),
        Frame::InitCompleted => init_completed(s, o, k),
        Frame::MakeDrawer => make_drawer(s, k),
        Frame::DrawerMade => drawer_made(s, o, k),
        Frame::InitLook => init_look(s, k),
        Frame::CheckMinimized => check_minimized(s, k),
        Frame::MonitorAdapted { live } => monitor_adapted(s, live, o, k),
        Frame::RadiusChecked { updated } => radius_checked(s, updated, o, k),
        Frame::Followed { live, updated, before } => followed(s, live, updated, before, k),
        Frame::FollowNeed { live, updated, before } => follow_need_known(
            s,
            live,
            updated,
            before,
            o,
            k,
        ),
        Frame::FollowPlace { live } => follow_place(s, live, true, k),
        Frame::NoteReorder => note_reorder(s, k),
        Frame::LateInitCompleted => late_init_completed(s, o, k),
        Frame::MinimizeHidden => minimize_hidden(s, k),
        Frame::DisplayAdapted => display_adapted(s, o, k),
        Frame::DpiAdapted => dpi_adapted(s, k),
        Frame::DrawerChecked => drawer_checked(s, o, k),
        Frame::ResumeDrawerMade => resume_drawer_made(s, o, k),
    }
}

/// What follows when an outcome is handed to the topmost of some frames.
pub open spec fn hand_down(frames: Seq<Frame>, s: WindowBorder, o: Outcome) -> Script
    decreases frames.len(), 0int,
{
    if frames.len() == 0 {
        Script::Return { now: s, outcome: o }
    } else {
        on_outcome(frames.last(), s, o, rest(frames.drop_last()))
    }
}

/// All that some frames are still going to do.
pub open spec fn rest(frames: Seq<Frame>) -> Then
    decreases frames.len(), 1int,
{
    |s: WindowBorder, o: Outcome| hand_down(frames, s, o)
}

/// How many steps some frames can take at most before they make a request or end. Every
/// frame that hands on an outcome leaves fewer.
pub open spec fn weight(frames: Seq<Frame>) -> nat
    decreases frames.len(),
{
    if frames.len() == 0 {
        0
    } else {
        weight(frames.drop_last()) + heft(frames.last())
    }
}

pub open spec fn heft(f: Frame) -> nat {
    match f {
        Frame::Sequence(steps) => steps@.len() + 1,
        Frame::Attempted { .. } => 32,
        _ => 16,
    }
}

/// How a piece of work goes on: with a request to the desktop, or not at all.
#[derive(Debug, Clone, Copy, PartialEq, Eq)]
pub enum Next {
    Ask(Request),
    Return(Outcome),
}

/// What is left to be done of one piece of work.
#[derive(Debug)]
pub struct Call {
    pub wait: Wait,
    pub frames: Vec<Frame>,
}

impl Next {
    /// All that is still going to happen in a call that goes on in this way.
    pub open spec fn script(self, call: Call, s: WindowBorder) -> Script {
        match self {
            Next::Ask(request) => Script::Ask { now: s, request, next: call.resumption() },
            Next::Return(outcome) => call.rest()(s, outcome),
        }
    }
}

impl Call {
    /// All that the frames are still going to do.
    pub open spec fn rest(self) -> Then {
        rest(self.frames@)
    }

    /// All that is going to happen once the reply to the pending request comes.
    pub open spec fn resumption(self) -> spec_fn(WindowBorder, Reply) -> Script {
        |s: WindowBorder, r: Reply| on_reply(self.wait, s, r, self.rest())
    }

    /// A call in which there is nothing to do.
    pub fn new() -> (r: Self)
        ensures
            r.frames@ == Seq::<Frame>::empty(),
    {
        Call { wait: Wait::Ignored, frames: Vec::new() }
    }

    /// Has something done with the outcome of what is done next.
    pub(crate) fn push(&mut self, frame: Frame)
        ensures
            final(self).frames@ == old(self).frames@.push(frame),
            final(self).wait == old(self).wait,
            forall|s: WindowBorder, o: Outcome|
                #![trigger final(self).rest()(s, o)]
                final(self).rest()(s, o) == on_outcome(frame, s, o, old(self).rest()),
            weight(final(self).frames@) == weight(old(self).frames@) + heft(frame),
    {
        self.frames.push(frame);
        proof {
            assert(self.frames@.drop_last() =~= old(self).frames@);
        }
    }

    /// Makes a request.
    pub(crate) fn ask(&mut self, request: Request, wait: Wait) -> (n: Next)
        ensures
            n == Next::Ask(request),
            final(self).frames == old(self).frames,
            final(self).wait == wait,
    {
        self.wait = wait;
        Next::Ask(request)
    }
}

} // verus!
