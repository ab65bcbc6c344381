//! Going on with work of a border when the desktop has replied.

use vstd::prelude::*;
use crate::behavior;
use crate::behavior::Attempt;
use crate::call::{heft, on_outcome, on_reply, rest, weight, Call, Frame, Next, Wait};
use crate::dispatch;
use crate::protocol::{Message, Outcome, Reply};
use crate::window_border::WindowBorder;

verus! {

/// An outcome is handed to the topmost frame, with what the others are still going to do.
proof fn lemma_top(frames: Seq<Frame>, s: WindowBorder, o: Outcome)
    requires
        frames.len() > 0,
    ensures
        rest(frames)(s, o) == on_outcome(frames.last(), s, o, rest(frames.drop_last())),
        weight(frames) == weight(frames.drop_last()) + heft(frames.last()),
{
}

/// A border that belonged to its window has none any more when the window is gone.
pub open spec fn released(s: WindowBorder) -> WindowBorder {
    WindowBorder {
        border_window: if s.is_raw_transferred {
            0
        } else {
            s.border_window
        },
        ..s
    }
}

impl WindowBorder {
    /// Does what the reply to the pending request was needed for.
    fn take_reply(&mut self, call: &mut Call, r: Reply) -> (n: Next)
        requires
            old(self).well_formed(),
            old(self).can_take(r),
        ensures
            final(self).well_formed(),
            n.script(*final(call), *final(self)) == on_reply(
                old(call).wait,
                *old(self),
                r,
                old(call).rest(),
            ),
    {
        match call.wait {
            Wait::Ignored => Next::Return(Ok(false)),
            Wait::Result => Next::Return(r.result()),
            Wait::Answer(o) => Next::Return(o),
            Wait::FrameBounds => self.frame_known(call, r),
            Wait::Above { visibility } => self.above_known(call, visibility, r),
            Wait::Placed { visibility } => self.placed(call, visibility, r),
            Wait::Positioned => self.positioned(call, r),
            Wait::Active { check_delay } => self.active_known(call, check_delay, r),
            Wait::Fade { check_delay } => self.fade_known(call, check_delay, r),
            Wait::HideBrush { active } => self.hide_brush(call, active),
            Wait::BrushReplaced { active, bounds } => self.brush_replaced(call, active, bounds),
            Wait::BrushBackend { active, bounds } => self.brush_backend_known(
                call,
                active,
                bounds,
                r,
            ),
            Wait::ResizeBackend => self.resize_backend_known(call, r),
            Wait::TargetSize => Next::Return(Ok(self.outgrows(r.size()))),
            Wait::RenderBackend => self.render_backend_known(call, r),
            Wait::TargetResized => self.render_ready(call, r.result()),
            Wait::Draw => self.draw(call, r),
            Wait::RecoveryEntered => self.recovery_entered(call, r),
            Wait::DevicesRecreated => self.devices_recreated(call, r),
            Wait::RecreateBackend { nested } => self.recreate_backend_known(call, nested, r),
            Wait::Adapter { nested, luid } => self.adapter_known(call, nested, luid, r),
            Wait::Probe { nested } => self.target_probed(call, nested, r),
            Wait::RadiusArranged => self.radius_arranged_known(call, r),
            Wait::SquareDiffers => self.square_differs_known(call, r),
            Wait::SquareSet => self.lock_radius(call, r.result().is_ok()),
            Wait::RadiusLocked { updated } => {
                self.arranged_override_active = true;
                Next::Return(Ok(updated))
            },
            Wait::RadiusUnlocked => self.radius_unlocked(call),
            Wait::ConfiguredDiffers { radius } => self.configured_differs_known(call, radius, r),
            Wait::ConfiguredSet => self.radius_synced(call, r.result().is_ok()),
            Wait::Rescaled { dpi } => self.rescaled(call, dpi, r),
            Wait::EffectsBackend => self.effects_backend_known(call, r),
            Wait::Dpi => self.dpi_known(call, r),
            Wait::InitMonitor => self.init_monitor_known(call, r),
            Wait::InitDpi => self.init_dpi_known(call, r),
            Wait::Config { dpi } => self.config_known(call, dpi, r),
            Wait::LoadArranged => self.load_arranged_known(call, r),
            Wait::ScreenWidth => self.screen_width_known(call, r),
            Wait::Region => self.region_known(call, r),
            Wait::Blur => self.blur_enabled(call, r),
            Wait::Alpha => self.alpha_set(call, r),
            Wait::InitFacts => self.init_facts_known(call, r),
            Wait::Minimized => self.minimized_known(call, r),
            Wait::MinimizePosted => self.minimize_posted(call, r),
            Wait::InitFocus => self.init_focus_known(call, r),
            Wait::UnminimizeFacts => self.unminimize_facts_known(call, r),
            Wait::SettleFacts => self.settle_facts_known(call, r),
            Wait::Monitor { live } => self.monitor_known(call, live, r),
            Wait::Snap { updated } => self.snap_known(call, updated, r),
            Wait::Corners { updated } => self.corners_known(call, updated, r),
            Wait::BorderVisible { updated } => self.border_visible_known(call, updated, r),
            Wait::LocationExists => self.location_exists_known(call, r),
            Wait::LocationFacts => self.location_facts_known(call, r),
            Wait::ReorderExists => self.reorder_exists_known(call, r),
            Wait::ReordersDrained => self.reorders_drained(call),
            Wait::ReorderTime { since } => self.reorder_time_known(call, since, r),
            Wait::Debounced => {
                self.is_debouncing_reorder = true;
                Next::Return(Ok(false))
            },
            Wait::Neighbor => self.neighbor_known(call, r),
            Wait::ReorderNoted => {
                self.last_reorder_time = Some(r.time());
                Next::Return(Ok(false))
            },
            Wait::TimerStopped { id } => self.timer_stopped(call, id),
            Wait::ForegroundExists => self.foreground_exists_known(call, r),
            Wait::Shown => self.shown_known(call, r),
            Wait::ShownFacts => self.shown_facts_known(call, r),
            Wait::Restored => self.restored_known(call, r),
            Wait::AnimateArranged => self.animate_arranged_known(call, r),
            Wait::Colors => self.colors_known(call, r),
            Wait::Focus { rules } => self.focus_known(call, rules, r),
            Wait::WidthAdopted => self.width_adopted(call, r),
            Wait::OffsetAdopted => self.offset_adopted(call, r),
            Wait::RadiusAdopted => self.radius_adopted(call, r),
            Wait::DisplayVisible => self.display_visible_known(call, r),
            Wait::DevicesChecked => self.devices_checked(call, r),
            Wait::ResumeBackend => self.resume_backend_known(call, r),
        }
    }

    /// Does what is to be done with the outcome of some work.
    fn take_outcome(&mut self, call: &mut Call, frame: Frame, o: Outcome) -> (n: Next)
        requires
            old(self).well_formed(),
        ensures
            final(self).well_formed(),
            n is Return ==> weight(final(call).frames@) < weight(old(call).frames@) + heft(frame),
            n.script(*final(call), *final(self)) == on_outcome(
                frame,
                *old(self),
                o,
                old(call).rest(),
            ),
    {
        match frame {
            Frame::Answer(answer) => Next::Return(answer),
            Frame::QueueExit => self.queue_exit(call),
            Frame::MatchFade => self.match_fade(call),
            Frame::RenderNeed => self.render_need_known(call, o),
            Frame::RenderReady => self.render_ready(call, o),
            Frame::Attempted { work, nested } => self.attempted(call, work, nested, o),
            Frame::Recovered { work } => self.recovered(call, work, o),
            Frame::AttemptedAgain => self.attempted_again(call, o),
            Frame::LeaveRecovery => self.leave_recovery(call, o),
            Frame::DrawerRecreated { nested } => self.drawer_recreated(call, nested, o),
            Frame::RenderAgain { nested } => self.with_recovery(call, Attempt::Render, nested),
            Frame::CheckEffects => self.check_effects(call),
            Frame::CheckSize { updated } => self.check_size(call, updated),
            Frame::SizeChecked { updated } => self.size_checked(call, updated, o),
            Frame::SizeAdapted => self.size_adapted(call, o),
            Frame::ResizeNeed => self.resize_need_known(call, o),
            Frame::Sequence(steps) => self.sequence(call, steps),
            Frame::ConfigLoaded => self.config_loaded(call),
            Frame::InitCompleted => self.init_completed(call, o),
            Frame::MakeDrawer => self.make_drawer(call),
            Frame::DrawerMade => self.drawer_made(call, o),
            Frame::InitLook => self.init_look(call),
            Frame::CheckMinimized => self.check_minimized(call),
            Frame::MonitorAdapted { live } => self.monitor_adapted(call, live, o),
            Frame::RadiusChecked { updated } => self.radius_checked(call, updated, o),
            Frame::Followed { live, updated, before } => self.followed(call, live, updated, before),
            Frame::FollowNeed { live, updated, before } => self.follow_need_known(
                call,
                live,
                updated,
                before,
                o,
            ),
            Frame::FollowPlace { live } => self.follow_place(call, live, true),
            Frame::NoteReorder => self.note_reorder(call),
            Frame::LateInitCompleted => self.late_init_completed(call, o),
            Frame::MinimizeHidden => self.minimize_hidden(call),
            Frame::DisplayAdapted => self.display_adapted(call, o),
            Frame::DpiAdapted => self.dpi_adapted(call),
            Frame::DrawerChecked => self.drawer_checked(call, o),
            Frame::ResumeDrawerMade => self.resume_drawer_made(call, o),
        }
    }

    /// Hands an outcome to the topmost frame.
    fn take_frame(&mut self, call: &mut Call, o: Outcome) -> (n: Next)
        requires
            old(self).well_formed(),
            old(call).frames@.len() > 0,
        ensures
            final(self).well_formed(),
            n is Return ==> weight(final(call).frames@) < weight(old(call).frames@),
            n.script(*final(call), *final(self)) == old(call).rest()(*old(self), o),
    {
        let ghost frames = call.frames@;
        match call.frames.pop() {
            None => Next::Return(o),
            Some(frame) => {
                proof {
                    lemma_top(frames, *self, o);
                }
                self.take_outcome(call, frame, o)
            },
        }
    }

    /// Hands outcomes down the frames until a request is made or nothing is left to do.
    fn hand_on(&mut self, call: &mut Call, first: Next) -> (n: Next)
        requires
            old(self).well_formed(),
        ensures
            final(self).well_formed(),
            n is Return ==> final(call).frames@.len() == 0,
            n.script(*final(call), *final(self)) == first.script(*old(call), *old(self)),
    {
        let mut n = first;
        let ghost script = first.script(*call, *self);
        loop
            invariant
                self.well_formed(),
                n.script(*call, *self) == script,
            ensures
                self.well_formed(),
                n is Return ==> call.frames@.len() == 0,
                n.script(*call, *self) == script,
            decreases weight(call.frames@),
        {
            match n {
                Next::Ask(_) => {
                    break;
                },
                Next::Return(o) => {
                    if call.frames.len() == 0 {
                        break;
                    }
                    n = self.take_frame(call, o);
                    match n {
                        Next::Ask(_) => {
                            break;
                        },
                        Next::Return(_) => {},
                    }
                },
            }
        }
        n
    }

    /// Goes on with a call when the reply to its pending request has come, up to its next
    /// request or its end. Whatever the border has been through since the request was made is
    /// taken into account.
    pub fn resume(&mut self, call: &mut Call, reply: Reply) -> (n: Next)
        requires
            old(self).well_formed(),
            old(self).can_take(reply),
        ensures
            final(self).well_formed(),
            n is Return ==> final(call).frames@.len() == 0,
            n.script(*final(call), *final(self)) == old(call).resumption()(*old(self), reply),
    {
        let n = self.take_reply(call, reply);
        self.hand_on(call, n)
    }

    /// Begins to release the border when its window is gone. The flag says whether the border
    /// belonged to the window: then it is to be taken out of the borders of the application, and
    /// freed, as soon as the call ends.
    pub fn release(&mut self, call: &mut Call) -> (r: (Next, bool))
        requires
            old(self).well_formed(),
        ensures
            final(self).well_formed(),
            r.0 is Ask,
            r.1 == old(self).is_raw_transferred,
            r.0.script(*final(call), *final(self)) == behavior::cleanup(
                released(*old(self)),
                old(call).rest(),
            ),
    {
        let owned = self.is_raw_transferred;
        if owned {
            self.border_window = 0;
        }
        (self.cleanup(call), owned)
    }

    /// Begins what the border does on a message, up to its first request or its end. The flag of
    /// the outcome says that the message is left to the default procedure.
    pub fn wnd_proc(&mut self, call: &mut Call, message: Message) -> (n: Next)
        requires
            old(self).well_formed(),
        ensures
            final(self).well_formed(),
            n is Return && old(call).frames@.len() == 0 ==> final(call).frames@.len() == 0,
            n.script(*final(call), *final(self)) == dispatch::wnd_proc(
                *old(self),
                message,
                old(call).rest(),
            ),
    {
        let n = self.begin_message(call, message);
        self.hand_on(call, n)
    }
}

} // verus!
