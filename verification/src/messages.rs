//! How a border comes to be, and what it does on each message.
//!
//! Each method does, or begins, what the function of [`crate::dispatch`] that has its name says.

use vstd::prelude::*;
use crate::behavior;
use crate::behavior::Step;
use crate::call::{weight, Call, Frame, Next, Wait};
use crate::dispatch;
use crate::dispatch::{DEBOUNCE_DELAY, NUM_REORDERS_BEFORE_DEBOUNCE};
use crate::drawing::asks;
use crate::geometry::{are_rects_same_size, Rect};
use crate::protocol::{
    low32, loword, timer_millis, ColorRules, ColorSource, Focus, Message, Outcome, Posted, Reply,
    Request, Scope, Slot, Visibility, WindowKind, ZOrderMode, DBT_DEVNODES_CHANGED,
    PBT_APMRESUMEAUTOMATIC, PBT_APMRESUMESUSPEND, PBT_APMSUSPEND,
};
use crate::render_backend::RenderBackend;
use crate::window_border::{
    WindowBorder, REORDER_TIMER_ID, TIMER_INIT_ID, TIMER_UNMINIMIZE_ID,
    TIMER_UNMINIMIZE_SETTLE_ID,
};

verus! {

// Coming to be.

impl WindowBorder {
    /// Sets the border up for its window. With an initial delay it is shown only after it; without
    /// one, at once.
    pub fn init(&mut self, call: &mut Call) -> (n: Next)
        requires
            old(self).well_formed(),
        ensures
            final(self).well_formed(),
            n is Ask,
            n.script(*final(call), *final(self)) == dispatch::init(
                *old(self),
                old(call).rest(),
            ),
    {
        let n = call.ask(Request::Monitor, Wait::InitMonitor);
        assert(n.script(*call, *self)->next =~= dispatch::init(
            *old(self),
            old(call).rest(),
        )->next);
        n
    }

    pub(crate) fn init_monitor_known(&mut self, call: &mut Call, r: Reply) -> (n: Next)
        requires
            old(self).well_formed(),
        ensures
            final(self).well_formed(),
            n is Ask,
            n.script(*final(call), *final(self)) == dispatch::init_monitor_known(
                *old(self),
                r,
                old(call).rest(),
            ),
    {
        self.current_monitor = r.handle();
        let n = call.ask(Request::Dpi { monitor: self.current_monitor }, Wait::InitDpi);
        assert(n.script(*call, *self)->next =~= dispatch::init_monitor_known(
            *old(self),
            r,
            old(call).rest(),
        )->next);
        n
    }

    pub(crate) fn init_dpi_known(&mut self, call: &mut Call, r: Reply) -> (n: Next)
        requires
            old(self).well_formed(),
        ensures
            final(self).well_formed(),
            n is Ask,
            n.script(*final(call), *final(self)) == dispatch::init_dpi_known(
                *old(self),
                r,
                old(call).rest(),
            ),
    {
        let ghost k = call.rest();
        match r {
            Reply::Dpi(dpi) => {
                self.current_dpi = dpi;
                call.push(Frame::ConfigLoaded);
                assert(call.rest() =~= (
                |s: WindowBorder, o: Outcome| dispatch::config_loaded(s, k)));
                self.load_from_config(call, dpi)
            },
            _ => self.give_up(call, r.failure()),
        }
    }

    pub(crate) fn config_loaded(&mut self, call: &mut Call) -> (n: Next)
        requires
            old(self).well_formed(),
        ensures
            final(self).well_formed(),
            n is Ask,
            n.script(*final(call), *final(self)) == dispatch::config_loaded(
                *old(self),
                old(call).rest(),
            ),
    {
        let ghost k = call.rest();
        if self.config.initialize_delay > 0 {
            let millis: u32 = timer_millis(self.config.initialize_delay);
            let n = call.ask(Request::SetTimer { id: TIMER_INIT_ID, millis }, Wait::Ignored);
            assert(n.script(*call, *self)->next =~= dispatch::config_loaded(
                *old(self),
                old(call).rest(),
            )->next);
            n
        } else {
            call.push(Frame::InitCompleted);
            assert(call.rest() =~= (
            |s: WindowBorder, o: Outcome| dispatch::init_completed(s, o, k)));
            self.complete_init(call)
        }
    }

    pub(crate) fn init_completed(&mut self, call: &mut Call, o: Outcome) -> (n: Next)
        requires
            old(self).well_formed(),
        ensures
            final(self).well_formed(),
            n is Return ==> final(call).frames@ == old(call).frames@,
            n.script(*final(call), *final(self)) == dispatch::init_completed(
                *old(self),
                o,
                old(call).rest(),
            ),
    {
        match o {
            Ok(_) => {
                self.is_initialized = true;
                Next::Return(Ok(false))
            },
            Err(code) => Next::Return(Err(code)),
        }
    }

    /// Takes over the configuration for the window. The corners of a window that is snapped from
    /// the start are seen to.
    pub fn load_from_config(&mut self, call: &mut Call, dpi: u32) -> (n: Next)
        requires
            old(self).well_formed(),
        ensures
            final(self).well_formed(),
            n is Ask,
            n.script(*final(call), *final(self)) == dispatch::load_from_config(
                *old(self),
                dpi,
                old(call).rest(),
            ),
    {
        let n = call.ask(Request::ResolveConfig { dpi }, Wait::Config { dpi });
        assert(n.script(*call, *self)->next =~= dispatch::load_from_config(
            *old(self),
            dpi,
            old(call).rest(),
        )->next);
        n
    }

    pub(crate) fn config_known(&mut self, call: &mut Call, dpi: u32, r: Reply) -> (n: Next)
        requires
            old(self).well_formed(),
        ensures
            final(self).well_formed(),
            n is Ask,
            n.script(*final(call), *final(self)) == dispatch::config_known(
                *old(self),
                dpi,
                r,
                old(call).rest(),
            ),
    {
        match r {
            Reply::Config(config, look) => {
                self.config = config;
                self.restyle(look, dpi);
            },
            _ => {
                self.current_dpi = dpi;
            },
        }
        let n = call.ask(Request::IsArranged, Wait::LoadArranged);
        assert(n.script(*call, *self)->next =~= dispatch::config_known(
            *old(self),
            dpi,
            r,
            old(call).rest(),
        )->next);
        n
    }

    pub(crate) fn load_arranged_known(&mut self, call: &mut Call, r: Reply) -> (n: Next)
        requires
            old(self).well_formed(),
        ensures
            final(self).well_formed(),
            n is Return ==> final(call).frames@ == old(call).frames@,
            n.script(*final(call), *final(self)) == dispatch::load_arranged_known(
                *old(self),
                r,
                old(call).rest(),
            ),
    {
        let ghost k = call.rest();
        if r.flag() {
            call.push(Frame::Answer(Ok(false)));
            assert(call.rest() =~= (|s: WindowBorder, o: Outcome| k(s, Ok(false))));
            self.sync_border_radius(call)
        } else {
            Next::Return(Ok(false))
        }
    }

    /// Makes the border window transparent, makes the drawer, and shows the border.
    pub fn complete_init(&mut self, call: &mut Call) -> (n: Next)
        requires
            old(self).well_formed(),
        ensures
            final(self).well_formed(),
            n is Ask,
            n.script(*final(call), *final(self)) == dispatch::complete_init(
                *old(self),
                old(call).rest(),
            ),
    {
        let n = call.ask(Request::ScreenWidth, Wait::ScreenWidth);
        assert(n.script(*call, *self)->next =~= dispatch::complete_init(
            *old(self),
            old(call).rest(),
        )->next);
        n
    }

    pub(crate) fn screen_width_known(&mut self, call: &mut Call, r: Reply) -> (n: Next)
        requires
            old(self).well_formed(),
            old(self).can_take(r),
        ensures
            final(self).well_formed(),
            n is Ask,
            n.script(*final(call), *final(self)) == dispatch::screen_width_known(
                *old(self),
                r,
                old(call).rest(),
            ),
    {
        let pos: i32 = -r.screen_width() - 8;
        let n = call.ask(
            Request::CreateRegion { left: pos, top: 0, right: pos + 1, bottom: 1 },
            Wait::Region,
        );
        assert(n.script(*call, *self)->next =~= dispatch::screen_width_known(
            *old(self),
            r,
            old(call).rest(),
        )->next);
        n
    }

    pub(crate) fn region_known(&mut self, call: &mut Call, r: Reply) -> (n: Next)
        requires
            old(self).well_formed(),
        ensures
            final(self).well_formed(),
            n is Ask,
            n.script(*final(call), *final(self)) == dispatch::region_known(
                *old(self),
                r,
                old(call).rest(),
            ),
    {
        let handle: isize = r.handle();
        let region = if handle == 0 || handle == -1 {
            None
        } else {
            Some(handle)
        };
        let n = call.ask(Request::EnableBlur { region }, Wait::Blur);
        assert(n.script(*call, *self)->next =~= dispatch::region_known(
            *old(self),
            r,
            old(call).rest(),
        )->next);
        n
    }

    pub(crate) fn blur_enabled(&mut self, call: &mut Call, r: Reply) -> (n: Next)
        requires
            old(self).well_formed(),
        ensures
            final(self).well_formed(),
            n is Return ==> final(call).frames@ == old(call).frames@,
            n.script(*final(call), *final(self)) == dispatch::blur_enabled(
                *old(self),
                r,
                old(call).rest(),
            ),
    {
        match r.result() {
            Ok(_) => {
                let n = call.ask(Request::SetAlpha { alpha: 255 }, Wait::Alpha);
                assert(n.script(*call, *self)->next =~= dispatch::blur_enabled(
                    *old(self),
                    r,
                    old(call).rest(),
                )->next);
                n
            },
            Err(code) => Next::Return(Err(code)),
        }
    }

    pub(crate) fn alpha_set(&mut self, call: &mut Call, r: Reply) -> (n: Next)
        requires
            old(self).well_formed(),
        ensures
            final(self).well_formed(),
            n is Return ==> final(call).frames@ == old(call).frames@,
            n.script(*final(call), *final(self)) == dispatch::alpha_set(
                *old(self),
                r,
                old(call).rest(),
            ),
    {
        let ghost k = call.rest();
        match r.result() {
            Ok(_) => {
                call.push(Frame::MakeDrawer);
                assert(call.rest() =~= (|s: WindowBorder, o: Outcome| dispatch::make_drawer(s, k)));
                self.update_window_rect(call)
            },
            Err(code) => Next::Return(Err(code)),
        }
    }

    pub(crate) fn make_drawer(&mut self, call: &mut Call) -> (n: Next)
        requires
            old(self).well_formed(),
        ensures
            final(self).well_formed(),
            n is Ask,
            n.script(*final(call), *final(self)) == dispatch::make_drawer(
                *old(self),
                old(call).rest(),
            ),
    {
        let ghost k = call.rest();
        call.push(Frame::DrawerMade);
        assert(call.rest() =~= (|s: WindowBorder, o: Outcome| dispatch::drawer_made(s, o, k)));
        self.init_drawer(call)
    }

    pub(crate) fn drawer_made(&mut self, call: &mut Call, o: Outcome) -> (n: Next)
        requires
            old(self).well_formed(),
        ensures
            final(self).well_formed(),
            n is Return ==> final(call).frames@ == old(call).frames@,
            n.script(*final(call), *final(self)) == dispatch::drawer_made(
                *old(self),
                o,
                old(call).rest(),
            ),
    {
        match o {
            Ok(_) => self.init_border(call),
            Err(code) => Next::Return(Err(code)),
        }
    }

    /// Shows the border for the first time, if it is to be seen. A window that is minimized
    /// already, or that the tiling window manager already sees as something of its own kind, is
    /// dealt with by a message.
    pub fn init_border(&mut self, call: &mut Call) -> (n: Next)
        requires
            old(self).well_formed(),
        ensures
            final(self).well_formed(),
            n is Ask,
            n.script(*final(call), *final(self)) == dispatch::init_border(
                *old(self),
                old(call).rest(),
            ),
    {
        let ghost k = call.rest();
        call.push(Frame::InitLook);
        assert(call.rest() =~= (|s: WindowBorder, o: Outcome| dispatch::init_look(s, k)));
        let steps: Vec<Step> = vec![
            Step::UpdateColor(Some(self.config.initialize_delay)),
            Step::UpdateWindowRect,
        ];
        assert(steps@ =~= seq![
            Step::UpdateColor(Some(self.config.initialize_delay)),
            Step::UpdateWindowRect,
        ]);
        self.sequence(call, steps)
    }

    pub(crate) fn init_look(&mut self, call: &mut Call) -> (n: Next)
        requires
            old(self).well_formed(),
        ensures
            final(self).well_formed(),
            n is Ask,
            n.script(*final(call), *final(self)) == dispatch::init_look(
                *old(self),
                old(call).rest(),
            ),
    {
        let n = call.ask(Request::Look, Wait::InitFacts);
        assert(n.script(*call, *self)->next =~= dispatch::init_look(
            *old(self),
            old(call).rest(),
        )->next);
        n
    }

    pub(crate) fn init_facts_known(&mut self, call: &mut Call, r: Reply) -> (n: Next)
        requires
            old(self).well_formed(),
        ensures
            final(self).well_formed(),
            n is Ask,
            n.script(*final(call), *final(self)) == dispatch::init_facts_known(
                *old(self),
                r,
                old(call).rest(),
            ),
    {
        let ghost k = call.rest();
        if self.should_show_border(r.facts()) {
            call.push(Frame::CheckMinimized);
            assert(call.rest() =~= (|s: WindowBorder, o: Outcome| dispatch::check_minimized(s, k)));
            let steps: Vec<Step> = vec![
                Step::UpdatePosition(Visibility::Show),
                Step::Render,
                Step::Tell(Request::SetAnimsTimer),
            ];
            assert(steps@ =~= seq![
                Step::UpdatePosition(Visibility::Show),
                Step::Render,
                Step::Tell(Request::SetAnimsTimer),
            ]);
            self.sequence(call, steps)
        } else {
            self.check_minimized(call)
        }
    }

    pub(crate) fn check_minimized(&mut self, call: &mut Call) -> (n: Next)
        requires
            old(self).well_formed(),
        ensures
            final(self).well_formed(),
            n is Ask,
            n.script(*final(call), *final(self)) == dispatch::check_minimized(
                *old(self),
                old(call).rest(),
            ),
    {
        let n = call.ask(Request::Look, Wait::Minimized);
        assert(n.script(*call, *self)->next =~= dispatch::check_minimized(
            *old(self),
            old(call).rest(),
        )->next);
        n
    }

    pub(crate) fn minimized_known(&mut self, call: &mut Call, r: Reply) -> (n: Next)
        requires
            old(self).well_formed(),
        ensures
            final(self).well_formed(),
            n is Ask,
            n.script(*final(call), *final(self)) == dispatch::minimized_known(
                *old(self),
                r,
                old(call).rest(),
            ),
    {
        if r.facts().minimized {
            let n = call.ask(
                Request::Post { message: Posted::MinimizeStart },
                Wait::MinimizePosted,
            );
            assert(n.script(*call, *self)->next =~= dispatch::minimized_known(
                *old(self),
                r,
                old(call).rest(),
            )->next);
            n
        } else {
            self.check_focus(call)
        }
    }

    pub(crate) fn minimize_posted(&mut self, call: &mut Call, r: Reply) -> (n: Next)
        requires
            old(self).well_formed(),
        ensures
            final(self).well_formed(),
            n is Return ==> final(call).frames@ == old(call).frames@,
            n.script(*final(call), *final(self)) == dispatch::minimize_posted(
                *old(self),
                r,
                old(call).rest(),
            ),
    {
        match r.result() {
            Ok(_) => self.check_focus(call),
            Err(code) => Next::Return(Err(code)),
        }
    }

    pub(crate) fn check_focus(&mut self, call: &mut Call) -> (n: Next)
        requires
            old(self).well_formed(),
        ensures
            final(self).well_formed(),
            n is Ask,
            n.script(*final(call), *final(self)) == dispatch::check_focus(
                *old(self),
                old(call).rest(),
            ),
    {
        let n = call.ask(Request::KomorebiFocus, Wait::InitFocus);
        assert(n.script(*call, *self)->next =~= dispatch::check_focus(
            *old(self),
            old(call).rest(),
        )->next);
        n
    }

    pub(crate) fn init_focus_known(&mut self, call: &mut Call, r: Reply) -> (n: Next)
        requires
            old(self).well_formed(),
        ensures
            final(self).well_formed(),
            n is Return ==> final(call).frames@ == old(call).frames@,
            n.script(*final(call), *final(self)) == dispatch::init_focus_known(
                *old(self),
                r,
                old(call).rest(),
            ),
    {
        match r.focus() {
            Focus::Known(WindowKind::Stack) | Focus::Known(WindowKind::Monocle) | Focus::Known(
                WindowKind::Floating,
            ) => {
                let n = call.ask(Request::Post { message: Posted::Komorebi }, Wait::Ignored);
                assert(n.script(*call, *self)->next =~= dispatch::init_focus_known(
                    *old(self),
                    r,
                    old(call).rest(),
                )->next);
                n
            },
            _ => Next::Return(Ok(false)),
        }
    }
}

// Coming back from being minimized.

impl WindowBorder {
    /// Shows the border of a restored window, if it is to be seen, and looks again a little later,
    /// when the window has come to rest.
    pub fn complete_unminimize(&mut self, call: &mut Call) -> (n: Next)
        requires
            old(self).well_formed(),
        ensures
            final(self).well_formed(),
            n is Ask,
            n.script(*final(call), *final(self)) == dispatch::complete_unminimize(
                *old(self),
                old(call).rest(),
            ),
    {
        let n = call.ask(Request::Look, Wait::UnminimizeFacts);
        assert(n.script(*call, *self)->next =~= dispatch::complete_unminimize(
            *old(self),
            old(call).rest(),
        )->next);
        n
    }

    pub(crate) fn unminimize_facts_known(&mut self, call: &mut Call, r: Reply) -> (n: Next)
        requires
            old(self).well_formed(),
        ensures
            final(self).well_formed(),
            n is Return ==> weight(final(call).frames@) < weight(old(call).frames@) + 16,
            n.script(*final(call), *final(self)) == dispatch::unminimize_facts_known(
                *old(self),
                r,
                old(call).rest(),
            ),
    {
        if self.should_show_border(r.facts()) {
            let steps: Vec<Step> = vec![
                Step::UpdateColor(Some(self.config.unminimize_delay)),
                Step::UpdateWindowRect,
                Step::ResizeIfNeeded,
                Step::UpdatePosition(Visibility::Show),
                Step::Render,
                Step::Tell(Request::SetAnimsTimer),
                Step::Tell(Request::SetTimer { id: TIMER_UNMINIMIZE_SETTLE_ID, millis: 250 }),
                Step::SetPaused(false),
                Step::ForgetPendingLocation,
            ];
            assert(steps@ =~= seq![
                Step::UpdateColor(Some(self.config.unminimize_delay)),
                Step::UpdateWindowRect,
                Step::ResizeIfNeeded,
                Step::UpdatePosition(Visibility::Show),
                Step::Render,
                Step::Tell(Request::SetAnimsTimer),
                Step::Tell(Request::SetTimer { id: TIMER_UNMINIMIZE_SETTLE_ID, millis: 250 }),
                Step::SetPaused(false),
                Step::ForgetPendingLocation,
            ]);
            self.sequence(call, steps)
        } else {
            let steps: Vec<Step> = vec![
                Step::SetPaused(false),
                Step::ForgetPendingLocation,
            ];
            assert(steps@ =~= seq![
                Step::SetPaused(false),
                Step::ForgetPendingLocation,
            ]);
            self.sequence(call, steps)
        }
    }

    /// Brings the border in line with where the restored window came to rest.
    pub fn handle_unminimize_settle(&mut self, call: &mut Call) -> (n: Next)
        requires
            old(self).well_formed(),
        ensures
            final(self).well_formed(),
            n is Return ==> final(call).frames@ == old(call).frames@,
            n.script(*final(call), *final(self)) == dispatch::handle_unminimize_settle(
                *old(self),
                old(call).rest(),
            ),
    {
        if self.is_paused || !self.is_initialized {
            Next::Return(Ok(false))
        } else {
            let n = call.ask(Request::Look, Wait::SettleFacts);
            assert(n.script(*call, *self)->next =~= dispatch::handle_unminimize_settle(
                *old(self),
                old(call).rest(),
            )->next);
            n
        }
    }

    pub(crate) fn settle_facts_known(&mut self, call: &mut Call, r: Reply) -> (n: Next)
        requires
            old(self).well_formed(),
        ensures
            final(self).well_formed(),
            n is Return ==> final(call).frames@ == old(call).frames@,
            n.script(*final(call), *final(self)) == dispatch::settle_facts_known(
                *old(self),
                r,
                old(call).rest(),
            ),
    {
        if r.facts().on_screen() {
            self.check_monitor(call, false)
        } else {
            Next::Return(Ok(false))
        }
    }
}

// Following the window.

impl WindowBorder {
    pub(crate) fn check_monitor(&mut self, call: &mut Call, live: bool) -> (n: Next)
        requires
            old(self).well_formed(),
        ensures
            final(self).well_formed(),
            n is Ask,
            n.script(*final(call), *final(self)) == dispatch::check_monitor(
                *old(self),
                live,
                old(call).rest(),
            ),
    {
        let n = call.ask(Request::Monitor, Wait::Monitor { live });
        assert(n.script(*call, *self)->next =~= dispatch::check_monitor(
            *old(self),
            live,
            old(call).rest(),
        )->next);
        n
    }

    pub(crate) fn monitor_known(&mut self, call: &mut Call, live: bool, r: Reply) -> (n: Next)
        requires
            old(self).well_formed(),
        ensures
            final(self).well_formed(),
            n is Ask,
            n.script(*final(call), *final(self)) == dispatch::monitor_known(
                *old(self),
                live,
                r,
                old(call).rest(),
            ),
    {
        let ghost k = call.rest();
        let monitor: isize = r.handle();
        if monitor != self.current_monitor {
            self.current_monitor = monitor;
            call.push(Frame::MonitorAdapted { live });
            assert(call.rest() =~= (
            |s: WindowBorder, o: Outcome| dispatch::monitor_adapted(s, live, o, k)));
            self.rescale_border_and_resize_renderer_if_needed(call, monitor)
        } else {
            self.monitor_checked(call, live, false)
        }
    }

    pub(crate) fn monitor_adapted(&mut self, call: &mut Call, live: bool, o: Outcome) -> (n: Next)
        requires
            old(self).well_formed(),
        ensures
            final(self).well_formed(),
            n is Return ==> final(call).frames@ == old(call).frames@,
            n.script(*final(call), *final(self)) == dispatch::monitor_adapted(
                *old(self),
                live,
                o,
                old(call).rest(),
            ),
    {
        match o {
            Ok(updated) => self.monitor_checked(call, live, updated),
            Err(_) => Next::Return(Ok(false)),
        }
    }

    pub(crate) fn monitor_checked(
        &mut self,
        call: &mut Call,
        live: bool,
        updated: bool,
    ) -> (n: Next)
        requires
            old(self).well_formed(),
        ensures
            final(self).well_formed(),
            n is Ask,
            n.script(*final(call), *final(self)) == dispatch::monitor_checked(
                *old(self),
                live,
                updated,
                old(call).rest(),
            ),
    {
        if live {
            self.check_radius(call, updated)
        } else {
            self.follow(call, live, updated)
        }
    }

    pub(crate) fn check_radius(&mut self, call: &mut Call, updated: bool) -> (n: Next)
        requires
            old(self).well_formed(),
        ensures
            final(self).well_formed(),
            n is Ask,
            n.script(*final(call), *final(self)) == dispatch::check_radius(
                *old(self),
                updated,
                old(call).rest(),
            ),
    {
        if self.config.radius_auto {
            let n = call.ask(Request::IsArranged, Wait::Snap { updated });
            assert(n.script(*call, *self)->next =~= dispatch::check_radius(
                *old(self),
                updated,
                old(call).rest(),
            )->next);
            n
        } else {
            self.check_corners(call, updated)
        }
    }

    pub(crate) fn snap_known(&mut self, call: &mut Call, updated: bool, r: Reply) -> (n: Next)
        requires
            old(self).well_formed(),
        ensures
            final(self).well_formed(),
            n is Ask,
            n.script(*final(call), *final(self)) == dispatch::snap_known(
                *old(self),
                updated,
                r,
                old(call).rest(),
            ),
    {
        let ghost k = call.rest();
        if r.flag() != self.arranged_override_active {
            call.push(Frame::RadiusChecked { updated });
            assert(call.rest() =~= (
            |s: WindowBorder, o: Outcome| dispatch::radius_checked(s, updated, o, k)));
            self.sync_border_radius(call)
        } else {
            self.check_corners(call, updated)
        }
    }

    pub(crate) fn radius_checked(&mut self, call: &mut Call, updated: bool, o: Outcome) -> (n: Next)
        requires
            old(self).well_formed(),
        ensures
            final(self).well_formed(),
            n is Ask,
            n.script(*final(call), *final(self)) == dispatch::radius_checked(
                *old(self),
                updated,
                o,
                old(call).rest(),
            ),
    {
        let synced: bool = match o {
            Ok(true) => true,
            _ => false,
        };
        self.check_corners(call, updated || synced)
    }

    pub(crate) fn check_corners(&mut self, call: &mut Call, updated: bool) -> (n: Next)
        requires
            old(self).well_formed(),
        ensures
            final(self).well_formed(),
            n is Ask,
            n.script(*final(call), *final(self)) == dispatch::check_corners(
                *old(self),
                updated,
                old(call).rest(),
            ),
    {
        let n = call.ask(Request::IsArranged, Wait::Corners { updated });
        assert(n.script(*call, *self)->next =~= dispatch::check_corners(
            *old(self),
            updated,
            old(call).rest(),
        )->next);
        n
    }

    pub(crate) fn corners_known(&mut self, call: &mut Call, updated: bool, r: Reply) -> (n: Next)
        requires
            old(self).well_formed(),
        ensures
            final(self).well_formed(),
            n is Ask,
            n.script(*final(call), *final(self)) == dispatch::corners_known(
                *old(self),
                updated,
                r,
                old(call).rest(),
            ),
    {
        let changed: bool = self.drawer.fill_outer_corners != r.flag();
        self.drawer.fill_outer_corners = r.flag();
        self.follow(call, true, updated || changed)
    }

    pub(crate) fn follow(&mut self, call: &mut Call, live: bool, updated: bool) -> (n: Next)
        requires
            old(self).well_formed(),
        ensures
            final(self).well_formed(),
            n is Ask,
            n.script(*final(call), *final(self)) == dispatch::follow(
                *old(self),
                live,
                updated,
                old(call).rest(),
            ),
    {
        let ghost k = call.rest();
        let before = self.window_rect;
        call.push(Frame::Followed { live, updated, before });
        assert(call.rest() =~= (
        |s: WindowBorder, o: Outcome| dispatch::followed(s, live, updated, before, k)));
        self.update_window_rect(call)
    }

    pub(crate) fn followed(
        &mut self,
        call: &mut Call,
        live: bool,
        updated: bool,
        before: Rect,
    ) -> (n: Next)
        requires
            old(self).well_formed(),
        ensures
            final(self).well_formed(),
            n is Ask,
            n.script(*final(call), *final(self)) == dispatch::followed(
                *old(self),
                live,
                updated,
                before,
                old(call).rest(),
            ),
    {
        let ghost k = call.rest();
        call.push(Frame::FollowNeed { live, updated, before });
        assert(call.rest() =~= (
        |s: WindowBorder, o: Outcome|
            dispatch::follow_need_known(s, live, updated, before, o, k)));
        self.needs_renderer_resize(call)
    }

    pub(crate) fn follow_need_known(
        &mut self,
        call: &mut Call,
        live: bool,
        updated: bool,
        before: Rect,
        o: Outcome,
    ) -> (n: Next)
        requires
            old(self).well_formed(),
        ensures
            final(self).well_formed(),
            n is Ask,
            n.script(*final(call), *final(self)) == dispatch::follow_need_known(
                *old(self),
                live,
                updated,
                before,
                o,
                old(call).rest(),
            ),
    {
        let ghost k = call.rest();
        match o {
            Ok(true) => {
                call.push(Frame::FollowPlace { live });
                assert(call.rest() =~= (
                |s: WindowBorder, o: Outcome| dispatch::follow_place(s, live, true, k)));
                self.resize_renderer(call)
            },
            _ => {
                let resized: bool = !are_rects_same_size(self.window_rect, before);
                self.follow_place(call, live, updated || resized)
            },
        }
    }

    pub(crate) fn follow_place(&mut self, call: &mut Call, live: bool, updated: bool) -> (n: Next)
        requires
            old(self).well_formed(),
        ensures
            final(self).well_formed(),
            n is Ask,
            n.script(*final(call), *final(self)) == dispatch::follow_place(
                *old(self),
                live,
                updated,
                old(call).rest(),
            ),
    {
        if live {
            let n = call.ask(Request::BorderVisible, Wait::BorderVisible { updated });
            assert(n.script(*call, *self)->next =~= dispatch::follow_place(
                *old(self),
                live,
                updated,
                old(call).rest(),
            )->next);
            n
        } else {
            let steps = follow_steps(false, updated, Visibility::Keep);
            self.sequence(call, steps)
        }
    }

    pub(crate) fn border_visible_known(
        &mut self,
        call: &mut Call,
        updated: bool,
        r: Reply,
    ) -> (n: Next)
        requires
            old(self).well_formed(),
        ensures
            final(self).well_formed(),
            n is Ask,
            n.script(*final(call), *final(self)) == dispatch::border_visible_known(
                *old(self),
                updated,
                r,
                old(call).rest(),
            ),
    {
        let visibility = if r.flag() {
            Visibility::Keep
        } else {
            Visibility::Show
        };
        let steps = follow_steps(true, updated, visibility);
        self.sequence(call, steps)
    }
}

/// What is done once it is known what has changed.
fn follow_steps(live: bool, updated: bool, visibility: Visibility) -> (r: Vec<Step>)
    ensures
        r@ == dispatch::follow_steps(live, updated, visibility),
        1 <= r@.len() <= 3,
        r@[0] == Step::UpdatePosition(visibility),
{
    let mut steps: Vec<Step> = Vec::new();
    steps.push(Step::UpdatePosition(visibility));
    if updated {
        steps.push(Step::Render);
    }
    if live {
        steps.push(Step::Tell(Request::SetAnimsTimer));
    }
    assert(steps@ =~= dispatch::follow_steps(live, updated, visibility));
    steps
}

/// What is done with new colors.
fn color_steps(active: bool, inactive: bool) -> (r: Vec<Step>)
    ensures
        r@ == dispatch::color_steps(active, inactive),
        1 <= r@.len() <= 3,
        asks(r@[0]),
{
    let mut steps: Vec<Step> = Vec::new();
    if active {
        steps.push(Step::UpdateColorBrush { active: true, source: ColorSource::Message });
    }
    if inactive {
        steps.push(Step::UpdateColorBrush { active: false, source: ColorSource::Message });
    }
    steps.push(Step::Render);
    assert(steps@ =~= dispatch::color_steps(active, inactive));
    steps
}

/// The color that a window gets from the tiling window manager's view of it, if any.
pub fn komorebi_color(rules: ColorRules, kind: WindowKind) -> (r: Option<ColorSource>)
    ensures
        r == behavior::komorebi_color(rules, kind),
{
    let single = ColorSource::Config {
        scope: if rules.rule_has_active {
            Scope::Rule
        } else {
            Scope::Global
        },
        slot: Slot::Active,
    };
    let (colors, scope) = match rules.rule {
        Some(colors) => (colors, Scope::Rule),
        None => (rules.global, Scope::Global),
    };
    let (given, slot) = match kind {
        WindowKind::Single => (false, Slot::Active),
        WindowKind::Stack => (colors.has_stack, Slot::Stack),
        WindowKind::Monocle => (colors.has_monocle, Slot::Monocle),
        WindowKind::Floating => (colors.has_floating, Slot::Floating),
        WindowKind::Unfocused => {
            return None;
        },
    };
    if given {
        Some(ColorSource::Config { scope, slot })
    } else {
        Some(single)
    }
}

/// Whether the window takes its colors from the tiling window manager.
pub fn komorebi_enabled(rules: ColorRules) -> (r: bool)
    ensures
        r == behavior::komorebi_enabled(rules),
{
    match rules.rule {
        Some(colors) => colors.enabled,
        None => rules.global.enabled,
    }
}

// Messages.

impl WindowBorder {
    pub(crate) fn on_location_change(&mut self, call: &mut Call) -> (n: Next)
        requires
            old(self).well_formed(),
        ensures
            final(self).well_formed(),
            n is Return ==> final(call).frames@ == old(call).frames@,
            n.script(*final(call), *final(self)) == dispatch::on_location_change(
                *old(self),
                old(call).rest(),
            ),
    {
        if self.is_paused || !self.is_initialized {
            self.has_pending_location = true;
            Next::Return(Ok(false))
        } else {
            let n = call.ask(Request::WindowExists, Wait::LocationExists);
            assert(n.script(*call, *self)->next =~= dispatch::on_location_change(
                *old(self),
                old(call).rest(),
            )->next);
            n
        }
    }

    pub(crate) fn location_exists_known(&mut self, call: &mut Call, r: Reply) -> (n: Next)
        requires
            old(self).well_formed(),
        ensures
            final(self).well_formed(),
            n is Ask,
            n.script(*final(call), *final(self)) == dispatch::location_exists_known(
                *old(self),
                r,
                old(call).rest(),
            ),
    {
        if r.flag() {
            let n = call.ask(Request::Look, Wait::LocationFacts);
            assert(n.script(*call, *self)->next =~= dispatch::location_exists_known(
                *old(self),
                r,
                old(call).rest(),
            )->next);
            n
        } else {
            self.cleanup_and_queue_exit(call)
        }
    }

    pub(crate) fn location_facts_known(&mut self, call: &mut Call, r: Reply) -> (n: Next)
        requires
            old(self).well_formed(),
        ensures
            final(self).well_formed(),
            n is Ask,
            n.script(*final(call), *final(self)) == dispatch::location_facts_known(
                *old(self),
                r,
                old(call).rest(),
            ),
    {
        if self.should_show_border(r.facts()) {
            self.check_monitor(call, true)
        } else {
            let steps: Vec<Step> = vec![
                Step::UpdatePosition(Visibility::Hide),
                Step::Tell(Request::DestroyAnimsTimer),
            ];
            assert(steps@ =~= seq![
                Step::UpdatePosition(Visibility::Hide),
                Step::Tell(Request::DestroyAnimsTimer),
            ]);
            self.sequence(call, steps)
        }
    }

    pub(crate) fn on_reorder(&mut self, call: &mut Call) -> (n: Next)
        requires
            old(self).well_formed(),
        ensures
            final(self).well_formed(),
            n is Ask,
            n.script(*final(call), *final(self)) == dispatch::on_reorder(
                *old(self),
                old(call).rest(),
            ),
    {
        let n = call.ask(Request::WindowExists, Wait::ReorderExists);
        assert(n.script(*call, *self)->next =~= dispatch::on_reorder(
            *old(self),
            old(call).rest(),
        )->next);
        n
    }

    pub(crate) fn reorder_exists_known(&mut self, call: &mut Call, r: Reply) -> (n: Next)
        requires
            old(self).well_formed(),
        ensures
            final(self).well_formed(),
            n is Return ==> final(call).frames@ == old(call).frames@,
            n.script(*final(call), *final(self)) == dispatch::reorder_exists_known(
                *old(self),
                r,
                old(call).rest(),
            ),
    {
        if !r.flag() {
            self.cleanup_and_queue_exit(call)
        } else if !self.is_initialized {
            Next::Return(Ok(false))
        } else {
            let n = call.ask(Request::DrainReorders, Wait::ReordersDrained);
            assert(n.script(*call, *self)->next =~= dispatch::reorder_exists_known(
                *old(self),
                r,
                old(call).rest(),
            )->next);
            n
        }
    }

    pub(crate) fn reorders_drained(&mut self, call: &mut Call) -> (n: Next)
        requires
            old(self).well_formed(),
        ensures
            final(self).well_formed(),
            n is Ask,
            n.script(*final(call), *final(self)) == dispatch::reorders_drained(
                *old(self),
                old(call).rest(),
            ),
    {
        match self.last_reorder_time {
            Some(since) => {
                let n = call.ask(Request::Now, Wait::ReorderTime { since });
                assert(n.script(*call, *self)->next =~= dispatch::reorders_drained(
                    *old(self),
                    old(call).rest(),
                )->next);
                n
            },
            None => {
                self.consecutive_reorders = 0;
                self.handle_reorder(call)
            },
        }
    }

    pub(crate) fn reorder_time_known(&mut self, call: &mut Call, since: u64, r: Reply) -> (n: Next)
        requires
            old(self).well_formed(),
            old(self).can_take(r),
        ensures
            final(self).well_formed(),
            n is Return ==> final(call).frames@ == old(call).frames@,
            n.script(*final(call), *final(self)) == dispatch::reorder_time_known(
                *old(self),
                since,
                r,
                old(call).rest(),
            ),
    {
        match r {
            Reply::Time(now) => {
                let elapsed: u64 = if now < since {
                    0
                } else {
                    now - since
                };
                if elapsed < DEBOUNCE_DELAY {
                    self.reorder_soon(call, elapsed)
                } else {
                    self.consecutive_reorders = 0;
                    self.handle_reorder(call)
                }
            },
            _ => {
                self.consecutive_reorders = 0;
                self.handle_reorder(call)
            },
        }
    }

    pub(crate) fn reorder_soon(&mut self, call: &mut Call, elapsed: u64) -> (n: Next)
        requires
            old(self).well_formed(),
            old(self).consecutive_reorders < u64::MAX,
            elapsed < DEBOUNCE_DELAY,
        ensures
            final(self).well_formed(),
            n is Return ==> final(call).frames@ == old(call).frames@,
            n.script(*final(call), *final(self)) == dispatch::reorder_soon(
                *old(self),
                elapsed,
                old(call).rest(),
            ),
    {
        self.consecutive_reorders = self.consecutive_reorders + 1;
        if self.consecutive_reorders < NUM_REORDERS_BEFORE_DEBOUNCE {
            self.handle_reorder(call)
        } else if self.is_debouncing_reorder {
            Next::Return(Ok(false))
        } else {
            let millis: u32 = ((DEBOUNCE_DELAY - elapsed) / 1_000_000) as u32;
            let n = call.ask(Request::SetTimer { id: REORDER_TIMER_ID, millis }, Wait::Debounced);
            assert(n.script(*call, *self)->next =~= dispatch::reorder_soon(
                *old(self),
                elapsed,
                old(call).rest(),
            )->next);
            n
        }
    }

    /// Puts the border back next to its window if it is no longer there.
    pub fn handle_reorder(&mut self, call: &mut Call) -> (n: Next)
        requires
            old(self).well_formed(),
        ensures
            final(self).well_formed(),
            n is Ask,
            n.script(*final(call), *final(self)) == dispatch::handle_reorder(
                *old(self),
                old(call).rest(),
            ),
    {
        match self.config.z_order {
            ZOrderMode::AboveWindow => {
                let n = call.ask(Request::WindowAbove, Wait::Neighbor);
                assert(n.script(*call, *self)->next =~= dispatch::handle_reorder(
                    *old(self),
                    old(call).rest(),
                )->next);
                n
            },
            ZOrderMode::BelowWindow => {
                let n = call.ask(Request::WindowBelow, Wait::Neighbor);
                assert(n.script(*call, *self)->next =~= dispatch::handle_reorder(
                    *old(self),
                    old(call).rest(),
                )->next);
                n
            },
        }
    }

    pub(crate) fn neighbor_known(&mut self, call: &mut Call, r: Reply) -> (n: Next)
        requires
            old(self).well_formed(),
        ensures
            final(self).well_formed(),
            n is Ask,
            n.script(*final(call), *final(self)) == dispatch::neighbor_known(
                *old(self),
                r,
                old(call).rest(),
            ),
    {
        let ghost k = call.rest();
        let in_place: bool = match r {
            Reply::Handle(handle) => handle == self.border_window,
            _ => false,
        };
        if in_place {
            self.note_reorder(call)
        } else {
            call.push(Frame::NoteReorder);
            assert(call.rest() =~= (|s: WindowBorder, o: Outcome| dispatch::note_reorder(s, k)));
            self.update_position(call, Visibility::Keep)
        }
    }

    pub(crate) fn note_reorder(&mut self, call: &mut Call) -> (n: Next)
        requires
            old(self).well_formed(),
        ensures
            final(self).well_formed(),
            n is Ask,
            n.script(*final(call), *final(self)) == dispatch::note_reorder(
                *old(self),
                old(call).rest(),
            ),
    {
        let n = call.ask(Request::Now, Wait::ReorderNoted);
        assert(n.script(*call, *self)->next =~= dispatch::note_reorder(
            *old(self),
            old(call).rest(),
        )->next);
        n
    }

    pub(crate) fn on_timer(&mut self, call: &mut Call, id: usize) -> (n: Next)
        requires
            old(self).well_formed(),
        ensures
            final(self).well_formed(),
            n is Return ==> final(call).frames@ == old(call).frames@,
            n.script(*final(call), *final(self)) == dispatch::on_timer(
                *old(self),
                id,
                old(call).rest(),
            ),
    {
        if id == TIMER_INIT_ID || id == TIMER_UNMINIMIZE_ID || id == TIMER_UNMINIMIZE_SETTLE_ID
            || id == REORDER_TIMER_ID {
            let n = call.ask(Request::KillTimer { id }, Wait::TimerStopped { id });
            assert(n.script(*call, *self)->next =~= dispatch::on_timer(
                *old(self),
                id,
                old(call).rest(),
            )->next);
            n
        } else {
            Next::Return(Ok(false))
        }
    }

    pub(crate) fn timer_stopped(&mut self, call: &mut Call, id: usize) -> (n: Next)
        requires
            old(self).well_formed(),
        ensures
            final(self).well_formed(),
            n is Return ==> final(call).frames@ == old(call).frames@,
            n.script(*final(call), *final(self)) == dispatch::timer_stopped(
                *old(self),
                id,
                old(call).rest(),
            ),
    {
        let ghost k = call.rest();
        if id == TIMER_INIT_ID {
            call.push(Frame::LateInitCompleted);
            assert(call.rest() =~= (
            |s: WindowBorder, o: Outcome| dispatch::late_init_completed(s, o, k)));
            self.complete_init(call)
        } else if id == TIMER_UNMINIMIZE_ID {
            self.complete_unminimize(call)
        } else if id == TIMER_UNMINIMIZE_SETTLE_ID {
            self.handle_unminimize_settle(call)
        } else {
            self.is_debouncing_reorder = false;
            self.consecutive_reorders = 0;
            self.handle_reorder(call)
        }
    }

    pub(crate) fn late_init_completed(&mut self, call: &mut Call, o: Outcome) -> (n: Next)
        requires
            old(self).well_formed(),
        ensures
            final(self).well_formed(),
            n is Return ==> final(call).frames@ == old(call).frames@,
            n.script(*final(call), *final(self)) == dispatch::late_init_completed(
                *old(self),
                o,
                old(call).rest(),
            ),
    {
        match o {
            Ok(_) => {
                self.is_initialized = true;
                Next::Return(Ok(false))
            },
            Err(_) => Next::Return(Ok(false)),
        }
    }

    pub(crate) fn on_foreground(&mut self, call: &mut Call) -> (n: Next)
        requires
            old(self).well_formed(),
        ensures
            final(self).well_formed(),
            n is Ask,
            n.script(*final(call), *final(self)) == dispatch::on_foreground(
                *old(self),
                old(call).rest(),
            ),
    {
        let n = call.ask(Request::WindowExists, Wait::ForegroundExists);
        assert(n.script(*call, *self)->next =~= dispatch::on_foreground(
            *old(self),
            old(call).rest(),
        )->next);
        n
    }

    pub(crate) fn foreground_exists_known(&mut self, call: &mut Call, r: Reply) -> (n: Next)
        requires
            old(self).well_formed(),
        ensures
            final(self).well_formed(),
            n is Return ==> final(call).frames@ == old(call).frames@,
            n.script(*final(call), *final(self)) == dispatch::foreground_exists_known(
                *old(self),
                r,
                old(call).rest(),
            ),
    {
        if !r.flag() {
            self.cleanup_and_queue_exit(call)
        } else if !self.is_initialized {
            Next::Return(Ok(false))
        } else {
            let steps: Vec<Step> = vec![
                Step::UpdateColor(None),
                Step::UpdatePosition(Visibility::Keep),
                Step::Render,
                Step::Tell(Request::SetAnimsTimer),
            ];
            assert(steps@ =~= seq![
                Step::UpdateColor(None),
                Step::UpdatePosition(Visibility::Keep),
                Step::Render,
                Step::Tell(Request::SetAnimsTimer),
            ]);
            self.sequence(call, steps)
        }
    }

    pub(crate) fn on_show_uncloaked(&mut self, call: &mut Call) -> (n: Next)
        requires
            old(self).well_formed(),
        ensures
            final(self).well_formed(),
            n is Ask,
            n.script(*final(call), *final(self)) == dispatch::on_show_uncloaked(
                *old(self),
                old(call).rest(),
            ),
    {
        let n = call.ask(Request::Look, Wait::Shown);
        assert(n.script(*call, *self)->next =~= dispatch::on_show_uncloaked(
            *old(self),
            old(call).rest(),
        )->next);
        n
    }

    pub(crate) fn shown_known(&mut self, call: &mut Call, r: Reply) -> (n: Next)
        requires
            old(self).well_formed(),
        ensures
            final(self).well_formed(),
            n is Return ==> final(call).frames@ == old(call).frames@,
            n.script(*final(call), *final(self)) == dispatch::shown_known(
                *old(self),
                r,
                old(call).rest(),
            ),
    {
        if !r.facts().on_screen() || !self.is_initialized {
            Next::Return(Ok(false))
        } else {
            let n = call.ask(Request::Look, Wait::ShownFacts);
            assert(n.script(*call, *self)->next =~= dispatch::shown_known(
                *old(self),
                r,
                old(call).rest(),
            )->next);
            n
        }
    }

    pub(crate) fn shown_facts_known(&mut self, call: &mut Call, r: Reply) -> (n: Next)
        requires
            old(self).well_formed(),
        ensures
            final(self).well_formed(),
            n is Return ==> weight(final(call).frames@) < weight(old(call).frames@) + 16,
            n.script(*final(call), *final(self)) == dispatch::shown_facts_known(
                *old(self),
                r,
                old(call).rest(),
            ),
    {
        if self.should_show_border(r.facts()) {
            let steps: Vec<Step> = vec![
                Step::UpdateColor(None),
                Step::UpdateWindowRect,
                Step::UpdatePosition(Visibility::Show),
                Step::Render,
                Step::Tell(Request::SetAnimsTimer),
                Step::SetPaused(false),
            ];
            assert(steps@ =~= seq![
                Step::UpdateColor(None),
                Step::UpdateWindowRect,
                Step::UpdatePosition(Visibility::Show),
                Step::Render,
                Step::Tell(Request::SetAnimsTimer),
                Step::SetPaused(false),
            ]);
            self.sequence(call, steps)
        } else {
            let steps: Vec<Step> = vec![
                Step::SetPaused(false),
            ];
            assert(steps@ =~= seq![
                Step::SetPaused(false),
            ]);
            self.sequence(call, steps)
        }
    }

    pub(crate) fn on_hide_cloaked(&mut self, call: &mut Call) -> (n: Next)
        requires
            old(self).well_formed(),
        ensures
            final(self).well_formed(),
            n is Ask,
            n.script(*final(call), *final(self)) == dispatch::on_hide_cloaked(
                *old(self),
                old(call).rest(),
            ),
    {
        let steps: Vec<Step> = vec![
            Step::UpdatePosition(Visibility::Hide),
            Step::Tell(Request::DestroyAnimsTimer),
            Step::SetPaused(true),
        ];
        assert(steps@ =~= seq![
            Step::UpdatePosition(Visibility::Hide),
            Step::Tell(Request::DestroyAnimsTimer),
            Step::SetPaused(true),
        ]);
        self.sequence(call, steps)
    }

    pub(crate) fn on_minimize_start(&mut self, call: &mut Call) -> (n: Next)
        requires
            old(self).well_formed(),
        ensures
            final(self).well_formed(),
            n is Ask,
            n.script(*final(call), *final(self)) == dispatch::on_minimize_start(
                *old(self),
                old(call).rest(),
            ),
    {
        let ghost k = call.rest();
        call.push(Frame::MinimizeHidden);
        assert(call.rest() =~= (|s: WindowBorder, o: Outcome| dispatch::minimize_hidden(s, k)));
        let steps: Vec<Step> = vec![
            Step::UpdatePosition(Visibility::Hide),
        ];
        assert(steps@ =~= seq![
            Step::UpdatePosition(Visibility::Hide),
        ]);
        self.sequence(call, steps)
    }

    pub(crate) fn minimize_hidden(&mut self, call: &mut Call) -> (n: Next)
        requires
            old(self).well_formed(),
        ensures
            final(self).well_formed(),
            n is Ask,
            n.script(*final(call), *final(self)) == dispatch::minimize_hidden(
                *old(self),
                old(call).rest(),
            ),
    {
        if self.is_initialized {
            let steps: Vec<Step> = vec![
                Step::Tell(Request::SetOpacity { active: true, opaque: false }),
                Step::Tell(Request::SetOpacity { active: false, opaque: false }),
                Step::Tell(Request::DestroyAnimsTimer),
                Step::SetPaused(true),
            ];
            assert(steps@ =~= seq![
                Step::Tell(Request::SetOpacity { active: true, opaque: false }),
                Step::Tell(Request::SetOpacity { active: false, opaque: false }),
                Step::Tell(Request::DestroyAnimsTimer),
                Step::SetPaused(true),
            ]);
            self.sequence(call, steps)
        } else {
            let steps: Vec<Step> = vec![
                Step::Tell(Request::DestroyAnimsTimer),
                Step::SetPaused(true),
            ];
            assert(steps@ =~= seq![
                Step::Tell(Request::DestroyAnimsTimer),
                Step::SetPaused(true),
            ]);
            self.sequence(call, steps)
        }
    }

    pub(crate) fn on_minimize_end(&mut self, call: &mut Call) -> (n: Next)
        requires
            old(self).well_formed(),
        ensures
            final(self).well_formed(),
            n is Ask,
            n.script(*final(call), *final(self)) == dispatch::on_minimize_end(
                *old(self),
                old(call).rest(),
            ),
    {
        let n = call.ask(Request::Look, Wait::Restored);
        assert(n.script(*call, *self)->next =~= dispatch::on_minimize_end(
            *old(self),
            old(call).rest(),
        )->next);
        n
    }

    pub(crate) fn restored_known(&mut self, call: &mut Call, r: Reply) -> (n: Next)
        requires
            old(self).well_formed(),
        ensures
            final(self).well_formed(),
            n is Return ==> final(call).frames@ == old(call).frames@,
            n.script(*final(call), *final(self)) == dispatch::restored_known(
                *old(self),
                r,
                old(call).rest(),
            ),
    {
        if !r.facts().on_screen() {
            Next::Return(Ok(false))
        } else if self.config.unminimize_delay > 0 {
            let millis: u32 = timer_millis(self.config.unminimize_delay);
            let n = call.ask(Request::SetTimer { id: TIMER_UNMINIMIZE_ID, millis }, Wait::Ignored);
            assert(n.script(*call, *self)->next =~= dispatch::restored_known(
                *old(self),
                r,
                old(call).rest(),
            )->next);
            n
        } else {
            self.complete_unminimize(call)
        }
    }

    pub(crate) fn on_animate(&mut self, call: &mut Call) -> (n: Next)
        requires
            old(self).well_formed(),
        ensures
            final(self).well_formed(),
            n is Return ==> final(call).frames@ == old(call).frames@,
            n.script(*final(call), *final(self)) == dispatch::on_animate(
                *old(self),
                old(call).rest(),
            ),
    {
        if self.is_paused || !self.is_initialized {
            Next::Return(Ok(false))
        } else {
            let n = call.ask(Request::IsArranged, Wait::AnimateArranged);
            assert(n.script(*call, *self)->next =~= dispatch::on_animate(
                *old(self),
                old(call).rest(),
            )->next);
            n
        }
    }

    pub(crate) fn animate_arranged_known(&mut self, call: &mut Call, r: Reply) -> (n: Next)
        requires
            old(self).well_formed(),
        ensures
            final(self).well_formed(),
            n is Ask,
            n.script(*final(call), *final(self)) == dispatch::animate_arranged_known(
                *old(self),
                r,
                old(call).rest(),
            ),
    {
        self.drawer.fill_outer_corners = r.flag();
        let request = Request::Animate {
            bounds: self.compute_border_bounds(),
            state: self.window_state,
            fill_outer_corners: self.drawer.fill_outer_corners,
        };
        let n = call.ask(request, Wait::Ignored);
        assert(n.script(*call, *self)->next =~= dispatch::animate_arranged_known(
            *old(self),
            r,
            old(call).rest(),
        )->next);
        n
    }

    pub(crate) fn on_komorebi(&mut self, call: &mut Call) -> (n: Next)
        requires
            old(self).well_formed(),
        ensures
            final(self).well_formed(),
            n is Ask,
            n.script(*final(call), *final(self)) == dispatch::on_komorebi(
                *old(self),
                old(call).rest(),
            ),
    {
        let n = call.ask(Request::KomorebiColors, Wait::Colors);
        assert(n.script(*call, *self)->next =~= dispatch::on_komorebi(
            *old(self),
            old(call).rest(),
        )->next);
        n
    }

    pub(crate) fn colors_known(&mut self, call: &mut Call, r: Reply) -> (n: Next)
        requires
            old(self).well_formed(),
        ensures
            final(self).well_formed(),
            n is Return ==> final(call).frames@ == old(call).frames@,
            n.script(*final(call), *final(self)) == dispatch::colors_known(
                *old(self),
                r,
                old(call).rest(),
            ),
    {
        match r {
            Reply::Colors(rules) => {
                if komorebi_enabled(rules) {
                    let n = call.ask(Request::KomorebiFocus, Wait::Focus { rules });
                    assert(n.script(*call, *self)->next =~= dispatch::colors_known(
                        *old(self),
                        r,
                        old(call).rest(),
                    )->next);
                    n
                } else {
                    Next::Return(Ok(false))
                }
            },
            _ => Next::Return(Ok(false)),
        }
    }

    pub(crate) fn focus_known(&mut self, call: &mut Call, rules: ColorRules, r: Reply) -> (n: Next)
        requires
            old(self).well_formed(),
        ensures
            final(self).well_formed(),
            n is Return ==> final(call).frames@ == old(call).frames@,
            n.script(*final(call), *final(self)) == dispatch::focus_known(
                *old(self),
                rules,
                r,
                old(call).rest(),
            ),
    {
        match r.focus() {
            Focus::NoIntegration => Next::Return(Ok(false)),
            Focus::Unknown => self.recolor(call, komorebi_color(rules, WindowKind::Single)),
            Focus::Known(kind) => self.recolor(call, komorebi_color(rules, kind)),
        }
    }

    pub(crate) fn recolor(&mut self, call: &mut Call, source: Option<ColorSource>) -> (n: Next)
        requires
            old(self).well_formed(),
        ensures
            final(self).well_formed(),
            n is Return ==> final(call).frames@ == old(call).frames@,
            n.script(*final(call), *final(self)) == dispatch::recolor(
                *old(self),
                source,
                old(call).rest(),
            ),
    {
        match source {
            Some(source) => {
                let steps: Vec<Step> = vec![
                    Step::UpdateColorBrush { active: true, source },
                    Step::Render,
                ];
                assert(steps@ =~= seq![
                    Step::UpdateColorBrush { active: true, source },
                    Step::Render,
                ]);
                self.sequence(call, steps)
            },
            None => Next::Return(Ok(false)),
        }
    }

    pub(crate) fn on_set_colors(
        &mut self,
        call: &mut Call,
        active: bool,
        inactive: bool,
    ) -> (n: Next)
        requires
            old(self).well_formed(),
        ensures
            final(self).well_formed(),
            n is Ask,
            n.script(*final(call), *final(self)) == dispatch::on_set_colors(
                *old(self),
                active,
                inactive,
                old(call).rest(),
            ),
    {
        let steps = color_steps(active, inactive);
        self.sequence(call, steps)
    }

    pub(crate) fn on_set_width(&mut self, call: &mut Call) -> (n: Next)
        requires
            old(self).well_formed(),
        ensures
            final(self).well_formed(),
            n is Ask,
            n.script(*final(call), *final(self)) == dispatch::on_set_width(
                *old(self),
                old(call).rest(),
            ),
    {
        let n = call.ask(Request::AdoptWidth { dpi: self.current_dpi }, Wait::WidthAdopted);
        assert(n.script(*call, *self)->next =~= dispatch::on_set_width(
            *old(self),
            old(call).rest(),
        )->next);
        n
    }

    pub(crate) fn width_adopted(&mut self, call: &mut Call, r: Reply) -> (n: Next)
        requires
            old(self).well_formed(),
        ensures
            final(self).well_formed(),
            n is Ask,
            n.script(*final(call), *final(self)) == dispatch::width_adopted(
                *old(self),
                r,
                old(call).rest(),
            ),
    {
        match r {
            Reply::StrokeWidth(stroke_width) => {
                self.drawer.stroke_width = stroke_width;
            },
            _ => {},
        }
        let steps: Vec<Step> = vec![
            Step::SyncRadius,
            Step::ResizeRenderer,
            Step::UpdateWindowRect,
            Step::UpdatePosition(Visibility::Keep),
            Step::Render,
        ];
        assert(steps@ =~= seq![
            Step::SyncRadius,
            Step::ResizeRenderer,
            Step::UpdateWindowRect,
            Step::UpdatePosition(Visibility::Keep),
            Step::Render,
        ]);
        self.sequence(call, steps)
    }

    pub(crate) fn on_set_offset(&mut self, call: &mut Call) -> (n: Next)
        requires
            old(self).well_formed(),
        ensures
            final(self).well_formed(),
            n is Ask,
            n.script(*final(call), *final(self)) == dispatch::on_set_offset(
                *old(self),
                old(call).rest(),
            ),
    {
        let n = call.ask(Request::AdoptOffset { dpi: self.current_dpi }, Wait::OffsetAdopted);
        assert(n.script(*call, *self)->next =~= dispatch::on_set_offset(
            *old(self),
            old(call).rest(),
        )->next);
        n
    }

    pub(crate) fn offset_adopted(&mut self, call: &mut Call, r: Reply) -> (n: Next)
        requires
            old(self).well_formed(),
        ensures
            final(self).well_formed(),
            n is Ask,
            n.script(*final(call), *final(self)) == dispatch::offset_adopted(
                *old(self),
                r,
                old(call).rest(),
            ),
    {
        match r {
            Reply::Offset(offset) => {
                self.border_offset = offset;
            },
            _ => {},
        }
        let steps: Vec<Step> = vec![
            Step::ResizeRenderer,
            Step::UpdateWindowRect,
            Step::UpdatePosition(Visibility::Keep),
            Step::Render,
        ];
        assert(steps@ =~= seq![
            Step::ResizeRenderer,
            Step::UpdateWindowRect,
            Step::UpdatePosition(Visibility::Keep),
            Step::Render,
        ]);
        self.sequence(call, steps)
    }

    pub(crate) fn on_set_radius(&mut self, call: &mut Call) -> (n: Next)
        requires
            old(self).well_formed(),
        ensures
            final(self).well_formed(),
            n is Ask,
            n.script(*final(call), *final(self)) == dispatch::on_set_radius(
                *old(self),
                old(call).rest(),
            ),
    {
        let n = call.ask(Request::AdoptRadius, Wait::RadiusAdopted);
        assert(n.script(*call, *self)->next =~= dispatch::on_set_radius(
            *old(self),
            old(call).rest(),
        )->next);
        n
    }

    pub(crate) fn radius_adopted(&mut self, call: &mut Call, r: Reply) -> (n: Next)
        requires
            old(self).well_formed(),
        ensures
            final(self).well_formed(),
            n is Ask,
            n.script(*final(call), *final(self)) == dispatch::radius_adopted(
                *old(self),
                r,
                old(call).rest(),
            ),
    {
        self.config.radius_auto = r.flag();
        let steps: Vec<Step> = vec![
            Step::SyncRadius,
            Step::Render,
        ];
        assert(steps@ =~= seq![
            Step::SyncRadius,
            Step::Render,
        ]);
        self.sequence(call, steps)
    }

    pub(crate) fn on_display_change(&mut self, call: &mut Call) -> (n: Next)
        requires
            old(self).well_formed(),
        ensures
            final(self).well_formed(),
            n is Ask,
            n.script(*final(call), *final(self)) == dispatch::on_display_change(
                *old(self),
                old(call).rest(),
            ),
    {
        let ghost k = call.rest();
        call.push(Frame::DisplayAdapted);
        assert(call.rest() =~= (|s: WindowBorder, o: Outcome| dispatch::display_adapted(s, o, k)));
        let monitor: isize = self.current_monitor;
        self.rescale_border_and_resize_renderer_if_needed(call, monitor)
    }

    pub(crate) fn display_adapted(&mut self, call: &mut Call, o: Outcome) -> (n: Next)
        requires
            old(self).well_formed(),
        ensures
            final(self).well_formed(),
            n is Return ==> final(call).frames@ == old(call).frames@,
            n.script(*final(call), *final(self)) == dispatch::display_adapted(
                *old(self),
                o,
                old(call).rest(),
            ),
    {
        match o {
            Ok(true) => {
                let n = call.ask(Request::BorderVisible, Wait::DisplayVisible);
                assert(n.script(*call, *self)->next =~= dispatch::display_adapted(
                    *old(self),
                    o,
                    old(call).rest(),
                )->next);
                n
            },
            _ => Next::Return(Ok(false)),
        }
    }

    pub(crate) fn display_visible_known(&mut self, call: &mut Call, r: Reply) -> (n: Next)
        requires
            old(self).well_formed(),
        ensures
            final(self).well_formed(),
            n is Return ==> final(call).frames@ == old(call).frames@,
            n.script(*final(call), *final(self)) == dispatch::display_visible_known(
                *old(self),
                r,
                old(call).rest(),
            ),
    {
        if r.flag() {
            let steps: Vec<Step> = vec![
                Step::Render,
            ];
            assert(steps@ =~= seq![
                Step::Render,
            ]);
            self.sequence(call, steps)
        } else {
            Next::Return(Ok(false))
        }
    }

    pub(crate) fn on_dpi_changed(&mut self, call: &mut Call, wparam: usize) -> (n: Next)
        requires
            old(self).well_formed(),
        ensures
            final(self).well_formed(),
            n is Return ==> final(call).frames@ == old(call).frames@,
            n.script(*final(call), *final(self)) == dispatch::on_dpi_changed(
                *old(self),
                wparam,
                old(call).rest(),
            ),
    {
        let ghost k = call.rest();
        let dpi: u32 = loword(wparam);
        if dpi != self.current_dpi {
            self.current_dpi = dpi;
            call.push(Frame::DpiAdapted);
            assert(call.rest() =~= (|s: WindowBorder, o: Outcome| dispatch::dpi_adapted(s, k)));
            self.rescale_border(call, dpi)
        } else {
            Next::Return(Ok(false))
        }
    }

    pub(crate) fn dpi_adapted(&mut self, call: &mut Call) -> (n: Next)
        requires
            old(self).well_formed(),
        ensures
            final(self).well_formed(),
            n is Ask,
            n.script(*final(call), *final(self)) == dispatch::dpi_adapted(
                *old(self),
                old(call).rest(),
            ),
    {
        let steps: Vec<Step> = vec![
            Step::ResizeRenderer,
            Step::Render,
        ];
        assert(steps@ =~= seq![
            Step::ResizeRenderer,
            Step::Render,
        ]);
        self.sequence(call, steps)
    }

    pub(crate) fn on_device_change(&mut self, call: &mut Call, wparam: usize) -> (n: Next)
        requires
            old(self).well_formed(),
        ensures
            final(self).well_formed(),
            n is Return ==> final(call).frames@ == old(call).frames@,
            n.script(*final(call), *final(self)) == dispatch::on_device_change(
                *old(self),
                wparam,
                old(call).rest(),
            ),
    {
        if low32(wparam) == DBT_DEVNODES_CHANGED {
            let n = call.ask(Request::RecreateDevices, Wait::DevicesChecked);
            assert(n.script(*call, *self)->next =~= dispatch::on_device_change(
                *old(self),
                wparam,
                old(call).rest(),
            )->next);
            n
        } else {
            Next::Return(Ok(true))
        }
    }

    pub(crate) fn devices_checked(&mut self, call: &mut Call, r: Reply) -> (n: Next)
        requires
            old(self).well_formed(),
        ensures
            final(self).well_formed(),
            n is Ask,
            n.script(*final(call), *final(self)) == dispatch::devices_checked(
                *old(self),
                r,
                old(call).rest(),
            ),
    {
        match r.result() {
            Ok(_) => self.on_recreate_drawer(call),
            Err(_) => self.cleanup_and_queue_exit(call),
        }
    }

    pub(crate) fn on_recreate_drawer(&mut self, call: &mut Call) -> (n: Next)
        requires
            old(self).well_formed(),
        ensures
            final(self).well_formed(),
            n is Ask,
            n.script(*final(call), *final(self)) == dispatch::on_recreate_drawer(
                *old(self),
                old(call).rest(),
            ),
    {
        let ghost k = call.rest();
        call.push(Frame::DrawerChecked);
        assert(call.rest() =~= (|s: WindowBorder, o: Outcome| dispatch::drawer_checked(s, o, k)));
        self.recreate_drawer_if_needed(call, false)
    }

    pub(crate) fn drawer_checked(&mut self, call: &mut Call, o: Outcome) -> (n: Next)
        requires
            old(self).well_formed(),
        ensures
            final(self).well_formed(),
            n is Return ==> final(call).frames@ == old(call).frames@,
            n.script(*final(call), *final(self)) == dispatch::drawer_checked(
                *old(self),
                o,
                old(call).rest(),
            ),
    {
        match o {
            Ok(_) => Next::Return(Ok(false)),
            Err(_) => self.cleanup_and_queue_exit(call),
        }
    }

    pub(crate) fn on_power_broadcast(&mut self, call: &mut Call, wparam: usize) -> (n: Next)
        requires
            old(self).well_formed(),
        ensures
            final(self).well_formed(),
            n is Return ==> final(call).frames@ == old(call).frames@,
            n.script(*final(call), *final(self)) == dispatch::on_power_broadcast(
                *old(self),
                wparam,
                old(call).rest(),
            ),
    {
        let event: u32 = low32(wparam);
        if event == PBT_APMSUSPEND {
            let steps: Vec<Step> = vec![
                Step::Tell(Request::DestroyAnimsTimer),
                Step::Tell(Request::UninitDrawer),
            ];
            assert(steps@ =~= seq![
                Step::Tell(Request::DestroyAnimsTimer),
                Step::Tell(Request::UninitDrawer),
            ]);
            self.sequence(call, steps)
        } else if event == PBT_APMRESUMESUSPEND || event == PBT_APMRESUMEAUTOMATIC {
            let n = call.ask(Request::Backend, Wait::ResumeBackend);
            assert(n.script(*call, *self)->next =~= dispatch::on_power_broadcast(
                *old(self),
                wparam,
                old(call).rest(),
            )->next);
            n
        } else {
            Next::Return(Ok(false))
        }
    }

    pub(crate) fn resume_backend_known(&mut self, call: &mut Call, r: Reply) -> (n: Next)
        requires
            old(self).well_formed(),
        ensures
            final(self).well_formed(),
            n is Return ==> final(call).frames@ == old(call).frames@,
            n.script(*final(call), *final(self)) == dispatch::resume_backend_known(
                *old(self),
                r,
                old(call).rest(),
            ),
    {
        let ghost k = call.rest();
        match r.backend() {
            RenderBackend::Absent => {
                call.push(Frame::ResumeDrawerMade);
                assert(call.rest() =~= (
                |s: WindowBorder, o: Outcome| dispatch::resume_drawer_made(s, o, k)));
                self.init_drawer(call)
            },
            _ => Next::Return(Ok(false)),
        }
    }

    pub(crate) fn resume_drawer_made(&mut self, call: &mut Call, o: Outcome) -> (n: Next)
        requires
            old(self).well_formed(),
        ensures
            final(self).well_formed(),
            n is Ask,
            n.script(*final(call), *final(self)) == dispatch::resume_drawer_made(
                *old(self),
                o,
                old(call).rest(),
            ),
    {
        let ghost k = call.rest();
        match o {
            Ok(_) => {
                call.push(Frame::Answer(Ok(false)));
                assert(call.rest() =~= (|s: WindowBorder, o: Outcome| k(s, Ok(false))));
                self.init_border(call)
            },
            Err(_) => self.cleanup_and_queue_exit(call),
        }
    }

    /// Begins what a border does on a message.
    pub(crate) fn begin_message(&mut self, call: &mut Call, message: Message) -> (n: Next)
        requires
            old(self).well_formed(),
        ensures
            final(self).well_formed(),
            n is Return ==> weight(final(call).frames@) < weight(old(call).frames@) + 16,
            n.script(*final(call), *final(self)) == dispatch::wnd_proc(
                *old(self),
                message,
                old(call).rest(),
            ),
    {
        match message {
            Message::LocationChange => self.on_location_change(call),
            Message::Reorder => self.on_reorder(call),
            Message::Timer { id } => self.on_timer(call, id),
            Message::Foreground => self.on_foreground(call),
            Message::ShowUncloaked => self.on_show_uncloaked(call),
            Message::HideCloaked => self.on_hide_cloaked(call),
            Message::MinimizeStart => self.on_minimize_start(call),
            Message::MinimizeEnd => self.on_minimize_end(call),
            Message::Animate => self.on_animate(call),
            Message::Komorebi => self.on_komorebi(call),
            Message::SetColors { active, inactive } => self.on_set_colors(call, active, inactive),
            Message::SetWidth => self.on_set_width(call),
            Message::SetOffset => self.on_set_offset(call),
            Message::SetRadius => self.on_set_radius(call),
            Message::Paint => {
                let n = call.ask(Request::ValidatePaint, Wait::Ignored);
                assert(n.script(*call, *self)->next =~= dispatch::wnd_proc(
                    *old(self),
                    message,
                    old(call).rest(),
                )->next);
                n
            },
            Message::Close => {
                let n = call.ask(Request::DestroyWindow, Wait::Ignored);
                assert(n.script(*call, *self)->next =~= dispatch::wnd_proc(
                    *old(self),
                    message,
                    old(call).rest(),
                )->next);
                n
            },
            Message::DisplayChange => self.on_display_change(call),
            Message::DpiChanged { wparam } => self.on_dpi_changed(call, wparam),
            Message::DeviceChange { wparam } => self.on_device_change(call, wparam),
            Message::RecreateDrawer => self.on_recreate_drawer(call),
            Message::PowerBroadcast { wparam } => self.on_power_broadcast(call, wparam),
            Message::WindowPosChange => Next::Return(Ok(false)),
            Message::Other => Next::Return(Ok(true)),
        }
    }
}

} // verus!
