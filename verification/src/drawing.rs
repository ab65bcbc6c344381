//! The work of a border: its place, its colors, its renderer and its scale.
//!
//! Each method does, or begins, what the function of [`crate::behavior`] that has its name says.

use vstd::prelude::*;
use crate::behavior;
use crate::behavior::{Attempt, Step};
use crate::call::{weight, Call, Frame, Next, Wait};
use crate::geometry::{make_room, Appearance, Bounds};
use crate::protocol::{
    ColorSource, ErrorCode, Outcome, Posted, Radius, Reply, Request, Visibility, ZOrderMode,
};
use crate::render_backend::{Luid, RenderBackend};
use crate::window_border::{WindowBorder, WindowState};

verus! {

// Giving up.

impl WindowBorder {
    /// Pauses the border and stops its animations.
    pub fn cleanup(&mut self, call: &mut Call) -> (n: Next)
        requires
            old(self).well_formed(),
        ensures
            final(self).well_formed(),
            n is Ask,
            n.script(*final(call), *final(self)) == behavior::cleanup(
                *old(self),
                old(call).rest(),
            ),
    {
        self.is_paused = true;
        let n = call.ask(Request::DestroyAnimsTimer, Wait::Ignored);
        assert(n.script(*call, *self)->next =~= behavior::cleanup(
            *old(self),
            old(call).rest(),
        )->next);
        n
    }

    /// Cleans up and asks the border window to close, if there is one.
    pub fn cleanup_and_queue_exit(&mut self, call: &mut Call) -> (n: Next)
        requires
            old(self).well_formed(),
        ensures
            final(self).well_formed(),
            n is Ask,
            n.script(*final(call), *final(self)) == behavior::cleanup_and_queue_exit(
                *old(self),
                old(call).rest(),
            ),
    {
        let ghost k = call.rest();
        call.push(Frame::QueueExit);
        assert(call.rest() =~= (|s: WindowBorder, o: Outcome| behavior::queue_exit(s, k)));
        self.cleanup(call)
    }

    pub(crate) fn queue_exit(&mut self, call: &mut Call) -> (n: Next)
        requires
            old(self).well_formed(),
        ensures
            final(self).well_formed(),
            n is Return ==> final(call).frames@ == old(call).frames@,
            n.script(*final(call), *final(self)) == behavior::queue_exit(
                *old(self),
                old(call).rest(),
            ),
    {
        if self.border_window == 0 {
            Next::Return(Ok(false))
        } else {
            let n = call.ask(Request::Post { message: Posted::Close }, Wait::Ignored);
            assert(n.script(*call, *self)->next =~= behavior::queue_exit(
                *old(self),
                old(call).rest(),
            )->next);
            n
        }
    }

    /// Gives up and fails.
    pub(crate) fn give_up(&mut self, call: &mut Call, code: ErrorCode) -> (n: Next)
        requires
            old(self).well_formed(),
        ensures
            final(self).well_formed(),
            n is Ask,
            n.script(*final(call), *final(self)) == behavior::give_up(
                *old(self),
                code,
                old(call).rest(),
            ),
    {
        let ghost k = call.rest();
        call.push(Frame::Answer(Err(code)));
        assert(call.rest() =~= (|s: WindowBorder, o: Outcome| k(s, Err(code))));
        self.cleanup_and_queue_exit(call)
    }
}

// Place.

impl WindowBorder {
    /// Finds out where the window is, and makes room for the border around it. A border that cannot
    /// find that out gives up.
    pub fn update_window_rect(&mut self, call: &mut Call) -> (n: Next)
        requires
            old(self).well_formed(),
        ensures
            final(self).well_formed(),
            n is Ask,
            n.script(*final(call), *final(self)) == behavior::update_window_rect(
                *old(self),
                old(call).rest(),
            ),
    {
        let n = call.ask(Request::FrameBounds, Wait::FrameBounds);
        assert(n.script(*call, *self)->next =~= behavior::update_window_rect(
            *old(self),
            old(call).rest(),
        )->next);
        n
    }

    pub(crate) fn frame_known(&mut self, call: &mut Call, r: Reply) -> (n: Next)
        requires
            old(self).well_formed(),
            old(self).can_take(r),
        ensures
            final(self).well_formed(),
            n is Return ==> final(call).frames@ == old(call).frames@,
            n.script(*final(call), *final(self)) == behavior::frame_known(
                *old(self),
                r,
                old(call).rest(),
            ),
    {
        match r {
            Reply::Frame(frame) => {
                self.window_rect = make_room(frame, self.current_appearance());
                Next::Return(Ok(false))
            },
            _ => self.give_up(call, r.failure()),
        }
    }

    /// Moves the border window to its place, next to the tracked window in the order of windows.
    pub fn update_position(&mut self, call: &mut Call, visibility: Visibility) -> (n: Next)
        requires
            old(self).well_formed(),
        ensures
            final(self).well_formed(),
            n is Ask,
            n.script(*final(call), *final(self)) == behavior::update_position(
                *old(self),
                visibility,
                old(call).rest(),
            ),
    {
        match self.config.z_order {
            ZOrderMode::AboveWindow => {
                let n = call.ask(Request::WindowAbove, Wait::Above { visibility });
                assert(n.script(*call, *self)->next =~= behavior::update_position(
                    *old(self),
                    visibility,
                    old(call).rest(),
                )->next);
                n
            },
            ZOrderMode::BelowWindow => {
                let window: isize = self.tracking_window;
                self.place(call, window, visibility, false)
            },
        }
    }

    pub(crate) fn above_known(
        &mut self,
        call: &mut Call,
        visibility: Visibility,
        r: Reply,
    ) -> (n: Next)
        requires
            old(self).well_formed(),
        ensures
            final(self).well_formed(),
            n is Ask,
            n.script(*final(call), *final(self)) == behavior::above_known(
                *old(self),
                visibility,
                r,
                old(call).rest(),
            ),
    {
        let above: isize = r.handle();
        let keep_z_order = match r {
            Reply::Handle(handle) => handle == self.border_window,
            _ => false,
        };
        self.place(call, above, visibility, keep_z_order)
    }

    pub(crate) fn place(
        &mut self,
        call: &mut Call,
        insert_after: isize,
        visibility: Visibility,
        keep_z_order: bool,
    ) -> (n: Next)
        requires
            old(self).well_formed(),
        ensures
            final(self).well_formed(),
            n is Ask,
            n.script(*final(call), *final(self)) == behavior::place(
                *old(self),
                insert_after,
                visibility,
                keep_z_order,
                old(call).rest(),
            ),
    {
        let request = self.set_pos(Some(insert_after), visibility, keep_z_order);
        let n = call.ask(request, Wait::Placed { visibility });
        assert(n.script(*call, *self)->next =~= behavior::place(
            *old(self),
            insert_after,
            visibility,
            keep_z_order,
            old(call).rest(),
        )->next);
        n
    }

    pub(crate) fn placed(&mut self, call: &mut Call, visibility: Visibility, r: Reply) -> (n: Next)
        requires
            old(self).well_formed(),
        ensures
            final(self).well_formed(),
            n is Return ==> final(call).frames@ == old(call).frames@,
            n.script(*final(call), *final(self)) == behavior::placed(
                *old(self),
                visibility,
                r,
                old(call).rest(),
            ),
    {
        match r {
            Reply::Failed(ErrorCode::AccessDenied) => {
                let request = self.set_pos(None, visibility, true);
                let n = call.ask(request, Wait::Positioned);
                assert(n.script(*call, *self)->next =~= behavior::placed(
                    *old(self),
                    visibility,
                    r,
                    old(call).rest(),
                )->next);
                n
            },
            _ => self.positioned(call, r),
        }
    }

    pub(crate) fn positioned(&mut self, call: &mut Call, r: Reply) -> (n: Next)
        requires
            old(self).well_formed(),
        ensures
            final(self).well_formed(),
            n is Return ==> final(call).frames@ == old(call).frames@,
            n.script(*final(call), *final(self)) == behavior::positioned(
                *old(self),
                r,
                old(call).rest(),
            ),
    {
        match r.result() {
            Ok(done) => Next::Return(Ok(done)),
            Err(code) => self.give_up(call, code),
        }
    }

    /// The request that moves the border window to its place.
    pub fn set_pos(
        &self,
        insert_after: Option<isize>,
        visibility: Visibility,
        keep_z_order: bool,
    ) -> (r: Request)
        requires
            self.well_formed(),
        ensures
            r == behavior::set_pos(*self, insert_after, visibility, keep_z_order),
    {
        Request::SetWindowPos {
            insert_after,
            x: self.window_rect.left,
            y: self.window_rect.top,
            cx: self.window_rect.width(),
            cy: self.window_rect.height(),
            visibility,
            keep_z_order,
        }
    }
}

// Color.

impl WindowBorder {
    /// Finds out whether the window has the focus, and shows it in the brushes. A fade does so by
    /// itself, unless there was no delay in which it could have been seen.
    pub fn update_color(&mut self, call: &mut Call, check_delay: Option<u64>) -> (n: Next)
        requires
            old(self).well_formed(),
        ensures
            final(self).well_formed(),
            n is Ask,
            n.script(*final(call), *final(self)) == behavior::update_color(
                *old(self),
                check_delay,
                old(call).rest(),
            ),
    {
        let n = call.ask(Request::ActiveWindow, Wait::Active { check_delay });
        assert(n.script(*call, *self)->next =~= behavior::update_color(
            *old(self),
            check_delay,
            old(call).rest(),
        )->next);
        n
    }

    pub(crate) fn active_known(
        &mut self,
        call: &mut Call,
        check_delay: Option<u64>,
        r: Reply,
    ) -> (n: Next)
        requires
            old(self).well_formed(),
        ensures
            final(self).well_formed(),
            n is Ask,
            n.script(*final(call), *final(self)) == behavior::active_known(
                *old(self),
                check_delay,
                r,
                old(call).rest(),
            ),
    {
        let window: isize = self.tracking_window;
        self.window_state.update(window, r.handle());
        let n = call.ask(Request::HasFade { state: self.window_state }, Wait::Fade { check_delay });
        assert(n.script(*call, *self)->next =~= behavior::active_known(
            *old(self),
            check_delay,
            r,
            old(call).rest(),
        )->next);
        n
    }

    pub(crate) fn fade_known(
        &mut self,
        call: &mut Call,
        check_delay: Option<u64>,
        r: Reply,
    ) -> (n: Next)
        requires
            old(self).well_formed(),
        ensures
            final(self).well_formed(),
            n is Return ==> final(call).frames@ == old(call).frames@,
            n.script(*final(call), *final(self)) == behavior::fade_known(
                *old(self),
                check_delay,
                r,
                old(call).rest(),
            ),
    {
        let ghost k = call.rest();
        if !r.flag() {
            self.update_brush_opacities(call)
        } else {
            match check_delay {
                Some(0) => {
                    call.push(Frame::MatchFade);
                    assert(call.rest() =~= (
                    |s: WindowBorder, o: Outcome| behavior::match_fade(s, k)));
                    self.update_brush_opacities(call)
                },
                _ => Next::Return(Ok(false)),
            }
        }
    }

    pub(crate) fn match_fade(&mut self, call: &mut Call) -> (n: Next)
        requires
            old(self).well_formed(),
        ensures
            final(self).well_formed(),
            n is Ask,
            n.script(*final(call), *final(self)) == behavior::match_fade(
                *old(self),
                old(call).rest(),
            ),
    {
        let n = call.ask(Request::UpdateFadeProgress { state: self.window_state }, Wait::Ignored);
        assert(n.script(*call, *self)->next =~= behavior::match_fade(
            *old(self),
            old(call).rest(),
        )->next);
        n
    }

    /// Makes the brush of the current state opaque and the other one invisible.
    pub fn update_brush_opacities(&mut self, call: &mut Call) -> (n: Next)
        requires
            old(self).well_formed(),
        ensures
            final(self).well_formed(),
            n is Ask,
            n.script(*final(call), *final(self)) == behavior::update_brush_opacities(
                *old(self),
                old(call).rest(),
            ),
    {
        let active: bool = match self.window_state {
            WindowState::Active => true,
            WindowState::Inactive => false,
        };
        let n = call.ask(
            Request::SetOpacity { active, opaque: true },
            Wait::HideBrush { active: !active },
        );
        assert(n.script(*call, *self)->next =~= behavior::update_brush_opacities(
            *old(self),
            old(call).rest(),
        )->next);
        n
    }

    pub(crate) fn hide_brush(&mut self, call: &mut Call, active: bool) -> (n: Next)
        requires
            old(self).well_formed(),
        ensures
            final(self).well_formed(),
            n is Ask,
            n.script(*final(call), *final(self)) == behavior::hide_brush(
                *old(self),
                active,
                old(call).rest(),
            ),
    {
        let n = call.ask(Request::SetOpacity { active, opaque: false }, Wait::Ignored);
        assert(n.script(*call, *self)->next =~= behavior::hide_brush(
            *old(self),
            active,
            old(call).rest(),
        )->next);
        n
    }

    /// Puts a new color in one of the brushes, which keeps its opacity and its transform.
    pub fn update_color_brush(
        &mut self,
        call: &mut Call,
        active: bool,
        source: ColorSource,
    ) -> (n: Next)
        requires
            old(self).well_formed(),
        ensures
            final(self).well_formed(),
            n is Ask,
            n.script(*final(call), *final(self)) == behavior::update_color_brush(
                *old(self),
                active,
                source,
                old(call).rest(),
            ),
    {
        let bounds = self.compute_border_bounds();
        let n = call.ask(
            Request::ReplaceBrush { active, source },
            Wait::BrushReplaced { active, bounds },
        );
        assert(n.script(*call, *self)->next =~= behavior::update_color_brush(
            *old(self),
            active,
            source,
            old(call).rest(),
        )->next);
        n
    }

    pub(crate) fn brush_replaced(
        &mut self,
        call: &mut Call,
        active: bool,
        bounds: Bounds,
    ) -> (n: Next)
        requires
            old(self).well_formed(),
        ensures
            final(self).well_formed(),
            n is Ask,
            n.script(*final(call), *final(self)) == behavior::brush_replaced(
                *old(self),
                active,
                bounds,
                old(call).rest(),
            ),
    {
        let n = call.ask(Request::Backend, Wait::BrushBackend { active, bounds });
        assert(n.script(*call, *self)->next =~= behavior::brush_replaced(
            *old(self),
            active,
            bounds,
            old(call).rest(),
        )->next);
        n
    }

    pub(crate) fn brush_backend_known(
        &mut self,
        call: &mut Call,
        active: bool,
        bounds: Bounds,
        r: Reply,
    ) -> (n: Next)
        requires
            old(self).well_formed(),
        ensures
            final(self).well_formed(),
            n is Return ==> final(call).frames@ == old(call).frames@,
            n.script(*final(call), *final(self)) == behavior::brush_backend_known(
                *old(self),
                active,
                bounds,
                r,
                old(call).rest(),
            ),
    {
        match r.backend() {
            RenderBackend::Absent => Next::Return(Ok(false)),
            _ => {
                let n = call.ask(Request::InitBrush { active, bounds }, Wait::Ignored);
                assert(n.script(*call, *self)->next =~= behavior::brush_backend_known(
                    *old(self),
                    active,
                    bounds,
                    r,
                    old(call).rest(),
                )->next);
                n
            },
        }
    }
}

// Renderer.

impl WindowBorder {
    /// Finds out whether the renderer has to be resized. Fails without a renderer.
    pub fn needs_renderer_resize(&mut self, call: &mut Call) -> (n: Next)
        requires
            old(self).well_formed(),
        ensures
            final(self).well_formed(),
            n is Ask,
            n.script(*final(call), *final(self)) == behavior::needs_renderer_resize(
                *old(self),
                old(call).rest(),
            ),
    {
        let n = call.ask(Request::Backend, Wait::ResizeBackend);
        assert(n.script(*call, *self)->next =~= behavior::needs_renderer_resize(
            *old(self),
            old(call).rest(),
        )->next);
        n
    }

    pub(crate) fn resize_backend_known(&mut self, call: &mut Call, r: Reply) -> (n: Next)
        requires
            old(self).well_formed(),
        ensures
            final(self).well_formed(),
            n is Return ==> final(call).frames@ == old(call).frames@,
            n.script(*final(call), *final(self)) == behavior::resize_backend_known(
                *old(self),
                r,
                old(call).rest(),
            ),
    {
        match r.backend() {
            RenderBackend::Legacy(_) => {
                let n = call.ask(Request::TargetPixelSize, Wait::TargetSize);
                assert(n.script(*call, *self)->next =~= behavior::resize_backend_known(
                    *old(self),
                    r,
                    old(call).rest(),
                )->next);
                n
            },
            RenderBackend::V2(backend) => Next::Return(Ok(self.outgrows(backend.surface_size))),
            RenderBackend::Absent => Next::Return(Err(ErrorCode::Uninit)),
        }
    }

    /// Tries the work once.
    pub(crate) fn attempt(&mut self, call: &mut Call, work: Attempt) -> (n: Next)
        requires
            old(self).well_formed(),
        ensures
            final(self).well_formed(),
            n is Ask,
            n.script(*final(call), *final(self)) == behavior::attempt(
                *old(self),
                work,
                old(call).rest(),
            ),
    {
        match work {
            Attempt::InitDrawer => {
                let size = self.calculate_target_renderer_size();
                let bounds = self.compute_border_bounds();
                let backend = self.config.render_backend;
                let n = call.ask(Request::InitDrawer { size, bounds, backend }, Wait::Result);
                assert(n.script(*call, *self)->next =~= behavior::attempt(
                    *old(self),
                    work,
                    old(call).rest(),
                )->next);
                n
            },
            Attempt::ResizeRenderer => self.raw_resize_renderer(call),
            Attempt::Render => self.raw_render(call),
        }
    }

    pub(crate) fn raw_resize_renderer(&mut self, call: &mut Call) -> (n: Next)
        requires
            old(self).well_formed(),
        ensures
            final(self).well_formed(),
            n is Ask,
            n.script(*final(call), *final(self)) == behavior::raw_resize_renderer(
                *old(self),
                old(call).rest(),
            ),
    {
        let size = self.calculate_target_renderer_size();
        let n = call.ask(Request::ResizeRenderer { size }, Wait::Result);
        assert(n.script(*call, *self)->next =~= behavior::raw_resize_renderer(
            *old(self),
            old(call).rest(),
        )->next);
        n
    }

    pub(crate) fn raw_render(&mut self, call: &mut Call) -> (n: Next)
        requires
            old(self).well_formed(),
        ensures
            final(self).well_formed(),
            n is Ask,
            n.script(*final(call), *final(self)) == behavior::raw_render(
                *old(self),
                old(call).rest(),
            ),
    {
        let ghost k = call.rest();
        call.push(Frame::RenderNeed);
        assert(call.rest() =~= (
        |s: WindowBorder, o: Outcome| behavior::render_need_known(s, o, k)));
        self.needs_renderer_resize(call)
    }

    pub(crate) fn render_need_known(&mut self, call: &mut Call, o: Outcome) -> (n: Next)
        requires
            old(self).well_formed(),
        ensures
            final(self).well_formed(),
            n is Ask,
            n.script(*final(call), *final(self)) == behavior::render_need_known(
                *old(self),
                o,
                old(call).rest(),
            ),
    {
        let ghost k = call.rest();
        match o {
            Ok(true) => {
                call.push(Frame::RenderReady);
                assert(call.rest() =~= (
                |s: WindowBorder, o: Outcome| behavior::render_ready(s, o, k)));
                self.raw_resize_renderer(call)
            },
            _ => {
                let n = call.ask(Request::Backend, Wait::RenderBackend);
                assert(n.script(*call, *self)->next =~= behavior::render_need_known(
                    *old(self),
                    o,
                    old(call).rest(),
                )->next);
                n
            },
        }
    }

    pub(crate) fn render_backend_known(&mut self, call: &mut Call, r: Reply) -> (n: Next)
        requires
            old(self).well_formed(),
        ensures
            final(self).well_formed(),
            n is Ask,
            n.script(*final(call), *final(self)) == behavior::render_backend_known(
                *old(self),
                r,
                old(call).rest(),
            ),
    {
        match r.backend() {
            RenderBackend::Legacy(_) => {
                let size = self.calculate_target_legacy_renderer_size();
                let n = call.ask(Request::ResizeTarget { size }, Wait::TargetResized);
                assert(n.script(*call, *self)->next =~= behavior::render_backend_known(
                    *old(self),
                    r,
                    old(call).rest(),
                )->next);
                n
            },
            _ => self.render_ready(call, Ok(false)),
        }
    }

    pub(crate) fn render_ready(&mut self, call: &mut Call, o: Outcome) -> (n: Next)
        requires
            old(self).well_formed(),
        ensures
            final(self).well_formed(),
            n is Return ==> final(call).frames@ == old(call).frames@,
            o is Ok ==> n is Ask,
            n.script(*final(call), *final(self)) == behavior::render_ready(
                *old(self),
                o,
                old(call).rest(),
            ),
    {
        match o {
            Ok(_) => {
                let n = call.ask(Request::IsArranged, Wait::Draw);
                assert(n.script(*call, *self)->next =~= behavior::render_ready(
                    *old(self),
                    o,
                    old(call).rest(),
                )->next);
                n
            },
            Err(code) => Next::Return(Err(code)),
        }
    }

    pub(crate) fn draw(&mut self, call: &mut Call, r: Reply) -> (n: Next)
        requires
            old(self).well_formed(),
        ensures
            final(self).well_formed(),
            n is Ask,
            n.script(*final(call), *final(self)) == behavior::draw(
                *old(self),
                r,
                old(call).rest(),
            ),
    {
        self.drawer.fill_outer_corners = r.flag();
        let request = Request::Render {
            bounds: self.compute_border_bounds(),
            state: self.window_state,
            fill_outer_corners: self.drawer.fill_outer_corners,
        };
        let n = call.ask(request, Wait::Result);
        assert(n.script(*call, *self)->next =~= behavior::draw(
            *old(self),
            r,
            old(call).rest(),
        )->next);
        n
    }

    /// Tries the work; where it fails, handles the error, and tries once more if that succeeds.
    pub(crate) fn with_recovery(
        &mut self,
        call: &mut Call,
        work: Attempt,
        nested: bool,
    ) -> (n: Next)
        requires
            old(self).well_formed(),
        ensures
            final(self).well_formed(),
            n is Ask,
            n.script(*final(call), *final(self)) == behavior::with_recovery(
                *old(self),
                work,
                nested,
                old(call).rest(),
            ),
    {
        let ghost k = call.rest();
        call.push(Frame::Attempted { work, nested });
        assert(call.rest() =~= behavior::on_attempted(work, nested, k));
        self.attempt(call, work)
    }

    pub(crate) fn attempted(
        &mut self,
        call: &mut Call,
        work: Attempt,
        nested: bool,
        o: Outcome,
    ) -> (n: Next)
        requires
            old(self).well_formed(),
        ensures
            final(self).well_formed(),
            n is Return ==> weight(final(call).frames@) <= weight(old(call).frames@) + 16,
            n.script(*final(call), *final(self)) == behavior::attempted(
                *old(self),
                work,
                nested,
                o,
                old(call).rest(),
            ),
    {
        let ghost k = call.rest();
        match o {
            Ok(done) => Next::Return(Ok(done)),
            Err(code) => {
                call.push(Frame::Recovered { work });
                assert(call.rest() =~= (
                |s: WindowBorder, o: Outcome| behavior::recovered(s, work, o, k)));
                self.handle_directx_errors(call, code, nested)
            },
        }
    }

    pub(crate) fn recovered(&mut self, call: &mut Call, work: Attempt, o: Outcome) -> (n: Next)
        requires
            old(self).well_formed(),
        ensures
            final(self).well_formed(),
            n is Return ==> final(call).frames@ == old(call).frames@,
            n.script(*final(call), *final(self)) == behavior::recovered(
                *old(self),
                work,
                o,
                old(call).rest(),
            ),
    {
        let ghost k = call.rest();
        match o {
            Ok(_) => {
                call.push(Frame::AttemptedAgain);
                assert(call.rest() =~= (
                |s: WindowBorder, o: Outcome| behavior::attempted_again(s, o, k)));
                self.attempt(call, work)
            },
            Err(code) => self.report(call, code),
        }
    }

    pub(crate) fn attempted_again(&mut self, call: &mut Call, o: Outcome) -> (n: Next)
        requires
            old(self).well_formed(),
        ensures
            final(self).well_formed(),
            n is Return ==> final(call).frames@ == old(call).frames@,
            n.script(*final(call), *final(self)) == behavior::attempted_again(
                *old(self),
                o,
                old(call).rest(),
            ),
    {
        match o {
            Ok(done) => Next::Return(Ok(done)),
            Err(code) => self.report(call, code),
        }
    }

    pub(crate) fn report(&mut self, call: &mut Call, code: ErrorCode) -> (n: Next)
        requires
            old(self).well_formed(),
        ensures
            final(self).well_formed(),
            n is Return ==> final(call).frames@ == old(call).frames@,
            n.script(*final(call), *final(self)) == behavior::report(
                *old(self),
                code,
                old(call).rest(),
            ),
    {
        if code.is_passing() {
            Next::Return(Err(code))
        } else {
            self.give_up(call, code)
        }
    }

    /// Handles a failure of the renderer. Where the adapter changed, the devices and the renderer
    /// are made again, unless a recovery is going on already; something that does not exist yet is
    /// worth another try; anything else is final.
    pub fn handle_directx_errors(
        &mut self,
        call: &mut Call,
        code: ErrorCode,
        nested: bool,
    ) -> (n: Next)
        requires
            old(self).well_formed(),
        ensures
            final(self).well_formed(),
            n is Return ==> final(call).frames@ == old(call).frames@,
            n.script(*final(call), *final(self)) == behavior::handle_directx_errors(
                *old(self),
                code,
                nested,
                old(call).rest(),
            ),
    {
        match code {
            ErrorCode::RecreateTarget | ErrorCode::DeviceRemoved => {
                if nested {
                    Next::Return(Err(ErrorCode::Reentrancy))
                } else {
                    let n = call.ask(Request::EnterRecovery, Wait::RecoveryEntered);
                    assert(n.script(*call, *self)->next =~= behavior::handle_directx_errors(
                        *old(self),
                        code,
                        nested,
                        old(call).rest(),
                    )->next);
                    n
                }
            },
            ErrorCode::Uninit => Next::Return(Ok(false)),
            _ => Next::Return(Err(ErrorCode::Failed)),
        }
    }

    pub(crate) fn recovery_entered(&mut self, call: &mut Call, r: Reply) -> (n: Next)
        requires
            old(self).well_formed(),
        ensures
            final(self).well_formed(),
            n is Return ==> final(call).frames@ == old(call).frames@,
            n.script(*final(call), *final(self)) == behavior::recovery_entered(
                *old(self),
                r,
                old(call).rest(),
            ),
    {
        if r.flag() {
            let n = call.ask(Request::RecreateDevices, Wait::DevicesRecreated);
            assert(n.script(*call, *self)->next =~= behavior::recovery_entered(
                *old(self),
                r,
                old(call).rest(),
            )->next);
            n
        } else {
            Next::Return(Err(ErrorCode::Reentrancy))
        }
    }

    pub(crate) fn devices_recreated(&mut self, call: &mut Call, r: Reply) -> (n: Next)
        requires
            old(self).well_formed(),
        ensures
            final(self).well_formed(),
            n is Ask,
            n.script(*final(call), *final(self)) == behavior::devices_recreated(
                *old(self),
                r,
                old(call).rest(),
            ),
    {
        let ghost k = call.rest();
        match r.result() {
            Ok(_) => {
                call.push(Frame::LeaveRecovery);
                assert(call.rest() =~= (
                |s: WindowBorder, o: Outcome| behavior::leave_recovery(s, o, k)));
                self.recreate_drawer_if_needed(call, true)
            },
            Err(code) => self.leave_recovery(call, Err(code)),
        }
    }

    pub(crate) fn leave_recovery(&mut self, call: &mut Call, o: Outcome) -> (n: Next)
        requires
            old(self).well_formed(),
        ensures
            final(self).well_formed(),
            n is Ask,
            n.script(*final(call), *final(self)) == behavior::leave_recovery(
                *old(self),
                o,
                old(call).rest(),
            ),
    {
        let n = call.ask(Request::LeaveRecovery, Wait::Answer(o));
        assert(n.script(*call, *self)->next =~= behavior::leave_recovery(
            *old(self),
            o,
            old(call).rest(),
        )->next);
        n
    }

    /// Makes the renderer again if it is not, or no longer, on the right adapter: a composition
    /// surface has to be on the adapter that the system prefers, a render target only on one that
    /// works.
    pub fn recreate_drawer_if_needed(&mut self, call: &mut Call, nested: bool) -> (n: Next)
        requires
            old(self).well_formed(),
        ensures
            final(self).well_formed(),
            n is Ask,
            n.script(*final(call), *final(self)) == behavior::recreate_drawer_if_needed(
                *old(self),
                nested,
                old(call).rest(),
            ),
    {
        let n = call.ask(Request::Backend, Wait::RecreateBackend { nested });
        assert(n.script(*call, *self)->next =~= behavior::recreate_drawer_if_needed(
            *old(self),
            nested,
            old(call).rest(),
        )->next);
        n
    }

    pub(crate) fn recreate_backend_known(
        &mut self,
        call: &mut Call,
        nested: bool,
        r: Reply,
    ) -> (n: Next)
        requires
            old(self).well_formed(),
        ensures
            final(self).well_formed(),
            n is Ask,
            n.script(*final(call), *final(self)) == behavior::recreate_backend_known(
                *old(self),
                nested,
                r,
                old(call).rest(),
            ),
    {
        match r.backend() {
            RenderBackend::V2(backend) => {
                let n = call.ask(
                    Request::PrimaryAdapter,
                    Wait::Adapter { nested, luid: backend.adapter_luid },
                );
                assert(n.script(*call, *self)->next =~= behavior::recreate_backend_known(
                    *old(self),
                    nested,
                    r,
                    old(call).rest(),
                )->next);
                n
            },
            RenderBackend::Legacy(_) => {
                let n = call.ask(Request::ProbeTarget, Wait::Probe { nested });
                assert(n.script(*call, *self)->next =~= behavior::recreate_backend_known(
                    *old(self),
                    nested,
                    r,
                    old(call).rest(),
                )->next);
                n
            },
            RenderBackend::Absent => self.recreate_drawer(call, nested),
        }
    }

    pub(crate) fn adapter_known(
        &mut self,
        call: &mut Call,
        nested: bool,
        luid: Luid,
        r: Reply,
    ) -> (n: Next)
        requires
            old(self).well_formed(),
        ensures
            final(self).well_formed(),
            n is Return ==> final(call).frames@ == old(call).frames@,
            n.script(*final(call), *final(self)) == behavior::adapter_known(
                *old(self),
                nested,
                luid,
                r,
                old(call).rest(),
            ),
    {
        match r {
            Reply::Adapter(primary) => {
                if primary != luid {
                    self.recreate_drawer(call, nested)
                } else {
                    Next::Return(Ok(false))
                }
            },
            _ => Next::Return(Err(r.failure())),
        }
    }

    pub(crate) fn target_probed(&mut self, call: &mut Call, nested: bool, r: Reply) -> (n: Next)
        requires
            old(self).well_formed(),
        ensures
            final(self).well_formed(),
            n is Return ==> final(call).frames@ == old(call).frames@,
            n.script(*final(call), *final(self)) == behavior::target_probed(
                *old(self),
                nested,
                r,
                old(call).rest(),
            ),
    {
        match r.result() {
            Err(_) => self.recreate_drawer(call, nested),
            Ok(_) => Next::Return(Ok(false)),
        }
    }

    pub(crate) fn recreate_drawer(&mut self, call: &mut Call, nested: bool) -> (n: Next)
        requires
            old(self).well_formed(),
        ensures
            final(self).well_formed(),
            n is Ask,
            n.script(*final(call), *final(self)) == behavior::recreate_drawer(
                *old(self),
                nested,
                old(call).rest(),
            ),
    {
        let ghost k = call.rest();
        call.push(Frame::DrawerRecreated { nested });
        assert(call.rest() =~= behavior::on_drawer_recreated(nested, k));
        self.with_recovery(call, Attempt::InitDrawer, nested)
    }

    pub(crate) fn drawer_recreated(
        &mut self,
        call: &mut Call,
        nested: bool,
        o: Outcome,
    ) -> (n: Next)
        requires
            old(self).well_formed(),
        ensures
            final(self).well_formed(),
            n is Return ==> final(call).frames@ == old(call).frames@,
            n.script(*final(call), *final(self)) == behavior::drawer_recreated(
                *old(self),
                nested,
                o,
                old(call).rest(),
            ),
    {
        let ghost k = call.rest();
        match o {
            Ok(_) => {
                call.push(Frame::RenderAgain { nested });
                assert(call.rest() =~= behavior::on_recolored(nested, k));
                self.update_color(call, None)
            },
            Err(code) => Next::Return(Err(code)),
        }
    }

    /// Makes the drawer, for a renderer of the size that the border needs.
    pub fn init_drawer(&mut self, call: &mut Call) -> (n: Next)
        requires
            old(self).well_formed(),
        ensures
            final(self).well_formed(),
            n is Ask,
            n.script(*final(call), *final(self)) == behavior::init_drawer(
                *old(self),
                old(call).rest(),
            ),
    {
        self.with_recovery(call, Attempt::InitDrawer, false)
    }

    /// Resizes the renderer.
    pub fn resize_renderer(&mut self, call: &mut Call) -> (n: Next)
        requires
            old(self).well_formed(),
        ensures
            final(self).well_formed(),
            n is Ask,
            n.script(*final(call), *final(self)) == behavior::resize_renderer(
                *old(self),
                old(call).rest(),
            ),
    {
        self.with_recovery(call, Attempt::ResizeRenderer, false)
    }

    /// Draws the border, after the renderer was given the size that it needs.
    pub fn render(&mut self, call: &mut Call) -> (n: Next)
        requires
            old(self).well_formed(),
        ensures
            final(self).well_formed(),
            n is Ask,
            n.script(*final(call), *final(self)) == behavior::render(
                *old(self),
                old(call).rest(),
            ),
    {
        self.with_recovery(call, Attempt::Render, false)
    }
}

// Scale.

impl WindowBorder {
    /// Gives the corners their radius: none where it is automatic and the window is snapped, and
    /// then nothing else changes it; the configured one otherwise. The flag of the outcome says
    /// whether the radius was changed.
    pub fn sync_border_radius(&mut self, call: &mut Call) -> (n: Next)
        requires
            old(self).well_formed(),
        ensures
            final(self).well_formed(),
            n is Ask,
            n.script(*final(call), *final(self)) == behavior::sync_border_radius(
                *old(self),
                old(call).rest(),
            ),
    {
        let n = call.ask(Request::IsArranged, Wait::RadiusArranged);
        assert(n.script(*call, *self)->next =~= behavior::sync_border_radius(
            *old(self),
            old(call).rest(),
        )->next);
        n
    }

    pub(crate) fn radius_arranged_known(&mut self, call: &mut Call, r: Reply) -> (n: Next)
        requires
            old(self).well_formed(),
        ensures
            final(self).well_formed(),
            n is Ask,
            n.script(*final(call), *final(self)) == behavior::radius_arranged_known(
                *old(self),
                r,
                old(call).rest(),
            ),
    {
        if self.config.radius_auto && r.flag() {
            let n = call.ask(
                Request::RadiusDiffers { radius: Radius::Square },
                Wait::SquareDiffers,
            );
            assert(n.script(*call, *self)->next =~= behavior::radius_arranged_known(
                *old(self),
                r,
                old(call).rest(),
            )->next);
            n
        } else {
            let n = call.ask(Request::UnlockRadius, Wait::RadiusUnlocked);
            assert(n.script(*call, *self)->next =~= behavior::radius_arranged_known(
                *old(self),
                r,
                old(call).rest(),
            )->next);
            n
        }
    }

    pub(crate) fn square_differs_known(&mut self, call: &mut Call, r: Reply) -> (n: Next)
        requires
            old(self).well_formed(),
        ensures
            final(self).well_formed(),
            n is Ask,
            n.script(*final(call), *final(self)) == behavior::square_differs_known(
                *old(self),
                r,
                old(call).rest(),
            ),
    {
        if r.flag() {
            let n = call.ask(Request::SetRadius { radius: Radius::Square }, Wait::SquareSet);
            assert(n.script(*call, *self)->next =~= behavior::square_differs_known(
                *old(self),
                r,
                old(call).rest(),
            )->next);
            n
        } else {
            self.lock_radius(call, false)
        }
    }

    pub(crate) fn lock_radius(&mut self, call: &mut Call, updated: bool) -> (n: Next)
        requires
            old(self).well_formed(),
        ensures
            final(self).well_formed(),
            n is Ask,
            n.script(*final(call), *final(self)) == behavior::lock_radius(
                *old(self),
                updated,
                old(call).rest(),
            ),
    {
        let n = call.ask(Request::LockRadius, Wait::RadiusLocked { updated });
        assert(n.script(*call, *self)->next =~= behavior::lock_radius(
            *old(self),
            updated,
            old(call).rest(),
        )->next);
        n
    }

    pub(crate) fn radius_unlocked(&mut self, call: &mut Call) -> (n: Next)
        requires
            old(self).well_formed(),
        ensures
            final(self).well_formed(),
            n is Ask,
            n.script(*final(call), *final(self)) == behavior::radius_unlocked(
                *old(self),
                old(call).rest(),
            ),
    {
        let radius = Radius::Configured {
            stroke_width: self.drawer.stroke_width,
            dpi: self.current_dpi,
        };
        let n = call.ask(Request::RadiusDiffers { radius }, Wait::ConfiguredDiffers { radius });
        assert(n.script(*call, *self)->next =~= behavior::radius_unlocked(
            *old(self),
            old(call).rest(),
        )->next);
        n
    }

    pub(crate) fn configured_differs_known(
        &mut self,
        call: &mut Call,
        radius: Radius,
        r: Reply,
    ) -> (n: Next)
        requires
            old(self).well_formed(),
        ensures
            final(self).well_formed(),
            n is Return ==> final(call).frames@ == old(call).frames@,
            n.script(*final(call), *final(self)) == behavior::configured_differs_known(
                *old(self),
                radius,
                r,
                old(call).rest(),
            ),
    {
        if r.flag() {
            let n = call.ask(Request::SetRadius { radius }, Wait::ConfiguredSet);
            assert(n.script(*call, *self)->next =~= behavior::configured_differs_known(
                *old(self),
                radius,
                r,
                old(call).rest(),
            )->next);
            n
        } else {
            self.radius_synced(call, false)
        }
    }

    pub(crate) fn radius_synced(&mut self, call: &mut Call, updated: bool) -> (n: Next)
        requires
            old(self).well_formed(),
        ensures
            final(self).well_formed(),
            n is Return ==> final(call).frames@ == old(call).frames@,
            n.script(*final(call), *final(self)) == behavior::radius_synced(
                *old(self),
                updated,
                old(call).rest(),
            ),
    {
        self.arranged_override_active = false;
        Next::Return(Ok(updated))
    }

    /// Takes on another appearance.
    pub(crate) fn restyle(&mut self, look: Appearance, dpi: u32)
        ensures
            *final(self) == behavior::restyled(*old(self), look, dpi),
    {
        self.drawer.stroke_width = look.stroke_width;
        self.border_offset = look.offset;
        self.border_padding = look.padding;
        self.current_dpi = dpi;
    }

    /// Scales everything to another dpi.
    pub fn rescale_border(&mut self, call: &mut Call, dpi: u32) -> (n: Next)
        requires
            old(self).well_formed(),
        ensures
            final(self).well_formed(),
            n is Ask,
            n.script(*final(call), *final(self)) == behavior::rescale_border(
                *old(self),
                dpi,
                old(call).rest(),
            ),
    {
        let n = call.ask(Request::Rescale { dpi }, Wait::Rescaled { dpi });
        assert(n.script(*call, *self)->next =~= behavior::rescale_border(
            *old(self),
            dpi,
            old(call).rest(),
        )->next);
        n
    }

    pub(crate) fn rescaled(&mut self, call: &mut Call, dpi: u32, r: Reply) -> (n: Next)
        requires
            old(self).well_formed(),
        ensures
            final(self).well_formed(),
            n is Ask,
            n.script(*final(call), *final(self)) == behavior::rescaled(
                *old(self),
                dpi,
                r,
                old(call).rest(),
            ),
    {
        let ghost k = call.rest();
        match r {
            Reply::Appearance(look) => {
                self.restyle(look, dpi);
            },
            _ => {
                self.current_dpi = dpi;
            },
        }
        call.push(Frame::CheckEffects);
        assert(call.rest() =~= (|s: WindowBorder, o: Outcome| behavior::check_effects(s, k)));
        self.sync_border_radius(call)
    }

    pub(crate) fn check_effects(&mut self, call: &mut Call) -> (n: Next)
        requires
            old(self).well_formed(),
        ensures
            final(self).well_formed(),
            n is Ask,
            n.script(*final(call), *final(self)) == behavior::check_effects(
                *old(self),
                old(call).rest(),
            ),
    {
        let n = call.ask(Request::Backend, Wait::EffectsBackend);
        assert(n.script(*call, *self)->next =~= behavior::check_effects(
            *old(self),
            old(call).rest(),
        )->next);
        n
    }

    pub(crate) fn effects_backend_known(&mut self, call: &mut Call, r: Reply) -> (n: Next)
        requires
            old(self).well_formed(),
        ensures
            final(self).well_formed(),
            n is Return ==> final(call).frames@ == old(call).frames@,
            n.script(*final(call), *final(self)) == behavior::effects_backend_known(
                *old(self),
                r,
                old(call).rest(),
            ),
    {
        if r.backend().supports_effects() {
            let n = call.ask(Request::InitEffects, Wait::Ignored);
            assert(n.script(*call, *self)->next =~= behavior::effects_backend_known(
                *old(self),
                r,
                old(call).rest(),
            )->next);
            n
        } else {
            Next::Return(Ok(false))
        }
    }

    /// Adapts the border to the dpi of a monitor, and the renderer to the border. The flag of the
    /// outcome says whether anything changed.
    pub fn rescale_border_and_resize_renderer_if_needed(
        &mut self,
        call: &mut Call,
        monitor: isize,
    ) -> (n: Next)
        requires
            old(self).well_formed(),
        ensures
            final(self).well_formed(),
            n is Ask,
            n.script(*final(call), *final(self))
                == behavior::rescale_border_and_resize_renderer_if_needed(
                *old(self),
                monitor,
                old(call).rest(),
            ),
    {
        let n = call.ask(Request::Dpi { monitor }, Wait::Dpi);
        let ghost script = behavior::rescale_border_and_resize_renderer_if_needed(
            *old(self),
            monitor,
            old(call).rest(),
        );
        assert(n.script(*call, *self)->next =~= script->next);
        n
    }

    pub(crate) fn dpi_known(&mut self, call: &mut Call, r: Reply) -> (n: Next)
        requires
            old(self).well_formed(),
        ensures
            final(self).well_formed(),
            n is Return ==> final(call).frames@ == old(call).frames@,
            n.script(*final(call), *final(self)) == behavior::dpi_known(
                *old(self),
                r,
                old(call).rest(),
            ),
    {
        let ghost k = call.rest();
        match r {
            Reply::Dpi(dpi) => {
                if dpi != self.current_dpi {
                    self.current_dpi = dpi;
                    call.push(Frame::CheckSize { updated: true });
                    assert(call.rest() =~= (
                    |s: WindowBorder, o: Outcome| behavior::check_size(s, true, k)));
                    self.rescale_border(call, dpi)
                } else {
                    self.check_size(call, false)
                }
            },
            _ => Next::Return(Err(r.failure())),
        }
    }

    pub(crate) fn check_size(&mut self, call: &mut Call, updated: bool) -> (n: Next)
        requires
            old(self).well_formed(),
        ensures
            final(self).well_formed(),
            n is Ask,
            n.script(*final(call), *final(self)) == behavior::check_size(
                *old(self),
                updated,
                old(call).rest(),
            ),
    {
        let ghost k = call.rest();
        call.push(Frame::SizeChecked { updated });
        assert(call.rest() =~= (
        |s: WindowBorder, o: Outcome| behavior::size_checked(s, updated, o, k)));
        self.needs_renderer_resize(call)
    }

    pub(crate) fn size_checked(&mut self, call: &mut Call, updated: bool, o: Outcome) -> (n: Next)
        requires
            old(self).well_formed(),
        ensures
            final(self).well_formed(),
            n is Return ==> final(call).frames@ == old(call).frames@,
            n.script(*final(call), *final(self)) == behavior::size_checked(
                *old(self),
                updated,
                o,
                old(call).rest(),
            ),
    {
        let ghost k = call.rest();
        match o {
            Ok(true) => {
                call.push(Frame::SizeAdapted);
                assert(call.rest() =~= (
                |s: WindowBorder, o: Outcome| behavior::size_adapted(s, o, k)));
                self.resize_renderer(call)
            },
            Ok(false) => Next::Return(Ok(updated)),
            Err(code) => Next::Return(Err(code)),
        }
    }

    pub(crate) fn size_adapted(&mut self, call: &mut Call, o: Outcome) -> (n: Next)
        requires
            old(self).well_formed(),
        ensures
            final(self).well_formed(),
            n is Return ==> final(call).frames@ == old(call).frames@,
            n.script(*final(call), *final(self)) == behavior::size_adapted(
                *old(self),
                o,
                old(call).rest(),
            ),
    {
        match o {
            Ok(_) => Next::Return(Ok(true)),
            Err(code) => Next::Return(Err(code)),
        }
    }
}

/// Whether a step makes a request.
pub open spec fn asks(step: Step) -> bool {
    !(step is SetPaused) && !(step is ForgetPendingLocation)
}

// Sequences.

impl WindowBorder {
    pub(crate) fn perform(&mut self, call: &mut Call, step: Step) -> (n: Next)
        requires
            old(self).well_formed(),
        ensures
            final(self).well_formed(),
            n is Return ==> final(call).frames@ == old(call).frames@,
            asks(step) ==> n is Ask,
            n.script(*final(call), *final(self)) == behavior::perform(
                *old(self),
                step,
                old(call).rest(),
            ),
    {
        let ghost k = call.rest();
        match step {
            Step::Tell(request) => {
                let n = call.ask(request, Wait::Ignored);
                assert(n.script(*call, *self)->next =~= behavior::perform(
                    *old(self),
                    step,
                    old(call).rest(),
                )->next);
                n
            },
            Step::UpdateColor(check_delay) => self.update_color(call, check_delay),
            Step::UpdateWindowRect => self.update_window_rect(call),
            Step::UpdatePosition(visibility) => self.update_position(call, visibility),
            Step::Render => self.render(call),
            Step::ResizeRenderer => self.resize_renderer(call),
            Step::ResizeIfNeeded => {
                call.push(Frame::ResizeNeed);
                assert(call.rest() =~= (
                |s: WindowBorder, o: Outcome| behavior::resize_need_known(s, o, k)));
                self.needs_renderer_resize(call)
            },
            Step::SyncRadius => self.sync_border_radius(call),
            Step::UpdateColorBrush { active, source } => self.update_color_brush(
                call,
                active,
                source,
            ),
            Step::SetPaused(paused) => {
                self.is_paused = paused;
                Next::Return(Ok(false))
            },
            Step::ForgetPendingLocation => {
                self.has_pending_location = false;
                Next::Return(Ok(false))
            },
        }
    }

    pub(crate) fn resize_need_known(&mut self, call: &mut Call, o: Outcome) -> (n: Next)
        requires
            old(self).well_formed(),
        ensures
            final(self).well_formed(),
            n is Return ==> final(call).frames@ == old(call).frames@,
            n.script(*final(call), *final(self)) == behavior::resize_need_known(
                *old(self),
                o,
                old(call).rest(),
            ),
    {
        match o {
            Ok(true) => self.resize_renderer(call),
            _ => Next::Return(Ok(false)),
        }
    }

    /// Takes one step after the other.
    pub(crate) fn sequence(&mut self, call: &mut Call, steps: Vec<Step>) -> (n: Next)
        requires
            old(self).well_formed(),
        ensures
            final(self).well_formed(),
            n is Return ==> weight(final(call).frames@) <= weight(old(call).frames@) + steps@.len(),
            steps@.len() > 0 && asks(steps@[0]) ==> n is Ask,
            n.script(*final(call), *final(self)) == behavior::sequence(
                *old(self),
                steps@,
                old(call).rest(),
            ),
    {
        let ghost k = call.rest();
        let mut steps = steps;
        if steps.len() == 0 {
            Next::Return(Ok(false))
        } else {
            let ghost all = steps@;
            let step = steps.remove(0);
            assert(steps@ =~= all.drop_first());
            call.push(Frame::Sequence(steps));
            assert(call.rest() =~= behavior::on_performed(all.drop_first(), k));
            self.perform(call, step)
        }
    }
}

} // verus!
