//! The border of one window.

use vstd::prelude::*;
use crate::behavior::{
    border_bounds, is_outgrown, legacy_size, shows_border, target_size, v2_size,
};
use crate::geometry::{
    as_unsigned, at_least_one, composition_side, outset_fits, room_fits, side, Appearance, Bounds,
    Offset, Rect, Size,
};
use crate::protocol::{BorderConfig, ErrorCode, Reply, WindowFacts};
use crate::render_backend::RenderBackendConfig;

verus! {

/// The timer that ends the debouncing of reorder messages.
pub const REORDER_TIMER_ID: usize = 0;

/// The timer that ends the initial delay.
pub const TIMER_INIT_ID: usize = 1;

/// The timer that ends the delay after a window is restored.
pub const TIMER_UNMINIMIZE_ID: usize = 2;

/// The timer after which the geometry of a restored window is looked at again.
pub const TIMER_UNMINIMIZE_SETTLE_ID: usize = 3;

/// Whether a border belongs to the window that has the focus.
#[derive(Debug, Clone, Copy, PartialEq, Eq, Structural)]
pub enum WindowState {
    Active,
    Inactive,
}

impl Default for WindowState {
    fn default() -> (r: Self)
        ensures
            r == WindowState::Active,
    {
        WindowState::Active
    }
}

impl WindowState {
    /// The state of a window when `active` has the focus.
    pub open spec fn of(window: isize, active: isize) -> WindowState {
        if window == active {
            WindowState::Active
        } else {
            WindowState::Inactive
        }
    }

    /// Takes notice of which window has the focus.
    pub fn update(&mut self, self_hwnd: isize, active_hwnd: isize)
        ensures
            *final(self) == WindowState::of(self_hwnd, active_hwnd),
    {
        if self_hwnd == active_hwnd {
            *self = WindowState::Active;
        } else {
            *self = WindowState::Inactive;
        }
    }
}

/// The part of a border's drawer that the border keeps track of.
#[derive(Debug, Clone, Copy, PartialEq, Eq, Structural)]
pub struct BorderDrawer {
    pub stroke_width: i32,
    pub fill_outer_corners: bool,
}

/// The border of one window.
#[derive(Debug, Clone, Copy, PartialEq, Eq)]
pub struct WindowBorder {
    /// The window that shows the border; null before it exists and after it is gone.
    pub border_window: isize,
    /// The window that the border is drawn around.
    pub tracking_window: isize,
    pub window_state: WindowState,
    /// The place of the border window.
    pub window_rect: Rect,
    pub border_offset: Offset,
    /// The space for things like shadow and glow.
    pub border_padding: i32,
    pub current_monitor: isize,
    pub current_dpi: u32,
    pub drawer: BorderDrawer,
    pub config: BorderConfig,
    /// Whether changes of the window's location wait until the window is shown again.
    pub is_paused: bool,
    /// When the order of windows was last put right, in nanoseconds.
    pub last_reorder_time: Option<u64>,
    pub is_debouncing_reorder: bool,
    pub consecutive_reorders: u64,
    /// Whether the corners are square because the window is snapped.
    pub arranged_override_active: bool,
    /// Whether the border belongs to its window, to be freed when the window is destroyed.
    pub is_raw_transferred: bool,
    pub is_initialized: bool,
    /// Whether a change of the window's location came while the border was paused.
    pub has_pending_location: bool,
}

/// The messages that decide about the tie between a border and its window.
#[derive(Debug, Clone, Copy, PartialEq, Eq, Structural)]
pub enum Tie {
    /// The window is being created; `border` is the address of the border that it is made for.
    Create { border: isize },
    /// The window is gone.
    Destroyed,
    /// Any other message.
    Unrelated,
}

/// A window is being created.
pub const WM_CREATE: u32 = 0x0001;

/// A window is gone.
pub const WM_NCDESTROY: u32 = 0x0082;

impl Tie {
    /// What a message with that number means for the tie, where `border` is the address that the
    /// window was created with.
    pub open spec fn of(message: u32, border: isize) -> Tie {
        if message == WM_CREATE {
            Tie::Create { border }
        } else if message == WM_NCDESTROY {
            Tie::Destroyed
        } else {
            Tie::Unrelated
        }
    }

    /// Reads what a message means for the tie.
    pub fn read(message: u32, border: isize) -> (r: Tie)
        ensures
            r == Tie::of(message, border),
    {
        if message == WM_CREATE {
            Tie::Create { border }
        } else if message == WM_NCDESTROY {
            Tie::Destroyed
        } else {
            Tie::Unrelated
        }
    }
}

/// What is done with a message to a border window.
#[derive(Debug, Clone, Copy, PartialEq, Eq, Structural)]
pub enum Route {
    /// It goes to the default procedure.
    Default,
    /// The border at that address handles it.
    Border(isize),
    /// The border at that address is released, and then the message goes to the default
    /// procedure.
    Release(isize),
}

/// What `s_wnd_proc` returns: the address that the window is to keep from now on, if that
/// changes, and what is done with the message.
pub open spec fn route(kept: isize, tie: Tie) -> (Option<isize>, Route) {
    match tie {
        Tie::Destroyed => (
            Some(0),
            if kept == 0 {
                Route::Default
            } else {
                Route::Release(kept)
            },
        ),
        Tie::Create { border } if kept == 0 => (
            Some(border),
            if border == 0 {
                Route::Default
            } else {
                Route::Border(border)
            },
        ),
        _ => (
            None,
            if kept == 0 {
                Route::Default
            } else {
                Route::Border(kept)
            },
        ),
    }
}

impl WindowBorder {
    /// A border for a window. It has no window of its own yet, and nothing is known of how it is
    /// to look but what the configuration and the drawer hold from the start.
    pub open spec fn fresh(
        tracking_window: isize,
        config: BorderConfig,
        drawer: BorderDrawer,
    ) -> WindowBorder {
        WindowBorder {
            border_window: 0,
            tracking_window,
            window_state: WindowState::Active,
            window_rect: Rect { left: 0, top: 0, right: 0, bottom: 0 },
            border_offset: Offset { left: 0, top: 0, right: 0, bottom: 0 },
            border_padding: 0,
            current_monitor: 0,
            current_dpi: 0,
            drawer,
            config,
            is_paused: false,
            last_reorder_time: None,
            is_debouncing_reorder: false,
            consecutive_reorders: 0,
            arranged_override_active: false,
            is_raw_transferred: false,
            is_initialized: false,
            has_pending_location: false,
        }
    }

    /// A border for a window, without a window of its own.
    pub fn new(tracking_window: isize, config: BorderConfig, drawer: BorderDrawer) -> (r: Self)
        ensures
            r == WindowBorder::fresh(tracking_window, config, drawer),
            r.well_formed(),
    {
        WindowBorder {
            border_window: 0,
            tracking_window,
            window_state: WindowState::default(),
            window_rect: Rect { left: 0, top: 0, right: 0, bottom: 0 },
            border_offset: Offset { left: 0, top: 0, right: 0, bottom: 0 },
            border_padding: 0,
            current_monitor: 0,
            current_dpi: 0,
            drawer,
            config,
            is_paused: false,
            last_reorder_time: None,
            is_debouncing_reorder: false,
            consecutive_reorders: 0,
            arranged_override_active: false,
            is_raw_transferred: false,
            is_initialized: false,
            has_pending_location: false,
        }
    }

    /// Takes over the window that was made for the border, if it could be made.
    pub fn create_window(&mut self, made: Result<isize, ErrorCode>) -> (r: Result<(), ErrorCode>)
        ensures
            match made {
                Ok(window) => r is Ok && *final(self) == (WindowBorder {
                    border_window: window,
                    ..*old(self)
                }),
                Err(code) => r == Err::<(), ErrorCode>(code) && *final(self) == *old(self),
            },
    {
        match made {
            Ok(window) => {
                self.border_window = window;
                Ok(())
            },
            Err(code) => Err(code),
        }
    }

    /// Leaves the border to its window.
    pub fn transfer(&mut self)
        ensures
            *final(self) == (WindowBorder { is_raw_transferred: true, ..*old(self) }),
    {
        self.is_raw_transferred = true;
    }

    /// What is done with a message to a border window. `kept` is the address that the window
    /// keeps, null before it keeps one. A window takes over the border that it is created for,
    /// and gives it up when it is gone.
    pub fn s_wnd_proc(kept: isize, tie: Tie) -> (r: (Option<isize>, Route))
        ensures
            r == route(kept, tie),
    {
        match tie {
            Tie::Destroyed => (
                Some(0),
                if kept == 0 {
                    Route::Default
                } else {
                    Route::Release(kept)
                },
            ),
            Tie::Create { border } if kept == 0 => (
                Some(border),
                if border == 0 {
                    Route::Default
                } else {
                    Route::Border(border)
                },
            ),
            _ => (
                None,
                if kept == 0 {
                    Route::Default
                } else {
                    Route::Border(kept)
                },
            ),
        }
    }

    /// The extents of the border window are representable.
    pub open spec fn well_formed(self) -> bool {
        self.window_rect.measurable()
    }

    /// Whether the border is well formed.
    pub fn is_well_formed(&self) -> (r: bool)
        ensures
            r == self.well_formed(),
    {
        self.window_rect.is_measurable()
    }

    /// What the border looks like.
    pub open spec fn appearance(self) -> Appearance {
        Appearance {
            stroke_width: self.drawer.stroke_width,
            offset: self.border_offset,
            padding: self.border_padding,
        }
    }

    /// Whether what the border computes from a reply is representable: the place of the border
    /// window from the bounds of its window, the place of a region outside of the screen, and
    /// the number of reorder messages.
    pub open spec fn can_take(self, reply: Reply) -> bool {
        match reply {
            Reply::Frame(frame) => outset_fits(frame, self.appearance()),
            Reply::ScreenWidth(width) => i32::MIN < width && width <= i32::MAX - 7,
            Reply::Time(_) => self.consecutive_reorders < u64::MAX,
            _ => true,
        }
    }

    /// Whether what the border computes from a reply is representable.
    pub fn accepts(&self, reply: Reply) -> (r: bool)
        ensures
            r == self.can_take(reply),
    {
        match reply {
            Reply::Frame(frame) => room_fits(frame, self.current_appearance()),
            Reply::ScreenWidth(width) => i32::MIN < width && width <= i32::MAX - 7,
            Reply::Time(_) => self.consecutive_reorders < u64::MAX,
            _ => true,
        }
    }

    /// What the border looks like.
    pub fn current_appearance(&self) -> (r: Appearance)
        ensures
            r == self.appearance(),
    {
        Appearance {
            stroke_width: self.drawer.stroke_width,
            offset: self.border_offset,
            padding: self.border_padding,
        }
    }

    /// Whether the border is to be seen: its window can be seen and, where the configuration
    /// asks for that, has a border of its own.
    pub fn should_show_border(&self, facts: WindowFacts) -> (r: bool)
        ensures
            r == shows_border(*self, facts),
            r == ((!self.config.follow_native_border || facts.native_border) && facts.visible
                && !facts.cloaked && !facts.minimized),
    {
        (!self.config.follow_native_border || facts.native_border) && facts.visible
            && !facts.cloaked && !facts.minimized
    }

    /// The size of a composition surface for the border: that of the border window with 20% of
    /// headroom, in blocks of 128 pixels, so that a window that is being resized seldom needs
    /// another surface.
    pub fn calculate_target_v2_renderer_size(&self) -> (r: Size)
        requires
            self.well_formed(),
        ensures
            r == v2_size(self.window_rect),
            r.width % 128 == 0 && r.height % 128 == 0,
            r.width >= side(self.window_rect.across()),
            r.height >= side(self.window_rect.down()),
    {
        Size {
            width: composition_side(self.window_rect.width()),
            height: composition_side(self.window_rect.height()),
        }
    }

    /// The size of a render target on the border window, which is that of the window: another
    /// size would be scaled.
    pub fn calculate_target_legacy_renderer_size(&self) -> (r: Size)
        requires
            self.well_formed(),
        ensures
            r == legacy_size(self.window_rect),
    {
        Size {
            width: as_unsigned(self.window_rect.width()),
            height: as_unsigned(self.window_rect.height()),
        }
    }

    /// The size that the renderer ought to have.
    pub fn calculate_target_renderer_size(&self) -> (r: Size)
        requires
            self.well_formed(),
        ensures
            r == target_size(*self),
    {
        match self.config.render_backend {
            RenderBackendConfig::V2 => self.calculate_target_v2_renderer_size(),
            RenderBackendConfig::Legacy => self.calculate_target_legacy_renderer_size(),
        }
    }

    /// Whether a renderer of size `actual` has to be resized: a composition surface when it
    /// cannot contain the border window, a render target when it has another size.
    pub fn outgrows(&self, actual: Size) -> (r: bool)
        requires
            self.well_formed(),
        ensures
            r == is_outgrown(*self, actual),
    {
        match self.config.render_backend {
            RenderBackendConfig::V2 => at_least_one(self.window_rect.width()) > actual.width
                || at_least_one(self.window_rect.height()) > actual.height,
            RenderBackendConfig::Legacy => self.calculate_target_legacy_renderer_size() != actual,
        }
    }

    /// The area of the border window in which the border is drawn.
    pub fn compute_border_bounds(&self) -> (r: Bounds)
        requires
            self.well_formed(),
        ensures
            r == border_bounds(*self),
    {
        Bounds {
            padding: self.border_padding,
            width: self.window_rect.width(),
            height: self.window_rect.height(),
        }
    }
}

} // verus!
