//! What a border asks of the desktop, and what the desktop answers.
//!
//! A border makes no call of the operating system itself. It hands out one [`Request`] at a time
//! and goes on when it is given the [`Reply`].

use vstd::prelude::*;
use crate::geometry::{Appearance, Bounds, Offset, Rect, Size};
use crate::render_backend::{Luid, RenderBackend, RenderBackendConfig};
use crate::window_border::WindowState;

verus! {

/// Why an operation failed, as far as a border tells failures apart.
#[derive(Debug, Clone, Copy, PartialEq, Eq, Structural)]
pub enum ErrorCode {
    /// The render target must be made again.
    RecreateTarget,
    /// The display adapter is gone.
    DeviceRemoved,
    /// The operation is not permitted.
    AccessDenied,
    /// A recovery is going on already.
    Reentrancy,
    /// Something that is needed does not exist yet.
    Uninit,
    /// A drawing operation failed for good.
    Failed,
    /// Anything else.
    Other,
}

impl ErrorCode {
    /// The code that stands for a result code of the operating system.
    pub open spec fn of_hresult(hresult: u32) -> ErrorCode {
        if hresult == 0x8899_000C {
            ErrorCode::RecreateTarget
        } else if hresult == 0x887A_0005 {
            ErrorCode::DeviceRemoved
        } else if hresult == 0x8007_0005 {
            ErrorCode::AccessDenied
        } else {
            ErrorCode::Other
        }
    }

    /// Reads the bits of a result code of the operating system: `D2DERR_RECREATE_TARGET`,
    /// `DXGI_ERROR_DEVICE_REMOVED` and the result code for `ERROR_ACCESS_DENIED` have codes of
    /// their own.
    pub fn from_hresult(hresult: u32) -> (r: ErrorCode)
        ensures
            r == ErrorCode::of_hresult(hresult),
    {
        match hresult {
            0x8899_000C => ErrorCode::RecreateTarget,
            0x887A_0005 => ErrorCode::DeviceRemoved,
            0x8007_0005 => ErrorCode::AccessDenied,
            _ => ErrorCode::Other,
        }
    }

    /// Whether the failure is expected to pass, so that the border goes on living.
    #[verifier::allow_in_spec]
    pub fn is_passing(self) -> bool
        returns
            self is Reentrancy || self is Uninit,
    {
        match self {
            ErrorCode::Reentrancy => true,
            ErrorCode::Uninit => true,
            _ => false,
        }
    }
}

/// How a piece of work ended: done, with a flag whose meaning is its own, or failed.
pub type Outcome = Result<bool, ErrorCode>;

/// Where a border lies in the order of windows.
#[derive(Debug, Clone, Copy, PartialEq, Eq, Structural)]
pub enum ZOrderMode {
    AboveWindow,
    BelowWindow,
}

/// The part of a border's configuration that decides what the border does.
#[derive(Debug, Clone, Copy, PartialEq, Eq, Structural)]
pub struct BorderConfig {
    /// How long to wait before a new border is shown, in milliseconds.
    pub initialize_delay: u64,
    /// How long to wait before the border of a restored window is shown, in milliseconds.
    pub unminimize_delay: u64,
    /// Whether a window without a border of its own gets none.
    pub follow_native_border: bool,
    pub z_order: ZOrderMode,
    pub render_backend: RenderBackendConfig,
    /// Whether the radius of the corners follows from the window.
    pub radius_auto: bool,
}

/// What the desktop knows of the tracked window at one moment.
#[derive(Debug, Clone, Copy, PartialEq, Eq, Structural)]
pub struct WindowFacts {
    pub native_border: bool,
    pub visible: bool,
    pub cloaked: bool,
    pub minimized: bool,
}

impl WindowFacts {
    /// Whether the window can be seen.
    #[verifier::allow_in_spec]
    pub fn on_screen(self) -> bool
        returns
            self.visible && !self.cloaked && !self.minimized,
    {
        self.visible && !self.cloaked && !self.minimized
    }
}

/// What becomes of a window's visibility when it is moved.
#[derive(Debug, Clone, Copy, PartialEq, Eq, Structural)]
pub enum Visibility {
    Keep,
    Show,
    Hide,
}

/// The radius that a border's corners can be given.
#[derive(Debug, Clone, Copy, PartialEq, Eq, Structural)]
pub enum Radius {
    /// No radius.
    Square,
    /// The radius that the configuration gives for this stroke width and this dpi.
    Configured { stroke_width: i32, dpi: u32 },
}

/// Whose configuration a color comes from.
#[derive(Debug, Clone, Copy, PartialEq, Eq, Structural)]
pub enum Scope {
    /// The rule for the window.
    Rule,
    /// The global configuration.
    Global,
}

/// Which of the colors of a configuration is meant.
#[derive(Debug, Clone, Copy, PartialEq, Eq, Structural)]
pub enum Slot {
    Active,
    Stack,
    Monocle,
    Floating,
}

/// Where a new color comes from.
#[derive(Debug, Clone, Copy, PartialEq, Eq, Structural)]
pub enum ColorSource {
    /// The message that is being handled.
    Message,
    /// A configuration.
    Config { scope: Scope, slot: Slot },
}

/// How the tiling window manager sees a window.
#[derive(Debug, Clone, Copy, PartialEq, Eq, Structural)]
pub enum WindowKind {
    Single,
    Stack,
    Monocle,
    Floating,
    Unfocused,
}

/// What the tiling window manager knows of the tracked window.
#[derive(Debug, Clone, Copy, PartialEq, Eq, Structural)]
pub enum Focus {
    /// There is no integration with a tiling window manager.
    NoIntegration,
    /// The integration does not know the window.
    Unknown,
    Known(WindowKind),
}

/// The colors that a configuration gives for the kinds of windows of the tiling window manager.
#[derive(Debug, Clone, Copy, PartialEq, Eq, Structural)]
pub struct KomorebiColors {
    pub enabled: bool,
    pub has_stack: bool,
    pub has_monocle: bool,
    pub has_floating: bool,
}

/// What the rule for the window and the global configuration say of those colors.
#[derive(Debug, Clone, Copy, PartialEq, Eq, Structural)]
pub struct ColorRules {
    pub rule: Option<KomorebiColors>,
    pub global: KomorebiColors,
    /// Whether the rule for the window has an active color.
    pub rule_has_active: bool,
}

/// The messages that a border posts to its own window.
#[derive(Debug, Clone, Copy, PartialEq, Eq, Structural)]
pub enum Posted {
    Close,
    MinimizeStart,
    Komorebi,
}

/// The messages that a border's window can be sent.
#[derive(Debug, Clone, Copy, PartialEq, Eq, Structural)]
pub enum Message {
    /// The tracked window was moved or resized.
    LocationChange,
    /// The order of windows changed.
    Reorder,
    /// A timer of the border window ran out.
    Timer { id: usize },
    /// Another window got the focus.
    Foreground,
    /// The tracked window was shown or uncloaked.
    ShowUncloaked,
    /// The tracked window was hidden or cloaked.
    HideCloaked,
    /// The tracked window was minimized.
    MinimizeStart,
    /// The tracked window was restored.
    MinimizeEnd,
    /// It is time for the next frame of the animations.
    Animate,
    /// The tiling window manager sees the tracked window differently.
    Komorebi,
    /// New colors: which of the two the message holds.
    SetColors { active: bool, inactive: bool },
    /// A new width.
    SetWidth,
    /// A new offset.
    SetOffset,
    /// A new radius.
    SetRadius,
    Paint,
    Close,
    DisplayChange,
    DpiChanged { wparam: usize },
    DeviceChange { wparam: usize },
    /// The display adapters changed.
    RecreateDrawer,
    PowerBroadcast { wparam: usize },
    /// The border window is about to move or has moved.
    WindowPosChange,
    Other,
}

/// The window is to be painted.
pub const WM_PAINT: u32 = 0x000f;

/// The window is to close.
pub const WM_CLOSE: u32 = 0x0010;

/// The window is about to move.
pub const WM_WINDOWPOSCHANGING: u32 = 0x0046;

/// The window has moved.
pub const WM_WINDOWPOSCHANGED: u32 = 0x0047;

/// A setting of the display changed.
pub const WM_DISPLAYCHANGE: u32 = 0x007e;

/// A timer ran out.
pub const WM_TIMER: u32 = 0x0113;

/// The system goes to sleep or wakes up.
pub const WM_POWERBROADCAST: u32 = 0x0218;

/// A device came or went.
pub const WM_DEVICECHANGE: u32 = 0x0219;

/// The dpi changed.
pub const WM_DPICHANGED: u32 = 0x02e0;

/// The numbers of the messages that the application has made up.
#[derive(Debug, Clone, Copy, PartialEq, Eq, Structural)]
pub struct MessageNumbers {
    pub location_change: u32,
    pub reorder: u32,
    pub foreground: u32,
    pub show_uncloaked: u32,
    pub hide_cloaked: u32,
    pub minimize_start: u32,
    pub minimize_end: u32,
    pub animate: u32,
    pub komorebi: u32,
    pub set_colors: u32,
    pub set_width: u32,
    pub set_offset: u32,
    pub set_radius: u32,
    pub recreate_drawer: u32,
}

/// The message that a number and a parameter stand for. `active` and `inactive` say which colors
/// the message holds, if it holds colors.
pub open spec fn message_of(
    numbers: MessageNumbers,
    message: u32,
    wparam: usize,
    active: bool,
    inactive: bool,
) -> Message {
    if message == numbers.location_change {
        Message::LocationChange
    } else if message == numbers.reorder {
        Message::Reorder
    } else if message == WM_TIMER {
        Message::Timer { id: wparam }
    } else if message == numbers.foreground {
        Message::Foreground
    } else if message == numbers.show_uncloaked {
        Message::ShowUncloaked
    } else if message == numbers.hide_cloaked {
        Message::HideCloaked
    } else if message == numbers.minimize_start {
        Message::MinimizeStart
    } else if message == numbers.minimize_end {
        Message::MinimizeEnd
    } else if message == numbers.animate {
        Message::Animate
    } else if message == numbers.komorebi {
        Message::Komorebi
    } else if message == numbers.set_colors {
        Message::SetColors { active, inactive }
    } else if message == numbers.set_width {
        Message::SetWidth
    } else if message == numbers.set_offset {
        Message::SetOffset
    } else if message == numbers.set_radius {
        Message::SetRadius
    } else if message == WM_PAINT {
        Message::Paint
    } else if message == WM_CLOSE {
        Message::Close
    } else if message == WM_DISPLAYCHANGE {
        Message::DisplayChange
    } else if message == WM_DPICHANGED {
        Message::DpiChanged { wparam }
    } else if message == WM_DEVICECHANGE {
        Message::DeviceChange { wparam }
    } else if message == numbers.recreate_drawer {
        Message::RecreateDrawer
    } else if message == WM_POWERBROADCAST {
        Message::PowerBroadcast { wparam }
    } else if message == WM_WINDOWPOSCHANGING || message == WM_WINDOWPOSCHANGED {
        Message::WindowPosChange
    } else {
        Message::Other
    }
}

/// Reads a message to a border window.
pub fn read_message(
    numbers: MessageNumbers,
    message: u32,
    wparam: usize,
    active: bool,
    inactive: bool,
) -> (r: Message)
    ensures
        r == message_of(numbers, message, wparam, active, inactive),
{
    if message == numbers.location_change {
        Message::LocationChange
    } else if message == numbers.reorder {
        Message::Reorder
    } else if message == WM_TIMER {
        Message::Timer { id: wparam }
    } else if message == numbers.foreground {
        Message::Foreground
    } else if message == numbers.show_uncloaked {
        Message::ShowUncloaked
    } else if message == numbers.hide_cloaked {
        Message::HideCloaked
    } else if message == numbers.minimize_start {
        Message::MinimizeStart
    } else if message == numbers.minimize_end {
        Message::MinimizeEnd
    } else if message == numbers.animate {
        Message::Animate
    } else if message == numbers.komorebi {
        Message::Komorebi
    } else if message == numbers.set_colors {
        Message::SetColors { active, inactive }
    } else if message == numbers.set_width {
        Message::SetWidth
    } else if message == numbers.set_offset {
        Message::SetOffset
    } else if message == numbers.set_radius {
        Message::SetRadius
    } else if message == WM_PAINT {
        Message::Paint
    } else if message == WM_CLOSE {
        Message::Close
    } else if message == WM_DISPLAYCHANGE {
        Message::DisplayChange
    } else if message == WM_DPICHANGED {
        Message::DpiChanged { wparam }
    } else if message == WM_DEVICECHANGE {
        Message::DeviceChange { wparam }
    } else if message == numbers.recreate_drawer {
        Message::RecreateDrawer
    } else if message == WM_POWERBROADCAST {
        Message::PowerBroadcast { wparam }
    } else if message == WM_WINDOWPOSCHANGING || message == WM_WINDOWPOSCHANGED {
        Message::WindowPosChange
    } else {
        Message::Other
    }
}

/// The low word of a message parameter.
#[verifier::allow_in_spec]
pub fn loword(wparam: usize) -> u32
    returns
        (wparam % 0x1_0000) as u32,
{
    (wparam % 0x1_0000) as u32
}

/// The low 32 bits of a message parameter.
#[verifier::allow_in_spec]
pub fn low32(wparam: usize) -> u32
    returns
        (wparam as u64 % 0x1_0000_0000) as u32,
{
    (wparam as u64 % 0x1_0000_0000) as u32
}

/// The low 32 bits of a number of milliseconds.
#[verifier::allow_in_spec]
pub fn timer_millis(millis: u64) -> u32
    returns
        (millis % 0x1_0000_0000) as u32,
{
    (millis % 0x1_0000_0000) as u32
}

/// The device tree changed.
pub const DBT_DEVNODES_CHANGED: u32 = 7;

/// The system is about to sleep.
pub const PBT_APMSUSPEND: u32 = 4;

/// The system woke up for the user.
pub const PBT_APMRESUMESUSPEND: u32 = 7;

/// The system woke up.
pub const PBT_APMRESUMEAUTOMATIC: u32 = 18;

/// Windows are moved without being told so, without being activated and without being redrawn.
pub const SWP_QUIETLY: u32 = 0x418;

/// A window keeps its place in the order of windows.
pub const SWP_NOZORDER: u32 = 0x4;

/// A window is shown.
pub const SWP_SHOWWINDOW: u32 = 0x40;

/// A window is hidden.
pub const SWP_HIDEWINDOW: u32 = 0x80;

/// The flags with which a border window is moved.
#[verifier::allow_in_spec]
pub fn position_flags(visibility: Visibility, keep_z_order: bool) -> u32
    returns
        SWP_QUIETLY | (match visibility {
            Visibility::Keep => 0,
            Visibility::Show => SWP_SHOWWINDOW,
            Visibility::Hide => SWP_HIDEWINDOW,
        }) | (if keep_z_order {
            SWP_NOZORDER
        } else {
            0
        }),
{
    let shown: u32 = match visibility {
        Visibility::Keep => 0,
        Visibility::Show => SWP_SHOWWINDOW,
        Visibility::Hide => SWP_HIDEWINDOW,
    };
    let ordered: u32 = if keep_z_order {
        SWP_NOZORDER
    } else {
        0
    };
    SWP_QUIETLY | shown | ordered
}

/// What a border asks of the desktop. Those that concern a window concern the tracked window,
/// unless they name another one.
#[derive(Debug, Clone, Copy, PartialEq, Eq, Structural)]
pub enum Request {
    /// The monitor that the window is on. Answer: `Handle`.
    Monitor,
    /// The dpi of a monitor. Answer: `Dpi` or `Failed`.
    Dpi { monitor: isize },
    /// Resolve the configuration for the window and set up the drawer for it. Answer: `Config`.
    ResolveConfig { dpi: u32 },
    /// Scale the drawer's stroke width and effects. Answer: `Appearance`.
    Rescale { dpi: u32 },
    /// Take the width from the message that is being handled. Answer: `StrokeWidth`.
    AdoptWidth { dpi: u32 },
    /// Take the offset from the message that is being handled. Answer: `Offset`.
    AdoptOffset { dpi: u32 },
    /// Take the radius from the message that is being handled. Answer: `Flag`, whether it is
    /// automatic.
    AdoptRadius,
    /// Whether the window still exists. Answer: `Flag`.
    WindowExists,
    /// Whether the window is snapped. Answer: `Flag`.
    IsArranged,
    /// Whether the border window is visible. Answer: `Flag`.
    BorderVisible,
    /// Answer: `Facts`.
    Look,
    /// The visible bounds of the window. Answer: `Frame` or `Failed`.
    FrameBounds,
    /// The next window above the window. Answer: `Handle` or `Failed`.
    WindowAbove,
    /// The next window below the window. Answer: `Handle` or `Failed`.
    WindowBelow,
    /// The window that has the focus. Answer: `Handle`.
    ActiveWindow,
    /// Move the border window. Answer: `Done` or `Failed`.
    SetWindowPos {
        insert_after: Option<isize>,
        x: i32,
        y: i32,
        cx: i32,
        cy: i32,
        visibility: Visibility,
        keep_z_order: bool,
    },
    /// The width of the virtual screen. Answer: `ScreenWidth`.
    ScreenWidth,
    /// Make a region. Answer: `Handle`.
    CreateRegion { left: i32, top: i32, right: i32, bottom: i32 },
    /// Make the border window transparent, with a region or without. Answer: `Done` or `Failed`.
    EnableBlur { region: Option<isize> },
    /// Answer: `Done` or `Failed`.
    SetAlpha { alpha: u8 },
    /// Start a timer of the border window.
    SetTimer { id: usize, millis: u32 },
    /// Stop a timer of the border window.
    KillTimer { id: usize },
    /// Post a message to the border window. Answer: `Done` or `Failed`.
    Post { message: Posted },
    /// Take every waiting reorder message of the border window off its queue.
    DrainReorders,
    /// The time in nanoseconds since some fixed moment. Answer: `Time`.
    Now,
    /// Mark the border window as painted.
    ValidatePaint,
    /// Destroy the border window.
    DestroyWindow,
    /// The drawer's renderer. Answer: `Backend`.
    Backend,
    /// The size of the render target of the legacy renderer. Answer: `Size`.
    TargetPixelSize,
    /// Make the drawer's renderer and brushes. Answer: `Done` or `Failed`.
    InitDrawer { size: Size, bounds: Bounds, backend: RenderBackendConfig },
    /// Give up the drawer's renderer and brushes.
    UninitDrawer,
    /// Resize the drawer's renderer. Answer: `Done` or `Failed`.
    ResizeRenderer { size: Size },
    /// Resize the render target of the legacy renderer alone. Answer: `Done` or `Failed`.
    ResizeTarget { size: Size },
    /// Draw. Answer: `Done` or `Failed`.
    Render { bounds: Bounds, state: WindowState, fill_outer_corners: bool },
    /// Advance the animations. Answer: `Done` or `Failed`.
    Animate { bounds: Bounds, state: WindowState, fill_outer_corners: bool },
    /// Start the timer of the animations if there are any.
    SetAnimsTimer,
    /// Stop the timer of the animations.
    DestroyAnimsTimer,
    /// Record the effects anew for the renderer.
    InitEffects,
    /// Whether the animations of that state have a fade. Answer: `Flag`.
    HasFade { state: WindowState },
    /// Set the progress of the fade to match that state.
    UpdateFadeProgress { state: WindowState },
    /// Make one of the two brushes opaque or invisible.
    SetOpacity { active: bool, opaque: bool },
    /// Put a new color in the configuration and in the brush, and keep the opacity and the
    /// transform of the old brush at hand.
    ReplaceBrush { active: bool, source: ColorSource },
    /// Make the new brush ready, with the opacity and the transform of the old one.
    InitBrush { active: bool, bounds: Bounds },
    /// Whether the radius of the corners is another one. Answer: `Flag`.
    RadiusDiffers { radius: Radius },
    /// Answer: `Done` or `Failed`.
    SetRadius { radius: Radius },
    /// Refuse changes of the radius.
    LockRadius,
    /// Admit changes of the radius.
    UnlockRadius,
    /// The adapter that the system prefers. Answer: `Adapter` or `Failed`.
    PrimaryAdapter,
    /// Whether the render target of the legacy renderer still works. Answer: `Done` or `Failed`.
    ProbeTarget,
    /// Make the devices that all borders share again, if there are any and if they are no longer
    /// those of the preferred adapter. Answer: `Done` or `Failed`.
    RecreateDevices,
    /// Enter the recovery, which admits one entry at a time on a thread. Answer: `Flag`.
    EnterRecovery,
    LeaveRecovery,
    /// Answer: `Focus`.
    KomorebiFocus,
    /// Answer: `Colors`.
    KomorebiColors,
}

/// What the desktop answers. A reply that does not fit the request counts as a refusal: no as an
/// answer, no window as a handle, a failure as a result.
#[derive(Debug, Clone, Copy, PartialEq, Eq, Structural)]
pub enum Reply {
    Done,
    Failed(ErrorCode),
    Flag(bool),
    Handle(isize),
    Dpi(u32),
    StrokeWidth(i32),
    ScreenWidth(i32),
    Time(u64),
    Facts(WindowFacts),
    Frame(Rect),
    Size(Size),
    Backend(RenderBackend),
    Config(BorderConfig, Appearance),
    Appearance(Appearance),
    Offset(Offset),
    Adapter(Luid),
    Focus(Focus),
    Colors(ColorRules),
}

impl Reply {
    /// The answer to a question.
    #[verifier::allow_in_spec]
    pub fn flag(self) -> bool
        returns
            self == Reply::Flag(true),
    {
        match self {
            Reply::Flag(flag) => flag,
            _ => false,
        }
    }

    /// How an operation ended.
    #[verifier::allow_in_spec]
    pub fn result(self) -> Outcome
        returns
            (match self {
                Reply::Done => Ok(false),
                Reply::Failed(code) => Err(code),
                _ => Err(ErrorCode::Other),
            }),
    {
        match self {
            Reply::Done => Ok(false),
            Reply::Failed(code) => Err(code),
            _ => Err(ErrorCode::Other),
        }
    }

    /// The handle of something, null for nothing.
    #[verifier::allow_in_spec]
    pub fn handle(self) -> isize
        returns
            (match self {
                Reply::Handle(handle) => handle,
                _ => 0,
            }),
    {
        match self {
            Reply::Handle(handle) => handle,
            _ => 0,
        }
    }

    /// The width of the virtual screen.
    #[verifier::allow_in_spec]
    pub fn screen_width(self) -> i32
        returns
            (match self {
                Reply::ScreenWidth(width) => width,
                _ => 0,
            }),
    {
        match self {
            Reply::ScreenWidth(width) => width,
            _ => 0,
        }
    }

    /// A time in nanoseconds.
    #[verifier::allow_in_spec]
    pub fn time(self) -> u64
        returns
            (match self {
                Reply::Time(time) => time,
                _ => 0,
            }),
    {
        match self {
            Reply::Time(time) => time,
            _ => 0,
        }
    }

    /// What is known of the tracked window.
    #[verifier::allow_in_spec]
    pub fn facts(self) -> WindowFacts
        returns
            (match self {
                Reply::Facts(facts) => facts,
                _ => (WindowFacts {
                    native_border: false,
                    visible: false,
                    cloaked: false,
                    minimized: false,
                }),
            }),
    {
        match self {
            Reply::Facts(facts) => facts,
            _ => WindowFacts {
                native_border: false,
                visible: false,
                cloaked: false,
                minimized: false,
            },
        }
    }

    /// A size in pixels.
    #[verifier::allow_in_spec]
    pub fn size(self) -> Size
        returns
            (match self {
                Reply::Size(size) => size,
                _ => (Size { width: 0, height: 0 }),
            }),
    {
        match self {
            Reply::Size(size) => size,
            _ => Size { width: 0, height: 0 },
        }
    }

    /// The drawer's renderer.
    #[verifier::allow_in_spec]
    pub fn backend(self) -> RenderBackend
        returns
            (match self {
                Reply::Backend(backend) => backend,
                _ => RenderBackend::Absent,
            }),
    {
        match self {
            Reply::Backend(backend) => backend,
            _ => RenderBackend::Absent,
        }
    }

    /// What the tiling window manager knows.
    #[verifier::allow_in_spec]
    pub fn focus(self) -> Focus
        returns
            (match self {
                Reply::Focus(focus) => focus,
                _ => Focus::NoIntegration,
            }),
    {
        match self {
            Reply::Focus(focus) => focus,
            _ => Focus::NoIntegration,
        }
    }

    /// The code of a failed request.
    #[verifier::allow_in_spec]
    pub fn failure(self) -> ErrorCode
        returns
            (match self {
                Reply::Failed(code) => code,
                _ => ErrorCode::Other,
            }),
    {
        match self {
            Reply::Failed(code) => code,
            _ => ErrorCode::Other,
        }
    }
}

} // verus!
