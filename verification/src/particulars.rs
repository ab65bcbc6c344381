//! What the smaller questions and formulas of the library come to, in plain terms.

use vstd::prelude::*;
use crate::behavior;
use crate::border_manager::{creation_step, CreationEvent, CreationStep};
use crate::deeds::{at_least_a_pixel, in_bits, wanted_size, window_size};
use crate::geometry::{Offset, Rect, Size};
use crate::headroom::lemma_scaled_is_at_least;
use crate::protocol::{
    loword, low32, message_of, position_flags, timer_millis, BorderConfig, ErrorCode, Message,
    MessageNumbers, Reply, Visibility, WindowFacts,
};
use crate::render_backend::{
    new_plan, resize_plan, unwinding, GraphicsCall, LegacyRenderBackend, PlanStep, RenderBackend,
    RenderBackendConfig, V2RenderBackend,
};
use crate::title::{border_title, utf16_units};
use crate::window_border::{BorderDrawer, WindowBorder, WindowState};

verus! {

/// A window that is visible, not cloaked and not minimized is framed whenever native borders are
/// not to be followed, and exactly if it has a native border where they are; any other window is
/// not framed.
pub proof fn a_window_on_the_screen_is_framed(s: WindowBorder, facts: WindowFacts)
    ensures
        facts.visible && !facts.cloaked && !facts.minimized && !s.config.follow_native_border
            ==> behavior::shows_border(s, facts),
        facts.visible && !facts.cloaked && !facts.minimized && s.config.follow_native_border
            ==> behavior::shows_border(s, facts) == facts.native_border,
        !facts.visible || facts.cloaked || facts.minimized ==> !behavior::shows_border(s, facts),
{
}

/// A composition surface is outgrown if and only if the border window is wider or higher than it,
/// where a window counts as at least one pixel wide and high; a render target if and only if it
/// has another size than the border window.
pub proof fn a_renderer_is_outgrown_by_its_window(s: WindowBorder, actual: Size)
    ensures
        ({
            let width = s.window_rect.right - s.window_rect.left;
            let height = s.window_rect.bottom - s.window_rect.top;
            &&& s.config.render_backend == RenderBackendConfig::V2 ==> (behavior::is_outgrown(
                s,
                actual,
            ) <==> width > actual.width || height > actual.height || actual.width == 0
                || actual.height == 0)
            &&& s.config.render_backend == RenderBackendConfig::Legacy ==> (behavior::is_outgrown(
                s,
                actual,
            ) <==> actual.width != in_bits(width) || actual.height != in_bits(height))
        }),
{
}

/// The size that a renderer is given is that of the border window or, on a composition surface, 20%
/// more in blocks of 128 pixels.
pub proof fn a_renderer_is_given_the_size_that_is_wanted(s: WindowBorder)
    ensures
        behavior::target_size(s) == wanted_size(s),
        behavior::legacy_size(s.window_rect) == window_size(s),
{
    lemma_scaled_is_at_least(at_least_a_pixel(s.window_rect.right - s.window_rect.left));
    lemma_scaled_is_at_least(at_least_a_pixel(s.window_rect.bottom - s.window_rect.top));
}

/// A border is drawn in the whole of its window but for the padding on every side.
pub proof fn a_border_is_drawn_within_its_window(s: WindowBorder)
    requires
        s.well_formed(),
    ensures
        behavior::border_bounds(s).padding == s.border_padding,
        behavior::border_bounds(s).width == s.window_rect.right - s.window_rect.left,
        behavior::border_bounds(s).height == s.window_rect.bottom - s.window_rect.top,
{
}

/// A border takes every ordinary reply: the bounds of any window within half a billion pixels of
/// the origin, with margins an eighth as large, the width of any such screen, and the time.
pub proof fn ordinary_replies_are_taken(s: WindowBorder, reply: Reply)
    requires
        ({
            let large: int = 0x2000_0000;
            let (off, width, pad) = (s.border_offset, s.drawer.stroke_width, s.border_padding);
            let near = |n: i32| -large <= n && n <= large;
            match reply {
                Reply::Frame(frame) => {
                    &&& near(frame.left) && near(frame.top)
                    &&& near(frame.right) && near(frame.bottom)
                    &&& -large <= 8 * width <= large
                    &&& -large <= 8 * pad <= large
                    &&& -large <= 8 * off.left <= large
                    &&& -large <= 8 * off.top <= large
                    &&& -large <= 8 * off.right <= large
                    &&& -large <= 8 * off.bottom <= large
                },
                Reply::ScreenWidth(width) => 0 <= width <= large,
                Reply::Time(_) => s.consecutive_reorders < u64::MAX,
                _ => true,
            }
        }),
    ensures
        s.can_take(reply),
{
}

/// A new border belongs to its window, has no window of its own, and has been through nothing.
pub proof fn a_new_border_is_blank(
    tracking_window: isize,
    config: BorderConfig,
    drawer: BorderDrawer,
)
    ensures
        ({
            let s = WindowBorder::fresh(tracking_window, config, drawer);
            let none = Rect { left: 0, top: 0, right: 0, bottom: 0 };
            &&& s.tracking_window == tracking_window && s.border_window == 0
            &&& s.config == config && s.drawer == drawer
            &&& s.window_state == WindowState::Active && s.window_rect == none
            &&& s.border_offset == (Offset { top: 0, left: 0, right: 0, bottom: 0 })
            &&& s.border_padding == 0 && s.current_monitor == 0 && s.current_dpi == 0
            &&& !s.is_paused && !s.is_initialized && !s.is_raw_transferred
            &&& s.last_reorder_time is None && s.consecutive_reorders == 0
            &&& !s.is_debouncing_reorder && !s.arranged_override_active
            &&& !s.has_pending_location
        }),
{
}

/// Exactly one window is the active one: the state of a window is active if and only if it is the
/// window that has the focus.
pub proof fn a_window_is_active_if_it_has_the_focus(window: isize, active: isize)
    ensures
        WindowState::of(window, active) == WindowState::Active <==> window == active,
        WindowState::of(window, active) == WindowState::Inactive <==> window != active,
{
}

/// The numbers of the messages of the operating system that concern a border.
pub open spec fn is_system_message(number: u32) -> bool {
    ||| number == 0x000f || number == 0x0010 || number == 0x0046 || number == 0x0047
    ||| number == 0x007e || number == 0x0113 || number == 0x0218 || number == 0x0219
    ||| number == 0x02e0
}

/// Whether the application has made up a message with that number.
pub open spec fn is_own(numbers: MessageNumbers, number: u32) -> bool {
    ||| number == numbers.location_change || number == numbers.reorder
    ||| number == numbers.foreground || number == numbers.show_uncloaked
    ||| number == numbers.hide_cloaked || number == numbers.minimize_start
    ||| number == numbers.minimize_end || number == numbers.animate
    ||| number == numbers.komorebi || number == numbers.set_colors
    ||| number == numbers.set_width || number == numbers.set_offset
    ||| number == numbers.set_radius || number == numbers.recreate_drawer
}

/// Messages of the operating system are told apart by their numbers, and keep their parameter;
/// what is neither one of these nor the application's own is none of the border's.
pub proof fn system_messages_are_read(
    numbers: MessageNumbers,
    number: u32,
    wparam: usize,
    active: bool,
    inactive: bool,
)
    requires
        !is_own(numbers, number),
    ensures
        ({
            let message = message_of(numbers, number, wparam, active, inactive);
            &&& number == 0x0113 ==> message == (Message::Timer { id: wparam })
            &&& number == 0x000f ==> message == Message::Paint
            &&& number == 0x0010 ==> message == Message::Close
            &&& number == 0x007e ==> message == Message::DisplayChange
            &&& number == 0x02e0 ==> message == (Message::DpiChanged { wparam })
            &&& number == 0x0219 ==> message == (Message::DeviceChange { wparam })
            &&& number == 0x0218 ==> message == (Message::PowerBroadcast { wparam })
            &&& number == 0x0046 || number == 0x0047 ==> message == Message::WindowPosChange
            &&& !is_system_message(number) ==> message == Message::Other
        }),
{
}

/// Messages of the application are told apart by their numbers, as long as these differ from each
/// other and from those of the operating system; new colors keep which of them there are.
pub proof fn own_messages_are_read(
    numbers: MessageNumbers,
    number: u32,
    wparam: usize,
    active: bool,
    inactive: bool,
)
    requires
        !is_system_message(number),
        numbers.location_change < numbers.reorder < numbers.foreground < numbers.show_uncloaked
            < numbers.hide_cloaked < numbers.minimize_start < numbers.minimize_end
            < numbers.animate < numbers.komorebi < numbers.set_colors < numbers.set_width
            < numbers.set_offset < numbers.set_radius < numbers.recreate_drawer,
    ensures
        ({
            let message = message_of(numbers, number, wparam, active, inactive);
            &&& number == numbers.location_change ==> message == Message::LocationChange
            &&& number == numbers.reorder ==> message == Message::Reorder
            &&& number == numbers.foreground ==> message == Message::Foreground
            &&& number == numbers.show_uncloaked ==> message == Message::ShowUncloaked
            &&& number == numbers.hide_cloaked ==> message == Message::HideCloaked
            &&& number == numbers.minimize_start ==> message == Message::MinimizeStart
            &&& number == numbers.minimize_end ==> message == Message::MinimizeEnd
            &&& number == numbers.animate ==> message == Message::Animate
            &&& number == numbers.komorebi ==> message == Message::Komorebi
            &&& number == numbers.set_colors ==> message == (Message::SetColors {
                active,
                inactive,
            })
            &&& number == numbers.set_width ==> message == Message::SetWidth
            &&& number == numbers.set_offset ==> message == Message::SetOffset
            &&& number == numbers.set_radius ==> message == Message::SetRadius
            &&& number == numbers.recreate_drawer ==> message == Message::RecreateDrawer
        }),
{
}

/// Parameters are cut to their low 16 or 32 bits: what fits is kept, and what differs by whole
/// multiples of that range is taken for the same.
pub proof fn parameters_are_cut(wparam: usize, millis: u64)
    ensures
        loword(wparam) == wparam as int % 0x1_0000,
        low32(wparam) == wparam as int % 0x1_0000_0000,
        timer_millis(millis) == millis as int % 0x1_0000_0000,
        wparam < 0x1_0000 ==> loword(wparam) == wparam,
        wparam <= u32::MAX ==> low32(wparam) == wparam,
        millis <= u32::MAX ==> timer_millis(millis) == millis,
{
}

/// The flags with which a border window is moved: it is never activated or redrawn and never told;
/// it is shown, hidden or kept in its order exactly if that is asked for, and nothing else.
pub proof fn the_flags_say_what_is_asked_for(visibility: Visibility, keep_z_order: bool)
    ensures
        ({
            let flags = position_flags(visibility, keep_z_order);
            &&& flags & 0x418 == 0x418
            &&& (flags & 0x40 == 0x40) == (visibility == Visibility::Show)
            &&& (flags & 0x80 == 0x80) == (visibility == Visibility::Hide)
            &&& (flags & 0x4 == 0x4) == keep_z_order
            &&& flags & 0xffff_fb23 == 0
        }),
{
    assert((0x418u32 | 0u32 | 0u32) & 0x418 == 0x418 && (0x418u32 | 0u32 | 0u32) & 0x40 == 0 && (
    0x418u32 | 0u32 | 0u32) & 0x80 == 0 && (0x418u32 | 0u32 | 0u32) & 0x4 == 0 && (0x418u32 | 0u32
        | 0u32) & 0xffff_fb23 == 0) by (bit_vector);
    assert((0x418u32 | 0u32 | 4u32) & 0x418 == 0x418 && (0x418u32 | 0u32 | 4u32) & 0x40 == 0 && (
    0x418u32 | 0u32 | 4u32) & 0x80 == 0 && (0x418u32 | 0u32 | 4u32) & 0x4 == 4 && (0x418u32 | 0u32
        | 4u32) & 0xffff_fb23 == 0) by (bit_vector);
    assert((0x418u32 | 0x40u32 | 0u32) & 0x418 == 0x418 && (0x418u32 | 0x40u32 | 0u32) & 0x40
        == 0x40 && (0x418u32 | 0x40u32 | 0u32) & 0x80 == 0 && (0x418u32 | 0x40u32 | 0u32) & 0x4
        == 0 && (0x418u32 | 0x40u32 | 0u32) & 0xffff_fb23 == 0) by (bit_vector);
    assert((0x418u32 | 0x40u32 | 4u32) & 0x418 == 0x418 && (0x418u32 | 0x40u32 | 4u32) & 0x40
        == 0x40 && (0x418u32 | 0x40u32 | 4u32) & 0x80 == 0 && (0x418u32 | 0x40u32 | 4u32) & 0x4
        == 4 && (0x418u32 | 0x40u32 | 4u32) & 0xffff_fb23 == 0) by (bit_vector);
    assert((0x418u32 | 0x80u32 | 0u32) & 0x418 == 0x418 && (0x418u32 | 0x80u32 | 0u32) & 0x40 == 0
        && (0x418u32 | 0x80u32 | 0u32) & 0x80 == 0x80 && (0x418u32 | 0x80u32 | 0u32) & 0x4 == 0
        && (0x418u32 | 0x80u32 | 0u32) & 0xffff_fb23 == 0) by (bit_vector);
    assert((0x418u32 | 0x80u32 | 4u32) & 0x418 == 0x418 && (0x418u32 | 0x80u32 | 4u32) & 0x40 == 0
        && (0x418u32 | 0x80u32 | 4u32) & 0x80 == 0x80 && (0x418u32 | 0x80u32 | 4u32) & 0x4 == 4
        && (0x418u32 | 0x80u32 | 4u32) & 0xffff_fb23 == 0) by (bit_vector);
}

/// Three result codes of the operating system are told apart; no other one is taken for them, nor
/// for any error of the library's own.
pub proof fn result_codes_are_told_apart(hresult: u32)
    ensures
        ErrorCode::of_hresult(hresult) == ErrorCode::RecreateTarget <==> hresult == 0x8899_000c,
        ErrorCode::of_hresult(hresult) == ErrorCode::DeviceRemoved <==> hresult == 0x887a_0005,
        ErrorCode::of_hresult(hresult) == ErrorCode::AccessDenied <==> hresult == 0x8007_0005,
        ErrorCode::of_hresult(hresult) == ErrorCode::Other <==> hresult != 0x8899_000c && hresult
            != 0x887a_0005 && hresult != 0x8007_0005,
{
}

/// The size of a renderer is that of its surface or the one that its render target reports; only
/// a missing renderer has none. Only a composition surface supports effects.
pub proof fn a_renderer_has_the_size_of_what_it_draws_on(
    v2: V2RenderBackend,
    legacy: LegacyRenderBackend,
    reported: Size,
)
    ensures
        RenderBackend::V2(v2).pixel_size(reported) == Ok::<Size, ErrorCode>(v2.surface_size),
        RenderBackend::Legacy(legacy).pixel_size(reported) == Ok::<Size, ErrorCode>(reported),
        RenderBackend::Absent.pixel_size(reported) == Err::<Size, ErrorCode>(ErrorCode::Uninit),
        RenderBackend::V2(v2).supports_effects(),
        !RenderBackend::Legacy(legacy).supports_effects(),
        !RenderBackend::Absent.supports_effects(),
{
}

/// Whatever makes, shows, resizes or asks for something can fail, and so can taking the lock.
pub proof fn the_graphics_system_can_fail(call: GraphicsCall)
    requires
        call is CreateContext || call is EnterMultithread || call is GetAdapter || call
            is CreateDesktopDevice || call is CreateTarget || call is CastDevice || call
            is CreateVisual || call is CreateSurface || call is SetContent || call is SetRoot
            || call is Commit || call is CreateBorderBitmap || call is CreateMaskBitmap || call
            is DescribeAdapter || call is ClearContent || call is ClearRoot || call
            is CreateWindowTarget || call is ResizeTarget,
    ensures
        call.can_fail(),
{
}

/// A border whose window cannot be made is not entered.
pub proof fn a_border_without_a_window_is_not_entered(
    windows: Map<isize, isize>,
    tracking_window: isize,
    code: ErrorCode,
)
    ensures
        creation_step(windows, tracking_window, CreationEvent::Made(Err(code))) == (
            windows,
            CreationStep::Nothing,
        ),
        creation_step(windows, tracking_window, CreationEvent::Asked) == (
            windows,
            if windows.contains_key(tracking_window) {
                CreationStep::Nothing
            } else {
                CreationStep::MakeWindow
            },
        ),
{
}

/// The character that one or two UTF-16 units stand for, as a number.
pub open spec fn decoded(units: Seq<u16>) -> int {
    if units.len() == 1 {
        units[0] as int
    } else {
        0x1_0000 + (units[0] - 0xd800) * 0x400 + (units[1] - 0xdc00)
    }
}

/// The UTF-16 form of a character can be read back: a single unit that is no surrogate, or a high
/// surrogate and a low one.
pub proof fn characters_can_be_read_back(c: char)
    ensures
        ({
            let units = utf16_units(c);
            &&& decoded(units) == c as int
            &&& units.len() == 1 || units.len() == 2
            &&& units.len() == 1 ==> !(0xd800 <= units[0] <= 0xdfff)
            &&& units.len() == 2 ==> 0xd800 <= units[0] <= 0xdbff && 0xdc00 <= units[1] <= 0xdfff
        }),
{
}

/// The title of a border window names the window by its title and its handle.
pub proof fn a_title_names_the_window(title: Seq<char>, handle: Seq<char>)
    ensures
        ({
            let whole = border_title(title, handle);
            &&& whole.len() == 15 + title.len() + 3 + handle.len() + 1
            &&& whole.subrange(15, 15 + title.len() as int) == title
            &&& whole.subrange(
                18 + title.len() as int,
                18 + title.len() as int + handle.len() as int,
            ) == handle
            &&& whole.last() == '\0'
        }),
{
    reveal_strlit("tacky-border | ");
    reveal_strlit(" | ");
    reveal_strlit("\0");
    let whole = border_title(title, handle);
    assert(whole.subrange(15, 15 + title.len() as int) =~= title);
    assert(whole.subrange(
        18 + title.len() as int,
        18 + title.len() as int + handle.len() as int,
    ) =~= handle);
}

/// Whatever is made for a renderer on a composition surface has the size that was asked for: the
/// surface, and the two bitmaps for effects exactly if they were wanted.
pub proof fn things_are_made_in_the_size_asked_for(size: Size, window: isize, bitmaps: bool)
    ensures
        fits_the_order(new_plan(size, window, bitmaps), size, bitmaps),
        fits_the_order(resize_plan(size, bitmaps), size, bitmaps),
        new_plan(size, window, bitmaps)[5].call == (GraphicsCall::CreateTarget { window }),
{
    let surface = PlanStep::plain(GraphicsCall::CreateSurface { size });
    let border = GraphicsCall::CreateBorderBitmap { size };
    let mask = GraphicsCall::CreateMaskBitmap { size };
    let new = new_plan(size, window, bitmaps);
    let resize = resize_plan(size, bitmaps);
    assert(new[8].call == surface.call && resize[7].call == surface.call);
    if bitmaps {
        assert(new[13].call == border && new[14].call == mask);
        assert(resize[12].call == border && resize[13].call == mask);
    }
}

/// Whether some calls make a surface and bitmaps as they were asked for.
pub open spec fn fits_the_order(plan: Seq<PlanStep>, size: Size, bitmaps: bool) -> bool {
    &&& exists|i: int|
        0 <= i < plan.len() && (#[trigger] plan[i]).call == (GraphicsCall::CreateSurface { size })
    &&& bitmaps ==> exists|i: int|
        0 <= i < plan.len() && (#[trigger] plan[i]).call == (GraphicsCall::CreateBorderBitmap {
            size,
        })
    &&& bitmaps ==> exists|i: int|
        0 <= i < plan.len() && (#[trigger] plan[i]).call == (GraphicsCall::CreateMaskBitmap {
            size,
        })
    &&& forall|i: int| #![trigger plan[i]]
        0 <= i < plan.len() ==> match plan[i].call {
            GraphicsCall::CreateSurface { size: made } => made == size,
            GraphicsCall::CreateBorderBitmap { size: made } => made == size && bitmaps,
            GraphicsCall::CreateMaskBitmap { size: made } => made == size && bitmaps,
            _ => true,
        }
}

/// After a failure the lock is left if it is held, and the surface given up if the renderer is;
/// nothing else is done.
pub proof fn a_failure_is_unwound(held: bool, parting: bool)
    ensures
        ({
            let plan = unwinding(held, parting);
            let leave = PlanStep::plain(GraphicsCall::LeaveMultithread);
            let drop = PlanStep::plain(GraphicsCall::DropSurface);
            &&& !held && !parting ==> plan == Seq::<PlanStep>::empty()
            &&& held && !parting ==> plan == seq![leave]
            &&& !held && parting ==> plan == seq![drop]
            &&& held && parting ==> plan == seq![leave].push(drop)
        }),
{
    let leave = PlanStep::plain(GraphicsCall::LeaveMultithread);
    let drop = PlanStep::plain(GraphicsCall::DropSurface);
    let plan = unwinding(held, parting);
    assert(!held && !parting ==> plan =~= Seq::<PlanStep>::empty());
    assert(held && !parting ==> plan =~= seq![leave]);
    assert(!held && parting ==> plan =~= seq![drop]);
    assert(held && parting ==> plan =~= seq![leave].push(drop));
}

} // verus!
