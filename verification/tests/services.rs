//! The renderers, the manager of borders and the ticker of the animations.

use tacky_borders::anim_timer::{AnimationTimer, TickerState, TickerStep};
use tacky_borders::border_manager::{
    BorderCommand, BorderManager, Borders, CreationEvent, CreationStep, LoopStep, ThreadPost,
};
use tacky_borders::geometry::Size;
use tacky_borders::protocol::ErrorCode;
use tacky_borders::render_backend::{
    Answer, DrawGuard, GraphicsCall, Job, LegacyRenderBackend, Luid, RenderBackend,
    RenderBackendConfig, V2RenderBackend,
};

const LUID: Luid = Luid { low_part: 8, high_part: -9 };
const SIZE: Size = Size { width: 256, height: 128 };

/// Carries out a job whose call number `failing` fails.
fn carry_out(mut job: Job, failing: Option<usize>) -> (Vec<GraphicsCall>, Job) {
    let mut calls = Vec::new();
    let mut held = false;
    while let Some(call) = job.call() {
        match call {
            GraphicsCall::EnterMultithread => assert!(!held),
            GraphicsCall::LeaveMultithread => assert!(held),
            _ => {}
        }
        calls.push(call);
        if failing == Some(calls.len() - 1) {
            job.answer(Answer::Failed(ErrorCode::DeviceRemoved));
            if !call.can_fail() {
                held = locked(call, held);
            }
        } else {
            job.answer(if call == GraphicsCall::DescribeAdapter {
                Answer::Adapter(LUID)
            } else {
                Answer::Done
            });
            held = locked(call, held);
        }
    }
    assert!(!held && !job.held);
    (calls, job)
}

fn locked(call: GraphicsCall, held: bool) -> bool {
    match call {
        GraphicsCall::EnterMultithread => true,
        GraphicsCall::LeaveMultithread => false,
        _ => held,
    }
}

fn old_backend() -> V2RenderBackend {
    V2RenderBackend {
        surface_size: Size { width: 128, height: 128 },
        border_bitmap: true,
        mask_bitmap: true,
        adapter_luid: LUID,
    }
}

#[test]
fn a_renderer_on_a_composition_surface_is_made() {
    for bitmaps in [false, true] {
        let (calls, job) = carry_out(V2RenderBackend::new(256, 128, 5, bitmaps), None);
        let mut expected = vec![
            GraphicsCall::CreateContext,
            GraphicsCall::SmoothContext,
            GraphicsCall::EnterMultithread,
            GraphicsCall::GetAdapter,
            GraphicsCall::CreateDesktopDevice,
            GraphicsCall::CreateTarget { window: 5 },
            GraphicsCall::CastDevice,
            GraphicsCall::CreateVisual,
            GraphicsCall::CreateSurface { size: SIZE },
            GraphicsCall::SetContent,
            GraphicsCall::SetRoot,
            GraphicsCall::Commit,
            GraphicsCall::LeaveMultithread,
        ];
        if bitmaps {
            expected.push(GraphicsCall::CreateBorderBitmap { size: SIZE });
            expected.push(GraphicsCall::CreateMaskBitmap { size: SIZE });
        }
        expected.push(GraphicsCall::DescribeAdapter);
        assert_eq!(calls, expected);
        assert_eq!(
            job.result(),
            Ok(RenderBackend::V2(V2RenderBackend {
                surface_size: SIZE,
                border_bitmap: bitmaps,
                mask_bitmap: bitmaps,
                adapter_luid: LUID,
            }))
        );
    }
}

#[test]
fn a_renderer_that_cannot_be_made_leaves_the_lock() {
    for failing in 0..16 {
        let (calls, job) = carry_out(V2RenderBackend::new(256, 128, 5, true), Some(failing));
        if failing == 1 || failing == 12 {
            // Calls that cannot fail.
            assert!(job.result().is_ok());
        } else {
            assert_eq!(job.result(), Err(ErrorCode::DeviceRemoved));
            let unwound = if (3..12).contains(&failing) { 1 } else { 0 };
            assert_eq!(calls.len(), failing + 1 + unwound);
            assert_eq!(job.backend, RenderBackend::Absent);
        }
    }
}

#[test]
fn a_renderer_on_a_composition_surface_is_resized() {
    for bitmaps in [false, true] {
        let (calls, job) = carry_out(old_backend().resize(256, 128, bitmaps), None);
        assert_eq!(calls.len(), if bitmaps { 14 } else { 12 });
        assert_eq!(
            calls[..8],
            [
                GraphicsCall::ClearTarget,
                GraphicsCall::EnterMultithread,
                GraphicsCall::ClearContent,
                GraphicsCall::ClearRoot,
                GraphicsCall::Commit,
                GraphicsCall::LeaveMultithread,
                GraphicsCall::EnterMultithread,
                GraphicsCall::CreateSurface { size: SIZE },
            ]
        );
        assert_eq!(
            job.result(),
            Ok(RenderBackend::V2(V2RenderBackend {
                surface_size: SIZE,
                border_bitmap: bitmaps,
                mask_bitmap: bitmaps,
                adapter_luid: LUID,
            }))
        );
    }
}

#[test]
fn a_renderer_that_cannot_be_resized_is_whole() {
    for failing in 0..14 {
        let (_, job) = carry_out(old_backend().resize(256, 128, true), Some(failing));
        let RenderBackend::V2(backend) = job.backend else {
            panic!();
        };
        assert_eq!(backend.border_bitmap, backend.mask_bitmap);
        if job.result().is_ok() {
            // Calls that cannot fail.
            assert!([0, 5, 11].contains(&failing));
            continue;
        }
        let size = if failing > 11 { SIZE } else { old_backend().surface_size };
        assert_eq!(backend.surface_size, size);
        // The old bitmaps are gone once the old surface is let go.
        assert_eq!(backend.border_bitmap, failing < 5);
    }
}

#[test]
fn a_renderer_lets_go_of_what_it_shows() {
    let (calls, job) = carry_out(old_backend().release_references(), None);
    assert_eq!(calls.len(), 6);
    assert_eq!(job.result(), Ok(RenderBackend::V2(old_backend())));
    let (_, job) = carry_out(old_backend().release_references(), Some(1));
    assert_eq!(job.result(), Err(ErrorCode::DeviceRemoved));
}

#[test]
fn a_renderer_that_is_given_up_always_gives_up_its_surface() {
    for failing in [None, Some(0), Some(1), Some(2), Some(3), Some(4), Some(5), Some(6)] {
        let (calls, _) = carry_out(old_backend().give_up(), failing);
        assert_eq!(calls.last(), Some(&GraphicsCall::DropSurface));
        assert_eq!(calls.iter().filter(|call| **call == GraphicsCall::DropSurface).count(), 1);
    }
}

#[test]
fn a_renderer_on_a_window() {
    let (calls, job) = carry_out(LegacyRenderBackend::new(5), None);
    assert_eq!(
        calls,
        vec![GraphicsCall::CreateWindowTarget { window: 5 }, GraphicsCall::SmoothTarget]
    );
    assert_eq!(job.result(), Ok(RenderBackend::Legacy(LegacyRenderBackend {})));
    let (calls, job) = carry_out(LegacyRenderBackend::new(5), Some(0));
    assert_eq!(calls.len(), 1);
    assert_eq!(job.result(), Err(ErrorCode::DeviceRemoved));
    let (calls, job) = carry_out(LegacyRenderBackend {}.resize(256, 128), None);
    assert_eq!(calls, vec![GraphicsCall::ResizeTarget { size: SIZE }]);
    assert_eq!(job.result(), Ok(RenderBackend::Legacy(LegacyRenderBackend {})));
}

#[test]
fn the_configuration_chooses_the_renderer() {
    assert_eq!(RenderBackendConfig::default(), RenderBackendConfig::V2);
    let (_, job) = carry_out(RenderBackendConfig::V2.to_render_backend(256, 128, 5, false), None);
    assert!(matches!(job.result(), Ok(RenderBackend::V2(_))));
    let (_, job) =
        carry_out(RenderBackendConfig::Legacy.to_render_backend(256, 128, 5, false), None);
    assert!(matches!(job.result(), Ok(RenderBackend::Legacy(_))));
}

#[test]
fn a_missing_renderer_has_no_size() {
    assert_eq!(RenderBackend::default(), RenderBackend::Absent);
    assert_eq!(RenderBackend::Absent.get_pixel_size(SIZE), Err(ErrorCode::Uninit));
    assert!(matches!(RenderBackend::Absent.resize(1, 1, false), Err(ErrorCode::Uninit)));
    assert!(!RenderBackend::Absent.supports_effects());
    let legacy = RenderBackend::Legacy(LegacyRenderBackend {});
    assert_eq!(legacy.get_pixel_size(SIZE), Ok(SIZE));
    assert!(!legacy.supports_effects());
    assert!(legacy.resize(1, 1, false).is_ok());
    let v2 = RenderBackend::V2(old_backend());
    assert_eq!(v2.get_pixel_size(SIZE), Ok(Size { width: 128, height: 128 }));
    assert!(v2.supports_effects());
    assert!(v2.resize(1, 1, false).is_ok());
}

#[test]
fn drawing_is_ended_once() {
    let mut guard = DrawGuard::begin();
    assert!(guard.end());
    assert!(!guard.end());
}

#[test]
fn commands_wake_the_thread_and_are_carried_out_in_order() {
    let mut manager: BorderManager<&str> = BorderManager::new(77, 0x8005);
    let post = ThreadPost { thread_id: 77, message: 0x8005 };
    assert_eq!(manager.create_border(1, "one"), post);
    assert_eq!(manager.create_border(2, "two"), post);
    assert_eq!(
        manager.take_command(),
        Some(BorderCommand::Create { tracking_window: 1, window_rule: "one" })
    );
    manager.create_border(3, "three");
    assert_eq!(
        manager.take_command(),
        Some(BorderCommand::Create { tracking_window: 2, window_rule: "two" })
    );
    assert_eq!(
        manager.take_command(),
        Some(BorderCommand::Create { tracking_window: 3, window_rule: "three" })
    );
    assert_eq!(manager.take_command(), None);
}

#[test]
fn the_thread_tells_messages_apart() {
    let manager: BorderManager<()> = BorderManager::new(77, 0x8005);
    assert_eq!(manager.on_message(0, 0, 0x8005), LoopStep::Stop);
    assert_eq!(manager.on_message(1, 0, 0x8005), LoopStep::Drain);
    assert_eq!(manager.on_message(-1, 0, 0x8005), LoopStep::Drain);
    assert_eq!(manager.on_message(1, 9, 0x8005), LoopStep::Dispatch);
    assert_eq!(manager.on_message(1, 0, 0x8006), LoopStep::Dispatch);
}

#[test]
fn a_window_gets_one_border() {
    let mut borders = Borders::new();
    assert_eq!(
        borders.create_border_internal(1, CreationEvent::Asked),
        CreationStep::MakeWindow
    );
    assert_eq!(
        borders.create_border_internal(1, CreationEvent::Made(Err(ErrorCode::Other))),
        CreationStep::Nothing
    );
    assert!(borders.windows.is_empty());
    assert_eq!(
        borders.create_border_internal(1, CreationEvent::Made(Ok(2))),
        CreationStep::Initialize
    );
    assert_eq!(borders.windows.get(&1), Some(&2));
    assert_eq!(borders.create_border_internal(1, CreationEvent::Asked), CreationStep::Nothing);
    assert_eq!(
        borders.create_border_internal(1, CreationEvent::Initialized(Ok(false))),
        CreationStep::Transfer
    );
    assert_eq!(borders.windows.get(&1), Some(&2));
    assert_eq!(
        borders.create_border_internal(
            1,
            CreationEvent::Initialized(Err(ErrorCode::Failed))
        ),
        CreationStep::Discard
    );
    assert!(borders.windows.is_empty());
    borders.create_border_internal(3, CreationEvent::Made(Ok(4)));
    borders.forget(3);
    assert!(borders.windows.is_empty());
}

#[test]
fn the_ticker_waits_ticks_and_stops() {
    let mut ticker = TickerState::new();
    assert!(matches!(ticker.next_step(), TickerStep::Wait));
    ticker.register(1, 33);
    ticker.register(2, 16);
    ticker.register(2, 8);
    match ticker.next_step() {
        TickerStep::Tick { mut hwnds, interval } => {
            hwnds.sort();
            assert_eq!(hwnds, vec![1, 2]);
            assert_eq!(interval, 8);
        }
        _ => panic!(),
    }
    ticker.register(3, 0);
    assert!(matches!(ticker.next_step(), TickerStep::Tick { interval: 1, .. }));
    ticker.unregister(3);
    ticker.unregister(2);
    assert!(matches!(ticker.next_step(), TickerStep::Tick { interval: 33, .. }));
    ticker.stop = true;
    assert!(matches!(ticker.next_step(), TickerStep::Stop));
}

#[test]
fn a_closed_timer_leaves_no_trace() {
    let mut ticker = TickerState::new();
    let timer = AnimationTimer::new(&mut ticker, 5, 16);
    assert_eq!(timer.hwnd, 5);
    assert_eq!(ticker.targets.get(&5), Some(&16));
    timer.close(&mut ticker);
    assert!(ticker.targets.is_empty());
}
