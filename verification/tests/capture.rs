use moonshine::error::{AllocationFailure, AllocationStep, CaptureError, FrameError};
use moonshine::outputs::OutputEvent;
use moonshine::pool::{is_unused, next_free};
use moonshine::run::{RunAction, RunStage};
use moonshine::wlroots::{
    BufferStep, CaptureRequest, Delivered, Delivery, Failed, Finished, PendingFrame, PoolPlan, ReadyStep,
    StartupStep, WlrootsCaptureConfig, WlrootsReady, WlrootsState,
};

const XRGB8888: u32 = 875713112;

fn new_state(output: Option<&str>) -> WlrootsState {
    WlrootsState::new(
        WlrootsCaptureConfig {
            display: None,
            output: output.map(str::to_string),
            render_cursor: true,
        },
        1920,
        1080,
        60,
    )
}

fn announce_all(state: &mut WlrootsState) {
    state.handle_global(1, "zwlr_screencopy_manager_v1", 3);
    state.handle_global(2, "zwp_linux_dmabuf_v1", 3);
    state.handle_global(3, "zwlr_virtual_pointer_manager_v1", 2);
    state.handle_global(4, "zwp_virtual_keyboard_manager_v1", 1);
    state.handle_global(5, "wl_seat", 7);
    state.handle_global(6, "wl_output", 4);
    state.handle_global(7, "wl_output", 4);
}

fn running_state() -> WlrootsState {
    let mut state = new_state(None);
    announce_all(&mut state);
    state.finish_initialization().unwrap();
    state.keyboard_ready();
    assert_eq!(
        state.start_capture(0, true).unwrap(),
        Some(CaptureRequest { render_cursor: true, output: 0 })
    );
    state
}

/// A capture whose first frame is in the first buffer.
fn first_copy() -> WlrootsState {
    let mut state = running_state();
    state.handle_linux_dmabuf_offer(XRGB8888, 1920, 1080);
    let done = state.handle_buffer_done(&vec![]);
    assert!(!done.warn_size);
    assert!(matches!(done.step, BufferStep::Allocate(_)));
    let step = state.pool_allocated(XRGB8888, 1920, 1080, Ok(()));
    assert!(matches!(step, BufferStep::Copy { slot: 0 }));
    state
}

/// A capture that streams, with no frame pending.
fn streaming() -> WlrootsState {
    let mut state = first_copy();
    assert_eq!(state.handle_ready(), ReadyStep::Export { slot: 0, warn_y_inverted: false });
    let delivered = state.frame_delivered(Delivery::Sent, 1);
    assert_eq!(delivered, Delivered { release: None, request: None });
    state
}

#[test]
fn setup_chooses_an_output() {
    let mut state = new_state(Some("Desk"));
    announce_all(&mut state);
    state.handle_output_event(7, OutputEvent::Description { description: "Desk".to_string() });
    let plan = state.finish_initialization().unwrap();
    assert_eq!((plan.output, plan.label.as_str(), plan.pointer_on_output), (1, "Desk", true));
    assert_eq!(state.selected_output, Some(1));
    assert!(state.input.pointer && !state.input.keyboard);
    state.keyboard_ready();
    assert!(state.input.keyboard && state.input.xkb_state);
}

#[test]
fn setup_needs_all_globals() {
    let mut state = new_state(None);
    state.handle_global(1, "zwlr_screencopy_manager_v1", 2);
    state.handle_global(6, "wl_output", 4);
    let error = state.finish_initialization().unwrap_err();
    assert_eq!(
        error.message(),
        "wlroots capture missing required Wayland globals: zwlr_screencopy_manager_v1 v3, zwp_linux_dmabuf_v1, zwlr_virtual_pointer_manager_v1, zwp_virtual_keyboard_manager_v1, wl_seat"
    );
    assert_eq!(state.selected_output, None);
}

#[test]
fn setup_needs_the_requested_output() {
    let mut state = new_state(Some("DP-9"));
    announce_all(&mut state);
    assert!(matches!(
        state.finish_initialization(),
        Err(CaptureError::OutputNotFound { .. })
    ));
}

#[test]
fn old_pointer_managers_are_not_tied_to_the_output() {
    let mut state = new_state(None);
    announce_all(&mut state);
    state.handle_global(8, "zwlr_virtual_pointer_manager_v1", 1);
    assert!(!state.finish_initialization().unwrap().pointer_on_output);
}

#[test]
fn virtual_input_checks_in_order() {
    let mut state = new_state(None);
    assert!(matches!(state.init_virtual_input(), Err(CaptureError::NoSeat)));
    state.handle_global(5, "wl_seat", 7);
    assert!(matches!(state.init_virtual_input(), Err(CaptureError::NoSelectedOutput)));
    state.handle_global(6, "wl_output", 4);
    state.selected_output = Some(0);
    assert!(matches!(state.init_virtual_input(), Err(CaptureError::PointerManagerMissing)));
    assert!(!state.input.pointer);
    state.handle_global(3, "zwlr_virtual_pointer_manager_v1", 2);
    assert!(matches!(state.init_virtual_input(), Err(CaptureError::KeyboardManagerMissing)));
    assert!(state.input.pointer);
    state.handle_global(4, "zwp_virtual_keyboard_manager_v1", 1);
    assert!(matches!(state.init_virtual_input(), Ok(true)));
}

#[test]
fn captures_need_manager_and_output() {
    let mut state = new_state(None);
    assert!(matches!(
        state.start_capture(0, true),
        Err(CaptureError::ScreencopyManagerMissing)
    ));
    state.handle_global(1, "zwlr_screencopy_manager_v1", 3);
    assert!(matches!(
        state.start_capture(0, true),
        Err(CaptureError::SelectedOutputMissing)
    ));
    assert!(!state.capture_in_progress);
}

#[test]
fn one_frame_at_a_time() {
    let mut state = running_state();
    assert!(matches!(state.start_capture(1_000_000_000, true), Ok(None)));
    assert!(matches!(state.start_capture(1_000_000_000, false), Ok(None)));
}

#[test]
fn frames_keep_the_pace() {
    let mut state = streaming();
    assert_eq!(state.frame_interval, 16_666_667);
    assert_eq!(state.last_capture_at, Some(0));
    assert!(matches!(state.start_capture(16_666_666, false), Ok(None)));
    assert!(matches!(state.start_capture(16_666_667, false), Ok(Some(_))));
    assert_eq!(state.last_capture_at, Some(16_666_667));
    assert_eq!(state.finish_capture(false), Finished { destroy_frame: true, release: None });
    assert!(matches!(state.start_capture(3, false), Ok(None)));
    assert!(matches!(state.start_capture(3, true), Ok(Some(_))));
}

#[test]
fn first_frame_allocates_and_completes_the_start() {
    let mut state = first_copy();
    assert_eq!((state.pool_len, state.next_buffer_index), (3, 1));
    assert!(matches!(state.startup_step(false, 60), StartupStep::Wait));
    assert_eq!(state.handle_ready(), ReadyStep::Export { slot: 0, warn_y_inverted: false });
    state.frame_delivered(Delivery::Sent, 1);
    assert!(state.startup_complete);
    match state.startup_step(true, 60) {
        StartupStep::Ready(ready) => assert_eq!(
            ready,
            WlrootsReady { hdr: false, width: 1920, height: 1080, refresh_rate: 60 }
        ),
        other => panic!("{other:?}"),
    }
    assert!(matches!(state.startup_step(true, 60), StartupStep::Stopped));
    assert!(matches!(state.startup_step(false, 60), StartupStep::Wait));
}

#[test]
fn allocation_request_names_what_is_needed() {
    let mut state = running_state();
    state.handle_dmabuf_modifier(XRGB8888, 1, 2);
    state.handle_dmabuf_modifier(XRGB8888, 1, 2);
    state.handle_dmabuf_format(7);
    state.handle_linux_dmabuf_offer(XRGB8888, 640, 480);
    let done = state.handle_buffer_done(&vec![]);
    assert!(done.warn_size && done.drained);
    match done.step {
        BufferStep::Allocate(request) => {
            assert_eq!((request.format, request.width, request.height), (XRGB8888, 640, 480));
            assert_eq!(request.modifiers, vec![(1 << 32) + 2]);
            assert_eq!(request.count, 3);
        }
        other => panic!("{other:?}"),
    }
}

#[test]
fn size_mismatch_is_reported_once() {
    let mut state = running_state();
    state.handle_linux_dmabuf_offer(XRGB8888, 640, 480);
    assert!(state.handle_buffer_done(&vec![]).warn_size);
    state.handle_linux_dmabuf_offer(XRGB8888, 800, 600);
    assert!(!state.handle_buffer_done(&vec![]).warn_size);
}

#[test]
fn failed_allocation_ends_the_start() {
    let mut state = running_state();
    state.handle_linux_dmabuf_offer(XRGB8888, 1920, 1080);
    state.handle_buffer_done(&vec![]);
    let failure = AllocationFailure {
        step: AllocationStep::Export,
        index: 1,
        reason: "no memory".to_string(),
    };
    let step = state.pool_allocated(XRGB8888, 1920, 1080, Err(failure));
    assert!(matches!(
        step,
        BufferStep::Abandon { error: FrameError::Allocation(_), destroy_frame: true }
    ));
    match state.startup_step(false, 60) {
        StartupStep::Failed(error) => {
            assert_eq!(error.message(), "Failed to export wlroots capture GBM buffer 1: no memory");
        }
        other => panic!("{other:?}"),
    }
    assert_eq!(state.pool_len, 0);
    assert!(!state.capture_in_progress);
}

#[test]
fn frame_without_an_offer_is_abandoned() {
    let mut state = running_state();
    let done = state.handle_buffer_done(&vec![]);
    assert!(matches!(
        done.step,
        BufferStep::Abandon { error: FrameError::NoDmabufOffer, destroy_frame: true }
    ));
    let done = state.handle_buffer_done(&vec![]);
    assert!(matches!(
        done.step,
        BufferStep::Abandon { error: FrameError::NoDmabufOffer, destroy_frame: false }
    ));
    assert!(matches!(
        state.startup_step(false, 60),
        StartupStep::Failed(FrameError::NoDmabufOffer)
    ));
}

#[test]
fn unknown_format_is_abandoned() {
    let mut state = running_state();
    state.handle_linux_dmabuf_offer(828601953, 1920, 1080);
    let done = state.handle_buffer_done(&vec![]);
    assert!(matches!(
        done.step,
        BufferStep::Abandon { error: FrameError::UnsupportedFormat(828601953), destroy_frame: true }
    ));
}

#[test]
fn the_library_goes_by_what_is_known_of_the_format() {
    let mut state = running_state();
    state.handle_linux_dmabuf_offer(XRGB8888, 1920, 1080);
    assert!(matches!(
        state.buffers_offered(&vec![], false).step,
        BufferStep::Abandon { error: FrameError::UnsupportedFormat(XRGB8888), destroy_frame: true }
    ));
    let mut state = running_state();
    state.handle_linux_dmabuf_offer(5, 1920, 1080);
    assert!(matches!(state.buffers_offered(&vec![], true).step, BufferStep::Allocate(_)));
}

#[test]
fn buffers_need_the_dmabuf_manager() {
    let mut state = running_state();
    state.globals.linux_dmabuf = None;
    state.handle_linux_dmabuf_offer(XRGB8888, 1920, 1080);
    assert!(matches!(
        state.handle_buffer_done(&vec![]).step,
        BufferStep::Abandon { error: FrameError::DmabufManagerMissing, destroy_frame: true }
    ));
}

#[test]
fn buffers_in_use_are_not_replaced() {
    let mut state = streaming();
    state.start_capture(20_000_000, false).unwrap();
    state.handle_linux_dmabuf_offer(XRGB8888, 800, 600);
    let done = state.handle_buffer_done(&vec![true, false, true]);
    assert!(!done.drained);
    assert!(matches!(
        done.step,
        BufferStep::Abandon { error: FrameError::PoolInUse, destroy_frame: true }
    ));
    assert_eq!(state.pool_len, 3);
    assert!(state.startup_result.is_some_and(|result| result.is_ok()));
}

#[test]
fn unused_buffers_are_replaced() {
    let mut state = streaming();
    state.start_capture(20_000_000, false).unwrap();
    state.handle_linux_dmabuf_offer(XRGB8888, 800, 600);
    let done = state.handle_buffer_done(&vec![true, true, true]);
    assert!(done.drained);
    assert!(matches!(done.step, BufferStep::Allocate(_)));
    assert_eq!(state.pool_len, 0);
    state.pool_allocated(XRGB8888, 800, 600, Ok(()));
    assert_eq!((state.buffer_width, state.buffer_height, state.pool_len), (800, 600, 3));
}

#[test]
fn pool_plans() {
    let mut state = streaming();
    let kept = state.ensure_buffer_pool(XRGB8888, 1920, 1080, &vec![false, false, false]);
    assert!(!kept.drained && matches!(kept.plan, Ok(PoolPlan::Keep)));
    let busy = state.ensure_buffer_pool(XRGB8888, 1920, 1081, &vec![true, true, false]);
    assert!(!busy.drained && matches!(busy.plan, Err(FrameError::PoolInUse)));
    let unknown = state.ensure_buffer_pool(0, 1920, 1080, &vec![true, true, true]);
    assert!(unknown.drained && matches!(unknown.plan, Err(FrameError::UnsupportedFormat(0))));
    let planned = state.plan_pool(0, 1920, 1080, &vec![], true);
    assert!(planned.drained && matches!(planned.plan, Ok(PoolPlan::Allocate(_))));
}

#[test]
fn frames_go_around_the_ring() {
    let mut state = streaming();
    assert_eq!(state.acquire_slot(&vec![true, true, true]), Some(1));
    assert_eq!(state.acquire_slot(&vec![true, true, true]), Some(2));
    assert_eq!(state.acquire_slot(&vec![true, true, true]), Some(0));
    assert_eq!(state.acquire_slot(&vec![true, false, false]), Some(0));
    assert_eq!(state.acquire_slot(&vec![false, false, false]), None);
    assert_eq!(state.next_buffer_index, 1);
    assert_eq!(next_free(&vec![true, false, true], 1), Some(2));
    assert_eq!(next_free(&vec![], 0), None);
    assert!(is_unused(&vec![]) && is_unused(&vec![true]) && !is_unused(&vec![true, false]));
}

#[test]
fn frame_is_skipped_without_a_free_buffer() {
    let mut state = streaming();
    state.start_capture(20_000_000, false).unwrap();
    state.handle_linux_dmabuf_offer(XRGB8888, 1920, 1080);
    assert!(matches!(
        state.handle_buffer_done(&vec![false, false, false]).step,
        BufferStep::Skip
    ));
    assert!(!state.capture_in_progress && state.pending_frame.is_none());
}

#[test]
fn flags_set_the_orientation() {
    let mut state = first_copy();
    state.handle_flags(0b110);
    assert!(!state.pending_frame.unwrap().y_inverted);
    state.handle_flags(0b101);
    assert!(state.pending_frame.unwrap().y_inverted);
    assert_eq!(state.handle_ready(), ReadyStep::Export { slot: 0, warn_y_inverted: true });
    assert_eq!(state.handle_ready(), ReadyStep::Export { slot: 0, warn_y_inverted: false });
    state.frame_delivered(Delivery::Sent, 1);
    state.handle_flags(1);
    assert!(state.pending_frame.is_none());
}

#[test]
fn ready_without_a_buffer() {
    let mut state = running_state();
    assert_eq!(state.handle_ready(), ReadyStep::Destroy);
    assert_eq!(state.handle_ready(), ReadyStep::Ignore);
}

#[test]
fn full_encoder_gives_the_buffer_back() {
    let mut state = first_copy();
    state.handle_ready();
    let delivered = state.frame_delivered(Delivery::Full, 16_666_667);
    assert_eq!(
        delivered,
        Delivered {
            release: Some(0),
            request: Some(CaptureRequest { render_cursor: true, output: 0 }),
        }
    );
    assert!(!state.startup_complete);
    assert_eq!(
        state.pending_frame,
        Some(PendingFrame {
            slot_index: None,
            offered_format: None,
            offered_width: 0,
            offered_height: 0,
            y_inverted: false,
        })
    );
}

#[test]
fn disconnected_encoder_keeps_the_start_open() {
    let mut state = first_copy();
    state.handle_ready();
    let delivered = state.frame_delivered(Delivery::Disconnected, 1);
    assert_eq!(delivered, Delivered { release: None, request: None });
    assert!(!state.startup_complete && state.startup_result.is_none());
}

#[test]
fn failed_first_frame_ends_the_start() {
    let mut state = running_state();
    assert_eq!(state.handle_failed(1), Failed { destroy_frame: true, request: None });
    assert!(matches!(
        state.startup_step(false, 60),
        StartupStep::Failed(FrameError::InitialFrameFailed)
    ));
}

#[test]
fn later_failures_do_not_touch_the_start() {
    let mut state = streaming();
    state.start_capture(20_000_000, false).unwrap();
    let failed = state.handle_failed(40_000_000);
    assert!(failed.destroy_frame && failed.request.is_some());
    assert!(state.startup_result.is_some_and(|result| result.is_ok()));
}

#[test]
fn released_buffers_are_named() {
    let mut state = first_copy();
    assert_eq!(state.finish_capture(true), Finished { destroy_frame: true, release: Some(0) });
    assert_eq!(state.finish_capture(true), Finished { destroy_frame: false, release: None });
}

#[test]
fn capture_runs_from_start_to_end() {
    let mut state = first_copy();
    let mut stage = RunStage::Startup;
    assert!(matches!(stage.next(&mut state, false, 60), RunAction::Dispatch));
    state.handle_ready();
    state.frame_delivered(Delivery::Sent, 1);
    assert!(matches!(stage.next(&mut state, false, 60), RunAction::ProcessInput));
    match stage.next(&mut state, false, 60) {
        RunAction::Announce(ready) => {
            assert!(!ready.hdr);
            assert!(ready.width > 0);
            assert!(ready.height > 0);
        }
        other => panic!("{other:?}"),
    }
    for _ in 0..3 {
        assert!(matches!(stage.next(&mut state, false, 60), RunAction::ProcessInput));
        assert!(matches!(stage.next(&mut state, false, 60), RunAction::Dispatch));
        assert!(matches!(stage.next(&mut state, false, 60), RunAction::StartCapture));
    }
    assert!(matches!(stage.next(&mut state, true, 60), RunAction::Stop));
    assert_eq!(stage, RunStage::Ended);
    assert!(matches!(stage.next(&mut state, false, 60), RunAction::Stop));
}

#[test]
fn capture_that_cannot_start_fails() {
    let mut state = running_state();
    let mut stage = RunStage::Startup;
    state.handle_failed(1);
    assert!(matches!(
        stage.next(&mut state, false, 60),
        RunAction::Fail(FrameError::InitialFrameFailed)
    ));
    let mut stage = RunStage::Startup;
    assert!(matches!(stage.next(&mut state, true, 60), RunAction::Stop));
}

#[test]
fn announced_size_is_that_of_the_first_frame() {
    let mut state = running_state();
    let mut stage = RunStage::Startup;
    state.handle_linux_dmabuf_offer(XRGB8888, 640, 480);
    assert!(matches!(state.handle_buffer_done(&vec![]).step, BufferStep::Allocate(_)));
    state.pool_allocated(XRGB8888, 640, 480, Ok(()));
    assert!(matches!(state.handle_ready(), ReadyStep::Export { slot: 0, .. }));
    state.frame_delivered(Delivery::Sent, 16_666_667);
    match stage.next(&mut state, true, 75) {
        RunAction::Announce(ready) => assert_eq!(
            ready,
            WlrootsReady { hdr: false, width: 640, height: 480, refresh_rate: 75 }
        ),
        other => panic!("{other:?}"),
    }
}

#[test]
fn stopped_session_ends_the_capture_in_three_steps() {
    for mut stage in [
        RunStage::Startup,
        RunStage::StartupInput,
        RunStage::Streaming,
        RunStage::StreamDispatch,
        RunStage::StreamCapture,
        RunStage::Ended,
    ] {
        let mut state = streaming();
        for _ in 0..3 {
            stage.next(&mut state, true, 60);
        }
        assert_eq!(stage, RunStage::Ended);
    }
}

#[test]
fn replacing_the_ring_leaves_the_pending_frame_alone() {
    let mut state = first_copy();
    assert!(state.has_slot_in_ring());
    state.handle_linux_dmabuf_offer(XRGB8888, 800, 600);
    let before = state.pending_frame;
    let done = state.handle_buffer_done(&vec![true, true, true]);
    assert!(done.drained && matches!(done.step, BufferStep::Allocate(_)));
    assert_eq!(state.pending_frame, before);
    assert_eq!((state.pool_len, state.pending_frame.unwrap().slot_index), (0, Some(0)));
    assert!(!state.has_slot_in_ring());
    state.pool_allocated(XRGB8888, 800, 600, Ok(()));
    assert!(state.has_slot_in_ring());
}
