//! The state of a screen capture, and what to do on each event of it.
//!
//! Nothing here talks to the compositor. Every method takes an event and what
//! can be read at that moment, and returns what to do next.

use vstd::prelude::*;

use wayland_protocols_wlr::screencopy::v1::client::zwlr_screencopy_frame_v1::Flags;

use crate::clock::frame_interval;
use crate::error::{AllocationFailure, CaptureError, FrameError, RequiredGlobal};
use crate::formats::{is_fourcc, ModifierTable};
use crate::geometry::max_one;
use crate::globals::{Binding, GlobalKind, Globals};
use crate::input::VirtualInput;
use crate::outputs::{select_output, update_output, OutputEvent, OutputInfo};
use crate::pool::{is_unused, next_free, BUFFER_POOL_SIZE};

verus! {

/// What to capture.
#[derive(Debug)]
pub struct WlrootsCaptureConfig {
    /// Display to connect to; that of the environment without one.
    pub display: Option<String>,
    /// Name or description of the output; the first one without it.
    pub output: Option<String>,
    /// Whether the pointer is part of the image.
    pub render_cursor: bool,
}

/// The capture runs.
#[derive(Debug, Clone, Copy, PartialEq, Eq, Structural)]
pub struct WlrootsReady {
    pub hdr: bool,
    pub width: u32,
    pub height: u32,
    pub refresh_rate: u32,
}

/// The frame that is being captured.
#[derive(Debug, Clone, Copy, PartialEq, Eq, Structural)]
pub struct PendingFrame {
    pub slot_index: Option<usize>,
    pub offered_format: Option<u32>,
    pub offered_width: u32,
    pub offered_height: u32,
    pub y_inverted: bool,
}

/// A request to capture the next frame of an output.
#[derive(Debug, Clone, Copy, PartialEq, Eq, Structural)]
pub struct CaptureRequest {
    pub render_cursor: bool,
    pub output: usize,
}

/// How to set up the capture of an output.
#[derive(Debug)]
pub struct SetupPlan {
    /// The output to capture.
    pub output: usize,
    /// What to call it.
    pub label: String,
    /// Whether the virtual pointer is tied to the output.
    pub pointer_on_output: bool,
}

/// A request to allocate a ring of buffers.
#[derive(Debug)]
pub struct PoolRequest {
    pub format: u32,
    pub width: u32,
    pub height: u32,
    pub modifiers: Vec<u64>,
    pub count: usize,
}

/// What to do about the ring of buffers.
#[derive(Debug)]
pub enum PoolPlan {
    /// The buffers fit.
    Keep,
    /// New buffers are needed.
    Allocate(PoolRequest),
}

/// What comes of a look at the ring of buffers.
#[derive(Debug)]
pub struct PoolStep {
    /// The old buffers are to be destroyed.
    pub drained: bool,
    pub plan: Result<PoolPlan, FrameError>,
}

/// What to do with the pending frame.
#[derive(Debug)]
pub enum BufferStep {
    /// Give up: report the error, and destroy the frame if there is one.
    Abandon { error: FrameError, destroy_frame: bool },
    /// No buffer is free: destroy the frame.
    Skip,
    /// Mark the buffer as in use and copy the frame into it.
    Copy { slot: usize },
    /// Allocate buffers, and report how that went.
    Allocate(PoolRequest),
}

/// What to do once the compositor has offered its buffers.
#[derive(Debug)]
pub struct BufferDone {
    /// The size differs from the requested one, and that was not reported yet.
    pub warn_size: bool,
    /// The old buffers are to be destroyed.
    pub drained: bool,
    pub step: BufferStep,
}

/// What to do with a frame that the compositor has copied.
#[derive(Debug, Clone, Copy, PartialEq, Eq, Structural)]
pub enum ReadyStep {
    /// There is no pending frame.
    Ignore,
    /// The frame has no buffer: destroy it.
    Destroy,
    /// Hand the buffer to the encoder, and report how that went.
    Export { slot: usize, warn_y_inverted: bool },
}

/// How handing a frame to the encoder went.
#[derive(Debug, Clone, Copy, PartialEq, Eq, Structural)]
pub enum Delivery {
    Sent,
    /// The encoder has no room.
    Full,
    /// The encoder is gone.
    Disconnected,
}

/// What to do after a frame was handed over. The frame itself is destroyed.
#[derive(Debug, Clone, Copy, PartialEq, Eq, Structural)]
pub struct Delivered {
    /// A buffer that is free again.
    pub release: Option<usize>,
    /// The next frame to ask for.
    pub request: Option<CaptureRequest>,
}

/// What to do after a frame failed.
#[derive(Debug, Clone, Copy, PartialEq, Eq, Structural)]
pub struct Failed {
    pub destroy_frame: bool,
    /// The next frame to ask for.
    pub request: Option<CaptureRequest>,
}

/// What is left of a capture that ended.
#[derive(Debug, Clone, Copy, PartialEq, Eq, Structural)]
pub struct Finished {
    pub destroy_frame: bool,
    /// A buffer that is free again.
    pub release: Option<usize>,
}

/// Where the start of the capture stands.
#[derive(Debug)]
pub enum StartupStep {
    /// The first frame is still out.
    Wait,
    /// The first frame arrived.
    Ready(WlrootsReady),
    /// The first frame failed.
    Failed(FrameError),
    /// The capture was stopped before.
    Stopped,
}

/// The bit of the flags of a frame that tells of an inverted vertical axis.
pub const Y_INVERT: u32 = 1;

/// Reads the bits of `zwlr_screencopy_frame_v1::Flags::YInvert`: the protocol
/// gives the flag the value 1.
#[verifier::external_body]
fn y_invert_bits() -> (bits: u32)
    ensures
        bits == Y_INVERT,
{
    Flags::YInvert.bits()
}

/// Everything that the capture remembers between events.
pub struct WlrootsState {
    pub config: WlrootsCaptureConfig,
    pub expected_width: u32,
    pub expected_height: u32,
    pub globals: Globals,
    pub dmabuf_modifiers: ModifierTable,
    pub outputs: Vec<OutputInfo>,
    pub selected_output: Option<usize>,
    pub input: VirtualInput,
    pub buffer_format: Option<u32>,
    pub buffer_width: u32,
    pub buffer_height: u32,
    /// Number of buffers in the ring.
    pub pool_len: usize,
    pub next_buffer_index: usize,
    /// Nanoseconds between two frames.
    pub frame_interval: u64,
    /// When the last frame was asked for, in nanoseconds of the capture clock.
    pub last_capture_at: Option<u128>,
    pub pending_frame: Option<PendingFrame>,
    pub capture_in_progress: bool,
    pub startup_result: Option<Result<(), FrameError>>,
    pub startup_complete: bool,
    pub warned_y_inverted: bool,
    pub warned_size_mismatch: bool,
}

/// Nanoseconds from `then` to `now`; zero if the clock did not advance.
pub open spec fn elapsed(then: u128, now: u128) -> int {
    if now >= then { now - then } else { 0 }
}

impl WlrootsState {
    /// What holds between any two events: the ring is empty or full; the next
    /// buffer is one of a full ring; a capture is in progress exactly while a
    /// frame is pending; the selected output is one of the outputs; and a start
    /// that succeeded is complete.
    pub open spec fn wf(self) -> bool {
        &&& self.pool_len == 0 || self.pool_len == BUFFER_POOL_SIZE
        &&& self.next_buffer_index < BUFFER_POOL_SIZE
        &&& self.pool_len > 0 ==> self.buffer_format is Some
        &&& self.capture_in_progress == self.pending_frame is Some
        &&& self.selected_output is Some ==> self.selected_output->0 < self.outputs@.len()
        &&& self.startup_result == Some(Ok::<(), FrameError>(())) ==> self.startup_complete
    }

    /// The buffer of the pending frame, if it has one, is one of the ring. That
    /// fails only between dropping the ring with that buffer and filling the next.
    pub open spec fn slot_in_ring(self) -> bool {
        self.pending_frame is Some && self.pending_frame->0.slot_index is Some
            ==> self.pending_frame->0.slot_index->0 < self.pool_len
    }

    /// The last frame was asked for less than a frame interval ago.
    pub open spec fn too_early(self, now: u128) -> bool {
        self.last_capture_at is Some && elapsed(self.last_capture_at->0, now) < self.frame_interval
    }

    /// It is no time to ask for a frame.
    pub open spec fn waits(self, now: u128, immediate: bool) -> bool {
        self.capture_in_progress || (!immediate && self.too_early(now))
    }

    /// The next frame to ask for, if it is time and everything is there.
    pub open spec fn next_request(self, now: u128, immediate: bool) -> Option<CaptureRequest> {
        if !self.waits(now, immediate) && self.globals.screencopy_manager is Some && self.selected_output is Some {
            Some(CaptureRequest { render_cursor: self.config.render_cursor, output: self.selected_output->0 })
        } else {
            None
        }
    }

    /// The state after asking for the next frame, if there is one to ask for.
    pub open spec fn restarted(self, now: u128, immediate: bool) -> WlrootsState {
        if self.next_request(now, immediate) is Some {
            WlrootsState {
                pending_frame: Some(
                    PendingFrame {
                        slot_index: None,
                        offered_format: None,
                        offered_width: 0,
                        offered_height: 0,
                        y_inverted: false,
                    },
                ),
                capture_in_progress: true,
                last_capture_at: Some(now),
                ..self
            }
        } else {
            self
        }
    }

    /// The state without the pending frame.
    pub open spec fn finished(self) -> WlrootsState {
        WlrootsState { pending_frame: None, capture_in_progress: false, ..self }
    }

    /// The state after an error: until the start is complete it is what becomes
    /// of the start.
    pub open spec fn noting(self, error: FrameError) -> WlrootsState {
        if self.startup_complete {
            self
        } else {
            WlrootsState { startup_result: Some(Err(error)), ..self }
        }
    }

    /// The state after the pending frame was given up.
    pub open spec fn abandoned(self, error: FrameError) -> WlrootsState {
        self.noting(error).finished()
    }

    /// The state without buffers.
    pub open spec fn drained(self) -> WlrootsState {
        WlrootsState { pool_len: 0, ..self }
    }

    /// The state with the pending frame in a buffer of the ring.
    pub open spec fn copying(self, slot: usize) -> WlrootsState {
        WlrootsState {
            next_buffer_index: if slot + 1 < self.pool_len { (slot + 1) as usize } else { 0 },
            pending_frame: match self.pending_frame {
                Some(pending) => Some(PendingFrame { slot_index: Some(slot), ..pending }),
                None => None,
            },
            ..self
        }
    }

    /// The state with a new ring of buffers.
    pub open spec fn with_pool(self, format: u32, width: u32, height: u32) -> WlrootsState {
        WlrootsState {
            buffer_format: Some(format),
            buffer_width: width,
            buffer_height: height,
            pool_len: BUFFER_POOL_SIZE,
            next_buffer_index: 0,
            ..self
        }
    }

    /// The last ring that was built is of this format and size. It may be gone: a
    /// ring that could not be replaced leaves its format and size behind.
    pub open spec fn pool_matches(self, format: u32, width: u32, height: u32) -> bool {
        self.buffer_format == Some(format) && self.buffer_width == width && self.buffer_height == height
    }

    /// The size differs from the one that the client asked for.
    pub open spec fn size_differs(self, width: u32, height: u32) -> bool {
        width != self.expected_width || height != self.expected_height
    }

    /// The state after the size was compared.
    pub open spec fn size_noted(self, width: u32, height: u32) -> WlrootsState {
        if self.size_differs(width, height) {
            WlrootsState { warned_size_mismatch: true, ..self }
        } else {
            self
        }
    }

    /// This is a capture that has not begun.
    pub open spec fn is_new(
        self,
        config: WlrootsCaptureConfig,
        expected_width: u32,
        expected_height: u32,
        refresh_rate: u32,
    ) -> bool {
        &&& self.config == config
        &&& self.expected_width == expected_width
        &&& self.expected_height == expected_height
        &&& self.frame_interval == crate::clock::interval_nanos(refresh_rate)
        &&& self.globals == (Globals {
            screencopy_manager: None,
            linux_dmabuf: None,
            virtual_pointer_manager: None,
            virtual_keyboard_manager: None,
            seat: None,
        })
        &&& self.dmabuf_modifiers@ == Map::<u32, Seq<u64>>::empty()
        &&& self.outputs@ == Seq::<OutputInfo>::empty()
        &&& self.selected_output is None
        &&& self.input == (VirtualInput { pointer: false, keyboard: false, xkb_state: false })
        &&& self.buffer_format is None
        &&& self.buffer_width == 0
        &&& self.buffer_height == 0
        &&& self.pool_len == 0
        &&& self.next_buffer_index == 0
        &&& self.last_capture_at is None
        &&& self.pending_frame is None
        &&& !self.capture_in_progress
        &&& self.startup_result is None
        &&& !self.startup_complete
        &&& !self.warned_y_inverted
        &&& !self.warned_size_mismatch
    }

    /// A capture that has not begun.
    pub fn new(config: WlrootsCaptureConfig, expected_width: u32, expected_height: u32, refresh_rate: u32) -> (state:
        WlrootsState)
        ensures
            state.wf(),
            state.is_new(config, expected_width, expected_height, refresh_rate),
    {
        WlrootsState {
            config,
            expected_width,
            expected_height,
            globals: Globals::new(),
            dmabuf_modifiers: ModifierTable::new(),
            outputs: Vec::new(),
            selected_output: None,
            input: VirtualInput { pointer: false, keyboard: false, xkb_state: false },
            buffer_format: None,
            buffer_width: 0,
            buffer_height: 0,
            pool_len: 0,
            next_buffer_index: 0,
            frame_interval: frame_interval(refresh_rate),
            last_capture_at: None,
            pending_frame: None,
            capture_in_progress: false,
            startup_result: None,
            startup_complete: false,
            warned_y_inverted: false,
            warned_size_mismatch: false,
        }
    }

    /// How `handle_global` goes: `r` is its result, `post` the state after it.
    pub open spec fn global_outcome(
        self,
        post: WlrootsState,
        name: u32,
        interface: Seq<char>,
        version: u32,
        r: Option<Binding>,
    ) -> bool {
        &&& r == self.globals.binding(interface, version)
        &&& post == (WlrootsState {
            globals: match r {
                Some(binding) => self.globals.bound(binding),
                None => self.globals,
            },
            outputs: post.outputs,
            ..self
        })
        &&& post.outputs@ == (if r is Some && r->0.kind == GlobalKind::Output {
            self.outputs@.push(OutputInfo { global_name: name, name: None, description: None, width: 0, height: 0 })
        } else {
            self.outputs@
        })
    }

    /// The compositor announced a global: decides what to bind of it. An output
    /// joins the list of outputs.
    pub fn handle_global(&mut self, name: u32, interface: &str, version: u32) -> (r: Option<Binding>)
        requires
            old(self).wf(),
        ensures
            final(self).wf(),
            old(self).global_outcome(*final(self), name, interface@, version, r),
    {
        let r: Option<Binding> = self.globals.announce(interface, version);
        match r {
            Some(binding) => {
                if binding.kind == GlobalKind::Output {
                    self.outputs.push(OutputInfo::new(name));
                }
            },
            None => {},
        }
        r
    }

    /// How `handle_output_event` goes: `post` is the state after it.
    pub open spec fn told_outcome(self, post: WlrootsState, global_name: u32, event: OutputEvent) -> bool {
        &&& post == (WlrootsState { outputs: post.outputs, ..self })
        &&& crate::outputs::is_update(self.outputs@, post.outputs@, global_name, event)
    }

    /// How `handle_dmabuf_format` goes: `post` is the state after it.
    pub open spec fn format_outcome(self, post: WlrootsState, format: u32) -> bool {
        &&& post == (WlrootsState { dmabuf_modifiers: post.dmabuf_modifiers, ..self })
        &&& post.dmabuf_modifiers@ == crate::formats::with_format(self.dmabuf_modifiers@, format)
    }

    /// How `handle_dmabuf_modifier` goes: `post` is the state after it.
    pub open spec fn modifier_outcome(
        self,
        post: WlrootsState,
        format: u32,
        modifier_hi: u32,
        modifier_lo: u32,
    ) -> bool {
        &&& post == (WlrootsState { dmabuf_modifiers: post.dmabuf_modifiers, ..self })
        &&& post.dmabuf_modifiers@ == crate::formats::with_modifier(
            self.dmabuf_modifiers@,
            format,
            modifier_hi,
            modifier_lo,
        )
    }

    /// The compositor told something of an output.
    pub fn handle_output_event(&mut self, global_name: u32, event: OutputEvent)
        requires
            old(self).wf(),
        ensures
            final(self).wf(),
            old(self).told_outcome(*final(self), global_name, event),
    {
        update_output(&mut self.outputs, global_name, event);
    }

    /// The compositor accepts buffers of a format, of unknown layout.
    pub fn handle_dmabuf_format(&mut self, format: u32)
        requires
            old(self).wf(),
        ensures
            final(self).wf(),
            old(self).format_outcome(*final(self), format),
    {
        self.dmabuf_modifiers.add_format(format);
    }

    /// The compositor accepts buffers of a format and layout.
    pub fn handle_dmabuf_modifier(&mut self, format: u32, modifier_hi: u32, modifier_lo: u32)
        requires
            old(self).wf(),
        ensures
            final(self).wf(),
            old(self).modifier_outcome(*final(self), format, modifier_hi, modifier_lo),
    {
        self.dmabuf_modifiers.add_modifier(format, modifier_hi, modifier_lo);
    }

    /// How `init_virtual_input` goes: `r` is its result, `post` the state after it.
    pub open spec fn devices_outcome(self, post: WlrootsState, r: Result<bool, CaptureError>) -> bool {
        &&& match r {
            Ok(on_output) => {
                &&& self.globals.seat is Some
                &&& self.selected_output is Some
                &&& self.globals.virtual_pointer_manager is Some
                &&& self.globals.virtual_keyboard_manager is Some
                &&& on_output == (self.globals.virtual_pointer_manager->0 >= 2)
            },
            Err(CaptureError::NoSeat) => self.globals.seat is None,
            Err(CaptureError::NoSelectedOutput) => self.globals.seat is Some && self.selected_output is None,
            Err(CaptureError::PointerManagerMissing) => {
                &&& self.globals.seat is Some
                &&& self.selected_output is Some
                &&& self.globals.virtual_pointer_manager is None
            },
            Err(CaptureError::KeyboardManagerMissing) => {
                &&& self.globals.seat is Some
                &&& self.selected_output is Some
                &&& self.globals.virtual_pointer_manager is Some
                &&& self.globals.virtual_keyboard_manager is None
            },
            Err(_) => false,
        }
        &&& post == (WlrootsState {
            input: VirtualInput {
                pointer: self.input.pointer || r is Ok || r matches Err(CaptureError::KeyboardManagerMissing),
                ..self.input
            },
            ..self
        })
    }

    /// The state with a virtual keyboard that has its keymap.
    pub open spec fn with_keyboard(self) -> WlrootsState {
        WlrootsState { input: VirtualInput { keyboard: true, xkb_state: true, ..self.input }, ..self }
    }

    /// Prepares the virtual devices: the pointer, tied to the output where its
    /// manager can do that, and then the keyboard.
    pub fn init_virtual_input(&mut self) -> (r: Result<bool, CaptureError>)
        requires
            old(self).wf(),
        ensures
            final(self).wf(),
            old(self).devices_outcome(*final(self), r),
    {
        if self.globals.seat.is_none() {
            return Err(CaptureError::NoSeat);
        }
        if self.selected_output.is_none() {
            return Err(CaptureError::NoSelectedOutput);
        }
        let on_output: bool = match self.globals.virtual_pointer_manager {
            Some(version) => version >= 2,
            None => return Err(CaptureError::PointerManagerMissing),
        };
        self.input.pointer = true;
        if self.globals.virtual_keyboard_manager.is_none() {
            return Err(CaptureError::KeyboardManagerMissing);
        }
        Ok(on_output)
    }

    /// The virtual keyboard has its keymap.
    pub fn keyboard_ready(&mut self)
        requires
            old(self).wf(),
        ensures
            final(self).wf(),
            *final(self) == old(self).with_keyboard(),
    {
        self.input.keyboard = true;
        self.input.xkb_state = true;
    }

    /// How `finish_initialization` goes: `r` is its result, `post` the state after
    /// it.
    pub open spec fn setup_outcome(self, post: WlrootsState, r: Result<SetupPlan, CaptureError>) -> bool {
        match r {
            Ok(plan) => {
                &&& self.globals.complete()
                &&& crate::outputs::is_choice(self.outputs@, self.config.output, plan.output as int)
                &&& plan.label@ == self.outputs@[plan.output as int].title()
                &&& plan.pointer_on_output == (self.globals.virtual_pointer_manager->0 >= 2)
                &&& post == (WlrootsState {
                    selected_output: Some(plan.output),
                    input: VirtualInput { pointer: true, ..self.input },
                    ..self
                })
            },
            Err(CaptureError::MissingGlobals(list)) => {
                &&& !self.globals.complete()
                &&& list@ == self.globals.missing()
                &&& post == self
            },
            Err(error) => {
                &&& self.globals.complete()
                &&& crate::outputs::is_refusal(self.outputs@, self.config.output, error)
                &&& post == self
            },
        }
    }

    /// All globals are announced: checks that none is missing, chooses the
    /// output and prepares the virtual devices.
    pub fn finish_initialization(&mut self) -> (r: Result<SetupPlan, CaptureError>)
        requires
            old(self).wf(),
        ensures
            final(self).wf(),
            old(self).setup_outcome(*final(self), r),
    {
        let missing: Vec<RequiredGlobal> = self.globals.missing_globals();
        if missing.len() > 0 {
            return Err(CaptureError::MissingGlobals(missing));
        }
        match select_output(&self.outputs, &self.config.output) {
            Err(error) => Err(error),
            Ok(output) => {
                proof {
                    crate::outputs::law_choice_is_unique(
                        self.outputs@,
                        self.config.output,
                        output as int,
                        output as int,
                        CaptureError::NoOutputs,
                    );
                }
                let label: String = self.outputs[output].label();
                self.selected_output = Some(output);
                match self.init_virtual_input() {
                    Err(error) => Err(error),
                    Ok(pointer_on_output) => Ok(SetupPlan { output, label, pointer_on_output }),
                }
            },
        }
    }

    /// How `start_capture` goes: `r` is its result.
    pub open spec fn start_outcome(
        self,
        now: u128,
        immediate: bool,
        r: Result<Option<CaptureRequest>, CaptureError>,
    ) -> bool {
        match r {
            Ok(request) => {
                &&& request == self.next_request(now, immediate)
                &&& request is None ==> self.waits(now, immediate)
            },
            Err(CaptureError::ScreencopyManagerMissing) => {
                !self.waits(now, immediate) && self.globals.screencopy_manager is None
            },
            Err(CaptureError::SelectedOutputMissing) => {
                &&& !self.waits(now, immediate)
                &&& self.globals.screencopy_manager is Some
                &&& self.selected_output is None
            },
            Err(_) => false,
        }
    }

    /// Asks for the next frame, unless one is pending or it is too early for it.
    /// The first frame does not wait.
    pub fn start_capture(&mut self, now: u128, immediate: bool) -> (r: Result<Option<CaptureRequest>, CaptureError>)
        requires
            old(self).wf(),
        ensures
            final(self).wf(),
            old(self).start_outcome(now, immediate, r),
            *final(self) == old(self).restarted(now, immediate),
    {
        if self.capture_in_progress {
            return Ok(None);
        }
        if !immediate {
            match self.last_capture_at {
                Some(last_capture_at) => {
                    let since: u128 = if now >= last_capture_at { now - last_capture_at } else { 0 };
                    if since < self.frame_interval as u128 {
                        return Ok(None);
                    }
                },
                None => {},
            }
        }
        if self.globals.screencopy_manager.is_none() {
            return Err(CaptureError::ScreencopyManagerMissing);
        }
        let output: usize = match self.selected_output {
            Some(output) => output,
            None => return Err(CaptureError::SelectedOutputMissing),
        };
        self.pending_frame = Some(
            PendingFrame {
                slot_index: None,
                offered_format: None,
                offered_width: 0,
                offered_height: 0,
                y_inverted: false,
            },
        );
        self.capture_in_progress = true;
        self.last_capture_at = Some(now);
        Ok(Some(CaptureRequest { render_cursor: self.config.render_cursor, output }))
    }

    /// The state after the compositor offered a buffer for the pending frame.
    pub open spec fn offered(self, format: u32, width: u32, height: u32) -> WlrootsState {
        WlrootsState {
            pending_frame: match self.pending_frame {
                Some(pending) => Some(
                    PendingFrame {
                        offered_format: Some(format),
                        offered_width: width,
                        offered_height: height,
                        ..pending
                    },
                ),
                None => None,
            },
            ..self
        }
    }

    /// The state after the compositor told how the pending frame is laid out.
    pub open spec fn flagged(self, flags: u32) -> WlrootsState {
        WlrootsState {
            pending_frame: match self.pending_frame {
                Some(pending) => Some(PendingFrame { y_inverted: flags & Y_INVERT != 0, ..pending }),
                None => None,
            },
            ..self
        }
    }

    /// The compositor offered a buffer for the pending frame.
    pub fn handle_linux_dmabuf_offer(&mut self, format: u32, width: u32, height: u32)
        requires
            old(self).wf(),
        ensures
            final(self).wf(),
            *final(self) == old(self).offered(format, width, height),
    {
        match self.pending_frame {
            Some(pending) => {
                self.pending_frame = Some(
                    PendingFrame {
                        offered_format: Some(format),
                        offered_width: width,
                        offered_height: height,
                        ..pending
                    },
                );
            },
            None => {},
        }
    }

    /// The compositor told how the pending frame is laid out.
    pub fn handle_flags(&mut self, flags: u32)
        requires
            old(self).wf(),
        ensures
            final(self).wf(),
            *final(self) == old(self).flagged(flags),
    {
        match self.pending_frame {
            Some(pending) => {
                let y_inverted: bool = (flags & y_invert_bits()) != 0;
                self.pending_frame = Some(PendingFrame { y_inverted, ..pending });
            },
            None => {},
        }
    }

    /// Whether the buffer of the pending frame, if it has one, is one of the ring.
    pub fn has_slot_in_ring(&self) -> (r: bool)
        ensures
            r == self.slot_in_ring(),
    {
        match self.pending_frame {
            Some(pending) => match pending.slot_index {
                Some(slot) => slot < self.pool_len,
                None => true,
            },
            None => true,
        }
    }

    /// What is left of the pending frame when its capture ends.
    pub open spec fn left_over(self, release_slot: bool) -> Finished {
        Finished {
            destroy_frame: self.pending_frame is Some,
            release: if release_slot && self.pending_frame is Some {
                self.pending_frame->0.slot_index
            } else {
                None
            },
        }
    }

    /// What to do when the pending frame is given up.
    pub open spec fn abandonment(self, error: FrameError) -> BufferStep {
        BufferStep::Abandon { error, destroy_frame: self.pending_frame is Some }
    }

    /// Ends the capture of the pending frame. Its buffer is given back to the
    /// ring if `release_slot` says so.
    pub fn finish_capture(&mut self, release_slot: bool) -> (r: Finished)
        requires
            old(self).wf(),
            release_slot ==> old(self).slot_in_ring(),
        ensures
            final(self).wf(),
            *final(self) == old(self).finished(),
            r == old(self).left_over(release_slot),
    {
        let r: Finished = match self.pending_frame {
            Some(pending) => Finished {
                destroy_frame: true,
                release: if release_slot {
                    pending.slot_index
                } else {
                    None
                },
            },
            None => Finished { destroy_frame: false, release: None },
        };
        self.pending_frame = None;
        self.capture_in_progress = false;
        r
    }

    fn note_error(&mut self, error: FrameError)
        requires
            old(self).wf(),
        ensures
            final(self).wf(),
            *final(self) == old(self).noting(error),
    {
        if !self.startup_complete {
            self.startup_result = Some(Err(error));
        }
    }

    /// Gives the pending frame up. An error before the first frame is what
    /// becomes of the start.
    pub fn finish_capture_with_error(&mut self, error: FrameError) -> (r: BufferStep)
        requires
            old(self).wf(),
        ensures
            final(self).wf(),
            *final(self) == old(self).abandoned(error),
            r == old(self).abandonment(error),
    {
        self.note_error(error.clone());
        let finished: Finished = self.finish_capture(false);
        BufferStep::Abandon { error, destroy_frame: finished.destroy_frame }
    }

    /// Looks whether the ring of buffers fits a format and size, given which
    /// buffers the encoder is done with and whether the format is known. Buffers
    /// that do not fit are dropped, unless the encoder still reads one.
    pub fn plan_pool(&mut self, format: u32, width: u32, height: u32, consumed: &Vec<bool>, recognized: bool) -> (r:
        PoolStep)
        requires
            old(self).wf(),
            consumed@.len() == old(self).pool_len,
        ensures
            final(self).wf(),
            old(self).pool_outcome(*final(self), format, width, height, consumed@, recognized, r),
    {
        if self.buffer_format == Some(format) && self.buffer_width == width && self.buffer_height == height {
            return PoolStep { drained: false, plan: Ok(PoolPlan::Keep) };
        }
        if !is_unused(consumed) {
            return PoolStep { drained: false, plan: Err(FrameError::PoolInUse) };
        }
        self.pool_len = 0;
        if !recognized {
            return PoolStep { drained: true, plan: Err(FrameError::UnsupportedFormat(format)) };
        }
        let modifiers: Vec<u64> = self.dmabuf_modifiers.usable_modifiers(format);
        if self.globals.linux_dmabuf.is_none() {
            return PoolStep { drained: true, plan: Err(FrameError::DmabufManagerMissing) };
        }
        PoolStep {
            drained: true,
            plan: Ok(PoolPlan::Allocate(PoolRequest { format, width, height, modifiers, count: BUFFER_POOL_SIZE })),
        }
    }

    /// How `plan_pool` goes: `r` is its result, `post` the state after it.
    pub open spec fn pool_outcome(
        self,
        post: WlrootsState,
        format: u32,
        width: u32,
        height: u32,
        consumed: Seq<bool>,
        recognized: bool,
        r: PoolStep,
    ) -> bool {
        if self.pool_matches(format, width, height) {
            r == (PoolStep { drained: false, plan: Ok(PoolPlan::Keep) }) && post == self
        } else if !crate::pool::all_consumed(consumed) {
            r == (PoolStep { drained: false, plan: Err(FrameError::PoolInUse) }) && post == self
        } else {
            &&& r.drained
            &&& post == self.drained()
            &&& if !recognized {
                r.plan == Err::<PoolPlan, FrameError>(FrameError::UnsupportedFormat(format))
            } else if self.globals.linux_dmabuf is None {
                r.plan == Err::<PoolPlan, FrameError>(FrameError::DmabufManagerMissing)
            } else {
                r.plan matches Ok(PoolPlan::Allocate(request)) && self.is_pool_request(request, format, width, height)
            }
        }
    }

    /// The request asks for a full ring of this format and size, with the
    /// modifiers that can be used for the format.
    pub open spec fn is_pool_request(self, request: PoolRequest, format: u32, width: u32, height: u32) -> bool {
        &&& request.format == format
        &&& request.width == width
        &&& request.height == height
        &&& request.modifiers@ == crate::formats::usable(self.dmabuf_modifiers@, format)
        &&& request.count == BUFFER_POOL_SIZE
    }

    /// How `ensure_buffer_pool` goes: `r` is its result, `post` the state after it.
    pub open spec fn ring_outcome(
        self,
        post: WlrootsState,
        format: u32,
        width: u32,
        height: u32,
        consumed: Seq<bool>,
        r: PoolStep,
    ) -> bool {
        self.pool_outcome(post, format, width, height, consumed, crate::formats::fourcc_recognized(format), r)
    }

    /// Looks whether the ring of buffers fits a format and size.
    pub fn ensure_buffer_pool(&mut self, format: u32, width: u32, height: u32, consumed: &Vec<bool>) -> (r: PoolStep)
        requires
            old(self).wf(),
            consumed@.len() == old(self).pool_len,
        ensures
            final(self).wf(),
            old(self).ring_outcome(*final(self), format, width, height, consumed@, r),
    {
        let recognized: bool = is_fourcc(format);
        self.plan_pool(format, width, height, consumed, recognized)
    }

    /// How `acquire_slot` goes: `r` is its result, `post` the state after it.
    pub open spec fn slot_outcome(self, post: WlrootsState, consumed: Seq<bool>, r: Option<usize>) -> bool {
        match r {
            Some(slot) => {
                &&& crate::pool::is_next_free(consumed, self.next_buffer_index as int, slot as int)
                &&& post == (WlrootsState {
                    next_buffer_index: if slot + 1 < self.pool_len { (slot + 1) as usize } else { 0 },
                    ..self
                })
            },
            None => crate::pool::none_consumed(consumed) && post == self,
        }
    }

    /// Takes the next free buffer of the ring.
    pub fn acquire_slot(&mut self, consumed: &Vec<bool>) -> (r: Option<usize>)
        requires
            old(self).wf(),
            consumed@.len() == old(self).pool_len,
        ensures
            final(self).wf(),
            old(self).slot_outcome(*final(self), consumed@, r),
    {
        match next_free(consumed, self.next_buffer_index) {
            Some(slot) => {
                self.next_buffer_index = if slot + 1 < self.pool_len { slot + 1 } else { 0 };
                Some(slot)
            },
            None => None,
        }
    }

    /// The buffer that the compositor offered for the pending frame.
    pub open spec fn offer(self) -> Option<(u32, u32, u32)> {
        match self.pending_frame {
            Some(pending) => match pending.offered_format {
                Some(format) => Some((format, pending.offered_width, pending.offered_height)),
                None => None,
            },
            None => None,
        }
    }

    /// The pending frame is in this buffer of the ring, which has the offered
    /// format and size.
    pub open spec fn holds_frame(self, slot: usize) -> bool {
        &&& slot < self.pool_len
        &&& self.pending_frame is Some
        &&& self.pending_frame->0.slot_index == Some(slot)
        &&& self.buffer_format is Some
        &&& self.offer() == Some((self.buffer_format->0, self.buffer_width, self.buffer_height))
    }

    /// How `buffers_offered` goes: `r` is its result, `post` the state after it.
    pub open spec fn offer_outcome(
        self,
        post: WlrootsState,
        consumed: Seq<bool>,
        recognized: bool,
        r: BufferDone,
    ) -> bool {
        match self.offer() {
            None => {
                &&& !r.warn_size
                &&& !r.drained
                &&& r.step == (BufferStep::Abandon {
                    error: FrameError::NoDmabufOffer,
                    destroy_frame: self.pending_frame is Some,
                })
                &&& post == self.abandoned(FrameError::NoDmabufOffer)
            },
            Some((format, width, height)) => {
                let noted = self.size_noted(width, height);
                &&& r.warn_size == (self.size_differs(width, height) && !self.warned_size_mismatch)
                &&& r.drained == (!self.pool_matches(format, width, height) && crate::pool::all_consumed(consumed))
                &&& if self.pool_matches(format, width, height) {
                    match r.step {
                        BufferStep::Copy { slot } => {
                            &&& crate::pool::is_next_free(consumed, self.next_buffer_index as int, slot as int)
                            &&& post == noted.copying(slot)
                        },
                        BufferStep::Skip => crate::pool::none_consumed(consumed) && post == noted.finished(),
                        _ => false,
                    }
                } else if !crate::pool::all_consumed(consumed) {
                    &&& r.step == (BufferStep::Abandon { error: FrameError::PoolInUse, destroy_frame: true })
                    &&& post == noted.abandoned(FrameError::PoolInUse)
                } else if !recognized {
                    &&& r.step == (BufferStep::Abandon {
                        error: FrameError::UnsupportedFormat(format),
                        destroy_frame: true,
                    })
                    &&& post == noted.drained().abandoned(FrameError::UnsupportedFormat(format))
                } else if self.globals.linux_dmabuf is None {
                    &&& r.step == (BufferStep::Abandon {
                        error: FrameError::DmabufManagerMissing,
                        destroy_frame: true,
                    })
                    &&& post == noted.drained().abandoned(FrameError::DmabufManagerMissing)
                } else {
                    &&& r.step matches BufferStep::Allocate(request)
                    &&& self.is_pool_request(request, format, width, height)
                    &&& post == noted.drained()
                }
            },
        }
    }

    /// The compositor has offered all its buffers for the pending frame: decides
    /// what to do with the frame, given which buffers the encoder is done with
    /// and whether the offered format is known.
    pub fn buffers_offered(&mut self, consumed: &Vec<bool>, recognized: bool) -> (r: BufferDone)
        requires
            old(self).wf(),
            consumed@.len() == old(self).pool_len,
        ensures
            final(self).wf(),
            old(self).offer_outcome(*final(self), consumed@, recognized, r),
    {
        let pending: PendingFrame = match self.pending_frame {
            Some(pending) => pending,
            None => {
                let step: BufferStep = self.finish_capture_with_error(FrameError::NoDmabufOffer);
                return BufferDone { warn_size: false, drained: false, step };
            },
        };
        let format: u32 = match pending.offered_format {
            Some(format) => format,
            None => {
                let step: BufferStep = self.finish_capture_with_error(FrameError::NoDmabufOffer);
                return BufferDone { warn_size: false, drained: false, step };
            },
        };
        let width: u32 = pending.offered_width;
        let height: u32 = pending.offered_height;
        let differs: bool = width != self.expected_width || height != self.expected_height;
        let warn_size: bool = differs && !self.warned_size_mismatch;
        if warn_size {
            self.warned_size_mismatch = true;
        }
        let pool: PoolStep = self.plan_pool(format, width, height, consumed, recognized);
        match pool.plan {
            Err(error) => {
                let step: BufferStep = self.finish_capture_with_error(error);
                BufferDone { warn_size, drained: pool.drained, step }
            },
            Ok(PoolPlan::Allocate(request)) => {
                BufferDone { warn_size, drained: pool.drained, step: BufferStep::Allocate(request) }
            },
            Ok(PoolPlan::Keep) => {
                let step: BufferStep = self.take_slot(consumed);
                BufferDone { warn_size, drained: pool.drained, step }
            },
        }
    }

    fn take_slot(&mut self, consumed: &Vec<bool>) -> (r: BufferStep)
        requires
            old(self).wf(),
            consumed@.len() == old(self).pool_len,
        ensures
            final(self).wf(),
            match r {
                BufferStep::Copy { slot } => {
                    &&& crate::pool::is_next_free(consumed@, old(self).next_buffer_index as int, slot as int)
                    &&& *final(self) == old(self).copying(slot)
                },
                BufferStep::Skip => crate::pool::none_consumed(consumed@) && *final(self) == old(self).finished(),
                _ => false,
            },
    {
        match self.acquire_slot(consumed) {
            Some(slot) => {
                match self.pending_frame {
                    Some(pending) => {
                        self.pending_frame = Some(PendingFrame { slot_index: Some(slot), ..pending });
                    },
                    None => {},
                }
                BufferStep::Copy { slot }
            },
            None => {
                self.finish_capture(false);
                BufferStep::Skip
            },
        }
    }

    /// How `handle_buffer_done` goes: `r` is its result, `post` the state after it.
    pub open spec fn done_outcome(self, post: WlrootsState, consumed: Seq<bool>, r: BufferDone) -> bool {
        self.offer_outcome(
            post,
            consumed,
            self.offer() is Some && crate::formats::fourcc_recognized((self.offer()->0).0),
            r,
        )
    }

    /// The compositor has offered all its buffers for the pending frame: decides
    /// what to do with the frame, given which buffers the encoder is done with.
    pub fn handle_buffer_done(&mut self, consumed: &Vec<bool>) -> (r: BufferDone)
        requires
            old(self).wf(),
            consumed@.len() == old(self).pool_len,
        ensures
            final(self).wf(),
            old(self).done_outcome(*final(self), consumed@, r),
    {
        let recognized: bool = match self.pending_frame {
            Some(pending) => match pending.offered_format {
                Some(format) => is_fourcc(format),
                None => false,
            },
            None => false,
        };
        self.buffers_offered(consumed, recognized)
    }

    /// How `pool_allocated` goes: `r` is its result, `post` the state after it.
    pub open spec fn allocation_outcome(
        self,
        post: WlrootsState,
        format: u32,
        width: u32,
        height: u32,
        outcome: Result<(), AllocationFailure>,
        r: BufferStep,
    ) -> bool {
        match outcome {
            Ok(_) => {
                &&& r == (BufferStep::Copy { slot: 0 })
                &&& post == self.with_pool(format, width, height).copying(0)
            },
            Err(failure) => {
                &&& r == (BufferStep::Abandon { error: FrameError::Allocation(failure), destroy_frame: true })
                &&& post == self.abandoned(FrameError::Allocation(failure))
            },
        }
    }

    /// A ring of buffers of the offered format and size was allocated, or could
    /// not be. A new ring takes the pending frame in its first buffer.
    pub fn pool_allocated(&mut self, format: u32, width: u32, height: u32, outcome: Result<(), AllocationFailure>) -> (r:
        BufferStep)
        requires
            old(self).wf(),
            old(self).pool_len == 0,
            old(self).offer() == Some((format, width, height)),
        ensures
            final(self).wf(),
            old(self).allocation_outcome(*final(self), format, width, height, outcome, r),
    {
        match outcome {
            Err(failure) => self.finish_capture_with_error(FrameError::Allocation(failure)),
            Ok(_) => {
                self.buffer_format = Some(format);
                self.buffer_width = width;
                self.buffer_height = height;
                self.pool_len = BUFFER_POOL_SIZE;
                self.next_buffer_index = 0;
                let fresh: Vec<bool> = vec![true, true, true];
                assert(fresh@[0]);
                self.take_slot(&fresh)
            },
        }
    }

    /// What to do with the pending frame once it is copied.
    pub open spec fn ready_step(self) -> ReadyStep {
        match self.pending_frame {
            None => ReadyStep::Ignore,
            Some(pending) => match pending.slot_index {
                None => ReadyStep::Destroy,
                Some(slot) => ReadyStep::Export {
                    slot,
                    warn_y_inverted: pending.y_inverted && !self.warned_y_inverted,
                },
            },
        }
    }

    /// The state once the pending frame is copied.
    pub open spec fn copied(self) -> WlrootsState {
        match self.pending_frame {
            None => self,
            Some(pending) => match pending.slot_index {
                None => self.finished(),
                Some(_) => WlrootsState {
                    warned_y_inverted: self.warned_y_inverted || pending.y_inverted,
                    ..self
                },
            },
        }
    }

    /// The compositor has copied the pending frame into its buffer.
    pub fn handle_ready(&mut self) -> (r: ReadyStep)
        requires
            old(self).wf(),
            old(self).slot_in_ring(),
        ensures
            final(self).wf(),
            r == old(self).ready_step(),
            r matches ReadyStep::Export { slot, .. } ==> slot < old(self).pool_len,
            *final(self) == old(self).copied(),
    {
        match self.pending_frame {
            None => ReadyStep::Ignore,
            Some(pending) => match pending.slot_index {
                None => {
                    self.finish_capture(false);
                    ReadyStep::Destroy
                },
                Some(slot) => {
                    let warn_y_inverted: bool = pending.y_inverted && !self.warned_y_inverted;
                    if warn_y_inverted {
                        self.warned_y_inverted = true;
                    }
                    ReadyStep::Export { slot, warn_y_inverted }
                },
            },
        }
    }

    /// The state after a frame was handed to the encoder: the first one that
    /// arrives completes the start.
    pub open spec fn delivered(self, delivery: Delivery) -> WlrootsState {
        if delivery == Delivery::Sent && !self.startup_complete {
            WlrootsState { startup_complete: true, startup_result: Some(Ok(())), ..self }
        } else {
            self
        }
    }

    /// What to do after the pending frame was handed to the encoder.
    pub open spec fn delivery_step(self, delivery: Delivery, now: u128) -> Delivered {
        Delivered {
            release: if delivery == Delivery::Full { self.pending_frame->0.slot_index } else { None },
            request: self.delivered(delivery).finished().next_request(now, false),
        }
    }

    /// The state after the pending frame was handed to the encoder.
    pub open spec fn handed_over(self, delivery: Delivery, now: u128) -> WlrootsState {
        self.delivered(delivery).finished().restarted(now, false)
    }

    /// The pending frame was handed to the encoder, or could not be: a buffer
    /// for which there was no room is free again. Asks for the next frame when it
    /// is time.
    pub fn frame_delivered(&mut self, delivery: Delivery, now: u128) -> (r: Delivered)
        requires
            old(self).wf(),
            old(self).pending_frame is Some,
            old(self).pending_frame->0.slot_index is Some,
            old(self).slot_in_ring(),
        ensures
            final(self).wf(),
            r == old(self).delivery_step(delivery, now),
            *final(self) == old(self).handed_over(delivery, now),
    {
        if delivery == Delivery::Sent && !self.startup_complete {
            self.startup_complete = true;
            self.startup_result = Some(Ok(()));
        }
        let finished: Finished = self.finish_capture(delivery == Delivery::Full);
        let request: Option<CaptureRequest> = self.restart(now);
        Delivered { release: finished.release, request }
    }

    fn restart(&mut self, now: u128) -> (r: Option<CaptureRequest>)
        requires
            old(self).wf(),
        ensures
            final(self).wf(),
            r == old(self).next_request(now, false),
            *final(self) == old(self).restarted(now, false),
    {
        match self.start_capture(now, false) {
            Ok(request) => request,
            Err(_) => None,
        }
    }

    /// What to do after the compositor could not capture the pending frame.
    pub open spec fn failure_step(self, now: u128) -> Failed {
        Failed {
            destroy_frame: self.pending_frame is Some,
            request: self.abandoned(FrameError::InitialFrameFailed).next_request(now, false),
        }
    }

    /// The state after the compositor could not capture the pending frame.
    pub open spec fn failed(self, now: u128) -> WlrootsState {
        self.abandoned(FrameError::InitialFrameFailed).restarted(now, false)
    }

    /// The compositor could not capture the pending frame. Asks for the next one
    /// when it is time.
    pub fn handle_failed(&mut self, now: u128) -> (r: Failed)
        requires
            old(self).wf(),
        ensures
            final(self).wf(),
            r == old(self).failure_step(now),
            *final(self) == old(self).failed(now),
    {
        self.note_error(FrameError::InitialFrameFailed);
        let finished: Finished = self.finish_capture(false);
        let request: Option<CaptureRequest> = self.restart(now);
        Failed { destroy_frame: finished.destroy_frame, request }
    }

    /// How `startup_step` goes: `r` is its result, `post` the state after it.
    pub open spec fn startup_outcome(
        self,
        post: WlrootsState,
        stopped: bool,
        refresh_rate: u32,
        r: StartupStep,
    ) -> bool {
        match self.startup_result {
            None => {
                &&& post == self
                &&& r == (if stopped { StartupStep::Stopped } else { StartupStep::Wait })
            },
            Some(outcome) => {
                &&& post == (WlrootsState { startup_result: None, ..self })
                &&& match outcome {
                    Ok(_) => r == StartupStep::Ready(
                        WlrootsReady {
                            hdr: false,
                            width: crate::geometry::at_least_one(self.buffer_width as nat) as u32,
                            height: crate::geometry::at_least_one(self.buffer_height as nat) as u32,
                            refresh_rate,
                        },
                    ),
                    Err(error) => r == StartupStep::Failed(error),
                }
            },
        }
    }

    /// Where the start of the capture stands. `stopped` tells that the session
    /// ends. Once it does not wait any more, the outcome is taken.
    pub fn startup_step(&mut self, stopped: bool, refresh_rate: u32) -> (r: StartupStep)
        requires
            old(self).wf(),
        ensures
            final(self).wf(),
            old(self).startup_outcome(*final(self), stopped, refresh_rate, r),
    {
        match self.startup_result.take() {
            Some(Ok(_)) => StartupStep::Ready(
                WlrootsReady {
                    hdr: false,
                    width: max_one(self.buffer_width),
                    height: max_one(self.buffer_height),
                    refresh_rate,
                },
            ),
            Some(Err(error)) => StartupStep::Failed(error),
            None => {
                if stopped {
                    StartupStep::Stopped
                } else {
                    StartupStep::Wait
                }
            },
        }
    }
}

/// While a frame is pending no other is asked for, not even at once.
pub proof fn law_one_frame_at_a_time(state: WlrootsState, now: u128, immediate: bool)
    requires
        state.wf(),
        state.pending_frame is Some,
    ensures
        state.next_request(now, immediate) is None,
        state.restarted(now, immediate) == state,
{
}

/// Frames are not asked for faster than the refresh rate: after a frame that was
/// asked for at `then`, the next one waits for a frame interval.
pub proof fn law_frames_keep_the_pace(state: WlrootsState, then: u128, now: u128)
    requires
        state.last_capture_at == Some(then),
        state.next_request(now, false) is Some,
    ensures
        elapsed(then, now) >= state.frame_interval,
        state.restarted(now, false).last_capture_at == Some(now),
        state.restarted(now, false).frame_interval == state.frame_interval,
{
}

/// A capture that ended leaves the way free for the next: once the output is
/// chosen, a frame can be asked for at once, and at the latest a frame interval
/// after the last.
pub proof fn law_next_frame_can_follow(state: WlrootsState, now: u128)
    requires
        state.globals.screencopy_manager is Some,
        state.selected_output is Some,
    ensures
        state.finished().next_request(now, true) is Some,
        state.last_capture_at is None || elapsed(state.last_capture_at->0, now) >= state.frame_interval
            ==> state.finished().next_request(now, false) is Some,
{
}

/// Until the first frame arrives an error is the outcome of the start. After it
/// no error touches the start any more.
pub proof fn law_first_frame_settles_the_start(state: WlrootsState, error: FrameError)
    ensures
        !state.startup_complete ==> state.abandoned(error).startup_result == Some(Err::<(), FrameError>(error)),
        !state.startup_complete ==> !state.abandoned(error).startup_complete,
        state.delivered(Delivery::Sent).startup_complete,
        !state.startup_complete ==> state.delivered(Delivery::Sent).startup_result == Some(Ok::<(), FrameError>(())),
        state.delivered(Delivery::Sent).abandoned(error).startup_result == state.delivered(
            Delivery::Sent,
        ).startup_result,
        state.delivered(Delivery::Sent).delivered(Delivery::Sent) == state.delivered(Delivery::Sent),
{
}

/// Buffers are never dropped while the encoder reads one of them.
pub proof fn law_buffers_in_use_are_kept(
    state: WlrootsState,
    post: WlrootsState,
    consumed: Seq<bool>,
    recognized: bool,
    r: BufferDone,
    j: int,
)
    requires
        state.offer_outcome(post, consumed, recognized, r),
        0 <= j < consumed.len(),
        !consumed[j],
    ensures
        !r.drained,
        post.pool_len == state.pool_len,
{
}

/// A frame is copied only into a buffer of the ring that the encoder is done
/// with, and of the offered format and size. Where buffers are allocated first,
/// they are asked for in the offered format and size, and once they are there the
/// frame goes into the first of them.
pub proof fn law_frames_go_to_free_buffers(
    state: WlrootsState,
    post: WlrootsState,
    consumed: Seq<bool>,
    recognized: bool,
    r: BufferDone,
)
    requires
        state.wf(),
        consumed.len() == state.pool_len,
        state.offer_outcome(post, consumed, recognized, r),
    ensures
        match r.step {
            BufferStep::Copy { slot } => {
                &&& consumed[slot as int]
                &&& post.holds_frame(slot)
                &&& post.offer() == state.offer()
            },
            BufferStep::Allocate(request) => {
                let filled = post.with_pool(request.format, request.width, request.height).copying(0);
                &&& state.offer() == Some((request.format, request.width, request.height))
                &&& post.pool_len == 0
                &&& post.offer() == state.offer()
                &&& filled.holds_frame(0)
                &&& filled.offer() == state.offer()
            },
            _ => post.pending_frame is None,
        },
{
}

/// No frame is left behind: once the buffers are offered, the frame is in a
/// buffer, waits for buffers, or is given up.
pub proof fn law_no_frame_is_left_behind(
    state: WlrootsState,
    post: WlrootsState,
    consumed: Seq<bool>,
    recognized: bool,
    r: BufferDone,
)
    requires
        state.wf(),
        state.offer_outcome(post, consumed, recognized, r),
    ensures
        match r.step {
            BufferStep::Copy { slot } => {
                post.pending_frame is Some && post.pending_frame->0.slot_index == Some(slot)
            },
            BufferStep::Allocate(_) => post.pending_frame is Some && post.pool_len == 0,
            BufferStep::Skip => post.pending_frame is None && !post.capture_in_progress,
            BufferStep::Abandon { error, destroy_frame } => {
                &&& post.pending_frame is None
                &&& !post.capture_in_progress
                &&& destroy_frame == state.pending_frame is Some
            },
        },
{
}

impl WlrootsState {
    /// What was set up stays: configuration, globals, layouts, outputs, devices
    /// and pace.
    pub open spec fn same_setup(self, post: WlrootsState) -> bool {
        &&& post.config == self.config
        &&& post.expected_width == self.expected_width
        &&& post.expected_height == self.expected_height
        &&& post.globals == self.globals
        &&& post.dmabuf_modifiers == self.dmabuf_modifiers
        &&& post.outputs == self.outputs
        &&& post.selected_output == self.selected_output
        &&& post.input == self.input
        &&& post.frame_interval == self.frame_interval
    }

    /// The ring of buffers stays as it is.
    pub open spec fn same_ring(self, post: WlrootsState) -> bool {
        &&& post.buffer_format == self.buffer_format
        &&& post.buffer_width == self.buffer_width
        &&& post.buffer_height == self.buffer_height
        &&& post.pool_len == self.pool_len
        &&& post.next_buffer_index == self.next_buffer_index
    }

    /// The start of the capture stands where it stood.
    pub open spec fn same_start(self, post: WlrootsState) -> bool {
        post.startup_result == self.startup_result && post.startup_complete == self.startup_complete
    }

    /// What was warned of stays warned of, and nothing is added.
    pub open spec fn same_warnings(self, post: WlrootsState) -> bool {
        post.warned_y_inverted == self.warned_y_inverted && post.warned_size_mismatch == self.warned_size_mismatch
    }
}

/// A new capture has no frame, no buffer and no output, is asked for the given
/// size, and takes its pace from the refresh rate: a second of frames is off by no
/// more than half a nanosecond per frame.
pub proof fn law_new_captures_are_idle(
    state: WlrootsState,
    config: WlrootsCaptureConfig,
    expected_width: u32,
    expected_height: u32,
    refresh_rate: u32,
    now: u128,
    immediate: bool,
)
    requires
        state.is_new(config, expected_width, expected_height, refresh_rate),
    ensures
        state.config == config,
        state.expected_width == expected_width,
        state.expected_height == expected_height,
        ({
            let rate = if refresh_rate == 0 { 1 } else { refresh_rate as int };
            -rate <= 2 * (state.frame_interval * rate - 1_000_000_000) <= rate
        }),
        state.next_request(now, immediate) is None,
        state.pending_frame is None && state.last_capture_at is None && state.selected_output is None,
        state.outputs@.len() == 0 && state.dmabuf_modifiers@.dom().len() == 0 && state.globals.missing().len() == 5,
        state.pool_len == 0 && state.buffer_format is None,
        !state.input.pointer && !state.input.keyboard && !state.input.xkb_state,
        state.startup_result is None && !state.startup_complete,
        !state.warned_y_inverted && !state.warned_size_mismatch,
{
    crate::clock::law_a_second_of_frames(refresh_rate);
}

/// After a frame that was asked for at `then`, none is asked for before a frame
/// interval is over, and from then on one is, as soon as no other is pending and
/// manager and output are there. The first frame, and one that is wanted at once,
/// does not wait.
pub proof fn law_no_frame_before_its_time(state: WlrootsState, now: u128)
    ensures
        ({
            let able = !state.capture_in_progress && state.globals.screencopy_manager is Some
                && state.selected_output is Some;
            &&& state.last_capture_at matches Some(then) ==> {
                &&& now < then + state.frame_interval && state.frame_interval > 0 ==> state.next_request(
                    now,
                    false,
                ) is None
                &&& now >= then + state.frame_interval && able ==> state.next_request(now, false) is Some
            }
            &&& state.last_capture_at is None && able ==> state.next_request(now, false) is Some
            &&& able ==> state.next_request(now, true) is Some
            &&& !able ==> state.next_request(now, false) is None && state.next_request(now, true) is None
        }),
{
}

/// Every request names the output that was selected, and whether the pointer is
/// part of the image as it was configured.
pub proof fn law_requests_name_the_selected_output(state: WlrootsState, now: u128, immediate: bool)
    requires
        state.next_request(now, immediate) is Some,
    ensures
        state.selected_output == Some(state.next_request(now, immediate)->0.output),
        state.config.render_cursor == state.next_request(now, immediate)->0.render_cursor,
{
}

/// A frame that is asked for starts without a buffer, an offer or flags, and is
/// noted with its time. Where none is asked for, nothing changes; and nothing but
/// the pending frame ever does.
pub proof fn law_requests_start_a_frame(state: WlrootsState, now: u128, immediate: bool)
    ensures
        ({
            let after = state.restarted(now, immediate);
            &&& state.next_request(now, immediate) is None ==> after == state
            &&& state.next_request(now, immediate) is Some ==> {
                &&& after.last_capture_at == Some(now)
                &&& after.capture_in_progress
                &&& after.pending_frame matches Some(frame)
                &&& frame.slot_index is None && frame.offered_format is None && !frame.y_inverted
                &&& after.offer() is None
            }
            &&& state.same_setup(after) && state.same_ring(after) && state.same_start(after)
            &&& state.same_warnings(after)
        }),
{
}

/// A call of `start_capture` that asks for nothing and reports nothing waits: for
/// the pending frame, or for the interval to pass. What it reports is missing.
pub proof fn law_captures_report_what_is_missing(
    state: WlrootsState,
    now: u128,
    immediate: bool,
    r: Result<Option<CaptureRequest>, CaptureError>,
)
    requires
        state.start_outcome(now, immediate, r),
    ensures
        r matches Ok(request) ==> request == state.next_request(now, immediate),
        r == Ok::<Option<CaptureRequest>, CaptureError>(None) ==> state.capture_in_progress || (!immediate
            && state.last_capture_at is Some && (now < state.last_capture_at->0 + state.frame_interval)),
        r is Err ==> !state.capture_in_progress && (immediate || state.last_capture_at is None || now
            >= state.last_capture_at->0 + state.frame_interval || state.frame_interval == 0),
        r is Err && state.globals.screencopy_manager is None ==> r->Err_0 is ScreencopyManagerMissing,
        r is Err && state.globals.screencopy_manager is Some ==> r->Err_0 is SelectedOutputMissing
            && state.selected_output is None,
{
}

/// An announced output joins the others at the end, known by its number only; no
/// other global does. What is bound is remembered, and nothing else changes.
pub proof fn law_outputs_join_the_list(
    state: WlrootsState,
    post: WlrootsState,
    name: u32,
    interface: Seq<char>,
    version: u32,
    r: Option<Binding>,
    i: int,
)
    requires
        state.global_outcome(post, name, interface, version, r),
    ensures
        interface == "wl_output"@ ==> {
            &&& r is Some && r->0.kind is Output
            &&& post.outputs@.len() == state.outputs@.len() + 1
            &&& post.outputs@.last().global_name == name
            &&& post.outputs@.last().name is None && post.outputs@.last().description is None
            &&& post.outputs@.last().width == 0 && post.outputs@.last().height == 0
        },
        interface != "wl_output"@ ==> post.outputs@ == state.outputs@,
        0 <= i < state.outputs@.len() ==> post.outputs@[i] == state.outputs@[i],
        r is None ==> post.globals == state.globals,
        r matches Some(binding) ==> post.globals == state.globals.bound(binding),
        post.selected_output == state.selected_output && post.config == state.config && post.input == state.input,
        post.dmabuf_modifiers == state.dmabuf_modifiers && post.pending_frame == state.pending_frame,
        post.last_capture_at == state.last_capture_at && post.capture_in_progress == state.capture_in_progress,
        post.frame_interval == state.frame_interval && state.same_ring(post) && state.same_start(post),
{
    crate::globals::law_interfaces_are_bound_as_what_they_are(state.globals, interface, version);
}

/// A setup that succeeds selects the output that the configuration asks for: with
/// the requested name, or else the requested description, or without a request the
/// first. The frames that are asked for afterwards are frames of that output.
pub proof fn law_the_configured_output_is_captured(
    state: WlrootsState,
    post: WlrootsState,
    plan: SetupPlan,
    now: u128,
    immediate: bool,
    j: int,
)
    requires
        state.wf(),
        state.setup_outcome(post, Ok(plan)),
    ensures
        plan.output < state.outputs@.len(),
        post.selected_output == Some(plan.output),
        post.next_request(now, immediate) matches Some(request) ==> request.output == plan.output
            && request.render_cursor == state.config.render_cursor,
        !state.capture_in_progress ==> post.next_request(now, true) is Some,
        state.config.output is None ==> plan.output == 0,
        state.config.output matches Some(text) ==> {
            let chosen = state.outputs@[plan.output as int];
            let named = chosen.name is Some && chosen.name->0@ == text@;
            &&& named || (chosen.description is Some && chosen.description->0@ == text@)
            &&& 0 <= j < state.outputs@.len() && state.outputs@[j].name is Some && state.outputs@[j].name->0@ == text@
                ==> named && plan.output <= j
        },
        plan.label@ == state.outputs@[plan.output as int].title(),
        post.input.pointer && post.input.keyboard == state.input.keyboard,
        post.config == state.config && post.outputs == state.outputs && post.globals == state.globals,
{
    crate::outputs::law_the_requested_output_is_chosen(
        state.outputs@,
        state.config.output,
        plan.output as int,
        j,
    );
}

/// A setup succeeds only with every required global bound, and ties the pointer to
/// the output from version 2 of its manager on. One that fails changes nothing, and
/// reports missing globals before anything else.
pub proof fn law_setups_need_all_globals(
    state: WlrootsState,
    post: WlrootsState,
    r: Result<SetupPlan, CaptureError>,
)
    requires
        state.setup_outcome(post, r),
    ensures
        ({
            let complete = state.globals.screencopy_manager is Some && state.globals.linux_dmabuf is Some
                && state.globals.virtual_pointer_manager is Some && state.globals.virtual_keyboard_manager is Some
                && state.globals.seat is Some;
            &&& r is Ok ==> complete
            &&& !complete ==> r is Err && r->Err_0 is MissingGlobals && r->Err_0->MissingGlobals_0@
                == state.globals.missing()
            &&& complete && state.outputs@.len() == 0 ==> r is Err && r->Err_0 is NoOutputs
            &&& complete && state.outputs@.len() > 0 && state.config.output is None ==> r is Ok
            &&& r is Ok ==> r->Ok_0.pointer_on_output == (state.globals.virtual_pointer_manager->0 > 1)
            &&& r is Err ==> post == state
        }),
{
    crate::globals::law_missing_globals_are_those_not_bound(state.globals, 0, 0);
}

/// The virtual pointer exists as soon as its manager, the seat and the output do,
/// and the keyboard once it has its keymap. What is missing is reported in this
/// order: seat, output, pointer manager, keyboard manager.
pub proof fn law_devices_come_one_by_one(state: WlrootsState, post: WlrootsState, r: Result<bool, CaptureError>)
    requires
        state.devices_outcome(post, r),
    ensures
        state.globals.seat is None ==> r is Err && r->Err_0 is NoSeat,
        state.globals.seat is Some && state.selected_output is None ==> r is Err && r->Err_0 is NoSelectedOutput,
        state.globals.seat is Some && state.selected_output is Some ==> {
            let pointer = state.globals.virtual_pointer_manager;
            &&& pointer is None ==> r is Err && r->Err_0 is PointerManagerMissing
            &&& pointer is Some ==> post.input.pointer
            &&& pointer is Some && state.globals.virtual_keyboard_manager is None ==> r is Err
                && r->Err_0 is KeyboardManagerMissing
            &&& pointer is Some && state.globals.virtual_keyboard_manager is Some ==> r is Ok && r->Ok_0 == (
            pointer->0 > 1)
        },
        post.input.keyboard == state.input.keyboard && post.input.xkb_state == state.input.xkb_state,
        post.selected_output == state.selected_output && post.globals == state.globals,
        state.with_keyboard().input.keyboard && state.with_keyboard().input.xkb_state,
        state.with_keyboard().input.pointer == state.input.pointer,
        state.with_keyboard().selected_output == state.selected_output,
{
}

/// What the compositor offers for the pending frame can be read back, and a later
/// offer replaces an earlier one. The frame keeps its buffer and its flags, and
/// without a frame nothing changes.
pub proof fn law_offers_can_be_read_back(
    state: WlrootsState,
    format: u32,
    width: u32,
    height: u32,
    other: u32,
)
    ensures
        ({
            let after = state.offered(format, width, height);
            &&& state.pending_frame is None ==> after == state
            &&& state.pending_frame matches Some(before) ==> {
                &&& after.offer() == Some((format, width, height))
                &&& after.pending_frame matches Some(frame)
                &&& frame.offered_format == Some(format) && frame.offered_width == width && frame.offered_height
                    == height
                &&& frame.slot_index == before.slot_index && frame.y_inverted == before.y_inverted
            }
            &&& state.offered(other, height, width).offered(format, width, height) == after
            &&& state.same_setup(after) && state.same_ring(after) && state.same_start(after)
            &&& state.same_warnings(after) && after.last_capture_at == state.last_capture_at
        }),
{
}

/// A frame is upside down exactly if the lowest bit of its flags is set, whatever
/// the other bits and whatever was told before.
pub proof fn law_the_lowest_flag_inverts(state: WlrootsState, flags: u32)
    ensures
        ({
            let after = state.flagged(flags);
            &&& state.pending_frame is None ==> after == state
            &&& state.pending_frame matches Some(before) ==> {
                &&& after.pending_frame matches Some(frame)
                &&& frame.y_inverted <==> flags % 2 == 1
                &&& frame.slot_index == before.slot_index && frame.offered_format == before.offered_format
                &&& frame.offered_width == before.offered_width && frame.offered_height == before.offered_height
            }
            &&& state.same_setup(after) && state.same_ring(after) && state.same_start(after)
            &&& state.same_warnings(after) && after.last_capture_at == state.last_capture_at
        }),
{
    assert((flags & 1u32) != 0 <==> flags % 2u32 == 1) by (bit_vector);
}

/// A capture that ends leaves no pending frame, and changes nothing else. A frame
/// that there was is destroyed, and its buffer is given back where that was asked.
pub proof fn law_ended_captures_leave_no_frame(state: WlrootsState, release_slot: bool)
    ensures
        ({
            let after = state.finished();
            let left = state.left_over(release_slot);
            &&& after.pending_frame is None && !after.capture_in_progress
            &&& after.last_capture_at == state.last_capture_at
            &&& state.same_setup(after) && state.same_ring(after) && state.same_start(after)
            &&& state.same_warnings(after)
            &&& left.destroy_frame <==> state.pending_frame is Some
            &&& !release_slot ==> left.release is None
            &&& state.pending_frame is None ==> left.release is None
            &&& state.pending_frame is Some && release_slot ==> left.release == state.pending_frame->0.slot_index
        }),
{
}

/// A frame that is given up is destroyed if there was one, and its error is
/// reported, and is what becomes of a start that is not complete. The ring and the
/// pace stay as they are.
pub proof fn law_given_up_frames_report_their_error(state: WlrootsState, error: FrameError)
    ensures
        state.abandonment(error) matches BufferStep::Abandon { error: reported, destroy_frame } && reported == error
            && (destroy_frame <==> state.pending_frame is Some),
        state.abandoned(error).pending_frame is None && !state.abandoned(error).capture_in_progress,
        state.startup_complete ==> state.same_start(state.abandoned(error)),
        !state.startup_complete ==> state.abandoned(error).startup_result == Some(Err::<(), FrameError>(error))
            && !state.abandoned(error).startup_complete,
        state.same_setup(state.abandoned(error)) && state.same_ring(state.abandoned(error)),
        state.same_warnings(state.abandoned(error)),
        state.abandoned(error).last_capture_at == state.last_capture_at,
{
}

/// What becomes of an offer. A frame of the format and size of the ring goes into
/// the first free buffer, or is dropped if there is none. Any other needs a new
/// ring: not while a buffer is being read, not in an unknown format, and not
/// without the manager of buffers. The new ring is asked for in the offered format
/// and size, with the layouts that were announced for the format.
pub proof fn law_what_becomes_of_an_offer(
    state: WlrootsState,
    post: WlrootsState,
    consumed: Seq<bool>,
    recognized: bool,
    r: BufferDone,
    format: u32,
    width: u32,
    height: u32,
    j: int,
    modifier: u64,
)
    requires
        state.wf(),
        consumed.len() == state.pool_len,
        state.offer_outcome(post, consumed, recognized, r),
        state.pending_frame is Some,
        state.pending_frame->0.offered_format == Some(format),
        state.pending_frame->0.offered_width == width,
        state.pending_frame->0.offered_height == height,
    ensures
        ({
            let fits = state.buffer_format == Some(format) && state.buffer_width == width && state.buffer_height
                == height;
            let busy = exists|k: int| 0 <= k < consumed.len() && !#[trigger] consumed[k];
            let free = exists|k: int| 0 <= k < consumed.len() && #[trigger] consumed[k];
            let table = state.dmabuf_modifiers@;
            &&& fits && free ==> r.step is Copy
            &&& fits && !free ==> r.step is Skip
            &&& !fits && busy ==> r.step is Abandon && r.step->error is PoolInUse
            &&& !fits && !busy && !recognized ==> r.step is Abandon && r.step->error == FrameError::UnsupportedFormat(
                format,
            )
            &&& !fits && !busy && recognized && state.globals.linux_dmabuf is None ==> r.step is Abandon
                && r.step->error is DmabufManagerMissing
            &&& !fits && !busy && recognized && state.globals.linux_dmabuf is Some ==> r.step is Allocate
            &&& r.drained <==> !fits && !busy
            &&& r.drained ==> post.pool_len == 0
            &&& !r.drained ==> post.pool_len == state.pool_len
            &&& r.step matches BufferStep::Copy { slot } ==> {
                let from = state.next_buffer_index as int;
                &&& slot < consumed.len() && consumed[slot as int]
                &&& from <= j < slot ==> !consumed[j]
                &&& slot < from && (from <= j < consumed.len() || 0 <= j < slot) ==> !consumed[j]
                &&& post.pending_frame is Some && post.pending_frame->0.slot_index == Some(slot)
                &&& post.next_buffer_index == (slot + 1) % 3
            }
            &&& r.step matches BufferStep::Allocate(request) ==> {
                let known = table.contains_key(format) && table[format].len() > 0;
                &&& request.format == format && request.width == width && request.height == height
                &&& request.count == 3
                &&& known ==> request.modifiers@ == table[format]
                &&& known ==> (table[format].contains(modifier) <==> request.modifiers@.contains(modifier))
                &&& !known ==> request.modifiers@ == seq![0x00ff_ffff_ffff_ffffu64]
                &&& post.pending_frame == state.pending_frame
            }
            &&& r.step matches BufferStep::Abandon { error, destroy_frame } ==> {
                &&& destroy_frame
                &&& !state.startup_complete ==> post.startup_result == Some(Err::<(), FrameError>(error))
                &&& state.startup_complete ==> post.startup_result == state.startup_result
            }
            &&& !(r.step is Abandon) ==> state.same_start(post)
            &&& r.step is Abandon || r.step is Skip ==> post.pending_frame is None && !post.capture_in_progress
            &&& post.startup_complete == state.startup_complete
            &&& post.buffer_format == state.buffer_format && post.buffer_width == state.buffer_width
                && post.buffer_height == state.buffer_height
            &&& state.same_setup(post) && post.last_capture_at == state.last_capture_at
        }),
{
    if r.step is Copy {
        let slot = r.step->slot as int;
        crate::pool::law_the_first_free_buffer_is_next(consumed, state.next_buffer_index as int, slot, j);
    }
    crate::formats::law_announced_modifiers_are_used(state.dmabuf_modifiers@, format, modifier);
}

/// A frame without an offer is given up, and the ring stays.
pub proof fn law_frames_need_an_offer(
    state: WlrootsState,
    post: WlrootsState,
    consumed: Seq<bool>,
    recognized: bool,
    r: BufferDone,
)
    requires
        state.offer_outcome(post, consumed, recognized, r),
        state.pending_frame is None || state.pending_frame->0.offered_format is None,
    ensures
        r.step matches BufferStep::Abandon { error, destroy_frame } && error is NoDmabufOffer && (destroy_frame
            <==> state.pending_frame is Some),
        !r.drained && !r.warn_size,
        post.pending_frame is None && !post.capture_in_progress,
        state.same_ring(post) && state.same_setup(post) && state.same_warnings(post),
{
}

/// That the offered size is not the requested one is told once, with the first
/// frame of another size, and never again.
pub proof fn law_sizes_are_warned_of_once(
    state: WlrootsState,
    post: WlrootsState,
    consumed: Seq<bool>,
    recognized: bool,
    r: BufferDone,
    width: u32,
    height: u32,
)
    requires
        state.offer_outcome(post, consumed, recognized, r),
        state.pending_frame is Some,
        state.pending_frame->0.offered_format is Some,
        state.pending_frame->0.offered_width == width,
        state.pending_frame->0.offered_height == height,
    ensures
        width == state.expected_width && height == state.expected_height ==> !r.warn_size,
        (width != state.expected_width || height != state.expected_height) && !state.warned_size_mismatch
            ==> r.warn_size,
        r.warn_size ==> !state.warned_size_mismatch && post.warned_size_mismatch,
        state.warned_size_mismatch ==> !r.warn_size && post.warned_size_mismatch,
        !r.warn_size ==> post.warned_size_mismatch == state.warned_size_mismatch,
        post.warned_y_inverted == state.warned_y_inverted,
{
}

/// A look at the ring drops its buffers only if they do not fit and the encoder is
/// done with all of them, and asks for new ones in the format and size that are
/// wanted. The pending frame stays.
pub proof fn law_rings_are_replaced_with_care(
    state: WlrootsState,
    post: WlrootsState,
    format: u32,
    width: u32,
    height: u32,
    consumed: Seq<bool>,
    recognized: bool,
    r: PoolStep,
    j: int,
)
    requires
        state.pool_outcome(post, format, width, height, consumed, recognized, r),
    ensures
        ({
            let fits = state.buffer_format == Some(format) && state.buffer_width == width && state.buffer_height
                == height;
            let table = state.dmabuf_modifiers@;
            &&& fits ==> r.plan is Ok && r.plan->Ok_0 is Keep && post == state
            &&& 0 <= j < consumed.len() && !consumed[j] ==> !r.drained && post == state
            &&& 0 <= j < consumed.len() && !consumed[j] && !fits ==> r.plan is Err && r.plan->Err_0 is PoolInUse
            &&& r.drained ==> post.pool_len == 0
            &&& r.plan matches Ok(PoolPlan::Allocate(request)) ==> {
                let known = table.contains_key(format) && table[format].len() > 0;
                &&& !fits && r.drained && recognized && state.globals.linux_dmabuf is Some
                &&& request.format == format && request.width == width && request.height == height
                &&& request.count == 3
                &&& known ==> request.modifiers@ == table[format]
                &&& !known ==> request.modifiers@ == seq![0x00ff_ffff_ffff_ffffu64]
            }
            &&& r.plan matches Err(FrameError::UnsupportedFormat(code)) ==> code == format && !recognized
            &&& r.plan matches Err(FrameError::DmabufManagerMissing) ==> state.globals.linux_dmabuf is None
            &&& recognized && r.drained && state.globals.linux_dmabuf is Some ==> r.plan is Ok
            &&& post.pending_frame == state.pending_frame && state.same_setup(post) && state.same_start(post)
            &&& state.same_warnings(post) && post.last_capture_at == state.last_capture_at
        }),
{
}

/// The ring is walked around: the buffer that is taken is the first free one from
/// where the last search ended, and the next search starts behind it. None is taken
/// only if none is free.
pub proof fn law_the_ring_is_walked_around(
    state: WlrootsState,
    post: WlrootsState,
    consumed: Seq<bool>,
    r: Option<usize>,
    j: int,
)
    requires
        state.wf(),
        consumed.len() == state.pool_len,
        state.slot_outcome(post, consumed, r),
    ensures
        r is None && 0 <= j < consumed.len() ==> !consumed[j],
        r is None ==> post == state,
        r matches Some(slot) ==> {
            let from = state.next_buffer_index as int;
            &&& slot < consumed.len() && consumed[slot as int]
            &&& from <= j < slot ==> !consumed[j]
            &&& slot < from && (from <= j < consumed.len() || 0 <= j < slot) ==> !consumed[j]
            &&& post.next_buffer_index == (slot + 1) % 3
        },
        post.pool_len == state.pool_len && post.pending_frame == state.pending_frame,
        state.same_setup(post) && state.same_start(post),
{
    if r is Some {
        crate::pool::law_the_first_free_buffer_is_next(
            consumed,
            state.next_buffer_index as int,
            r->0 as int,
            j,
        );
    }
}

/// A new ring has three buffers of the format and size that it was made for, and
/// takes the pending frame in the first of them. Where it could not be made, the
/// frame is given up with the reason, and there is no ring.
pub proof fn law_new_rings_take_the_frame(
    state: WlrootsState,
    post: WlrootsState,
    format: u32,
    width: u32,
    height: u32,
    outcome: Result<(), AllocationFailure>,
    r: BufferStep,
)
    requires
        state.allocation_outcome(post, format, width, height, outcome, r),
        state.pool_len == 0,
        state.pending_frame is Some,
    ensures
        outcome is Ok ==> {
            &&& r matches BufferStep::Copy { slot } && slot == 0
            &&& post.pool_len == 3 && post.next_buffer_index == 1
            &&& post.buffer_format == Some(format) && post.buffer_width == width && post.buffer_height == height
            &&& post.pending_frame is Some && post.pending_frame->0.slot_index == Some(0usize)
            &&& post.offer() == state.offer()
            &&& state.same_start(post)
        },
        outcome matches Err(failure) ==> {
            &&& r matches BufferStep::Abandon { error, destroy_frame } && error == FrameError::Allocation(failure)
                && destroy_frame
            &&& post.pool_len == 0 && post.pending_frame is None && !post.capture_in_progress
            &&& !state.startup_complete ==> post.startup_result == Some(
                Err::<(), FrameError>(FrameError::Allocation(failure)),
            )
            &&& state.startup_complete ==> state.same_start(post)
            &&& post.buffer_format == state.buffer_format
        },
        state.same_setup(post) && state.same_warnings(post) && post.last_capture_at == state.last_capture_at,
{
}

/// A copied frame is handed over in the buffer that it was copied into; that it is
/// upside down is told once. A frame without a buffer is destroyed.
pub proof fn law_copied_frames_are_handed_over(state: WlrootsState)
    ensures
        ({
            let after = state.copied();
            match state.pending_frame {
                None => state.ready_step() is Ignore && after == state,
                Some(frame) => {
                    &&& frame.slot_index is None ==> state.ready_step() is Destroy && after.pending_frame is None
                        && !after.capture_in_progress && state.same_warnings(after)
                    &&& frame.slot_index matches Some(buffer) ==> {
                        &&& state.ready_step() matches ReadyStep::Export { slot, warn_y_inverted }
                        &&& slot == buffer
                        &&& warn_y_inverted <==> frame.y_inverted && !state.warned_y_inverted
                        &&& after.pending_frame == state.pending_frame
                        &&& warn_y_inverted ==> after.warned_y_inverted
                        &&& state.warned_y_inverted ==> after.warned_y_inverted
                        &&& !frame.y_inverted ==> after.warned_y_inverted == state.warned_y_inverted
                        &&& after.ready_step() matches ReadyStep::Export { slot: again, warn_y_inverted: warned }
                        &&& again == buffer && !warned
                    }
                },
            }
        }),
        state.same_setup(state.copied()) && state.same_ring(state.copied()) && state.same_start(state.copied()),
        state.copied().last_capture_at == state.last_capture_at,
{
}

/// After a frame was handed to the encoder, its buffer is free again exactly if the
/// encoder had no room. The first frame that arrives completes the start. The next
/// frame is of the selected output, and is not asked for before a frame interval
/// after the last.
pub proof fn law_delivered_frames_make_way(state: WlrootsState, delivery: Delivery, now: u128)
    requires
        state.pending_frame is Some,
    ensures
        ({
            let step = state.delivery_step(delivery, now);
            let after = state.handed_over(delivery, now);
            let early = state.last_capture_at is Some && now < state.last_capture_at->0 + state.frame_interval
                && state.frame_interval > 0;
            let able = state.globals.screencopy_manager is Some && state.selected_output is Some;
            &&& delivery is Full ==> step.release == state.pending_frame->0.slot_index
            &&& !(delivery is Full) ==> step.release is None
            &&& after.startup_complete <==> state.startup_complete || delivery is Sent
            &&& delivery is Sent && !state.startup_complete ==> after.startup_result == Some(Ok::<(), FrameError>(()))
            &&& !(delivery is Sent) || state.startup_complete ==> after.startup_result == state.startup_result
            &&& step.request is Some <==> able && !early
            &&& step.request matches Some(request) ==> state.selected_output == Some(request.output)
                && request.render_cursor == state.config.render_cursor
            &&& step.request is Some <==> after.pending_frame is Some
            &&& after.pending_frame matches Some(frame) ==> frame.slot_index is None && frame.offered_format is None
                && after.last_capture_at == Some(now)
            &&& after.pending_frame is None ==> !after.capture_in_progress && after.last_capture_at
                == state.last_capture_at
            &&& state.same_setup(after) && state.same_ring(after) && state.same_warnings(after)
        }),
{
}

/// A frame that failed is destroyed. Before the start is complete that is what
/// becomes of it; after it, nothing. The next frame waits as it would after any
/// other.
pub proof fn law_failed_frames_make_way(state: WlrootsState, now: u128)
    ensures
        ({
            let step = state.failure_step(now);
            let after = state.failed(now);
            let early = state.last_capture_at is Some && now < state.last_capture_at->0 + state.frame_interval
                && state.frame_interval > 0;
            let able = state.globals.screencopy_manager is Some && state.selected_output is Some;
            &&& step.destroy_frame <==> state.pending_frame is Some
            &&& after.startup_complete == state.startup_complete
            &&& !state.startup_complete ==> after.startup_result == Some(
                Err::<(), FrameError>(FrameError::InitialFrameFailed),
            )
            &&& state.startup_complete ==> after.startup_result == state.startup_result
            &&& step.request is Some <==> able && !early
            &&& step.request matches Some(request) ==> state.selected_output == Some(request.output)
                && request.render_cursor == state.config.render_cursor
            &&& step.request is Some <==> after.pending_frame is Some
            &&& after.pending_frame matches Some(frame) ==> frame.slot_index is None && frame.offered_format is None
                && after.last_capture_at == Some(now)
            &&& after.pending_frame is None ==> !after.capture_in_progress && after.last_capture_at
                == state.last_capture_at
            &&& state.same_setup(after) && state.same_ring(after) && state.same_warnings(after)
        }),
{
}

/// The outcome of the start is told once: an arrived frame in the size of its
/// buffer, of at least a pixel, a failed one with its error. Until there is an
/// outcome the start waits, or ends with the session.
pub proof fn law_the_start_is_told_once(
    state: WlrootsState,
    post: WlrootsState,
    stopped: bool,
    refresh_rate: u32,
    r: StartupStep,
)
    requires
        state.startup_outcome(post, stopped, refresh_rate, r),
    ensures
        post.startup_result is None,
        match state.startup_result {
            None => (stopped ==> r is Stopped) && (!stopped ==> r is Wait) && post == state,
            Some(Ok(_)) => {
                &&& r matches StartupStep::Ready(ready)
                &&& !ready.hdr && ready.refresh_rate == refresh_rate
                &&& state.buffer_width > 0 ==> ready.width == state.buffer_width
                &&& state.buffer_width == 0 ==> ready.width == 1
                &&& state.buffer_height > 0 ==> ready.height == state.buffer_height
                &&& state.buffer_height == 0 ==> ready.height == 1
            },
            Some(Err(error)) => r matches StartupStep::Failed(told) && told == error,
        },
        post.startup_complete == state.startup_complete && post.pending_frame == state.pending_frame,
        state.same_setup(post) && state.same_ring(post) && state.same_warnings(post),
{
}

/// Buffers are asked for only in formats that are known, and a format is refused
/// only if it is not.
pub proof fn law_only_known_formats_are_allocated(
    state: WlrootsState,
    post: WlrootsState,
    consumed: Seq<bool>,
    r: BufferDone,
    format: u32,
)
    requires
        state.done_outcome(post, consumed, r),
        state.pending_frame is Some,
        state.pending_frame->0.offered_format == Some(format),
    ensures
        r.step matches BufferStep::Allocate(request) ==> request.format == format
            && crate::formats::fourcc_recognized(format),
        r.step matches BufferStep::Abandon { error: FrameError::UnsupportedFormat(code), .. } ==> code == format
            && !crate::formats::fourcc_recognized(format),
        !crate::formats::fourcc_recognized(format) && r.drained ==> r.step is Abandon
            && r.step->error is UnsupportedFormat,
        crate::formats::fourcc_recognized(format) && r.drained && state.globals.linux_dmabuf is Some
            ==> r.step is Allocate,
{
}

/// A new ring is planned only in a format that is known, and a format is refused
/// only if it is not.
pub proof fn law_only_known_formats_are_planned(
    state: WlrootsState,
    post: WlrootsState,
    format: u32,
    width: u32,
    height: u32,
    consumed: Seq<bool>,
    r: PoolStep,
)
    requires
        state.ring_outcome(post, format, width, height, consumed, r),
    ensures
        r.plan matches Ok(PoolPlan::Allocate(request)) ==> request.format == format
            && crate::formats::fourcc_recognized(format),
        r.plan matches Err(FrameError::UnsupportedFormat(code)) ==> code == format
            && !crate::formats::fourcc_recognized(format),
        r.drained && !crate::formats::fourcc_recognized(format) ==> r.plan is Err,
        r.drained && crate::formats::fourcc_recognized(format) && state.globals.linux_dmabuf is Some
            ==> r.plan is Ok,
{
}

/// A layout that was announced for a format is among those that buffers of the
/// format are asked for with, and all that were announced before it still are. Of
/// the others only layouts that were announced for the format are.
pub proof fn law_announced_layouts_reach_the_allocator(
    before: WlrootsState,
    state: WlrootsState,
    post: WlrootsState,
    consumed: Seq<bool>,
    r: BufferDone,
    format: u32,
    modifier_hi: u32,
    modifier_lo: u32,
    i: int,
)
    requires
        before.modifier_outcome(state, format, modifier_hi, modifier_lo),
        state.done_outcome(post, consumed, r),
        state.pending_frame is Some,
        state.pending_frame->0.offered_format == Some(format),
    ensures
        r.step matches BufferStep::Allocate(request) ==> {
            let table = before.dmabuf_modifiers@;
            let known = if table.contains_key(format) { table[format] } else { Seq::<u64>::empty() };
            let modifier = (modifier_hi * 0x1_0000_0000 + modifier_lo) as u64;
            &&& request.modifiers@.contains(modifier)
            &&& 0 <= i < known.len() ==> i < request.modifiers@.len() && request.modifiers@[i] == known[i]
            &&& known.len() <= i < request.modifiers@.len() ==> request.modifiers@[i] == modifier
        },
        state.pending_frame == before.pending_frame && state.globals == before.globals,
        before.same_ring(state) && before.same_start(state) && before.same_warnings(state),
        state.outputs == before.outputs && state.selected_output == before.selected_output,
{
    crate::formats::law_announcing_a_modifier(
        before.dmabuf_modifiers@,
        format,
        modifier_hi,
        modifier_lo,
        format,
        i,
    );
}

/// A format that was announced without layouts can be asked for with the unknown
/// one, next to those announced before. Nothing but the table of layouts changes.
pub proof fn law_announced_formats_reach_the_allocator(
    before: WlrootsState,
    state: WlrootsState,
    post: WlrootsState,
    consumed: Seq<bool>,
    r: BufferDone,
    format: u32,
    i: int,
)
    requires
        before.format_outcome(state, format),
        state.done_outcome(post, consumed, r),
        state.pending_frame is Some,
        state.pending_frame->0.offered_format == Some(format),
    ensures
        r.step matches BufferStep::Allocate(request) ==> {
            let table = before.dmabuf_modifiers@;
            let known = if table.contains_key(format) { table[format] } else { Seq::<u64>::empty() };
            &&& request.modifiers@.len() == known.len() + 1
            &&& request.modifiers@.last() == 0x00ff_ffff_ffff_ffff
            &&& 0 <= i < known.len() ==> request.modifiers@[i] == known[i]
        },
        state.pending_frame == before.pending_frame && state.globals == before.globals,
        before.same_ring(state) && before.same_start(state) && before.same_warnings(state),
        state.outputs == before.outputs && state.selected_output == before.selected_output,
{
    crate::formats::law_announcing_a_format(before.dmabuf_modifiers@, format, format, i);
}

/// What is told of an output reaches the first output with its number and leaves
/// all others, and the choice among them, as they are.
pub proof fn law_told_facts_reach_their_output(
    state: WlrootsState,
    post: WlrootsState,
    global_name: u32,
    event: OutputEvent,
    i: int,
)
    requires
        state.told_outcome(post, global_name, event),
        0 <= i < state.outputs@.len(),
    ensures
        post.outputs@.len() == state.outputs@.len(),
        state.outputs@[i].global_name != global_name ==> post.outputs@[i] == state.outputs@[i],
        state.outputs@[i].global_name == global_name && (forall|k: int|
            0 <= k < i ==> (#[trigger] state.outputs@[k]).global_name != global_name) ==> post.outputs@[i]
            == state.outputs@[i].told(event),
        post.selected_output == state.selected_output && post.globals == state.globals && post.config == state.config,
        post.pending_frame == state.pending_frame && post.dmabuf_modifiers == state.dmabuf_modifiers,
        state.same_ring(post) && state.same_start(post) && state.same_warnings(post),
{
    crate::outputs::law_events_reach_one_output(state.outputs@, post.outputs@, global_name, event, i, i);
}

} // verus!
