//! What can go wrong while capturing, and the messages for it.

use vstd::prelude::*;
use vstd::string::StringExecFns;

use crate::formats::{lone_character, unrecognized_fourcc_text};
use crate::text::{decimal_text, join_text};

verus! {

/// A Wayland global that the capture cannot do without.
#[derive(Debug, Clone, Copy, PartialEq, Eq, Structural)]
pub enum RequiredGlobal {
    ScreencopyManager,
    LinuxDmabuf,
    VirtualPointerManager,
    VirtualKeyboardManager,
    Seat,
}

impl RequiredGlobal {
    /// The interface to name when the global is missing.
    pub open spec fn title(self) -> Seq<char> {
        match self {
            RequiredGlobal::ScreencopyManager => "zwlr_screencopy_manager_v1 v3"@,
            RequiredGlobal::LinuxDmabuf => "zwp_linux_dmabuf_v1"@,
            RequiredGlobal::VirtualPointerManager => "zwlr_virtual_pointer_manager_v1"@,
            RequiredGlobal::VirtualKeyboardManager => "zwp_virtual_keyboard_manager_v1"@,
            RequiredGlobal::Seat => "wl_seat"@,
        }
    }

    /// The interface to name when the global is missing.
    pub fn name(self) -> (r: &'static str)
        ensures
            r@ == self.title(),
    {
        match self {
            RequiredGlobal::ScreencopyManager => "zwlr_screencopy_manager_v1 v3",
            RequiredGlobal::LinuxDmabuf => "zwp_linux_dmabuf_v1",
            RequiredGlobal::VirtualPointerManager => "zwlr_virtual_pointer_manager_v1",
            RequiredGlobal::VirtualKeyboardManager => "zwp_virtual_keyboard_manager_v1",
            RequiredGlobal::Seat => "wl_seat",
        }
    }
}

/// Why a capture cannot start.
#[derive(Debug)]
pub enum CaptureError {
    /// A relative display name needs a runtime directory.
    RuntimeDirNotSet,
    /// The runtime directory is not an absolute path.
    RuntimeDirNotAbsolute,
    /// The compositor lacks globals, in the order in which they are checked.
    MissingGlobals(Vec<RequiredGlobal>),
    /// The compositor announced no output.
    NoOutputs,
    /// No output has the requested name or description.
    OutputNotFound { requested: String, available: Vec<String> },
    /// There is no seat for virtual input.
    NoSeat,
    /// Virtual input needs an output.
    NoSelectedOutput,
    /// Virtual input needs the pointer manager.
    PointerManagerMissing,
    /// Virtual input needs the keyboard manager.
    KeyboardManagerMissing,
    /// A capture needs the screencopy manager.
    ScreencopyManagerMissing,
    /// A capture needs an output.
    SelectedOutputMissing,
    /// The keymap is longer than its length field can say.
    KeymapTooLarge,
}

/// The names of globals.
pub open spec fn titles(globals: Seq<RequiredGlobal>) -> Seq<Seq<char>> {
    globals.map_values(|global: RequiredGlobal| global.title())
}

impl CaptureError {
    /// The message for this error.
    pub open spec fn text(self) -> Seq<char> {
        match self {
            CaptureError::RuntimeDirNotSet => "XDG_RUNTIME_DIR is not set"@,
            CaptureError::RuntimeDirNotAbsolute => "XDG_RUNTIME_DIR is not absolute"@,
            CaptureError::MissingGlobals(globals) => {
                "wlroots capture missing required Wayland globals: "@ + crate::text::joined(titles(globals@), ", "@)
            },
            CaptureError::NoOutputs => "No wl_output objects advertised by compositor"@,
            CaptureError::OutputNotFound { requested, available } => {
                "Requested wlroots output '"@ + requested@ + "' was not found. Available outputs: "@
                    + crate::text::joined(crate::text::texts(available@), ", "@)
            },
            CaptureError::NoSeat => "No wl_seat available"@,
            CaptureError::NoSelectedOutput => "No selected output available"@,
            CaptureError::PointerManagerMissing => "Virtual pointer manager missing"@,
            CaptureError::KeyboardManagerMissing => "Virtual keyboard manager missing"@,
            CaptureError::ScreencopyManagerMissing => "Screencopy manager missing"@,
            CaptureError::SelectedOutputMissing => "Selected output missing"@,
            CaptureError::KeymapTooLarge => "XKB keymap is too large"@,
        }
    }

    /// The message for this error.
    pub fn message(&self) -> (r: String)
        ensures
            r@ == self.text(),
    {
        match self {
            CaptureError::RuntimeDirNotSet => "XDG_RUNTIME_DIR is not set".to_owned(),
            CaptureError::RuntimeDirNotAbsolute => "XDG_RUNTIME_DIR is not absolute".to_owned(),
            CaptureError::MissingGlobals(globals) => {
                let names: Vec<String> = global_names(globals);
                "wlroots capture missing required Wayland globals: ".to_owned().concat(
                    join_text(&names, ", ").as_str(),
                )
            },
            CaptureError::NoOutputs => "No wl_output objects advertised by compositor".to_owned(),
            CaptureError::OutputNotFound { requested, available } => {
                "Requested wlroots output '".to_owned().concat(requested.as_str()).concat(
                    "' was not found. Available outputs: ",
                ).concat(join_text(available, ", ").as_str())
            },
            CaptureError::NoSeat => "No wl_seat available".to_owned(),
            CaptureError::NoSelectedOutput => "No selected output available".to_owned(),
            CaptureError::PointerManagerMissing => "Virtual pointer manager missing".to_owned(),
            CaptureError::KeyboardManagerMissing => "Virtual keyboard manager missing".to_owned(),
            CaptureError::ScreencopyManagerMissing => "Screencopy manager missing".to_owned(),
            CaptureError::SelectedOutputMissing => "Selected output missing".to_owned(),
            CaptureError::KeymapTooLarge => "XKB keymap is too large".to_owned(),
        }
    }
}

fn global_names(globals: &Vec<RequiredGlobal>) -> (names: Vec<String>)
    ensures
        crate::text::texts(names@) == titles(globals@),
{
    let mut names: Vec<String> = Vec::new();
    let mut i: usize = 0;
    while i < globals.len()
        invariant
            i <= globals.len(),
            names@.len() == i,
            forall|j: int| 0 <= j < i ==> (#[trigger] names@[j])@ == globals@[j].title(),
        decreases globals.len() - i,
    {
        names.push(globals[i].name().to_owned());
        i = i + 1;
    }
    assert(crate::text::texts(names@) =~= titles(globals@));
    names
}

/// What is done to make a buffer.
#[derive(Debug, Clone, Copy, PartialEq, Eq, Structural)]
pub enum AllocationStep {
    Allocate,
    Export,
}

/// Why a buffer could not be made.
#[derive(Debug)]
pub struct AllocationFailure {
    pub step: AllocationStep,
    /// The number of the buffer in the ring.
    pub index: u32,
    pub reason: String,
}

impl Clone for AllocationFailure {
    fn clone(&self) -> (r: Self)
        ensures
            r == *self,
    {
        AllocationFailure { step: self.step, index: self.index, reason: self.reason.clone() }
    }
}

impl AllocationFailure {
    /// The message for this failure.
    pub open spec fn text(self) -> Seq<char> {
        let failed = match self.step {
            AllocationStep::Allocate => "Failed to allocate wlroots capture GBM buffer "@,
            AllocationStep::Export => "Failed to export wlroots capture GBM buffer "@,
        };
        failed + crate::text::decimal(self.index as nat) + ": "@ + self.reason@
    }

    /// The message for this failure.
    pub fn message(&self) -> (r: String)
        ensures
            r@ == self.text(),
    {
        let failed: &str = match self.step {
            AllocationStep::Allocate => "Failed to allocate wlroots capture GBM buffer ",
            AllocationStep::Export => "Failed to export wlroots capture GBM buffer ",
        };
        failed.to_owned().concat(decimal_text(self.index).as_str()).concat(": ").concat(self.reason.as_str())
    }
}

/// Why a frame could not be captured.
#[derive(Debug)]
pub enum FrameError {
    /// The compositor offered no buffer that the encoder can import.
    NoDmabufOffer,
    /// The buffers cannot be replaced: the encoder still reads one.
    PoolInUse,
    /// The offered format is no known DRM format.
    UnsupportedFormat(u32),
    /// Buffers need the linux-dmabuf manager.
    DmabufManagerMissing,
    /// The buffers could not be made.
    Allocation(AllocationFailure),
    /// The first frame failed.
    InitialFrameFailed,
}

impl Clone for FrameError {
    fn clone(&self) -> (r: Self)
        ensures
            r == *self,
    {
        match self {
            FrameError::NoDmabufOffer => FrameError::NoDmabufOffer,
            FrameError::PoolInUse => FrameError::PoolInUse,
            FrameError::UnsupportedFormat(code) => FrameError::UnsupportedFormat(*code),
            FrameError::DmabufManagerMissing => FrameError::DmabufManagerMissing,
            FrameError::Allocation(failure) => FrameError::Allocation(failure.clone()),
            FrameError::InitialFrameFailed => FrameError::InitialFrameFailed,
        }
    }
}

impl FrameError {
    /// There is a message for this error. An unknown format code has one unless
    /// its bytes are a single four-byte character.
    pub open spec fn has_message(self) -> bool {
        match self {
            FrameError::UnsupportedFormat(code) => !crate::formats::is_lone_character(code),
            _ => true,
        }
    }

    /// Whether there is a message for this error.
    pub fn is_describable(&self) -> (r: bool)
        ensures
            r == self.has_message(),
    {
        match self {
            FrameError::UnsupportedFormat(code) => !lone_character(*code),
            _ => true,
        }
    }

    /// The message for this error.
    pub open spec fn text(self) -> Seq<char> {
        match self {
            FrameError::NoDmabufOffer => "Compositor did not offer linux-dmabuf screencopy buffers"@,
            FrameError::PoolInUse => "Cannot resize wlroots capture pool while encoder is reading old buffers"@,
            FrameError::UnsupportedFormat(code) => {
                "Unsupported screencopy DRM format: "@ + crate::formats::unknown_fourcc_form(code)
            },
            FrameError::DmabufManagerMissing => "linux-dmabuf manager missing"@,
            FrameError::Allocation(failure) => failure.text(),
            FrameError::InitialFrameFailed => "Initial wlroots screencopy frame failed"@,
        }
    }

    /// The message for this error.
    pub fn message(&self) -> (r: String)
        requires
            self.has_message(),
        ensures
            r@ == self.text(),
    {
        match self {
            FrameError::NoDmabufOffer => "Compositor did not offer linux-dmabuf screencopy buffers".to_owned(),
            FrameError::PoolInUse => {
                "Cannot resize wlroots capture pool while encoder is reading old buffers".to_owned()
            },
            FrameError::UnsupportedFormat(code) => unsupported_format_message(unrecognized_fourcc_text(*code)),
            FrameError::DmabufManagerMissing => "linux-dmabuf manager missing".to_owned(),
            FrameError::Allocation(failure) => failure.message(),
            FrameError::InitialFrameFailed => "Initial wlroots screencopy frame failed".to_owned(),
        }
    }
}

/// The message for a format that is not known, from its description.
pub fn unsupported_format_message(description: String) -> (r: String)
    ensures
        r@ == "Unsupported screencopy DRM format: "@ + description@,
{
    "Unsupported screencopy DRM format: ".to_owned().concat(description.as_str())
}

/// The message for a buffer that could not be made ends with the reason, after the
/// number of the buffer, and tells allocating from exporting.
pub proof fn law_allocation_messages_tell_what_failed(failure: AllocationFailure)
    ensures
        ({
            let tail = crate::text::decimal(failure.index as nat) + ": "@ + failure.reason@;
            let text = failure.text();
            &&& text.len() >= tail.len() && text.skip(text.len() - tail.len()) == tail
            &&& failure.step is Allocate ==> text.take(text.len() - tail.len())
                == "Failed to allocate wlroots capture GBM buffer "@
            &&& failure.step is Export ==> text.take(text.len() - tail.len())
                == "Failed to export wlroots capture GBM buffer "@
            &&& FrameError::Allocation(failure).text() == text
        }),
{
    let tail = crate::text::decimal(failure.index as nat) + ": "@ + failure.reason@;
    let text = failure.text();
    assert(text.skip(text.len() - tail.len()) =~= tail);
    assert(failure.step is Allocate ==> text.take(text.len() - tail.len())
        =~= "Failed to allocate wlroots capture GBM buffer "@);
    assert(failure.step is Export ==> text.take(text.len() - tail.len())
        =~= "Failed to export wlroots capture GBM buffer "@);
}

/// The message for an output that is not there names it and lists those that are,
/// and the one for missing globals lists these.
pub proof fn law_refusals_list_what_there_is(requested: String, available: Vec<String>, globals: Vec<RequiredGlobal>)
    ensures
        ({
            let text = CaptureError::OutputNotFound { requested, available }.text();
            let front = "Requested wlroots output '"@;
            let list = crate::text::joined(crate::text::texts(available@), ", "@);
            &&& text.len() >= front.len() + requested@.len() + list.len()
            &&& text.take(front.len() as int) == front
            &&& text.subrange(front.len() as int, (front.len() + requested@.len()) as int) == requested@
            &&& text.skip(text.len() - list.len()) == list
        }),
        ({
            let text = CaptureError::MissingGlobals(globals).text();
            let list = crate::text::joined(titles(globals@), ", "@);
            text.len() >= list.len() && text.skip(text.len() - list.len()) == list
        }),
{
    let text = CaptureError::OutputNotFound { requested, available }.text();
    let front = "Requested wlroots output '"@;
    let list = crate::text::joined(crate::text::texts(available@), ", "@);
    assert(text.take(front.len() as int) =~= front);
    assert(text.subrange(front.len() as int, (front.len() + requested@.len()) as int) =~= requested@);
    assert(text.skip(text.len() - list.len()) =~= list);
    let missing = CaptureError::MissingGlobals(globals).text();
    let names = crate::text::joined(titles(globals@), ", "@);
    assert(missing.skip(missing.len() - names.len()) =~= names);
}

/// Every error has a message, but for a format whose code is a single character.
pub proof fn law_errors_have_messages(error: FrameError)
    ensures
        !(error is UnsupportedFormat) ==> error.has_message(),
        error matches FrameError::UnsupportedFormat(code) ==> (error.has_message()
            <==> !crate::formats::is_lone_character(code)),
{
}

} // verus!
