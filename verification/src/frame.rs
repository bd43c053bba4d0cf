//! Captured frames on their way to the encoder.

use vstd::prelude::*;

verus! {

/// A plane of a captured image, for the encoder to import.
#[derive(Debug, Clone, Copy, PartialEq, Eq, Structural)]
pub struct ExportedPlane {
    pub fd: i32,
    pub offset: u32,
    pub stride: u32,
}

/// How the colours of a frame are encoded.
#[derive(Debug, Clone, Copy, PartialEq, Eq, Structural)]
pub enum FrameColorSpace {
    Srgb,
}

/// A captured image in a buffer of the ring.
#[derive(Debug)]
pub struct ExportedFrame {
    pub planes: Vec<ExportedPlane>,
    pub format: u32,
    pub modifier: u64,
    pub width: u32,
    pub height: u32,
    pub buffer_index: usize,
    pub color_space: FrameColorSpace,
    /// Whether the frame carries metadata of high dynamic range.
    pub hdr: bool,
}

/// A buffer of the ring, as its allocator describes it.
#[derive(Debug)]
pub struct BufferDescription {
    pub fds: Vec<i32>,
    pub offsets: Vec<u32>,
    pub strides: Vec<u32>,
    pub format: u32,
    pub modifier: u64,
    pub width: u32,
    pub height: u32,
}

impl BufferDescription {
    /// The number of planes that are fully described.
    pub open spec fn plane_count(self) -> nat {
        let shorter = if self.fds@.len() <= self.offsets@.len() { self.fds@.len() } else { self.offsets@.len() };
        if shorter <= self.strides@.len() { shorter } else { self.strides@.len() }
    }

    /// The frame is the one in this buffer.
    pub open spec fn is_exported_as(self, buffer_index: usize, frame: ExportedFrame) -> bool {
        &&& frame.planes@.len() == self.plane_count()
        &&& forall|i: int|
            0 <= i < self.plane_count() ==> #[trigger] frame.planes@[i] == (ExportedPlane {
                fd: self.fds@[i],
                offset: self.offsets@[i],
                stride: self.strides@[i],
            })
        &&& frame.format == self.format
        &&& frame.modifier == self.modifier
        &&& frame.width == self.width
        &&& frame.height == self.height
        &&& frame.buffer_index == buffer_index
        &&& frame.color_space == FrameColorSpace::Srgb
        &&& !frame.hdr
    }

    /// The frame in this buffer. Screen captures are in sRGB, without high dynamic
    /// range.
    pub fn export(&self, buffer_index: usize) -> (frame: ExportedFrame)
        ensures
            self.is_exported_as(buffer_index, frame),
    {
        let mut planes: Vec<ExportedPlane> = Vec::new();
        let mut i: usize = 0;
        while i < self.fds.len() && i < self.offsets.len() && i < self.strides.len()
            invariant
                i <= self.plane_count(),
                planes@.len() == i,
                forall|j: int|
                    0 <= j < i ==> #[trigger] planes@[j] == (ExportedPlane {
                        fd: self.fds@[j],
                        offset: self.offsets@[j],
                        stride: self.strides@[j],
                    }),
            decreases self.fds.len() - i,
        {
            planes.push(ExportedPlane { fd: self.fds[i], offset: self.offsets[i], stride: self.strides[i] });
            i = i + 1;
        }
        ExportedFrame {
            planes,
            format: self.format,
            modifier: self.modifier,
            width: self.width,
            height: self.height,
            buffer_index,
            color_space: FrameColorSpace::Srgb,
            hdr: false,
        }
    }
}

/// The encoder gets the buffer as its allocator described it: as many planes as
/// all three lists have, each with its own descriptor, offset and stride, and the
/// format, layout and size of the whole.
pub proof fn law_frames_show_their_buffer(
    buffer: BufferDescription,
    buffer_index: usize,
    frame: ExportedFrame,
    i: int,
)
    requires
        buffer.is_exported_as(buffer_index, frame),
    ensures
        0 <= i < frame.planes@.len() <==> 0 <= i < buffer.fds@.len() && i < buffer.offsets@.len() && i
            < buffer.strides@.len(),
        0 <= i < frame.planes@.len() ==> frame.planes@[i].fd == buffer.fds@[i] && frame.planes@[i].offset
            == buffer.offsets@[i] && frame.planes@[i].stride == buffer.strides@[i],
        frame.format == buffer.format,
        frame.modifier == buffer.modifier,
        frame.width == buffer.width,
        frame.height == buffer.height,
        frame.buffer_index == buffer_index,
        frame.color_space is Srgb,
        !frame.hdr,
{
}

} // verus!
