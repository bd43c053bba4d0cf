//! Scaling captured images to the size of the stream on the GPU.
//!
//! The images and commands themselves belong to the GPU driver. Here stands what
//! to create, what to record and what to release, in which order.

use vstd::prelude::*;
use vstd::string::StringExecFns;

use crate::geometry::{aspect_fit_rect, max_one, source_offsets, to_signed, BlitRect, FrameTransform, Offset3D};

verus! {

/// How an image is laid out in memory.
#[derive(Debug, Clone, Copy, PartialEq, Eq, Structural)]
pub enum ImageLayout {
    /// The contents are not to be kept.
    Undefined,
    General,
    TransferSrc,
    TransferDst,
    /// Any other layout, by its number.
    Other(i32),
}

/// Kinds of memory access that a barrier orders.
#[derive(Debug, Clone, Copy, PartialEq, Eq, Structural)]
pub struct Access {
    pub memory_read: bool,
    pub memory_write: bool,
    pub transfer_read: bool,
    pub transfer_write: bool,
}

/// Stages of the pipeline that a barrier orders.
#[derive(Debug, Clone, Copy, PartialEq, Eq, Structural)]
pub struct Stages {
    pub top_of_pipe: bool,
    pub transfer: bool,
    pub all_commands: bool,
}

/// A change of the layout of an image, between two groups of accesses.
#[derive(Debug, Clone, Copy, PartialEq, Eq, Structural)]
pub struct ImageBarrier {
    pub old_layout: ImageLayout,
    pub new_layout: ImageLayout,
    pub src_access: Access,
    pub dst_access: Access,
}

/// A command to record. The source is the captured image, the destination the
/// image of the blitter.
#[derive(Debug, Clone, Copy, PartialEq, Eq, Structural)]
pub enum BlitCommand {
    /// Order the stages, with a barrier on either image or on both.
    Barrier { src_stage: Stages, dst_stage: Stages, source: Option<ImageBarrier>, destination: Option<ImageBarrier> },
    /// Fill the destination with opaque black.
    Clear,
    /// Copy the source box into the destination box, scaling linearly.
    Blit { src_from: Offset3D, src_to: Offset3D, dst_from: Offset3D, dst_to: Offset3D },
}

/// No access.
pub open spec fn no_access() -> Access {
    Access { memory_read: false, memory_write: false, transfer_read: false, transfer_write: false }
}

/// Any read and write.
pub open spec fn any_access() -> Access {
    Access { memory_read: true, memory_write: true, transfer_read: false, transfer_write: false }
}

/// Reads by transfers.
pub open spec fn transfer_read() -> Access {
    Access { memory_read: false, memory_write: false, transfer_read: true, transfer_write: false }
}

/// Writes by transfers.
pub open spec fn transfer_write() -> Access {
    Access { memory_read: false, memory_write: false, transfer_read: false, transfer_write: true }
}

/// The transfer stage.
pub open spec fn transfer_stage() -> Stages {
    Stages { top_of_pipe: false, transfer: true, all_commands: false }
}

/// All commands.
pub open spec fn all_stages() -> Stages {
    Stages { top_of_pipe: false, transfer: false, all_commands: true }
}

/// What has to be awaited before images of these layouts are touched: nothing
/// for an image without contents, else everything.
pub open spec fn awaited_stages(source: ImageLayout, destination: ImageLayout) -> Stages {
    Stages {
        top_of_pipe: source == ImageLayout::Undefined || destination == ImageLayout::Undefined,
        transfer: false,
        all_commands: source != ImageLayout::Undefined || destination != ImageLayout::Undefined,
    }
}

/// What may have touched an image of this layout before.
pub open spec fn prior_access(layout: ImageLayout) -> Access {
    if layout == ImageLayout::Undefined { no_access() } else { any_access() }
}

fn earlier_access(layout: ImageLayout) -> (r: Access)
    ensures
        r == prior_access(layout),
{
    let known: bool = match layout {
        ImageLayout::Undefined => false,
        _ => true,
    };
    Access { memory_read: known, memory_write: known, transfer_read: false, transfer_write: false }
}

fn is_undefined(layout: ImageLayout) -> (r: bool)
    ensures
        r == (layout == ImageLayout::Undefined),
{
    match layout {
        ImageLayout::Undefined => true,
        _ => false,
    }
}

/// What an image may be used for.
#[derive(Debug, Clone, Copy, PartialEq, Eq, Structural)]
pub struct ImageUsage {
    pub transfer_src: bool,
    pub transfer_dst: bool,
    pub sampled: bool,
}

/// An image to create, and the memory to bind it to.
#[derive(Debug, Clone, Copy, PartialEq, Eq, Structural)]
pub struct ImageRequest {
    /// Number of the pixel format.
    pub format: i32,
    pub width: u32,
    pub height: u32,
    pub depth: u32,
    pub mip_levels: u32,
    pub array_layers: u32,
    /// Samples per pixel.
    pub samples: u32,
    /// The driver chooses how pixels are arranged.
    pub optimal_tiling: bool,
    /// One queue family at a time owns the image.
    pub exclusive: bool,
    pub usage: ImageUsage,
    pub initial_layout: ImageLayout,
    /// The memory is local to the GPU.
    pub device_local: bool,
    /// Where in the memory the image starts.
    pub memory_offset: u64,
}

/// Scales captured images into an image of the size of the stream.
#[derive(Debug, Clone, Copy, PartialEq, Eq, Structural)]
pub struct RgbBlitter {
    /// Number of the pixel format of the image.
    pub format: i32,
    pub width: u32,
    pub height: u32,
    /// The image holds a finished blit.
    pub initialized: bool,
}

impl RgbBlitter {
    /// The image has pixels.
    pub open spec fn wf(self) -> bool {
        self.width >= 1 && self.height >= 1
    }

    /// The layout of the image between two blits.
    pub open spec fn layout(self) -> ImageLayout {
        if self.initialized { ImageLayout::General } else { ImageLayout::Undefined }
    }

    /// This is a new blitter for a stream of this size.
    pub open spec fn is_new(self, format: i32, width: u32, height: u32) -> bool {
        &&& self.wf()
        &&& self.format == format
        &&& self.width == crate::geometry::at_least_one(width as nat)
        &&& self.height == crate::geometry::at_least_one(height as nat)
        &&& !self.initialized
    }

    /// A blitter for a stream of this size, at least one pixel on each side.
    pub fn new(format: i32, width: u32, height: u32) -> (blitter: RgbBlitter)
        ensures
            blitter.is_new(format, width, height),
    {
        RgbBlitter { format, width: max_one(width), height: max_one(height), initialized: false }
    }

    /// The image of the blitter: flat, plain, to be written by transfers and
    /// sampled by the encoder, at the start of memory of its own on the GPU.
    pub open spec fn image(self) -> ImageRequest {
        ImageRequest {
            format: self.format,
            width: self.width,
            height: self.height,
            depth: 1,
            mip_levels: 1,
            array_layers: 1,
            samples: 1,
            optimal_tiling: true,
            exclusive: true,
            usage: ImageUsage { transfer_src: false, transfer_dst: true, sampled: true },
            initial_layout: ImageLayout::Undefined,
            device_local: true,
            memory_offset: 0,
        }
    }

    /// The image to create for the blitter.
    pub fn image_request(&self) -> (r: ImageRequest)
        ensures
            r == self.image(),
    {
        ImageRequest {
            format: self.format,
            width: self.width,
            height: self.height,
            depth: 1,
            mip_levels: 1,
            array_layers: 1,
            samples: 1,
            optimal_tiling: true,
            exclusive: true,
            usage: ImageUsage { transfer_src: false, transfer_dst: true, sampled: true },
            initial_layout: ImageLayout::Undefined,
            device_local: true,
            memory_offset: 0,
        }
    }

    /// Number of the pixel format of the image.
    pub fn format(&self) -> (r: i32)
        ensures
            r == self.format,
    {
        self.format
    }

    /// Width of the image.
    pub fn width(&self) -> (r: u32)
        ensures
            r == self.width,
    {
        self.width
    }

    /// Height of the image.
    pub fn height(&self) -> (r: u32)
        ensures
            r == self.height,
    {
        self.height
    }

    /// The commands of a blit.
    pub open spec fn commands(
        self,
        src_layout: ImageLayout,
        src_width: u32,
        src_height: u32,
        transform: FrameTransform,
    ) -> Seq<BlitCommand> {
        let width = crate::geometry::at_least_one(src_width as nat) as u32;
        let height = crate::geometry::at_least_one(src_height as nat) as u32;
        let rect = crate::geometry::aspect_fit(width, height, self.width, self.height);
        seq![
            BlitCommand::Barrier {
                src_stage: awaited_stages(src_layout, self.layout()),
                dst_stage: transfer_stage(),
                source: Some(
                    ImageBarrier {
                        old_layout: src_layout,
                        new_layout: ImageLayout::TransferSrc,
                        src_access: prior_access(src_layout),
                        dst_access: transfer_read(),
                    },
                ),
                destination: Some(
                    ImageBarrier {
                        old_layout: self.layout(),
                        new_layout: ImageLayout::TransferDst,
                        src_access: prior_access(self.layout()),
                        dst_access: transfer_write(),
                    },
                ),
            },
            BlitCommand::Clear,
            BlitCommand::Barrier {
                src_stage: transfer_stage(),
                dst_stage: transfer_stage(),
                source: None,
                destination: Some(
                    ImageBarrier {
                        old_layout: ImageLayout::TransferDst,
                        new_layout: ImageLayout::TransferDst,
                        src_access: transfer_write(),
                        dst_access: transfer_write(),
                    },
                ),
            },
            BlitCommand::Blit {
                src_from: crate::geometry::first_corner(width, height, transform),
                src_to: crate::geometry::second_corner(width, height, transform),
                dst_from: Offset3D {
                    x: crate::geometry::wrapped(rect.x) as i32,
                    y: crate::geometry::wrapped(rect.y) as i32,
                    z: 0,
                },
                dst_to: Offset3D {
                    x: crate::geometry::wrapped((rect.x + rect.width) as u32) as i32,
                    y: crate::geometry::wrapped((rect.y + rect.height) as u32) as i32,
                    z: 1,
                },
            },
            BlitCommand::Barrier {
                src_stage: transfer_stage(),
                dst_stage: all_stages(),
                source: Some(
                    ImageBarrier {
                        old_layout: ImageLayout::TransferSrc,
                        new_layout: ImageLayout::General,
                        src_access: transfer_read(),
                        dst_access: any_access(),
                    },
                ),
                destination: Some(
                    ImageBarrier {
                        old_layout: ImageLayout::TransferDst,
                        new_layout: ImageLayout::General,
                        src_access: transfer_write(),
                        dst_access: any_access(),
                    },
                ),
            },
        ]
    }

    /// What to record to scale a captured image into the image of the blitter,
    /// in the middle of a black frame. `src_layout` is how the captured image is
    /// laid out.
    pub fn blit_aspect_fit(
        &self,
        src_layout: ImageLayout,
        src_width: u32,
        src_height: u32,
        transform: FrameTransform,
    ) -> (r: Vec<BlitCommand>)
        requires
            self.wf(),
        ensures
            r@ == self.commands(src_layout, src_width, src_height, transform),
    {
        let src_width: u32 = max_one(src_width);
        let src_height: u32 = max_one(src_height);
        let rect: BlitRect = aspect_fit_rect(src_width, src_height, self.width, self.height);
        proof {
            crate::geometry::law_fit_is_centred(rect, src_width, src_height, self.width, self.height);
        }
        let none: Access = Access {
            memory_read: false,
            memory_write: false,
            transfer_read: false,
            transfer_write: false,
        };
        let any: Access = Access { memory_read: true, memory_write: true, ..none };
        let reading: Access = Access { transfer_read: true, ..none };
        let writing: Access = Access { transfer_write: true, ..none };
        let transfer: Stages = Stages { top_of_pipe: false, transfer: true, all_commands: false };
        let everything: Stages = Stages { top_of_pipe: false, transfer: false, all_commands: true };
        let dst_layout: ImageLayout = if self.initialized {
            ImageLayout::General
        } else {
            ImageLayout::Undefined
        };
        let src_new: bool = is_undefined(src_layout);
        let dst_new: bool = is_undefined(dst_layout);
        let corners: [Offset3D; 2] = source_offsets(src_width, src_height, transform);
        let mut r: Vec<BlitCommand> = Vec::new();
        r.push(
            BlitCommand::Barrier {
                src_stage: Stages {
                    top_of_pipe: src_new || dst_new,
                    transfer: false,
                    all_commands: !src_new || !dst_new,
                },
                dst_stage: transfer,
                source: Some(
                    ImageBarrier {
                        old_layout: src_layout,
                        new_layout: ImageLayout::TransferSrc,
                        src_access: earlier_access(src_layout),
                        dst_access: reading,
                    },
                ),
                destination: Some(
                    ImageBarrier {
                        old_layout: dst_layout,
                        new_layout: ImageLayout::TransferDst,
                        src_access: earlier_access(dst_layout),
                        dst_access: writing,
                    },
                ),
            },
        );
        r.push(BlitCommand::Clear);
        r.push(
            BlitCommand::Barrier {
                src_stage: transfer,
                dst_stage: transfer,
                source: None,
                destination: Some(
                    ImageBarrier {
                        old_layout: ImageLayout::TransferDst,
                        new_layout: ImageLayout::TransferDst,
                        src_access: writing,
                        dst_access: writing,
                    },
                ),
            },
        );
        r.push(
            BlitCommand::Blit {
                src_from: corners[0],
                src_to: corners[1],
                dst_from: Offset3D { x: to_signed(rect.x), y: to_signed(rect.y), z: 0 },
                dst_to: Offset3D {
                    x: to_signed(rect.x + rect.width),
                    y: to_signed(rect.y + rect.height),
                    z: 1,
                },
            },
        );
        r.push(
            BlitCommand::Barrier {
                src_stage: transfer,
                dst_stage: everything,
                source: Some(
                    ImageBarrier {
                        old_layout: ImageLayout::TransferSrc,
                        new_layout: ImageLayout::General,
                        src_access: reading,
                        dst_access: any,
                    },
                ),
                destination: Some(
                    ImageBarrier {
                        old_layout: ImageLayout::TransferDst,
                        new_layout: ImageLayout::General,
                        src_access: writing,
                        dst_access: any,
                    },
                ),
            },
        );
        assert(r@ =~= self.commands(src_layout, src_width, src_height, transform));
        r
    }

    /// The GPU has finished a blit.
    pub fn blit_finished(&mut self)
        ensures
            *final(self) == (RgbBlitter { initialized: true, ..*old(self) }),
    {
        self.initialized = true;
    }
}

/// The layouts of source and destination.
pub struct Layouts {
    pub source: ImageLayout,
    pub destination: ImageLayout,
}

/// A barrier on an image of this layout names the layout, or drops the contents.
pub open spec fn barrier_fits(barrier: Option<ImageBarrier>, layout: ImageLayout) -> bool {
    barrier is Some ==> barrier->0.old_layout == layout || barrier->0.old_layout == ImageLayout::Undefined
}

/// The layout of an image after a barrier.
pub open spec fn layout_after(barrier: Option<ImageBarrier>, layout: ImageLayout) -> ImageLayout {
    match barrier {
        Some(barrier) => barrier.new_layout,
        None => layout,
    }
}

impl Layouts {
    /// A command may be recorded while the images are laid out like this.
    pub open spec fn permits(self, command: BlitCommand) -> bool {
        match command {
            BlitCommand::Barrier { src_stage, dst_stage, source, destination } => {
                barrier_fits(source, self.source) && barrier_fits(destination, self.destination)
            },
            BlitCommand::Clear => self.destination == ImageLayout::TransferDst,
            BlitCommand::Blit { src_from, src_to, dst_from, dst_to } => {
                self.source == ImageLayout::TransferSrc && self.destination == ImageLayout::TransferDst
            },
        }
    }

    /// The layouts after a command.
    pub open spec fn after(self, command: BlitCommand) -> Layouts {
        match command {
            BlitCommand::Barrier { src_stage, dst_stage, source, destination } => Layouts {
                source: layout_after(source, self.source),
                destination: layout_after(destination, self.destination),
            },
            _ => self,
        }
    }

    /// The layouts after a list of commands.
    pub open spec fn after_all(self, commands: Seq<BlitCommand>) -> Layouts
        decreases commands.len(),
    {
        if commands.len() == 0 {
            self
        } else {
            self.after_all(commands.drop_last()).after(commands.last())
        }
    }
}

/// Every command of a blit finds both images in the layout that it needs, and a
/// blit leaves both in the general layout: the one in which the next blit
/// expects the image of the blitter.
pub proof fn law_blit_layouts_line_up(
    blitter: RgbBlitter,
    src_layout: ImageLayout,
    src_width: u32,
    src_height: u32,
    transform: FrameTransform,
    i: int,
)
    ensures
        ({
            let commands = blitter.commands(src_layout, src_width, src_height, transform);
            let start = Layouts { source: src_layout, destination: blitter.layout() };
            let finished = RgbBlitter { initialized: true, ..blitter };
            &&& 0 <= i < commands.len() ==> start.after_all(commands.take(i)).permits(commands[i])
            &&& start.after_all(commands) == (Layouts {
                source: ImageLayout::General,
                destination: finished.layout(),
            })
        }),
{
    let commands = blitter.commands(src_layout, src_width, src_height, transform);
    let start = Layouts { source: src_layout, destination: blitter.layout() };
    assert(commands.take(0) =~= seq![]);
    assert(commands.take(1).drop_last() =~= commands.take(0));
    assert(commands.take(2).drop_last() =~= commands.take(1));
    assert(commands.take(3).drop_last() =~= commands.take(2));
    assert(commands.take(4).drop_last() =~= commands.take(3));
    assert(commands.take(5).drop_last() =~= commands.take(4));
    assert(commands.take(5) =~= commands);
    let l0 = start.after_all(commands.take(0));
    let l1 = start.after_all(commands.take(1));
    let l2 = start.after_all(commands.take(2));
    let l3 = start.after_all(commands.take(3));
    let l4 = start.after_all(commands.take(4));
    assert(l0 == start);
    assert(l1 == l0.after(commands[0]));
    assert(l2 == l1.after(commands[1]));
    assert(l3 == l2.after(commands[2]));
    assert(l4 == l3.after(commands[3]));
    assert(start.after_all(commands) == l4.after(commands[4]));
}

/// The image of a blitter suits its blits: a new one is in the layout that the
/// first blit expects, it may be written by transfers, and every blit stays inside
/// it.
pub proof fn law_image_suits_its_blits(blitter: RgbBlitter, src_width: u32, src_height: u32)
    requires
        blitter.wf(),
    ensures
        ({
            let image = blitter.image();
            let rect = crate::geometry::aspect_fit(
                crate::geometry::at_least_one(src_width as nat) as u32,
                crate::geometry::at_least_one(src_height as nat) as u32,
                blitter.width,
                blitter.height,
            );
            &&& !blitter.initialized ==> image.initial_layout == blitter.layout()
            &&& image.usage.transfer_dst
            &&& image.width >= 1 && image.height >= 1 && image.depth == 1
            &&& rect.x + rect.width <= image.width
            &&& rect.y + rect.height <= image.height
        }),
{
    let width = crate::geometry::at_least_one(src_width as nat) as u32;
    let height = crate::geometry::at_least_one(src_height as nat) as u32;
    let rect = crate::geometry::aspect_fit(width, height, blitter.width, blitter.height);
    crate::geometry::law_fit_is_centred(rect, width, height, blitter.width, blitter.height);
}

/// Something that the blitter creates on the GPU.
#[derive(Debug, Clone, Copy, PartialEq, Eq, Structural)]
pub enum Resource {
    Image,
    Memory,
    /// The command pool, and with it its command buffer.
    CommandPool,
    Fence,
}

/// The steps that create a blitter, in order.
#[derive(Debug, Clone, Copy, PartialEq, Eq, Structural)]
pub enum SetupStep {
    Image,
    MemoryType,
    Memory,
    Bind,
    CommandPool,
    CommandBuffer,
    Fence,
}

impl SetupStep {
    /// What was created before this step, in order.
    pub open spec fn held(self) -> Seq<Resource> {
        match self {
            SetupStep::Image => seq![],
            SetupStep::MemoryType => seq![Resource::Image],
            SetupStep::Memory => seq![Resource::Image],
            SetupStep::Bind => seq![Resource::Image, Resource::Memory],
            SetupStep::CommandPool => seq![Resource::Image, Resource::Memory],
            SetupStep::CommandBuffer => seq![Resource::Image, Resource::Memory, Resource::CommandPool],
            SetupStep::Fence => seq![Resource::Image, Resource::Memory, Resource::CommandPool],
        }
    }

    /// What this step creates, if anything is to be released again.
    pub open spec fn created(self) -> Seq<Resource> {
        match self {
            SetupStep::Image => seq![Resource::Image],
            SetupStep::MemoryType => seq![],
            SetupStep::Memory => seq![Resource::Memory],
            SetupStep::Bind => seq![],
            SetupStep::CommandPool => seq![Resource::CommandPool],
            SetupStep::CommandBuffer => seq![],
            SetupStep::Fence => seq![Resource::Fence],
        }
    }

    /// The step after this one.
    pub open spec fn following(self) -> Option<SetupStep> {
        match self {
            SetupStep::Image => Some(SetupStep::MemoryType),
            SetupStep::MemoryType => Some(SetupStep::Memory),
            SetupStep::Memory => Some(SetupStep::Bind),
            SetupStep::Bind => Some(SetupStep::CommandPool),
            SetupStep::CommandPool => Some(SetupStep::CommandBuffer),
            SetupStep::CommandBuffer => Some(SetupStep::Fence),
            SetupStep::Fence => None,
        }
    }

    /// The step to take after this one; none when the blitter is complete.
    pub fn next(self) -> (r: Option<SetupStep>)
        ensures
            r == self.following(),
    {
        match self {
            SetupStep::Image => Some(SetupStep::MemoryType),
            SetupStep::MemoryType => Some(SetupStep::Memory),
            SetupStep::Memory => Some(SetupStep::Bind),
            SetupStep::Bind => Some(SetupStep::CommandPool),
            SetupStep::CommandPool => Some(SetupStep::CommandBuffer),
            SetupStep::CommandBuffer => Some(SetupStep::Fence),
            SetupStep::Fence => None,
        }
    }

    /// What is released when this step fails, in order. Without a memory type
    /// nothing is.
    pub open spec fn released(self) -> Seq<Resource> {
        match self {
            SetupStep::Image => seq![],
            SetupStep::MemoryType => seq![],
            SetupStep::Memory => seq![Resource::Image],
            SetupStep::Bind => seq![Resource::Memory, Resource::Image],
            SetupStep::CommandPool => seq![Resource::Memory, Resource::Image],
            SetupStep::CommandBuffer => seq![Resource::CommandPool, Resource::Memory, Resource::Image],
            SetupStep::Fence => seq![Resource::CommandPool, Resource::Memory, Resource::Image],
        }
    }

    /// What to release when this step fails, in order.
    pub fn release_on_failure(self) -> (r: Vec<Resource>)
        ensures
            r@ == self.released(),
    {
        let mut r: Vec<Resource> = Vec::new();
        let with_pool: bool = match self {
            SetupStep::CommandBuffer | SetupStep::Fence => true,
            _ => false,
        };
        let with_memory: bool = with_pool || match self {
            SetupStep::Bind | SetupStep::CommandPool => true,
            _ => false,
        };
        let with_image: bool = with_memory || match self {
            SetupStep::Memory => true,
            _ => false,
        };
        if with_pool {
            r.push(Resource::CommandPool);
        }
        if with_memory {
            r.push(Resource::Memory);
        }
        if with_image {
            r.push(Resource::Image);
        }
        assert(r@ =~= self.released());
        r
    }

    /// What to say when this step fails for a reason.
    pub open spec fn text(self, reason: Seq<char>) -> Seq<char> {
        match self {
            SetupStep::Image => "RGB blit image creation: "@ + reason,
            SetupStep::MemoryType => "No suitable memory type for RGB blit image"@,
            SetupStep::Memory => "RGB blit memory allocation: "@ + reason,
            SetupStep::Bind => "RGB blit memory bind: "@ + reason,
            SetupStep::CommandPool => "RGB blit command pool: "@ + reason,
            SetupStep::CommandBuffer => "RGB blit command buffer: "@ + reason,
            SetupStep::Fence => "RGB blit fence: "@ + reason,
        }
    }

    /// What to say when this step fails for a reason.
    pub fn message(self, reason: &str) -> (r: String)
        ensures
            r@ == self.text(reason@),
    {
        match self {
            SetupStep::Image => "RGB blit image creation: ".to_owned().concat(reason),
            SetupStep::MemoryType => "No suitable memory type for RGB blit image".to_owned(),
            SetupStep::Memory => "RGB blit memory allocation: ".to_owned().concat(reason),
            SetupStep::Bind => "RGB blit memory bind: ".to_owned().concat(reason),
            SetupStep::CommandPool => "RGB blit command pool: ".to_owned().concat(reason),
            SetupStep::CommandBuffer => "RGB blit command buffer: ".to_owned().concat(reason),
            SetupStep::Fence => "RGB blit fence: ".to_owned().concat(reason),
        }
    }
}

/// What to do after a step of the setup.
#[derive(Debug)]
pub enum SetupProgress {
    /// Take the next step.
    Next(SetupStep),
    /// The blitter is complete.
    Complete,
    /// Release what is listed, in order, and give up with a message.
    Failed { message: String, release: Vec<Resource> },
}

impl SetupStep {
    /// How `taken` goes: `r` is its result.
    pub open spec fn leads_to(self, outcome: Result<(), String>, r: SetupProgress) -> bool {
        match outcome {
            Err(reason) => r matches SetupProgress::Failed { message, release } && message@ == self.text(reason@)
                && release@ == self.released(),
            Ok(_) => match self.following() {
                Some(next) => r == SetupProgress::Next(next),
                None => r == SetupProgress::Complete,
            },
        }
    }

    /// The step was taken, or failed for a reason: decides what to do next.
    pub fn taken(self, outcome: Result<(), String>) -> (r: SetupProgress)
        ensures
            self.leads_to(outcome, r),
    {
        match outcome {
            Err(reason) => SetupProgress::Failed {
                message: self.message(reason.as_str()),
                release: self.release_on_failure(),
            },
            Ok(_) => match self.next() {
                Some(next) => SetupProgress::Next(next),
                None => SetupProgress::Complete,
            },
        }
    }
}

/// The steps that run a blit, in order. Its commands are recorded between the
/// second and the third.
#[derive(Debug, Clone, Copy, PartialEq, Eq, Structural)]
pub enum BlitStep {
    ResetCommandBuffer,
    BeginCommandBuffer,
    EndCommandBuffer,
    ResetFence,
    Submit,
    WaitFence,
}

impl BlitStep {
    /// The step after this one.
    pub open spec fn following(self) -> Option<BlitStep> {
        match self {
            BlitStep::ResetCommandBuffer => Some(BlitStep::BeginCommandBuffer),
            BlitStep::BeginCommandBuffer => Some(BlitStep::EndCommandBuffer),
            BlitStep::EndCommandBuffer => Some(BlitStep::ResetFence),
            BlitStep::ResetFence => Some(BlitStep::Submit),
            BlitStep::Submit => Some(BlitStep::WaitFence),
            BlitStep::WaitFence => None,
        }
    }

    /// The number of steps that come before this one.
    pub open spec fn position(self) -> int {
        match self {
            BlitStep::ResetCommandBuffer => 0,
            BlitStep::BeginCommandBuffer => 1,
            BlitStep::EndCommandBuffer => 2,
            BlitStep::ResetFence => 3,
            BlitStep::Submit => 4,
            BlitStep::WaitFence => 5,
        }
    }

    /// The step to take after this one; none when the blit is finished.
    pub fn next(self) -> (r: Option<BlitStep>)
        ensures
            r == self.following(),
    {
        match self {
            BlitStep::ResetCommandBuffer => Some(BlitStep::BeginCommandBuffer),
            BlitStep::BeginCommandBuffer => Some(BlitStep::EndCommandBuffer),
            BlitStep::EndCommandBuffer => Some(BlitStep::ResetFence),
            BlitStep::ResetFence => Some(BlitStep::Submit),
            BlitStep::Submit => Some(BlitStep::WaitFence),
            BlitStep::WaitFence => None,
        }
    }

    /// What to say when this step fails for a reason.
    pub open spec fn text(self, reason: Seq<char>) -> Seq<char> {
        match self {
            BlitStep::ResetCommandBuffer => "RGB blit reset command buffer: "@ + reason,
            BlitStep::BeginCommandBuffer => "RGB blit begin command buffer: "@ + reason,
            BlitStep::EndCommandBuffer => "RGB blit end command buffer: "@ + reason,
            BlitStep::ResetFence => "RGB blit reset fence: "@ + reason,
            BlitStep::Submit => "RGB blit queue submit: "@ + reason,
            BlitStep::WaitFence => "RGB blit wait fence: "@ + reason,
        }
    }

    /// What to say when this step fails for a reason.
    pub fn message(self, reason: &str) -> (r: String)
        ensures
            r@ == self.text(reason@),
    {
        let prefix: &str = match self {
            BlitStep::ResetCommandBuffer => "RGB blit reset command buffer: ",
            BlitStep::BeginCommandBuffer => "RGB blit begin command buffer: ",
            BlitStep::EndCommandBuffer => "RGB blit end command buffer: ",
            BlitStep::ResetFence => "RGB blit reset fence: ",
            BlitStep::Submit => "RGB blit queue submit: ",
            BlitStep::WaitFence => "RGB blit wait fence: ",
        };
        prefix.to_owned().concat(reason)
    }
}

/// What to do after a step of a blit.
#[derive(Debug)]
pub enum BlitProgress {
    /// Record the commands, then take a step.
    Record(BlitStep),
    /// Take the next step.
    Next(BlitStep),
    /// The image holds the blit.
    Finished,
    /// Give up with a message.
    Failed(String),
}

impl RgbBlitter {
    /// The blitter after a step of a blit: its image counts as written once the
    /// last step has succeeded, and not before.
    pub open spec fn after_step(self, step: BlitStep, succeeded: bool) -> RgbBlitter {
        if succeeded && step.following() is None {
            RgbBlitter { initialized: true, ..self }
        } else {
            self
        }
    }

    /// How `step_taken` goes: `r` is its result, `post` the blitter after it.
    pub open spec fn step_outcome(
        self,
        post: RgbBlitter,
        step: BlitStep,
        outcome: Result<(), String>,
        r: BlitProgress,
    ) -> bool {
        &&& post == self.after_step(step, outcome is Ok)
        &&& match outcome {
            Err(reason) => r matches BlitProgress::Failed(message) && message@ == step.text(reason@),
            Ok(_) => match step.following() {
                Some(next) => r == (if step == BlitStep::BeginCommandBuffer {
                    BlitProgress::Record(next)
                } else {
                    BlitProgress::Next(next)
                }),
                None => r == BlitProgress::Finished,
            },
        }
    }

    /// A step of a blit was taken, or failed for a reason: decides what to do
    /// next.
    pub fn step_taken(&mut self, step: BlitStep, outcome: Result<(), String>) -> (r: BlitProgress)
        ensures
            old(self).step_outcome(*final(self), step, outcome, r),
    {
        match outcome {
            Err(reason) => BlitProgress::Failed(step.message(reason.as_str())),
            Ok(_) => match step.next() {
                Some(next) => {
                    if step == BlitStep::BeginCommandBuffer {
                        BlitProgress::Record(next)
                    } else {
                        BlitProgress::Next(next)
                    }
                },
                None => {
                    self.blit_finished();
                    BlitProgress::Finished
                },
            },
        }
    }
}

/// A blit takes its steps one after the other, from resetting the command buffer
/// to waiting for the fence.
pub proof fn law_blit_steps_in_order(step: BlitStep)
    ensures
        step.position() == 0 <==> step == BlitStep::ResetCommandBuffer,
        match step.following() {
            Some(next) => next.position() == step.position() + 1,
            None => step == BlitStep::WaitFence,
        },
{
}

/// A step makes the image count as written exactly if it is a wait for the GPU
/// that succeeded. No step changes the format or size of the image, and no
/// failure changes anything.
pub proof fn law_image_counts_once_the_gpu_is_done(blitter: RgbBlitter, step: BlitStep, succeeded: bool)
    ensures
        ({
            let after = blitter.after_step(step, succeeded);
            &&& after.initialized == (blitter.initialized || (succeeded && step == BlitStep::WaitFence))
            &&& after == (RgbBlitter { initialized: after.initialized, ..blitter })
            &&& !succeeded ==> after == blitter
        }),
{
}

/// What a blitter releases in the end, in order.
pub open spec fn final_release() -> Seq<Resource> {
    seq![Resource::Fence, Resource::CommandPool, Resource::Image, Resource::Memory]
}

/// What to release with the blitter, in order.
pub fn release_on_drop() -> (r: Vec<Resource>)
    ensures
        r@ == final_release(),
{
    let mut r: Vec<Resource> = Vec::new();
    r.push(Resource::Fence);
    r.push(Resource::CommandPool);
    r.push(Resource::Image);
    r.push(Resource::Memory);
    assert(r@ =~= final_release());
    r
}

/// Each step holds what the steps before it created, and the last one completes
/// what a blitter releases in the end.
pub proof fn law_setup_accumulates(step: SetupStep)
    ensures
        match step.following() {
            Some(next) => next.held() == step.held() + step.created(),
            None => (step.held() + step.created()).to_multiset() == final_release().to_multiset(),
        },
{
    match step.following() {
        Some(next) => {
            assert(next.held() =~= step.held() + step.created());
        },
        None => {
            broadcast use vstd::seq_lib::group_to_multiset_ensures;

            let all = step.held() + step.created();
            let empty = Seq::<Resource>::empty();
            assert(all =~= empty.push(Resource::Image).push(Resource::Memory).push(Resource::CommandPool).push(
                Resource::Fence,
            ));
            assert(final_release() =~= empty.push(Resource::Fence).push(Resource::CommandPool).push(
                Resource::Image,
            ).push(Resource::Memory));
            assert(all.to_multiset() =~= final_release().to_multiset());
        },
    }
}

/// A step that fails releases what was created before it, the newest first. The
/// one exception is the search for a memory type, which releases nothing.
pub proof fn law_failed_setup_releases_in_reverse(step: SetupStep)
    requires
        step != SetupStep::MemoryType,
    ensures
        step.released() == step.held().reverse(),
{
    assert(step.released() =~= step.held().reverse());
}

/// A blitter releases everything that it holds, each thing once, and its image
/// before the memory of the image.
pub proof fn law_blitter_releases_everything(resource: Resource)
    ensures
        final_release().contains(resource),
        final_release().no_duplicates(),
        final_release().index_of(Resource::Image) < final_release().index_of(Resource::Memory),
{
    let list = final_release();
    assert(list[0] == Resource::Fence && list[1] == Resource::CommandPool);
    assert(list[2] == Resource::Image && list[3] == Resource::Memory);
}

/// A blit is one copy, after the image was cleared: it reads the whole captured
/// image, flipped as asked, and its destination box lies in the middle of the
/// image of the blitter, from edge to edge in the direction in which that is
/// tighter, and as long in the other as the aspect ratio asks for.
pub proof fn law_blit_puts_the_image_in_the_middle(
    blitter: RgbBlitter,
    src_layout: ImageLayout,
    src_width: u32,
    src_height: u32,
    transform: FrameTransform,
    i: int,
)
    requires
        blitter.wf(),
    ensures
        ({
            let commands = blitter.commands(src_layout, src_width, src_height, transform);
            let sw = if src_width == 0 { 1 } else { src_width as int };
            let sh = if src_height == 0 { 1 } else { src_height as int };
            let ow = blitter.width as int;
            let oh = blitter.height as int;
            &&& commands.len() == 5
            &&& 0 <= i < 5 && commands[i] is Clear ==> i == 1
            &&& 0 <= i < 5 && commands[i] is Blit ==> i == 3
            &&& commands[1] is Clear
            &&& commands[3] matches BlitCommand::Blit { src_from, src_to, dst_from, dst_to }
            &&& {
                let left = crate::geometry::unsigned(dst_from.x);
                let right = crate::geometry::unsigned(dst_to.x);
                let top = crate::geometry::unsigned(dst_from.y);
                let bottom = crate::geometry::unsigned(dst_to.y);
                &&& crate::geometry::is_centred(left, right, ow)
                &&& crate::geometry::is_centred(top, bottom, oh)
                &&& ow * sh <= oh * sw ==> left == 0 && right == ow && crate::geometry::stands_for(
                    bottom - top,
                    sh * ow,
                    sw,
                )
                &&& ow * sh >= oh * sw ==> top == 0 && bottom == oh && crate::geometry::stands_for(
                    right - left,
                    sw * oh,
                    sh,
                )
                &&& dst_from.z == 0 && dst_to.z == 1
                &&& transform.flip_x ==> crate::geometry::unsigned(src_from.x) == sw && src_to.x == 0
                &&& !transform.flip_x ==> src_from.x == 0 && crate::geometry::unsigned(src_to.x) == sw
                &&& transform.flip_y ==> crate::geometry::unsigned(src_from.y) == sh && src_to.y == 0
                &&& !transform.flip_y ==> src_from.y == 0 && crate::geometry::unsigned(src_to.y) == sh
                &&& src_from.z == 0 && src_to.z == 1
            }
        }),
{
    let width = crate::geometry::at_least_one(src_width as nat) as u32;
    let height = crate::geometry::at_least_one(src_height as nat) as u32;
    let rect = crate::geometry::aspect_fit(width, height, blitter.width, blitter.height);
    crate::geometry::law_fit_in_the_stream(width, height, blitter.width, blitter.height);
    crate::geometry::law_blits_read_the_whole_source(width, height, transform);
    crate::geometry::law_wrapping_loses_nothing(rect.x);
    crate::geometry::law_wrapping_loses_nothing(rect.y);
    crate::geometry::law_wrapping_loses_nothing((rect.x + rect.width) as u32);
    crate::geometry::law_wrapping_loses_nothing((rect.y + rect.height) as u32);
}

/// No command of a blit races with another, nor with what came before or comes
/// after. The first barrier waits for everything that may have touched an image
/// with contents, and for nothing else; there is a barrier between the clear and
/// the copy, which both write the destination; and the last makes the copy visible
/// to everything that follows.
pub proof fn law_blit_commands_are_ordered(
    blitter: RgbBlitter,
    src_layout: ImageLayout,
    src_width: u32,
    src_height: u32,
    transform: FrameTransform,
)
    ensures
        ({
            let commands = blitter.commands(src_layout, src_width, src_height, transform);
            let fresh = !blitter.initialized;
            let unread = src_layout is Undefined;
            &&& commands[0] matches BlitCommand::Barrier {
                src_stage,
                dst_stage,
                source: Some(source),
                destination: Some(destination),
            }
            &&& src_stage.all_commands == !(fresh && unread)
            &&& src_stage.top_of_pipe == (fresh || unread)
            &&& !src_stage.transfer
            &&& dst_stage.transfer && !dst_stage.top_of_pipe && !dst_stage.all_commands
            &&& source.old_layout == src_layout && source.new_layout is TransferSrc
            &&& source.src_access.memory_read == !unread && source.src_access.memory_write == !unread
            &&& !source.src_access.transfer_read && !source.src_access.transfer_write
            &&& source.dst_access.transfer_read && !source.dst_access.transfer_write
            &&& !source.dst_access.memory_read && !source.dst_access.memory_write
            &&& fresh ==> destination.old_layout is Undefined
            &&& !fresh ==> destination.old_layout is General
            &&& destination.new_layout is TransferDst
            &&& destination.src_access.memory_read == !fresh && destination.src_access.memory_write == !fresh
            &&& !destination.src_access.transfer_read && !destination.src_access.transfer_write
            &&& destination.dst_access.transfer_write && !destination.dst_access.transfer_read
            &&& !destination.dst_access.memory_read && !destination.dst_access.memory_write
            &&& commands[2] matches BlitCommand::Barrier {
                src_stage: cleared,
                dst_stage: copying,
                source: None,
                destination: Some(between),
            }
            &&& cleared.transfer && !cleared.top_of_pipe && !cleared.all_commands
            &&& copying.transfer && !copying.top_of_pipe && !copying.all_commands
            &&& between.old_layout is TransferDst && between.new_layout is TransferDst
            &&& between.src_access.transfer_write && between.dst_access.transfer_write
            &&& !between.src_access.transfer_read && !between.dst_access.transfer_read
            &&& !between.src_access.memory_read && !between.src_access.memory_write
            &&& !between.dst_access.memory_read && !between.dst_access.memory_write
            &&& commands[4] matches BlitCommand::Barrier {
                src_stage: copied,
                dst_stage: later,
                source: Some(given_back),
                destination: Some(shown),
            }
            &&& copied.transfer && !copied.top_of_pipe && !copied.all_commands
            &&& later.all_commands && !later.top_of_pipe && !later.transfer
            &&& given_back.old_layout is TransferSrc && given_back.new_layout is General
            &&& given_back.src_access.transfer_read && !given_back.src_access.transfer_write
            &&& !given_back.src_access.memory_read && !given_back.src_access.memory_write
            &&& given_back.dst_access.memory_read && given_back.dst_access.memory_write
            &&& !given_back.dst_access.transfer_read && !given_back.dst_access.transfer_write
            &&& shown.old_layout is TransferDst && shown.new_layout is General
            &&& shown.src_access.transfer_write && !shown.src_access.transfer_read
            &&& !shown.src_access.memory_read && !shown.src_access.memory_write
            &&& shown.dst_access.memory_read && shown.dst_access.memory_write
            &&& !shown.dst_access.transfer_read && !shown.dst_access.transfer_write
        }),
{
}

/// The image has the format and size of the blitter, one level, layer and sample,
/// may be written by transfers and sampled but not read by transfers, and fills
/// memory of the GPU from its start.
pub proof fn law_image_is_plain(blitter: RgbBlitter)
    ensures
        blitter.image().format == blitter.format,
        blitter.image().width == blitter.width,
        blitter.image().height == blitter.height,
        blitter.image().depth * blitter.image().mip_levels * blitter.image().array_layers * blitter.image().samples
            == 1,
        blitter.image().optimal_tiling && blitter.image().exclusive && blitter.image().device_local,
        blitter.image().usage.transfer_dst && blitter.image().usage.sampled && !blitter.image().usage.transfer_src,
        blitter.image().initial_layout is Undefined,
        blitter.image().memory_offset == 0,
{
}

/// The image is created before its memory is chosen, allocated and bound, in this
/// order, then the command pool, its buffer and the fence.
pub proof fn law_setup_steps_in_order(step: SetupStep)
    ensures
        SetupStep::Image.following() == Some(SetupStep::MemoryType),
        SetupStep::MemoryType.following() == Some(SetupStep::Memory),
        SetupStep::Memory.following() == Some(SetupStep::Bind),
        SetupStep::Bind.following() == Some(SetupStep::CommandPool),
        SetupStep::CommandPool.following() == Some(SetupStep::CommandBuffer),
        SetupStep::CommandBuffer.following() == Some(SetupStep::Fence),
        step.following() is None <==> step is Fence,
        step.following() != Some(SetupStep::Image),
{
}

/// What a failed setup releases exists, each thing once: whatever is released was
/// created by an earlier step, and the image is released last.
pub proof fn law_failed_setup_releases_what_exists(step: SetupStep, i: int, j: int)
    ensures
        0 <= i < step.released().len() ==> match step.released()[i] {
            Resource::Image => !(step is Image) && !(step is MemoryType) && i == step.released().len() - 1,
            Resource::Memory => !(step is Image) && !(step is MemoryType) && !(step is Memory),
            Resource::CommandPool => step is CommandBuffer || step is Fence,
            Resource::Fence => false,
        },
        0 <= i < j < step.released().len() ==> step.released()[i] != step.released()[j],
        step is Memory || step is Bind || step is CommandPool || step is CommandBuffer || step is Fence
            ==> step.released().len() > 0 && step.released().last() is Image,
        step is Bind || step is CommandPool || step is CommandBuffer || step is Fence
            ==> step.released().contains(Resource::Memory),
        step is CommandBuffer || step is Fence ==> step.released().contains(Resource::CommandPool),
{
    assert(step is Bind || step is CommandPool ==> step.released()[0] is Memory);
    assert(step is CommandBuffer || step is Fence ==> step.released()[0] is CommandPool
        && step.released()[1] is Memory);
}

/// The message for a failed step ends with the reason, but where no memory type
/// fits, which has no other reason.
pub proof fn law_messages_end_with_the_reason(setup: SetupStep, step: BlitStep, reason: Seq<char>)
    ensures
        !(setup is MemoryType) ==> setup.text(reason).len() >= reason.len() && setup.text(reason).skip(
            setup.text(reason).len() - reason.len(),
        ) == reason,
        step.text(reason).len() >= reason.len() && step.text(reason).skip(step.text(reason).len() - reason.len())
            == reason,
{
    assert(!(setup is MemoryType) ==> setup.text(reason).skip(setup.text(reason).len() - reason.len()) =~= reason);
    assert(step.text(reason).skip(step.text(reason).len() - reason.len()) =~= reason);
}

/// A new blitter has the format and size of the stream, but for sides without
/// pixels, which get one, and its image holds nothing yet.
pub proof fn law_blitters_have_the_size_of_the_stream(blitter: RgbBlitter, format: i32, width: u32, height: u32)
    requires
        blitter.is_new(format, width, height),
    ensures
        blitter.format == format,
        width > 0 ==> blitter.width == width,
        width == 0 ==> blitter.width == 1,
        height > 0 ==> blitter.height == height,
        height == 0 ==> blitter.height == 1,
        !blitter.initialized && blitter.layout() is Undefined,
{
}

/// A setup goes on to the next step until the fence is there. A step that fails ends
/// it, with a message that ends with the reason, and releases the image, its memory
/// and the command pool, as far as they exist; only a search for a memory type
/// releases nothing.
pub proof fn law_setups_end_complete_or_released(step: SetupStep, outcome: Result<(), String>, r: SetupProgress)
    requires
        step.leads_to(outcome, r),
    ensures
        outcome is Ok ==> (r is Complete <==> step is Fence) && !(r is Failed),
        outcome is Ok && !(step is Fence) ==> r is Next && step.following() == Some(r->Next_0),
        outcome is Err ==> {
            let reason = outcome->Err_0@;
            let message = r->message@;
            let release = r->release@;
            &&& r is Failed
            &&& !(step is MemoryType) ==> message.len() >= reason.len() && message.skip(message.len() - reason.len())
                == reason
            &&& step is Image || step is MemoryType ==> release.len() == 0
            &&& step is Memory ==> release == seq![Resource::Image]
            &&& step is Bind || step is CommandPool ==> release == seq![Resource::Memory, Resource::Image]
            &&& step is CommandBuffer || step is Fence ==> release == seq![
                Resource::CommandPool,
                Resource::Memory,
                Resource::Image,
            ]
        },
{
    if outcome is Err {
        law_messages_end_with_the_reason(step, BlitStep::Submit, outcome->Err_0@);
    }
}

/// A blit goes on to the next step until the GPU is done. Its commands are recorded
/// once, after recording was begun and before it is ended. A step that fails ends
/// it, with a message that ends with the reason, and the image does not count as
/// written on its account.
pub proof fn law_blits_end_finished_or_failed(
    blitter: RgbBlitter,
    post: RgbBlitter,
    step: BlitStep,
    outcome: Result<(), String>,
    r: BlitProgress,
)
    requires
        blitter.step_outcome(post, step, outcome, r),
    ensures
        outcome is Ok ==> {
            &&& r is Record <==> step is BeginCommandBuffer
            &&& r is Finished <==> step is WaitFence
            &&& r matches BlitProgress::Record(next) ==> next is EndCommandBuffer
            &&& r matches BlitProgress::Next(next) ==> next.position() == step.position() + 1
            &&& !(r is Failed)
        },
        outcome is Err ==> {
            let reason = outcome->Err_0@;
            let message = r->Failed_0@;
            &&& r is Failed
            &&& message.len() >= reason.len() && message.skip(message.len() - reason.len()) == reason
            &&& post == blitter
        },
        post.initialized <==> blitter.initialized || (outcome is Ok && step is WaitFence),
        post.format == blitter.format && post.width == blitter.width && post.height == blitter.height,
{
    if outcome is Err {
        law_messages_end_with_the_reason(SetupStep::Image, step, outcome->Err_0@);
    }
}

} // verus!
