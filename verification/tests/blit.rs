use moonshine::blit::{
    release_on_drop, Access, BlitCommand, BlitProgress, BlitStep, ImageBarrier, ImageLayout, ImageRequest, ImageUsage,
    Resource, RgbBlitter, SetupProgress, SetupStep, Stages,
};
use moonshine::geometry::{FrameTransform, Offset3D};

const NO_FLIP: FrameTransform = FrameTransform { flip_x: false, flip_y: false };

const NONE: Access = Access {
    memory_read: false,
    memory_write: false,
    transfer_read: false,
    transfer_write: false,
};

fn first_barrier(commands: &[BlitCommand]) -> (Stages, ImageBarrier, ImageBarrier) {
    match commands[0] {
        BlitCommand::Barrier {
            src_stage,
            source: Some(source),
            destination: Some(destination),
            ..
        } => (src_stage, source, destination),
        other => panic!("{other:?}"),
    }
}

#[test]
fn blitter_has_at_least_one_pixel() {
    let blitter = RgbBlitter::new(44, 0, 1080);
    assert_eq!((blitter.format(), blitter.width(), blitter.height()), (44, 1, 1080));
}

#[test]
fn blit_scales_into_the_middle() {
    let blitter = RgbBlitter::new(44, 1920, 1080);
    let commands = blitter.blit_aspect_fit(
        ImageLayout::General,
        400,
        640,
        FrameTransform { flip_x: false, flip_y: true },
    );
    assert_eq!(commands.len(), 5);
    assert_eq!(commands[1], BlitCommand::Clear);
    assert_eq!(
        commands[3],
        BlitCommand::Blit {
            src_from: Offset3D { x: 0, y: 640, z: 0 },
            src_to: Offset3D { x: 400, y: 0, z: 1 },
            dst_from: Offset3D { x: 622, y: 0, z: 0 },
            dst_to: Offset3D { x: 1297, y: 1080, z: 1 },
        }
    );
}

#[test]
fn empty_sources_count_as_one_pixel() {
    let blitter = RgbBlitter::new(44, 30, 20);
    let commands = blitter.blit_aspect_fit(ImageLayout::General, 0, 0, NO_FLIP);
    assert_eq!(
        commands[3],
        BlitCommand::Blit {
            src_from: Offset3D { x: 0, y: 0, z: 0 },
            src_to: Offset3D { x: 1, y: 1, z: 1 },
            dst_from: Offset3D { x: 5, y: 0, z: 0 },
            dst_to: Offset3D { x: 25, y: 20, z: 1 },
        }
    );
}

#[test]
fn fresh_images_are_not_awaited() {
    let mut blitter = RgbBlitter::new(44, 30, 20);
    let (stages, source, destination) =
        first_barrier(&blitter.blit_aspect_fit(ImageLayout::Undefined, 3, 2, NO_FLIP));
    assert_eq!(stages, Stages { top_of_pipe: true, transfer: false, all_commands: false });
    assert_eq!((source.old_layout, source.src_access), (ImageLayout::Undefined, NONE));
    assert_eq!((destination.old_layout, destination.src_access), (ImageLayout::Undefined, NONE));

    let (stages, source, _) = first_barrier(&blitter.blit_aspect_fit(ImageLayout::Other(5), 3, 2, NO_FLIP));
    assert_eq!(stages, Stages { top_of_pipe: true, transfer: false, all_commands: true });
    assert_eq!(source.old_layout, ImageLayout::Other(5));
    assert_eq!(source.src_access, Access { memory_read: true, memory_write: true, ..NONE });

    blitter.blit_finished();
    let (stages, _, destination) = first_barrier(&blitter.blit_aspect_fit(ImageLayout::General, 3, 2, NO_FLIP));
    assert_eq!(stages, Stages { top_of_pipe: false, transfer: false, all_commands: true });
    assert_eq!(destination.old_layout, ImageLayout::General);
    assert_eq!(destination.src_access, Access { memory_read: true, memory_write: true, ..NONE });
}

#[test]
fn layouts_line_up_from_blit_to_blit() {
    let mut blitter = RgbBlitter::new(44, 30, 20);
    for start in [ImageLayout::General, ImageLayout::Undefined, ImageLayout::Other(7)] {
        let mut source = start;
        let mut destination = if blitter.initialized { ImageLayout::General } else { ImageLayout::Undefined };
        for command in blitter.blit_aspect_fit(start, 3, 2, NO_FLIP) {
            match command {
                BlitCommand::Barrier { source: on_source, destination: on_destination, .. } => {
                    if let Some(barrier) = on_source {
                        assert_eq!(barrier.old_layout, source);
                        source = barrier.new_layout;
                    }
                    if let Some(barrier) = on_destination {
                        assert_eq!(barrier.old_layout, destination);
                        destination = barrier.new_layout;
                    }
                }
                BlitCommand::Clear => assert_eq!(destination, ImageLayout::TransferDst),
                BlitCommand::Blit { .. } => {
                    assert_eq!((source, destination), (ImageLayout::TransferSrc, ImageLayout::TransferDst));
                }
            }
        }
        assert_eq!((source, destination), (ImageLayout::General, ImageLayout::General));
        blitter.blit_finished();
    }
}

#[test]
fn failed_setup_releases_what_it_holds() {
    assert!(SetupStep::Image.release_on_failure().is_empty());
    assert!(SetupStep::MemoryType.release_on_failure().is_empty());
    assert_eq!(SetupStep::Memory.release_on_failure(), vec![Resource::Image]);
    assert_eq!(SetupStep::Bind.release_on_failure(), vec![Resource::Memory, Resource::Image]);
    assert_eq!(SetupStep::CommandPool.release_on_failure(), vec![Resource::Memory, Resource::Image]);
    let all = vec![Resource::CommandPool, Resource::Memory, Resource::Image];
    assert_eq!(SetupStep::CommandBuffer.release_on_failure(), all);
    assert_eq!(SetupStep::Fence.release_on_failure(), all);
    assert_eq!(
        release_on_drop(),
        vec![Resource::Fence, Resource::CommandPool, Resource::Image, Resource::Memory]
    );
}

#[test]
fn failed_steps_are_named() {
    assert_eq!(SetupStep::Image.message("lost"), "RGB blit image creation: lost");
    assert_eq!(SetupStep::MemoryType.message("lost"), "No suitable memory type for RGB blit image");
    assert_eq!(SetupStep::Memory.message("lost"), "RGB blit memory allocation: lost");
    assert_eq!(SetupStep::Bind.message("lost"), "RGB blit memory bind: lost");
    assert_eq!(SetupStep::CommandPool.message("lost"), "RGB blit command pool: lost");
    assert_eq!(SetupStep::CommandBuffer.message("lost"), "RGB blit command buffer: lost");
    assert_eq!(SetupStep::Fence.message("lost"), "RGB blit fence: lost");
    assert_eq!(BlitStep::ResetCommandBuffer.message("x"), "RGB blit reset command buffer: x");
    assert_eq!(BlitStep::BeginCommandBuffer.message("x"), "RGB blit begin command buffer: x");
    assert_eq!(BlitStep::EndCommandBuffer.message("x"), "RGB blit end command buffer: x");
    assert_eq!(BlitStep::ResetFence.message("x"), "RGB blit reset fence: x");
    assert_eq!(BlitStep::Submit.message("x"), "RGB blit queue submit: x");
    assert_eq!(BlitStep::WaitFence.message("x"), "RGB blit wait fence: x");
}

#[test]
fn setup_steps_follow_each_other() {
    let mut steps = vec![SetupStep::Image];
    while let Some(next) = steps[steps.len() - 1].next() {
        steps.push(next);
    }
    assert_eq!(
        steps,
        vec![
            SetupStep::Image,
            SetupStep::MemoryType,
            SetupStep::Memory,
            SetupStep::Bind,
            SetupStep::CommandPool,
            SetupStep::CommandBuffer,
            SetupStep::Fence,
        ]
    );
}

#[test]
fn blit_steps_follow_each_other() {
    let mut blitter = RgbBlitter::new(44, 1920, 1080);
    let mut step = BlitStep::ResetCommandBuffer;
    let mut steps = vec![step];
    let mut recorded_after = vec![];
    loop {
        assert!(!blitter.initialized);
        match blitter.step_taken(step, Ok(())) {
            BlitProgress::Record(next) => {
                recorded_after.push(step);
                step = next;
            }
            BlitProgress::Next(next) => step = next,
            BlitProgress::Finished => break,
            BlitProgress::Failed(message) => panic!("{message}"),
        }
        steps.push(step);
    }
    assert_eq!(
        steps,
        vec![
            BlitStep::ResetCommandBuffer,
            BlitStep::BeginCommandBuffer,
            BlitStep::EndCommandBuffer,
            BlitStep::ResetFence,
            BlitStep::Submit,
            BlitStep::WaitFence,
        ]
    );
    assert_eq!(recorded_after, vec![BlitStep::BeginCommandBuffer]);
    assert!(blitter.initialized);
    assert_eq!(step.next(), None);
}

#[test]
fn failed_blit_does_not_count() {
    let mut step = Some(BlitStep::ResetCommandBuffer);
    while let Some(current) = step {
        let mut blitter = RgbBlitter::new(44, 1920, 1080);
        match blitter.step_taken(current, Err("lost".to_string())) {
            BlitProgress::Failed(message) => assert_eq!(message, current.message("lost")),
            other => panic!("{other:?}"),
        }
        assert!(!blitter.initialized);
        step = current.next();
    }
}

#[test]
fn image_is_plain_and_writable() {
    assert_eq!(
        RgbBlitter::new(44, 0, 1080).image_request(),
        ImageRequest {
            format: 44,
            width: 1,
            height: 1080,
            depth: 1,
            mip_levels: 1,
            array_layers: 1,
            samples: 1,
            optimal_tiling: true,
            exclusive: true,
            usage: ImageUsage { transfer_src: false, transfer_dst: true, sampled: true },
            initial_layout: ImageLayout::Undefined,
            device_local: true,
            memory_offset: 0,
        }
    );
}

#[test]
fn setup_goes_on_until_it_is_complete_or_fails() {
    assert!(matches!(
        SetupStep::Image.taken(Ok(())),
        SetupProgress::Next(SetupStep::MemoryType)
    ));
    assert!(matches!(SetupStep::Fence.taken(Ok(())), SetupProgress::Complete));
    match SetupStep::Bind.taken(Err("lost".to_string())) {
        SetupProgress::Failed { message, release } => {
            assert_eq!(message, "RGB blit memory bind: lost");
            assert_eq!(release, vec![Resource::Memory, Resource::Image]);
        }
        other => panic!("{other:?}"),
    }
    match SetupStep::MemoryType.taken(Err(String::new())) {
        SetupProgress::Failed { message, release } => {
            assert_eq!(message, "No suitable memory type for RGB blit image");
            assert!(release.is_empty());
        }
        other => panic!("{other:?}"),
    }
}
