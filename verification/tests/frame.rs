use moonshine::frame::{BufferDescription, ExportedPlane, FrameColorSpace};

#[test]
fn exported_frame_describes_its_buffer() {
    let buffer = BufferDescription {
        fds: vec![11, 12],
        offsets: vec![0, 4096],
        strides: vec![256, 128],
        format: 875713112,
        modifier: 1,
        width: 64,
        height: 48,
    };
    let frame = buffer.export(2);
    assert_eq!(
        frame.planes,
        vec![
            ExportedPlane { fd: 11, offset: 0, stride: 256 },
            ExportedPlane { fd: 12, offset: 4096, stride: 128 },
        ]
    );
    assert_eq!((frame.format, frame.modifier), (875713112, 1));
    assert_eq!((frame.width, frame.height, frame.buffer_index), (64, 48, 2));
    assert_eq!(frame.color_space, FrameColorSpace::Srgb);
    assert!(!frame.hdr);
}

#[test]
fn planes_end_with_the_shortest_list() {
    let mut buffer = BufferDescription {
        fds: vec![11, 12, 13],
        offsets: vec![0, 4096],
        strides: vec![256],
        format: 0,
        modifier: 0,
        width: 0,
        height: 0,
    };
    assert_eq!(buffer.export(0).planes.len(), 1);
    buffer.strides = vec![1, 2, 3, 4];
    assert_eq!(buffer.export(0).planes.len(), 2);
    buffer.fds.clear();
    assert!(buffer.export(0).planes.is_empty());
}
