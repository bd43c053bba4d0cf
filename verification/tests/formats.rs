use moonshine::error::{
    unsupported_format_message, AllocationFailure, AllocationStep, CaptureError, FrameError, RequiredGlobal,
};
use moonshine::formats::{lone_character, buffer_params, join_modifier, split_modifier, ModifierTable, PlaneLayout, PlaneParams, INVALID_MODIFIER};
use moonshine::text::{decimal_text, join_text, same_text};

#[test]
fn modifier_halves_round_trip() {
    for modifier in [0, 1, 0x0123_4567_89ab_cdef, INVALID_MODIFIER, u64::MAX, 1 << 32, (1 << 32) - 1] {
        let (hi, lo) = split_modifier(modifier);
        assert_eq!(hi, (modifier >> 32) as u32);
        assert_eq!(lo, modifier as u32);
        assert_eq!(join_modifier(hi, lo), modifier);
    }
    assert_eq!(join_modifier(0x0100_0000, 2), 0x0100_0000_0000_0002);
}

#[test]
fn formats_without_modifiers_use_the_invalid_one() {
    let mut table = ModifierTable::new();
    assert_eq!(table.usable_modifiers(875713112), vec![72057594037927935]);
    table.add_format(875713112);
    assert_eq!(table.usable_modifiers(875713112), vec![72057594037927935]);
    table.add_format(875713112);
    assert_eq!(table.list(875713112), vec![72057594037927935, 72057594037927935]);
    assert!(table.list(7).is_empty());
}

#[test]
fn modifiers_are_kept_in_order_without_repeats() {
    let mut table = ModifierTable::new();
    table.add_modifier(1, 0, 5);
    table.add_modifier(1, 1, 0);
    table.add_modifier(1, 0, 5);
    table.add_modifier(2, 0, 9);
    assert_eq!(table.usable_modifiers(1), vec![5, 1 << 32]);
    assert_eq!(table.usable_modifiers(2), vec![9]);
    table.add_modifier(1, 0x00ff_ffff, 0xffff_ffff);
    table.add_format(1);
    assert_eq!(table.list(1), vec![5, 1 << 32, INVALID_MODIFIER, INVALID_MODIFIER]);
}

#[test]
fn planes_are_numbered_and_carry_the_modifier() {
    let planes = vec![
        PlaneLayout { offset: 0, stride: 256 },
        PlaneLayout { offset: 4096, stride: 128 },
    ];
    let params = buffer_params(&planes, 0x0000_0007_0000_0009, 875713112, 1920, 0xffff_ffff);
    assert_eq!(
        params.planes,
        vec![
            PlaneParams { plane_idx: 0, offset: 0, stride: 256, modifier_hi: 7, modifier_lo: 9 },
            PlaneParams { plane_idx: 1, offset: 4096, stride: 128, modifier_hi: 7, modifier_lo: 9 },
        ]
    );
    assert_eq!((params.width, params.height, params.format), (1920, -1, 875713112));
    assert!(buffer_params(&vec![], 0, 0, 0, 0).planes.is_empty());
}

#[test]
fn unknown_formats_are_described() {
    assert_eq!(
        FrameError::UnsupportedFormat(828601953).message(),
        "Unsupported screencopy DRM format: UnrecognizedFourcc(avc1, 828601953)"
    );
    assert_eq!(
        FrameError::UnsupportedFormat(0).message(),
        "Unsupported screencopy DRM format: UnrecognizedFourcc(0)"
    );
    assert_eq!(
        unsupported_format_message("odd".to_string()),
        "Unsupported screencopy DRM format: odd"
    );
}

#[test]
fn frame_errors_have_messages() {
    assert_eq!(
        FrameError::NoDmabufOffer.message(),
        "Compositor did not offer linux-dmabuf screencopy buffers"
    );
    assert_eq!(
        FrameError::PoolInUse.message(),
        "Cannot resize wlroots capture pool while encoder is reading old buffers"
    );
    assert_eq!(FrameError::DmabufManagerMissing.message(), "linux-dmabuf manager missing");
    let failure = AllocationFailure {
        step: AllocationStep::Allocate,
        index: 2,
        reason: "no memory".to_string(),
    };
    assert_eq!(
        FrameError::Allocation(failure.clone()).clone().message(),
        "Failed to allocate wlroots capture GBM buffer 2: no memory"
    );
    let failure = AllocationFailure { step: AllocationStep::Export, ..failure };
    assert_eq!(failure.message(), "Failed to export wlroots capture GBM buffer 2: no memory");
    assert_eq!(
        FrameError::InitialFrameFailed.message(),
        "Initial wlroots screencopy frame failed"
    );
}

#[test]
fn capture_errors_have_messages() {
    assert_eq!(
        CaptureError::MissingGlobals(vec![RequiredGlobal::ScreencopyManager, RequiredGlobal::Seat]).message(),
        "wlroots capture missing required Wayland globals: zwlr_screencopy_manager_v1 v3, wl_seat"
    );
    assert_eq!(
        CaptureError::MissingGlobals(vec![
            RequiredGlobal::LinuxDmabuf,
            RequiredGlobal::VirtualPointerManager,
            RequiredGlobal::VirtualKeyboardManager,
        ])
        .message(),
        "wlroots capture missing required Wayland globals: zwp_linux_dmabuf_v1, zwlr_virtual_pointer_manager_v1, zwp_virtual_keyboard_manager_v1"
    );
    assert_eq!(
        CaptureError::OutputNotFound {
            requested: "DP-9".to_string(),
            available: vec!["DP-1".to_string(), "#42".to_string()],
        }
        .message(),
        "Requested wlroots output 'DP-9' was not found. Available outputs: DP-1, #42"
    );
    assert_eq!(CaptureError::NoOutputs.message(), "No wl_output objects advertised by compositor");
    assert_eq!(CaptureError::RuntimeDirNotSet.message(), "XDG_RUNTIME_DIR is not set");
    assert_eq!(CaptureError::RuntimeDirNotAbsolute.message(), "XDG_RUNTIME_DIR is not absolute");
    assert_eq!(CaptureError::NoSeat.message(), "No wl_seat available");
    assert_eq!(CaptureError::NoSelectedOutput.message(), "No selected output available");
    assert_eq!(CaptureError::PointerManagerMissing.message(), "Virtual pointer manager missing");
    assert_eq!(CaptureError::KeyboardManagerMissing.message(), "Virtual keyboard manager missing");
    assert_eq!(CaptureError::ScreencopyManagerMissing.message(), "Screencopy manager missing");
    assert_eq!(CaptureError::SelectedOutputMissing.message(), "Selected output missing");
    assert_eq!(CaptureError::KeymapTooLarge.message(), "XKB keymap is too large");
}

#[test]
fn numbers_in_decimal() {
    for n in [0, 1, 9, 10, 11, 99, 100, 1_000_000, u32::MAX] {
        assert_eq!(decimal_text(n), n.to_string());
    }
}

#[test]
fn joined_texts() {
    let parts = vec!["a".to_string(), String::new(), "bc".to_string()];
    assert_eq!(join_text(&parts, ", "), "a, , bc");
    assert_eq!(join_text(&vec![], ", "), "");
    assert!(same_text("wl_seat", "wl_seat"));
    assert!(!same_text("wl_seat", "wl_seats"));
}

#[test]
fn unknown_formats_read_as_text_and_number() {
    let described = |bytes: [u8; 4]| FrameError::UnsupportedFormat(u32::from_le_bytes(bytes)).message();
    assert_eq!(
        described(*b"avc1"),
        "Unsupported screencopy DRM format: UnrecognizedFourcc(avc1, 828601953)"
    );
    assert_eq!(described([0; 4]), "Unsupported screencopy DRM format: UnrecognizedFourcc(0)");
    assert_eq!(
        described([b'v', b'c', 0, 0]),
        "Unsupported screencopy DRM format: UnrecognizedFourcc(vc  , 25462)"
    );
    assert_eq!(
        described([b'Z', b'9', 0xc3, 0xa9]),
        "Unsupported screencopy DRM format: UnrecognizedFourcc(Z9\u{e9}, 2848143706)"
    );
    assert_eq!(
        described([b'a', b'0', b'\n', b'"']),
        "Unsupported screencopy DRM format: UnrecognizedFourcc(a0\n\", 571093089)"
    );
    for bytes in [*b"a-c1", *b"-ac1", [b'a', b'b', 0xc1, 0x80], [b'a', b'b', 0x80, b'c'], [b'a', b'b', b'c', 0xff]] {
        let code = u32::from_le_bytes(bytes);
        assert_eq!(
            described(bytes),
            format!("Unsupported screencopy DRM format: UnrecognizedFourcc({code})")
        );
    }
}

#[test]
fn single_characters_cannot_be_described() {
    for code in [0xf4_u32, 0x8080_90f0, 0xbfbf_8ff4, 0x8080_80f0, 0x8080_90f4, 0x8080_80f5, 0x8080_c0f1, 0x7f80_80f1] {
        let bytes = code.to_le_bytes();
        let lone = std::str::from_utf8(&bytes).is_ok_and(|text| text.chars().count() == 1);
        assert_eq!(FrameError::UnsupportedFormat(code).is_describable(), !lone);
        assert_eq!(lone_character(code), lone);
    }
    assert!(lone_character(0x8080_90f0) && !lone_character(0x8080_80f0));
    assert!(FrameError::PoolInUse.is_describable());
}
