use moonshine::error::{CaptureError, RequiredGlobal};
use moonshine::globals::{Binding, GlobalKind, Globals};
use moonshine::input::{
    modifiers_update, CompositorInputEvent, InputRequest, KeyboardModifiers, VirtualInput,
};
use moonshine::keymap::{keymap_names, keymap_payload, KeyboardConfig};
use moonshine::outputs::{select_output, update_output, OutputEvent, OutputInfo};
use moonshine::poll::{poll_outcome, PollOutcome};
use moonshine::socket::wayland_socket_path;

fn output(global_name: u32, name: Option<&str>, description: Option<&str>) -> OutputInfo {
    OutputInfo {
        global_name,
        name: name.map(str::to_string),
        description: description.map(str::to_string),
        width: 0,
        height: 0,
    }
}

#[test]
fn first_output_without_a_request() {
    let outputs = vec![output(3, Some("DP-1"), None), output(4, Some("DP-2"), None)];
    assert!(matches!(select_output(&outputs, &None), Ok(0)));
}

#[test]
fn output_by_name_then_by_description() {
    let outputs = vec![
        output(3, Some("DP-1"), Some("HDMI-A-1")),
        output(4, Some("DP-2"), Some("Desk")),
        output(5, Some("HDMI-A-1"), Some("Desk")),
    ];
    assert!(matches!(select_output(&outputs, &Some("HDMI-A-1".to_string())), Ok(2)));
    assert!(matches!(select_output(&outputs, &Some("Desk".to_string())), Ok(1)));
}

#[test]
fn unknown_output_lists_what_there_is() {
    let outputs = vec![
        output(3, Some("DP-1"), Some("Left")),
        output(4, None, Some("Right")),
        output(5, None, None),
    ];
    let error = select_output(&outputs, &Some("DP-9".to_string())).unwrap_err();
    assert_eq!(
        error.message(),
        "Requested wlroots output 'DP-9' was not found. Available outputs: DP-1, Right, #5"
    );
    assert!(matches!(select_output(&vec![], &None), Err(CaptureError::NoOutputs)));
    assert!(matches!(
        select_output(&vec![], &Some("DP-1".to_string())),
        Err(CaptureError::NoOutputs)
    ));
}

#[test]
fn events_reach_the_first_output_with_their_number() {
    let mut outputs = vec![OutputInfo::new(1), OutputInfo::new(2), OutputInfo::new(2)];
    update_output(&mut outputs, 2, OutputEvent::Mode { width: 800, height: -5 });
    update_output(&mut outputs, 2, OutputEvent::Name { name: "DP-1".to_string() });
    update_output(&mut outputs, 2, OutputEvent::Description { description: "Desk".to_string() });
    update_output(&mut outputs, 9, OutputEvent::Name { name: "gone".to_string() });
    assert_eq!((outputs[1].width, outputs[1].height), (800, 0));
    assert_eq!(outputs[1].name.as_deref(), Some("DP-1"));
    assert_eq!(outputs[1].description.as_deref(), Some("Desk"));
    assert_eq!(outputs[0].label(), "#1");
    assert_eq!(outputs[1].label(), "DP-1");
    assert_eq!(outputs[2].label(), "#2");
}

#[test]
fn globals_are_bound_at_versions_that_are_understood() {
    let mut globals = Globals::new();
    assert_eq!(globals.announce("zwlr_screencopy_manager_v1", 2), None);
    let bound = |kind, version| Some(Binding { kind, version });
    assert_eq!(
        globals.announce("zwlr_screencopy_manager_v1", 4),
        bound(GlobalKind::ScreencopyManager, 3)
    );
    assert_eq!(globals.announce("zwp_linux_dmabuf_v1", 5), bound(GlobalKind::LinuxDmabuf, 3));
    assert_eq!(globals.announce("zwp_linux_dmabuf_v1", 2), bound(GlobalKind::LinuxDmabuf, 2));
    assert_eq!(
        globals.announce("zwlr_virtual_pointer_manager_v1", 1),
        bound(GlobalKind::VirtualPointerManager, 1)
    );
    assert_eq!(
        globals.announce("zwlr_virtual_pointer_manager_v1", 3),
        bound(GlobalKind::VirtualPointerManager, 2)
    );
    assert_eq!(
        globals.announce("zwp_virtual_keyboard_manager_v1", 9),
        bound(GlobalKind::VirtualKeyboardManager, 1)
    );
    assert_eq!(globals.announce("wl_output", 9), bound(GlobalKind::Output, 4));
    assert_eq!(globals.announce("wl_compositor", 9), None);
    assert_eq!(globals.missing_globals(), vec![RequiredGlobal::Seat]);
    assert_eq!(globals.announce("wl_seat", 9), bound(GlobalKind::Seat, 7));
    assert_eq!(globals.announce("wl_seat", 9), None);
    assert!(globals.missing_globals().is_empty());
}

#[test]
fn all_missing_globals_are_listed_in_order() {
    assert_eq!(
        Globals::new().missing_globals(),
        vec![
            RequiredGlobal::ScreencopyManager,
            RequiredGlobal::LinuxDmabuf,
            RequiredGlobal::VirtualPointerManager,
            RequiredGlobal::VirtualKeyboardManager,
            RequiredGlobal::Seat,
        ]
    );
}

const ALL_DEVICES: VirtualInput = VirtualInput {
    pointer: true,
    keyboard: true,
    xkb_state: true,
};

#[test]
fn keys_carry_the_xkb_code() {
    assert_eq!(
        ALL_DEVICES.process_input(5, CompositorInputEvent::KeyDown { keycode: 30 }),
        Some(InputRequest::Key { time: 5, keycode: 30, pressed: true, xkb_keycode: Some(38) })
    );
    assert_eq!(
        ALL_DEVICES.process_input(6, CompositorInputEvent::KeyUp { keycode: 30 }),
        Some(InputRequest::Key { time: 6, keycode: 30, pressed: false, xkb_keycode: Some(38) })
    );
    let bare = VirtualInput { xkb_state: false, ..ALL_DEVICES };
    assert_eq!(
        bare.send_key(6, u32::MAX, true),
        Some(InputRequest::Key { time: 6, keycode: u32::MAX, pressed: true, xkb_keycode: None })
    );
}

#[test]
fn pointer_positions_stay_on_screen() {
    let moved = |x, y, screen_width, screen_height| {
        ALL_DEVICES.process_input(
            1,
            CompositorInputEvent::MouseMoveAbsolute { x, y, screen_width, screen_height },
        )
    };
    let at = |x, y, x_extent, y_extent| Some(InputRequest::MotionAbsolute { time: 1, x, y, x_extent, y_extent });
    assert_eq!(moved(100, 50, 1920, 1080), at(100, 50, 1920, 1080));
    assert_eq!(moved(-100, 5000, 1920, 1080), at(0, 1080, 1920, 1080));
    assert_eq!(moved(7, 7, 0, -3), at(1, 1, 1, 1));
    assert_eq!(moved(0, 0, 0, 0), at(0, 0, 1, 1));
}

#[test]
fn other_pointer_events() {
    let ask = |event| ALL_DEVICES.process_input(9, event);
    assert_eq!(
        ask(CompositorInputEvent::MouseMoveRelative { dx: 0, dy: -4 }),
        Some(InputRequest::Motion { time: 9, dx: 0, dy: -4 })
    );
    assert_eq!(
        ask(CompositorInputEvent::MouseButtonDown { button: 272 }),
        Some(InputRequest::Button { time: 9, button: 272, pressed: true })
    );
    assert_eq!(
        ask(CompositorInputEvent::MouseButtonUp { button: 272 }),
        Some(InputRequest::Button { time: 9, button: 272, pressed: false })
    );
    assert_eq!(
        ask(CompositorInputEvent::ScrollVertical { amount: 120 }),
        Some(InputRequest::VerticalScroll { time: 9, value: -120 })
    );
    assert_eq!(
        ask(CompositorInputEvent::ScrollVertical { amount: i32::MIN }),
        Some(InputRequest::VerticalScroll { time: 9, value: 2_147_483_648 })
    );
    assert_eq!(
        ask(CompositorInputEvent::ScrollHorizontal { amount: 120 }),
        Some(InputRequest::HorizontalScroll { time: 9, value: 120 })
    );
}

#[test]
fn events_without_a_device_are_dropped() {
    let none = VirtualInput { pointer: false, keyboard: false, xkb_state: true };
    assert_eq!(none.process_input(1, CompositorInputEvent::KeyDown { keycode: u32::MAX }), None);
    assert_eq!(none.process_input(1, CompositorInputEvent::MouseMoveRelative { dx: 1, dy: 1 }), None);
    assert_eq!(none.process_input(1, CompositorInputEvent::ScrollVertical { amount: 1 }), None);
}

#[test]
fn modifiers_are_reported_when_they_change() {
    let modifiers = KeyboardModifiers { depressed: 1, latched: 2, locked: 3, group: 4 };
    assert_eq!(modifiers_update(0, modifiers), None);
    assert_eq!(modifiers_update(8, modifiers), Some(modifiers));
}

#[test]
fn socket_of_an_absolute_display() {
    assert_eq!(wayland_socket_path(b"/run/wl", None).unwrap(), b"/run/wl");
    assert_eq!(wayland_socket_path(b"/run/wl", Some(b"relative")).unwrap(), b"/run/wl");
}

#[test]
fn socket_in_the_runtime_directory() {
    let agrees = |display: &str, directory: &str| {
        let joined = std::path::PathBuf::from(directory).join(display);
        let path = wayland_socket_path(display.as_bytes(), Some(directory.as_bytes())).unwrap();
        assert_eq!(path, joined.to_str().unwrap().as_bytes());
    };
    agrees("wayland-1", "/run/user/1000");
    agrees("wayland-1", "/run/user/1000/");
    agrees("wayland-1", "/");
    agrees("", "/run");
    agrees("a/b", "/run");
}

#[test]
fn socket_needs_an_absolute_runtime_directory() {
    assert!(matches!(
        wayland_socket_path(b"wayland-0", None),
        Err(CaptureError::RuntimeDirNotSet)
    ));
    assert!(matches!(
        wayland_socket_path(b"wayland-0", Some(b"run")),
        Err(CaptureError::RuntimeDirNotAbsolute)
    ));
    assert!(matches!(
        wayland_socket_path(b"wayland-0", Some(b"")),
        Err(CaptureError::RuntimeDirNotAbsolute)
    ));
}

#[test]
fn keymap_defaults() {
    let names = keymap_names(&KeyboardConfig {
        model: String::new(),
        layout: String::new(),
        variant: String::new(),
        options: None,
    });
    assert_eq!((names.model.as_str(), names.layout.as_str()), ("pc105", "us"));
    assert_eq!((names.rules.as_str(), names.variant.as_str(), names.options), ("", "", None));
    let names = keymap_names(&KeyboardConfig {
        model: "pc104".to_string(),
        layout: "de".to_string(),
        variant: "neo".to_string(),
        options: Some("compose:ralt".to_string()),
    });
    assert_eq!((names.model.as_str(), names.layout.as_str()), ("pc104", "de"));
    assert_eq!(names.variant, "neo");
    assert_eq!(names.options.as_deref(), Some("compose:ralt"));
}

#[test]
fn keymap_ends_with_zero() {
    let payload = keymap_payload(b"xkb".to_vec()).unwrap();
    assert_eq!(payload.bytes, b"xkb\0");
    assert_eq!(payload.size, 4);
    assert_eq!(keymap_payload(vec![]).unwrap().size, 1);
}

#[test]
fn poll_outcomes() {
    assert_eq!(poll_outcome(-1, 1), PollOutcome::Failed);
    assert_eq!(poll_outcome(0, 1), PollOutcome::Idle);
    assert_eq!(poll_outcome(1, 1), PollOutcome::Readable);
    assert_eq!(poll_outcome(1, 0x11), PollOutcome::Readable);
    assert_eq!(poll_outcome(1, 0x10), PollOutcome::Idle);
}

#[test]
fn key_codes_out_of_range_are_known() {
    let mut input = VirtualInput { pointer: true, keyboard: true, xkb_state: true };
    let last = u32::MAX - 8;
    assert!(input.can_process(CompositorInputEvent::KeyDown { keycode: last }));
    assert!(!input.can_process(CompositorInputEvent::KeyDown { keycode: last + 1 }));
    assert!(!input.can_process(CompositorInputEvent::KeyUp { keycode: u32::MAX }));
    assert!(input.can_process(CompositorInputEvent::MouseButtonDown { button: u32::MAX }));
    input.xkb_state = false;
    assert!(input.can_process(CompositorInputEvent::KeyUp { keycode: u32::MAX }));
}
