//! Input events of the client, as requests to the virtual devices.

use vstd::prelude::*;

verus! {

/// An input event of the client.
#[derive(Debug, Clone, Copy, PartialEq, Eq, Structural)]
pub enum CompositorInputEvent {
    KeyDown { keycode: u32 },
    KeyUp { keycode: u32 },
    MouseMoveAbsolute { x: i32, y: i32, screen_width: i32, screen_height: i32 },
    MouseMoveRelative { dx: i32, dy: i32 },
    MouseButtonDown { button: u32 },
    MouseButtonUp { button: u32 },
    ScrollVertical { amount: i32 },
    ScrollHorizontal { amount: i32 },
}

/// A request to one of the virtual devices. Those to the pointer are each
/// followed by the end of a pointer frame.
#[derive(Debug, Clone, Copy, PartialEq, Eq, Structural)]
pub enum InputRequest {
    /// Report a key. `xkb_keycode` is the key to feed to the keyboard state, if
    /// there is one.
    Key { time: u32, keycode: u32, pressed: bool, xkb_keycode: Option<u32> },
    /// Move the pointer to `x` of `x_extent`, `y` of `y_extent`.
    MotionAbsolute { time: u32, x: u32, y: u32, x_extent: u32, y_extent: u32 },
    /// Move the pointer by a distance.
    Motion { time: u32, dx: i32, dy: i32 },
    /// Report a pointer button.
    Button { time: u32, button: u32, pressed: bool },
    /// Scroll up or down; positive is down.
    VerticalScroll { time: u32, value: i64 },
    /// Scroll left or right; positive is right.
    HorizontalScroll { time: u32, value: i64 },
}

/// Modifier keys and layout of a keyboard.
#[derive(Debug, Clone, Copy, PartialEq, Eq, Structural)]
pub struct KeyboardModifiers {
    pub depressed: u32,
    pub latched: u32,
    pub locked: u32,
    pub group: u32,
}

/// Distance between evdev key codes and those of XKB.
pub const XKB_KEYCODE_OFFSET: u32 = 8;

/// The virtual devices that exist.
#[derive(Debug, Clone, Copy, PartialEq, Eq, Structural)]
pub struct VirtualInput {
    pub pointer: bool,
    pub keyboard: bool,
    pub xkb_state: bool,
}

/// The extent of a screen side: at least one.
pub open spec fn extent(side: i32) -> int {
    if side < 1 { 1 } else { side as int }
}

/// A coordinate kept on the screen: from zero to the extent.
pub open spec fn on_screen(position: i32, side: i32) -> int {
    if position < 0 {
        0
    } else if position > extent(side) {
        extent(side)
    } else {
        position as int
    }
}

fn screen_extent(side: i32) -> (r: u32)
    ensures
        r == extent(side),
{
    if side < 1 { 1 } else { side as u32 }
}

fn screen_position(position: i32, side: i32) -> (r: u32)
    ensures
        r == on_screen(position, side),
{
    let limit: u32 = screen_extent(side);
    if position < 0 {
        0
    } else if position as u32 > limit {
        limit
    } else {
        position as u32
    }
}

impl VirtualInput {
    /// A key code that the keyboard state can take, if it is asked to.
    pub open spec fn accepts_key(self, keycode: u32) -> bool {
        self.keyboard && self.xkb_state ==> keycode <= u32::MAX - XKB_KEYCODE_OFFSET
    }

    /// The keys of an event, if it has any, can be fed to the keyboard state.
    pub open spec fn accepts(self, event: CompositorInputEvent) -> bool {
        match event {
            CompositorInputEvent::KeyDown { keycode } => self.accepts_key(keycode),
            CompositorInputEvent::KeyUp { keycode } => self.accepts_key(keycode),
            _ => true,
        }
    }

    fn can_send_key(&self, keycode: u32) -> (r: bool)
        ensures
            r == self.accepts_key(keycode),
    {
        !self.keyboard || !self.xkb_state || keycode <= u32::MAX - XKB_KEYCODE_OFFSET
    }

    /// Whether the keys of an event can be fed to the keyboard state.
    pub fn can_process(&self, event: CompositorInputEvent) -> (r: bool)
        ensures
            r == self.accepts(event),
    {
        match event {
            CompositorInputEvent::KeyDown { keycode } => self.can_send_key(keycode),
            CompositorInputEvent::KeyUp { keycode } => self.can_send_key(keycode),
            _ => true,
        }
    }

    /// The request for a key.
    pub open spec fn key_request(self, time: u32, keycode: u32, pressed: bool) -> Option<InputRequest> {
        if self.keyboard {
            Some(
                InputRequest::Key {
                    time,
                    keycode,
                    pressed,
                    xkb_keycode: if self.xkb_state {
                        Some((keycode + XKB_KEYCODE_OFFSET) as u32)
                    } else {
                        None
                    },
                },
            )
        } else {
            None
        }
    }

    /// The request for an event.
    pub open spec fn request(self, time: u32, event: CompositorInputEvent) -> Option<InputRequest> {
        match event {
            CompositorInputEvent::KeyDown { keycode } => self.key_request(time, keycode, true),
            CompositorInputEvent::KeyUp { keycode } => self.key_request(time, keycode, false),
            _ => {
                if self.pointer {
                    pointer_request(time, event)
                } else {
                    None
                }
            },
        }
    }

    /// Reports a key, if there is a keyboard.
    pub fn send_key(&self, time: u32, keycode: u32, pressed: bool) -> (r: Option<InputRequest>)
        requires
            self.accepts_key(keycode),
        ensures
            r == self.key_request(time, keycode, pressed),
    {
        if !self.keyboard {
            return None;
        }
        let xkb_keycode: Option<u32> = if self.xkb_state {
            Some(keycode + XKB_KEYCODE_OFFSET)
        } else {
            None
        };
        Some(InputRequest::Key { time, keycode, pressed, xkb_keycode })
    }

    /// What to ask of the virtual devices for an event of the client. Without
    /// the device the event is dropped.
    pub fn process_input(&self, time: u32, event: CompositorInputEvent) -> (r: Option<InputRequest>)
        requires
            self.accepts(event),
        ensures
            r == self.request(time, event),
    {
        match event {
            CompositorInputEvent::KeyDown { keycode } => self.send_key(time, keycode, true),
            CompositorInputEvent::KeyUp { keycode } => self.send_key(time, keycode, false),
            CompositorInputEvent::MouseMoveAbsolute { x, y, screen_width, screen_height } => {
                if !self.pointer {
                    return None;
                }
                Some(
                    InputRequest::MotionAbsolute {
                        time,
                        x: screen_position(x, screen_width),
                        y: screen_position(y, screen_height),
                        x_extent: screen_extent(screen_width),
                        y_extent: screen_extent(screen_height),
                    },
                )
            },
            CompositorInputEvent::MouseMoveRelative { dx, dy } => {
                if !self.pointer {
                    return None;
                }
                Some(InputRequest::Motion { time, dx, dy })
            },
            CompositorInputEvent::MouseButtonDown { button } => {
                if !self.pointer {
                    return None;
                }
                Some(InputRequest::Button { time, button, pressed: true })
            },
            CompositorInputEvent::MouseButtonUp { button } => {
                if !self.pointer {
                    return None;
                }
                Some(InputRequest::Button { time, button, pressed: false })
            },
            CompositorInputEvent::ScrollVertical { amount } => {
                if !self.pointer {
                    return None;
                }
                Some(InputRequest::VerticalScroll { time, value: -(amount as i64) })
            },
            CompositorInputEvent::ScrollHorizontal { amount } => {
                if !self.pointer {
                    return None;
                }
                Some(InputRequest::HorizontalScroll { time, value: amount as i64 })
            },
        }
    }
}

/// The request for an event of the mouse.
pub open spec fn pointer_request(time: u32, event: CompositorInputEvent) -> Option<InputRequest> {
    match event {
        CompositorInputEvent::MouseMoveAbsolute { x, y, screen_width, screen_height } => Some(
            InputRequest::MotionAbsolute {
                time,
                x: on_screen(x, screen_width) as u32,
                y: on_screen(y, screen_height) as u32,
                x_extent: extent(screen_width) as u32,
                y_extent: extent(screen_height) as u32,
            },
        ),
        CompositorInputEvent::MouseMoveRelative { dx, dy } => Some(InputRequest::Motion { time, dx, dy }),
        CompositorInputEvent::MouseButtonDown { button } => Some(
            InputRequest::Button { time, button, pressed: true },
        ),
        CompositorInputEvent::MouseButtonUp { button } => Some(
            InputRequest::Button { time, button, pressed: false },
        ),
        CompositorInputEvent::ScrollVertical { amount } => Some(
            InputRequest::VerticalScroll { time, value: (-amount) as i64 },
        ),
        CompositorInputEvent::ScrollHorizontal { amount } => Some(
            InputRequest::HorizontalScroll { time, value: amount as i64 },
        ),
        CompositorInputEvent::KeyDown { .. } => None,
        CompositorInputEvent::KeyUp { .. } => None,
    }
}

/// The modifiers to report when the keyboard state names the components that
/// changed.
pub open spec fn reported(changed: u32, modifiers: KeyboardModifiers) -> Option<KeyboardModifiers> {
    if changed != 0 { Some(modifiers) } else { None }
}

/// The modifiers to report after a key, if the keyboard state says that any of
/// its components changed.
pub fn modifiers_update(changed: u32, modifiers: KeyboardModifiers) -> (r: Option<KeyboardModifiers>)
    ensures
        r == reported(changed, modifiers),
{
    if changed != 0 {
        Some(modifiers)
    } else {
        None
    }
}

/// The pointer never leaves the screen, and the screen is never empty.
pub proof fn law_pointer_stays_on_screen(position: i32, side: i32)
    ensures
        extent(side) >= 1,
        0 <= on_screen(position, side) <= extent(side),
        0 <= position <= side ==> on_screen(position, side) == position,
{
}

/// Input arrives as the client sent it. A relative move, a button and a scroll
/// amount can be read back from the request, vertical scrolling with its sign
/// turned; an absolute move keeps a position on the screen, and takes one beside
/// it to the nearest edge. Without a pointer nothing is asked of it.
pub proof fn law_mouse_input_can_be_read_back(input: VirtualInput, time: u32, event: CompositorInputEvent)
    ensures
        ({
            let request = input.request(time, event);
            match event {
                CompositorInputEvent::MouseMoveRelative { dx, dy } => if input.pointer {
                    request matches Some(InputRequest::Motion { time: t, dx: a, dy: b }) && t == time && a == dx && b
                        == dy
                } else {
                    request is None
                },
                CompositorInputEvent::MouseMoveAbsolute { x, y, screen_width, screen_height } => if input.pointer {
                    &&& request matches Some(InputRequest::MotionAbsolute { time: t, x: a, y: b, x_extent, y_extent })
                    &&& t == time
                    &&& screen_width >= 1 ==> x_extent == screen_width
                    &&& screen_width < 1 ==> x_extent == 1
                    &&& screen_height >= 1 ==> y_extent == screen_height
                    &&& screen_height < 1 ==> y_extent == 1
                    &&& x <= 0 ==> a == 0
                    &&& 0 <= x <= x_extent ==> a == x
                    &&& x >= x_extent ==> a == x_extent
                    &&& y <= 0 ==> b == 0
                    &&& 0 <= y <= y_extent ==> b == y
                    &&& y >= y_extent ==> b == y_extent
                } else {
                    request is None
                },
                CompositorInputEvent::MouseButtonDown { button } => if input.pointer {
                    request matches Some(InputRequest::Button { time: t, button: a, pressed }) && t == time && a
                        == button && pressed
                } else {
                    request is None
                },
                CompositorInputEvent::MouseButtonUp { button } => if input.pointer {
                    request matches Some(InputRequest::Button { time: t, button: a, pressed }) && t == time && a
                        == button && !pressed
                } else {
                    request is None
                },
                CompositorInputEvent::ScrollVertical { amount } => if input.pointer {
                    request matches Some(InputRequest::VerticalScroll { time: t, value }) && t == time && value
                        + amount == 0
                } else {
                    request is None
                },
                CompositorInputEvent::ScrollHorizontal { amount } => if input.pointer {
                    request matches Some(InputRequest::HorizontalScroll { time: t, value }) && t == time && value
                        == amount
                } else {
                    request is None
                },
                _ => true,
            }
        }),
{
}

/// A key arrives as the client sent it, pressed or released, and the keyboard
/// state, where there is one, gets the code eight above. Without a keyboard
/// nothing is asked of it.
pub proof fn law_keys_can_be_read_back(input: VirtualInput, time: u32, keycode: u32)
    requires
        keycode + 8 <= u32::MAX,
    ensures
        ({
            let down = input.request(time, CompositorInputEvent::KeyDown { keycode });
            let up = input.request(time, CompositorInputEvent::KeyUp { keycode });
            if input.keyboard {
                &&& down matches Some(InputRequest::Key { time: t, keycode: a, pressed, xkb_keycode })
                &&& t == time && a == keycode && pressed
                &&& input.xkb_state ==> xkb_keycode is Some && xkb_keycode->0 == keycode + 8
                &&& !input.xkb_state ==> xkb_keycode is None
                &&& up matches Some(InputRequest::Key { time: u, keycode: b, pressed: held, xkb_keycode: fed })
                &&& u == time && b == keycode && !held
                &&& fed == xkb_keycode
            } else {
                down is None && up is None
            }
        }),
{
}

/// Different events never ask for the same thing, but for absolute moves that
/// leave the screen.
pub proof fn law_different_input_differs(
    input: VirtualInput,
    time: u32,
    one: CompositorInputEvent,
    other: CompositorInputEvent,
)
    requires
        input.pointer,
        input.keyboard,
        one != other,
        !(one is MouseMoveAbsolute) || !(other is MouseMoveAbsolute),
    ensures
        input.request(time, one) != input.request(time, other),
{
}

/// Every event can be passed on, but for a key whose code, eight added, does not
/// fit 32 bits, where there is a keyboard state to feed it to.
pub proof fn law_only_overlong_keys_are_refused(input: VirtualInput, event: CompositorInputEvent, keycode: u32)
    ensures
        event == (CompositorInputEvent::KeyDown { keycode }) || event == (CompositorInputEvent::KeyUp { keycode }) ==> (
        input.accepts(event) <==> (keycode + 8 < 0x1_0000_0000 || !input.keyboard || !input.xkb_state)),
        !(event is KeyDown) && !(event is KeyUp) ==> input.accepts(event),
{
}

/// A change of the keyboard state is reported in full, and only a change is.
pub proof fn law_modifiers_are_reported_in_full(changed: u32, modifiers: KeyboardModifiers)
    ensures
        reported(changed, modifiers) is Some <==> changed > 0,
        reported(changed, modifiers) matches Some(told) ==> told.depressed == modifiers.depressed && told.latched
            == modifiers.latched && told.locked == modifiers.locked && told.group == modifiers.group,
{
}

} // verus!
