//! The Wayland globals that the capture binds.

use vstd::prelude::*;

use crate::error::RequiredGlobal;
use crate::text::same_text;

verus! {

/// A global to bind.
#[derive(Debug, Clone, Copy, PartialEq, Eq, Structural)]
pub enum GlobalKind {
    ScreencopyManager,
    LinuxDmabuf,
    VirtualPointerManager,
    VirtualKeyboardManager,
    Seat,
    Output,
}

/// A request to bind a global at a version.
#[derive(Debug, Clone, Copy, PartialEq, Eq, Structural)]
pub struct Binding {
    pub kind: GlobalKind,
    pub version: u32,
}

/// The globals that are bound, each with its version.
#[derive(Debug, Clone, Copy, PartialEq, Eq, Structural)]
pub struct Globals {
    pub screencopy_manager: Option<u32>,
    pub linux_dmabuf: Option<u32>,
    pub virtual_pointer_manager: Option<u32>,
    pub virtual_keyboard_manager: Option<u32>,
    pub seat: Option<u32>,
}

/// The smaller of two versions.
pub open spec fn at_most(version: u32, limit: u32) -> u32 {
    if version > limit { limit } else { version }
}

fn cap(version: u32, limit: u32) -> (r: u32)
    ensures
        r == at_most(version, limit),
{
    if version > limit { limit } else { version }
}

/// A list of one element, or of none.
pub open spec fn listed_if(condition: bool, global: RequiredGlobal) -> Seq<RequiredGlobal> {
    if condition { seq![global] } else { seq![] }
}

impl Globals {
    /// No global is bound.
    pub fn new() -> (globals: Globals)
        ensures
            globals == (Globals {
                screencopy_manager: None,
                linux_dmabuf: None,
                virtual_pointer_manager: None,
                virtual_keyboard_manager: None,
                seat: None,
            }),
    {
        Globals {
            screencopy_manager: None,
            linux_dmabuf: None,
            virtual_pointer_manager: None,
            virtual_keyboard_manager: None,
            seat: None,
        }
    }

    /// What to bind of an announced global: each at the newest version that is
    /// understood, screencopy from version 3 on, and the first seat only.
    pub open spec fn binding(self, interface: Seq<char>, version: u32) -> Option<Binding> {
        if interface == "zwlr_screencopy_manager_v1"@ {
            if version >= 3 {
                Some(Binding { kind: GlobalKind::ScreencopyManager, version: 3 })
            } else {
                None
            }
        } else if interface == "zwp_linux_dmabuf_v1"@ {
            Some(Binding { kind: GlobalKind::LinuxDmabuf, version: at_most(version, 3) })
        } else if interface == "zwlr_virtual_pointer_manager_v1"@ {
            Some(Binding { kind: GlobalKind::VirtualPointerManager, version: at_most(version, 2) })
        } else if interface == "zwp_virtual_keyboard_manager_v1"@ {
            Some(Binding { kind: GlobalKind::VirtualKeyboardManager, version: 1 })
        } else if interface == "wl_seat"@ {
            if self.seat is None {
                Some(Binding { kind: GlobalKind::Seat, version: at_most(version, 7) })
            } else {
                None
            }
        } else if interface == "wl_output"@ {
            Some(Binding { kind: GlobalKind::Output, version: at_most(version, 4) })
        } else {
            None
        }
    }

    /// The globals after one is bound. Outputs are kept elsewhere.
    pub open spec fn bound(self, binding: Binding) -> Globals {
        match binding.kind {
            GlobalKind::ScreencopyManager => Globals { screencopy_manager: Some(binding.version), ..self },
            GlobalKind::LinuxDmabuf => Globals { linux_dmabuf: Some(binding.version), ..self },
            GlobalKind::VirtualPointerManager => Globals {
                virtual_pointer_manager: Some(binding.version),
                ..self
            },
            GlobalKind::VirtualKeyboardManager => Globals {
                virtual_keyboard_manager: Some(binding.version),
                ..self
            },
            GlobalKind::Seat => Globals { seat: Some(binding.version), ..self },
            GlobalKind::Output => self,
        }
    }

    /// Decides what to bind of an announced global, and notes it.
    pub fn announce(&mut self, interface: &str, version: u32) -> (r: Option<Binding>)
        ensures
            r == old(self).binding(interface@, version),
            *final(self) == (match r {
                Some(binding) => old(self).bound(binding),
                None => *old(self),
            }),
    {
        if same_text(interface, "zwlr_screencopy_manager_v1") {
            if version >= 3 {
                self.screencopy_manager = Some(3);
                Some(Binding { kind: GlobalKind::ScreencopyManager, version: 3 })
            } else {
                None
            }
        } else if same_text(interface, "zwp_linux_dmabuf_v1") {
            let version: u32 = cap(version, 3);
            self.linux_dmabuf = Some(version);
            Some(Binding { kind: GlobalKind::LinuxDmabuf, version })
        } else if same_text(interface, "zwlr_virtual_pointer_manager_v1") {
            let version: u32 = cap(version, 2);
            self.virtual_pointer_manager = Some(version);
            Some(Binding { kind: GlobalKind::VirtualPointerManager, version })
        } else if same_text(interface, "zwp_virtual_keyboard_manager_v1") {
            self.virtual_keyboard_manager = Some(1);
            Some(Binding { kind: GlobalKind::VirtualKeyboardManager, version: 1 })
        } else if same_text(interface, "wl_seat") {
            if self.seat.is_none() {
                let version: u32 = cap(version, 7);
                self.seat = Some(version);
                Some(Binding { kind: GlobalKind::Seat, version })
            } else {
                None
            }
        } else if same_text(interface, "wl_output") {
            Some(Binding { kind: GlobalKind::Output, version: cap(version, 4) })
        } else {
            None
        }
    }

    /// The required globals that are not bound.
    pub open spec fn missing(self) -> Seq<RequiredGlobal> {
        listed_if(self.screencopy_manager is None, RequiredGlobal::ScreencopyManager) + listed_if(
            self.linux_dmabuf is None,
            RequiredGlobal::LinuxDmabuf,
        ) + listed_if(self.virtual_pointer_manager is None, RequiredGlobal::VirtualPointerManager) + listed_if(
            self.virtual_keyboard_manager is None,
            RequiredGlobal::VirtualKeyboardManager,
        ) + listed_if(self.seat is None, RequiredGlobal::Seat)
    }

    /// Every required global is bound.
    pub open spec fn complete(self) -> bool {
        &&& self.screencopy_manager is Some
        &&& self.linux_dmabuf is Some
        &&& self.virtual_pointer_manager is Some
        &&& self.virtual_keyboard_manager is Some
        &&& self.seat is Some
    }

    /// Lists the required globals that are not bound.
    pub fn missing_globals(&self) -> (list: Vec<RequiredGlobal>)
        ensures
            list@ == self.missing(),
            list@.len() == 0 <==> self.complete(),
    {
        let mut list: Vec<RequiredGlobal> = Vec::new();
        if self.screencopy_manager.is_none() {
            list.push(RequiredGlobal::ScreencopyManager);
        }
        if self.linux_dmabuf.is_none() {
            list.push(RequiredGlobal::LinuxDmabuf);
        }
        if self.virtual_pointer_manager.is_none() {
            list.push(RequiredGlobal::VirtualPointerManager);
        }
        if self.virtual_keyboard_manager.is_none() {
            list.push(RequiredGlobal::VirtualKeyboardManager);
        }
        if self.seat.is_none() {
            list.push(RequiredGlobal::Seat);
        }
        assert(list@ =~= self.missing());
        list
    }
}

/// No global but the virtual keyboard, which only has a version 1, is bound at a
/// version newer than announced. Screencopy is bound at version 3 exactly. A seat
/// that is bound stays.
pub proof fn law_bindings_do_not_exceed_announcements(globals: Globals, interface: Seq<char>, version: u32)
    ensures
        match globals.binding(interface, version) {
            Some(binding) => {
                &&& binding.kind != GlobalKind::VirtualKeyboardManager ==> binding.version <= version
                &&& binding.kind == GlobalKind::VirtualKeyboardManager ==> binding.version == 1
                &&& binding.kind == GlobalKind::ScreencopyManager ==> binding.version == 3
                &&& globals.seat is Some ==> globals.bound(binding).seat == globals.seat
            },
            None => true,
        },
{
}

/// Each interface that the capture speaks is bound as what it is, at the announced
/// version or, where that is newer, at the newest version that is understood. An
/// older screencopy and a second seat are not bound, nor is any other interface.
pub proof fn law_interfaces_are_bound_as_what_they_are(globals: Globals, interface: Seq<char>, version: u32)
    ensures
        ({
            let r = globals.binding(interface, version);
            let is = |kind: GlobalKind, newest: int|
                r is Some && r->0.kind == kind && r->0.version == (if version < newest { version as int } else { newest });
            &&& interface == "zwlr_screencopy_manager_v1"@ && version >= 3 ==> is(GlobalKind::ScreencopyManager, 3)
            &&& interface == "zwlr_screencopy_manager_v1"@ && version < 3 ==> r is None
            &&& interface == "zwp_linux_dmabuf_v1"@ ==> is(GlobalKind::LinuxDmabuf, 3)
            &&& interface == "zwlr_virtual_pointer_manager_v1"@ ==> is(GlobalKind::VirtualPointerManager, 2)
            &&& interface == "zwp_virtual_keyboard_manager_v1"@ ==> r is Some && r->0.kind
                == GlobalKind::VirtualKeyboardManager && r->0.version == 1
            &&& interface == "wl_seat"@ && globals.seat is None ==> is(GlobalKind::Seat, 7)
            &&& interface == "wl_seat"@ && globals.seat is Some ==> r is None
            &&& interface == "wl_output"@ ==> is(GlobalKind::Output, 4)
            &&& r is Some ==> interface == "zwlr_screencopy_manager_v1"@ || interface == "zwp_linux_dmabuf_v1"@
                || interface == "zwlr_virtual_pointer_manager_v1"@ || interface == "zwp_virtual_keyboard_manager_v1"@
                || interface == "wl_seat"@ || interface == "wl_output"@
        }),
{
    reveal_strlit("zwlr_screencopy_manager_v1");
    reveal_strlit("zwp_linux_dmabuf_v1");
    reveal_strlit("zwlr_virtual_pointer_manager_v1");
    reveal_strlit("zwp_virtual_keyboard_manager_v1");
    reveal_strlit("wl_seat");
    reveal_strlit("wl_output");
    let screencopy = "zwlr_screencopy_manager_v1"@;
    let dmabuf = "zwp_linux_dmabuf_v1"@;
    let pointer = "zwlr_virtual_pointer_manager_v1"@;
    let keyboard = "zwp_virtual_keyboard_manager_v1"@;
    let seat = "wl_seat"@;
    let output = "wl_output"@;
    assert(screencopy.len() == 26 && dmabuf.len() == 19 && seat.len() == 7 && output.len() == 9);
    assert(pointer.len() == 31 && keyboard.len() == 31);
    assert(pointer[2] == 'l' && keyboard[2] == 'p');
}

/// A bound global is remembered with its version, and no other changes.
pub proof fn law_bound_globals_are_remembered(globals: Globals, binding: Binding)
    ensures
        ({
            let after = globals.bound(binding);
            &&& after.screencopy_manager == (if binding.kind is ScreencopyManager {
                Some(binding.version)
            } else {
                globals.screencopy_manager
            })
            &&& after.linux_dmabuf == (if binding.kind is LinuxDmabuf {
                Some(binding.version)
            } else {
                globals.linux_dmabuf
            })
            &&& after.virtual_pointer_manager == (if binding.kind is VirtualPointerManager {
                Some(binding.version)
            } else {
                globals.virtual_pointer_manager
            })
            &&& after.virtual_keyboard_manager == (if binding.kind is VirtualKeyboardManager {
                Some(binding.version)
            } else {
                globals.virtual_keyboard_manager
            })
            &&& after.seat == (if binding.kind is Seat { Some(binding.version) } else { globals.seat })
        }),
{
}

/// A global is reported as missing exactly if it is not bound, and nothing is
/// reported twice.
pub proof fn law_missing_globals_are_those_not_bound(globals: Globals, i: int, j: int)
    ensures
        ({
            let missing = globals.missing();
            &&& missing.contains(RequiredGlobal::ScreencopyManager) <==> globals.screencopy_manager is None
            &&& missing.contains(RequiredGlobal::LinuxDmabuf) <==> globals.linux_dmabuf is None
            &&& missing.contains(RequiredGlobal::VirtualPointerManager) <==> globals.virtual_pointer_manager is None
            &&& missing.contains(RequiredGlobal::VirtualKeyboardManager) <==> globals.virtual_keyboard_manager is None
            &&& missing.contains(RequiredGlobal::Seat) <==> globals.seat is None
            &&& 0 <= i < j < missing.len() ==> missing[i] != missing[j]
            &&& globals.complete() <==> globals.screencopy_manager is Some && globals.linux_dmabuf is Some
                && globals.virtual_pointer_manager is Some && globals.virtual_keyboard_manager is Some
                && globals.seat is Some
        }),
{
    let a = listed_if(globals.screencopy_manager is None, RequiredGlobal::ScreencopyManager);
    let b = listed_if(globals.linux_dmabuf is None, RequiredGlobal::LinuxDmabuf);
    let c = listed_if(globals.virtual_pointer_manager is None, RequiredGlobal::VirtualPointerManager);
    let d = listed_if(globals.virtual_keyboard_manager is None, RequiredGlobal::VirtualKeyboardManager);
    let e = listed_if(globals.seat is None, RequiredGlobal::Seat);
    let missing = globals.missing();
    assert(globals.screencopy_manager is None ==> missing[0] == RequiredGlobal::ScreencopyManager);
    assert(globals.linux_dmabuf is None ==> missing[a.len() as int] == RequiredGlobal::LinuxDmabuf);
    assert(globals.virtual_pointer_manager is None ==> missing[(a + b).len() as int]
        == RequiredGlobal::VirtualPointerManager);
    assert(globals.virtual_keyboard_manager is None ==> missing[(a + b + c).len() as int]
        == RequiredGlobal::VirtualKeyboardManager);
    assert(globals.seat is None ==> missing[(a + b + c + d).len() as int] == RequiredGlobal::Seat);
}

} // verus!
