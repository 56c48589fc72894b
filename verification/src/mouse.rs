//! The virtual mouse: creation, node enumeration, control calls,
//! destruction.

use vstd::prelude::*;
use crate::arena::NativeArena;
use crate::common::DeviceError;
use crate::common::ErrorSlot;
use crate::common::InputtinoDeviceDefinition;
use crate::device::collect_nodes;
use crate::device::fetch_addr_seq;
use crate::device::fetch_texts;
use crate::device::fetch_wf;
use crate::device::texts_of;
use crate::device::DeviceResource;
use crate::device::NodeFetch;

verus! {

/// The mouse buttons of the native enumeration, carried by name. The shell
/// maps each variant to the native constant of the same name, unchanged.
#[derive(Clone, Copy, PartialEq, Eq, Structural, Debug)]
pub enum MouseButton {
    Left,
    Middle,
    Right,
    Side,
    Extra,
}

/// One control operation of a mouse, with its arguments exactly as the
/// caller gave them: no clamping, no rescaling — bounds are the native
/// side's business.
#[derive(Clone, Copy, PartialEq, Eq, Structural, Debug)]
pub enum MouseOp {
    MoveRel { x: i32, y: i32 },
    MoveAbs { x: i32, y: i32, screen_width: i32, screen_height: i32 },
    PressButton { button: MouseButton },
    ReleaseButton { button: MouseButton },
    ScrollVertical { amount: i32 },
    ScrollHorizontal { amount: i32 },
}

/// A fully marshalled control call: which native handle it is directed at,
/// and the operation. Control calls are fire-and-forget, so this is all the
/// shell needs to perform one.
#[derive(Clone, Copy, PartialEq, Eq, Structural, Debug)]
pub struct MouseCommand {
    pub target: usize,
    pub op: MouseOp,
}

/// A live virtual mouse. Move-only: destruction consumes the value, so no
/// control or enumeration call can follow it.
pub struct InputtinoMouse {
    res: DeviceResource,
}

impl InputtinoMouse {
    /// The native handle's address.
    pub closed spec fn spec_addr(self) -> usize {
        self.res.spec_addr()
    }

    /// The description the handle keeps alive.
    pub closed spec fn spec_definition(self) -> InputtinoDeviceDefinition {
        self.res.spec_definition()
    }

    /// Completes a mouse creation call from what the native side returned:
    /// the address (`0` for the null sentinel) and the error channel's
    /// slot. On the null sentinel the result is `CreationFailed` with the
    /// channel's message and nothing is retained; otherwise the handle is
    /// live, owns `definition`, and its allocation is in the ledger.
    pub fn new(
        definition: InputtinoDeviceDefinition,
        raw_addr: usize,
        channel: ErrorSlot,
        arena: &mut NativeArena,
    ) -> (r: Result<InputtinoMouse, DeviceError>)
        requires
            old(arena).inv(),
            !old(arena).live_set().contains(raw_addr),
        ensures
            final(arena).inv(),
            match r {
                Ok(m) => {
                    &&& raw_addr != 0
                    &&& m.spec_addr() == raw_addr
                    &&& m.spec_definition() == definition
                    &&& final(arena).live_set() == old(arena).live_set().insert(raw_addr)
                },
                Err(e) => {
                    &&& raw_addr == 0
                    &&& *final(arena) == *old(arena)
                    &&& e matches DeviceError::CreationFailed(m) && m@ == channel.spec_text()
                },
            },
    {
        match DeviceResource::from_creation(definition, raw_addr, channel, arena) {
            Ok(res) => Ok(InputtinoMouse { res }),
            Err(e) => Err(e),
        }
    }

    /// Turns the outcome of the native node-enumeration call into the owned
    /// node list, releasing every allocation the fetch carried exactly
    /// once; a null array (`None`) yields `EnumerationFailed` and releases
    /// nothing.
    pub fn get_nodes(&self, fetch: Option<NodeFetch>, arena: &mut NativeArena) -> (r: Result<
        Vec<String>,
        DeviceError,
    >)
        requires
            old(arena).inv(),
            fetch matches Some(f) ==> fetch_wf(f) && fetch_addr_seq(f).to_set().subset_of(
                old(arena).live_set(),
            ),
        ensures
            final(arena).inv(),
            match fetch {
                None => r matches Err(e) && e == DeviceError::EnumerationFailed && *final(arena)
                    == *old(arena),
                Some(f) => r matches Ok(nodes) && texts_of(nodes@) == fetch_texts(f)
                    && final(arena).live_set() == old(arena).live_set().difference(
                    fetch_addr_seq(f).to_set(),
                ),
            },
    {
        collect_nodes(fetch, arena)
    }

    /// The native handle's address, for the shell's raw calls.
    pub fn addr(&self) -> (a: usize)
        ensures
            a == self.spec_addr(),
            a != 0,
    {
        self.res.addr()
    }

    /// The description backing this handle.
    pub fn definition(&self) -> (d: &InputtinoDeviceDefinition)
        ensures
            d == self.spec_definition(),
    {
        self.res.definition()
    }

    /// Marshals a relative motion by `(x, y)`.
    pub fn move_rel(&self, x: i32, y: i32) -> (c: MouseCommand)
        ensures
            c == (MouseCommand { target: self.spec_addr(), op: MouseOp::MoveRel { x, y } }),
    {
        MouseCommand { target: self.addr(), op: MouseOp::MoveRel { x, y } }
    }

    /// Marshals an absolute motion to `(x, y)` within the given screen
    /// bounds.
    pub fn move_abs(&self, x: i32, y: i32, screen_width: i32, screen_height: i32) -> (c:
        MouseCommand)
        ensures
            c == (MouseCommand {
                target: self.spec_addr(),
                op: MouseOp::MoveAbs { x, y, screen_width, screen_height },
            }),
    {
        MouseCommand {
            target: self.addr(),
            op: MouseOp::MoveAbs { x, y, screen_width, screen_height },
        }
    }

    /// Marshals a button press.
    pub fn press_button(&self, button: MouseButton) -> (c: MouseCommand)
        ensures
            c == (MouseCommand { target: self.spec_addr(), op: MouseOp::PressButton { button } }),
    {
        MouseCommand { target: self.addr(), op: MouseOp::PressButton { button } }
    }

    /// Marshals a button release.
    pub fn release_button(&self, button: MouseButton) -> (c: MouseCommand)
        ensures
            c == (MouseCommand {
                target: self.spec_addr(),
                op: MouseOp::ReleaseButton { button },
            }),
    {
        MouseCommand { target: self.addr(), op: MouseOp::ReleaseButton { button } }
    }

    /// Marshals a vertical scroll.
    pub fn scroll_vertical(&self, amount: i32) -> (c: MouseCommand)
        ensures
            c == (MouseCommand {
                target: self.spec_addr(),
                op: MouseOp::ScrollVertical { amount },
            }),
    {
        MouseCommand { target: self.addr(), op: MouseOp::ScrollVertical { amount } }
    }

    /// Marshals a horizontal scroll.
    pub fn scroll_horizontal(&self, amount: i32) -> (c: MouseCommand)
        ensures
            c == (MouseCommand {
                target: self.spec_addr(),
                op: MouseOp::ScrollHorizontal { amount },
            }),
    {
        MouseCommand { target: self.addr(), op: MouseOp::ScrollHorizontal { amount } }
    }

    /// Consumes the handle and releases its allocation from the ledger,
    /// yielding the address for the one native destruction call.
    pub fn destroy(self, arena: &mut NativeArena) -> (addr: usize)
        requires
            old(arena).inv(),
            old(arena).live_set().contains(self.spec_addr()),
        ensures
            final(arena).inv(),
            addr == self.spec_addr(),
            final(arena).live_set() == old(arena).live_set().remove(addr),
    {
        self.res.destroy(arena)
    }
}

} // verus!
