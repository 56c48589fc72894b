//! The virtual keyboard: creation, node enumeration, key presses and
//! releases, destruction.

use vstd::prelude::*;
use crate::arena::NativeArena;
use crate::common::DeviceError;
use crate::common::ErrorSlot;
use crate::common::InputtinoDeviceDefinition;
use crate::device::collect_nodes;
use crate::device::fetch_addr_seq;
use crate::device::fetch_texts;
use crate::device::fetch_wf;
use crate::device::texts_of;
use crate::device::DeviceResource;
use crate::device::NodeFetch;

verus! {

/// One control operation of a keyboard, carrying the opaque key code
/// exactly as the caller gave it.
#[derive(Clone, Copy, PartialEq, Eq, Structural, Debug)]
pub enum KeyboardOp {
    PressKey { key: i16 },
    ReleaseKey { key: i16 },
}

/// A fully marshalled control call: which native handle it is directed at,
/// and the operation.
#[derive(Clone, Copy, PartialEq, Eq, Structural, Debug)]
pub struct KeyboardCommand {
    pub target: usize,
    pub op: KeyboardOp,
}

/// A live virtual keyboard. Move-only: destruction consumes the value, so
/// no control or enumeration call can follow it.
pub struct InputtinoKeyboard {
    res: DeviceResource,
}

impl InputtinoKeyboard {
    /// The native handle's address.
    pub closed spec fn spec_addr(self) -> usize {
        self.res.spec_addr()
    }

    /// The description the handle keeps alive.
    pub closed spec fn spec_definition(self) -> InputtinoDeviceDefinition {
        self.res.spec_definition()
    }

    /// Completes a keyboard creation call from what the native side
    /// returned; same contract shape as `InputtinoMouse::new`.
    pub fn new(
        definition: InputtinoDeviceDefinition,
        raw_addr: usize,
        channel: ErrorSlot,
        arena: &mut NativeArena,
    ) -> (r: Result<InputtinoKeyboard, DeviceError>)
        requires
            old(arena).inv(),
            !old(arena).live_set().contains(raw_addr),
        ensures
            final(arena).inv(),
            match r {
                Ok(k) => {
                    &&& raw_addr != 0
                    &&& k.spec_addr() == raw_addr
                    &&& k.spec_definition() == definition
                    &&& final(arena).live_set() == old(arena).live_set().insert(raw_addr)
                },
                Err(e) => {
                    &&& raw_addr == 0
                    &&& *final(arena) == *old(arena)
                    &&& e matches DeviceError::CreationFailed(m) && m@ == channel.spec_text()
                },
            },
    {
        match DeviceResource::from_creation(definition, raw_addr, channel, arena) {
            Ok(res) => Ok(InputtinoKeyboard { res }),
            Err(e) => Err(e),
        }
    }

    /// Turns the outcome of the native node-enumeration call into the owned
    /// node list, releasing every allocation the fetch carried exactly
    /// once; a null array (`None`) yields `EnumerationFailed` and releases
    /// nothing.
    pub fn get_nodes(&self, fetch: Option<NodeFetch>, arena: &mut NativeArena) -> (r: Result<
        Vec<String>,
        DeviceError,
    >)
        requires
            old(arena).inv(),
            fetch matches Some(f) ==> fetch_wf(f) && fetch_addr_seq(f).to_set().subset_of(
                old(arena).live_set(),
            ),
        ensures
            final(arena).inv(),
            match fetch {
                None => r matches Err(e) && e == DeviceError::EnumerationFailed && *final(arena)
                    == *old(arena),
                Some(f) => r matches Ok(nodes) && texts_of(nodes@) == fetch_texts(f)
                    && final(arena).live_set() == old(arena).live_set().difference(
                    fetch_addr_seq(f).to_set(),
                ),
            },
    {
        collect_nodes(fetch, arena)
    }

    /// The native handle's address, for the shell's raw calls.
    pub fn addr(&self) -> (a: usize)
        ensures
            a == self.spec_addr(),
            a != 0,
    {
        self.res.addr()
    }

    /// The description backing this handle.
    pub fn definition(&self) -> (d: &InputtinoDeviceDefinition)
        ensures
            d == self.spec_definition(),
    {
        self.res.definition()
    }

    /// Marshals a key press; the key code is passed through untouched.
    pub fn press_key(&self, key: i16) -> (c: KeyboardCommand)
        ensures
            c == (KeyboardCommand { target: self.spec_addr(), op: KeyboardOp::PressKey { key } }),
    {
        KeyboardCommand { target: self.addr(), op: KeyboardOp::PressKey { key } }
    }

    /// Marshals a key release; the key code is passed through untouched.
    pub fn release_key(&self, key: i16) -> (c: KeyboardCommand)
        ensures
            c == (KeyboardCommand {
                target: self.spec_addr(),
                op: KeyboardOp::ReleaseKey { key },
            }),
    {
        KeyboardCommand { target: self.addr(), op: KeyboardOp::ReleaseKey { key } }
    }

    /// Consumes the handle and releases its allocation from the ledger,
    /// yielding the address for the one native destruction call.
    pub fn destroy(self, arena: &mut NativeArena) -> (addr: usize)
        requires
            old(arena).inv(),
            old(arena).live_set().contains(self.spec_addr()),
        ensures
            final(arena).inv(),
            addr == self.spec_addr(),
            final(arena).live_set() == old(arena).live_set().remove(addr),
    {
        self.res.destroy(arena)
    }
}

} // verus!
