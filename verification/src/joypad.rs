//! What the two gamepad variants share: the control surface, the rumble
//! bridge's installed-closure slot, and the lifecycle core.
//!
//! The rumble bridge delivers force-feedback notifications from the native
//! side to a host closure. The closure itself cannot cross into this crate,
//! so the shell keys each installed closure by a token and this module
//! keeps the slot of record: which token is installed, and to which token a
//! delivery is routed. Replacement goes through the slot, never a bare
//! overwrite of shared state, and the law below pins down that a replaced
//! token is never routed a later delivery.

use vstd::prelude::*;
use crate::arena::NativeArena;
use crate::common::DeviceError;
use crate::common::ErrorSlot;
use crate::common::InputtinoDeviceDefinition;
use crate::device::collect_nodes;
use crate::device::fetch_addr_seq;
use crate::device::fetch_texts;
use crate::device::fetch_wf;
use crate::device::texts_of;
use crate::device::DeviceResource;
use crate::device::NodeFetch;

verus! {

/// The two analog sticks of the native enumeration, carried by name. The
/// shell maps each variant to the native constant of the same name,
/// unchanged.
#[derive(Clone, Copy, PartialEq, Eq, Structural, Debug)]
pub enum StickPosition {
    RS,
    LS,
}

/// One control operation of a gamepad. Button masks, trigger values and
/// stick coordinates are passed through exactly as the caller gave them:
/// the bit meanings of `buttons` come from the native side's own
/// enumeration and are not reinterpreted here.
#[derive(Clone, Copy, PartialEq, Eq, Structural, Debug)]
pub enum JoypadOp {
    SetPressed { buttons: i32 },
    SetTriggers { left_trigger: i16, right_trigger: i16 },
    SetStick { stick_type: StickPosition, x: i16, y: i16 },
}

/// A fully marshalled control call: which native handle it is directed at,
/// and the operation.
#[derive(Clone, Copy, PartialEq, Eq, Structural, Debug)]
pub struct JoypadCommand {
    pub target: usize,
    pub op: JoypadOp,
}

/// The installed-closure slot of one gamepad's rumble bridge. `None` means
/// no closure was ever installed (deliveries go to the built-in no-op);
/// `Some(t)` means the closure the shell keys by `t` is the one every
/// later delivery is routed to.
#[derive(Clone, Copy, PartialEq, Eq, Debug)]
pub struct RumbleSlot {
    pub installed: Option<u64>,
}

/// Where one rumble delivery goes: the token of the closure to invoke (or
/// `None` for the no-op) and the two motor intensities, verbatim.
#[derive(Clone, Copy, PartialEq, Eq, Debug)]
pub struct RumbleDelivery {
    pub recipient: Option<u64>,
    pub left: i32,
    pub right: i32,
}

/// What the shell must do after an installation: (re)register the fixed
/// trampoline with the native side, carrying this handle's stable address
/// as the opaque context.
#[derive(Clone, Copy, PartialEq, Eq, Structural, Debug)]
pub struct RumbleRegistration {
    pub target: usize,
}

/// The slot after installing the closure keyed by `token`.
pub open spec fn install_transition(s: RumbleSlot, token: u64) -> RumbleSlot {
    RumbleSlot { installed: Some(token) }
}

/// The routing of a delivery of `(left, right)` against slot `s`.
pub open spec fn route_of(s: RumbleSlot, left: i32, right: i32) -> RumbleDelivery {
    RumbleDelivery { recipient: s.installed, left, right }
}

/// Law (replacement wins): whatever the slot held before, once a second
/// closure has been installed after a first, every later delivery is
/// routed to the second, and — when the tokens differ — never to the
/// first. `set_on_rumble` ensures exactly `install_transition`, and
/// `route_rumble` exactly `route_of`, so the chain below is the crate's
/// statement about two installations in succession.
pub proof fn lemma_replacement_wins(s: RumbleSlot, first: u64, second: u64, left: i32, right: i32)
    ensures
        route_of(install_transition(install_transition(s, first), second), left, right).recipient
            == Some(second),
        first != second ==> route_of(
            install_transition(install_transition(s, first), second),
            left,
            right,
        ).recipient != Some(first),
{
}

/// The lifecycle and control core shared by both gamepad variants.
pub struct JoypadCore {
    res: DeviceResource,
    rumble: RumbleSlot,
}

impl JoypadCore {
    /// The native handle's address.
    pub closed spec fn spec_addr(self) -> usize {
        self.res.spec_addr()
    }

    /// The description the handle keeps alive.
    pub closed spec fn spec_definition(self) -> InputtinoDeviceDefinition {
        self.res.spec_definition()
    }

    /// The rumble bridge's slot.
    pub closed spec fn spec_rumble(self) -> RumbleSlot {
        self.rumble
    }

    /// Completes a gamepad creation call from what the native side
    /// returned. A fresh handle starts with no closure installed.
    pub fn new(
        definition: InputtinoDeviceDefinition,
        raw_addr: usize,
        channel: ErrorSlot,
        arena: &mut NativeArena,
    ) -> (r: Result<JoypadCore, DeviceError>)
        requires
            old(arena).inv(),
            !old(arena).live_set().contains(raw_addr),
        ensures
            final(arena).inv(),
            match r {
                Ok(j) => {
                    &&& raw_addr != 0
                    &&& j.spec_addr() == raw_addr
                    &&& j.spec_definition() == definition
                    &&& j.spec_rumble() == (RumbleSlot { installed: None })
                    &&& final(arena).live_set() == old(arena).live_set().insert(raw_addr)
                },
                Err(e) => {
                    &&& raw_addr == 0
                    &&& *final(arena) == *old(arena)
                    &&& e matches DeviceError::CreationFailed(m) && m@ == channel.spec_text()
                },
            },
    {
        match DeviceResource::from_creation(definition, raw_addr, channel, arena) {
            Ok(res) => Ok(JoypadCore { res, rumble: RumbleSlot { installed: None } }),
            Err(e) => Err(e),
        }
    }

    /// Same contract as `collect_nodes`: drains the fetch all-or-nothing.
    pub fn get_nodes(&self, fetch: Option<NodeFetch>, arena: &mut NativeArena) -> (r: Result<
        Vec<String>,
        DeviceError,
    >)
        requires
            old(arena).inv(),
            fetch matches Some(f) ==> fetch_wf(f) && fetch_addr_seq(f).to_set().subset_of(
                old(arena).live_set(),
            ),
        ensures
            final(arena).inv(),
            match fetch {
                None => r matches Err(e) && e == DeviceError::EnumerationFailed && *final(arena)
                    == *old(arena),
                Some(f) => r matches Ok(nodes) && texts_of(nodes@) == fetch_texts(f)
                    && final(arena).live_set() == old(arena).live_set().difference(
                    fetch_addr_seq(f).to_set(),
                ),
            },
    {
        collect_nodes(fetch, arena)
    }

    /// The native handle's address, for the shell's raw calls.
    pub fn addr(&self) -> (a: usize)
        ensures
            a == self.spec_addr(),
            a != 0,
    {
        self.res.addr()
    }

    /// The description backing this handle.
    pub fn definition(&self) -> (d: &InputtinoDeviceDefinition)
        ensures
            d == self.spec_definition(),
    {
        self.res.definition()
    }

    /// Marshals a whole-pad button state from the given mask.
    pub fn set_pressed(&self, buttons: i32) -> (c: JoypadCommand)
        ensures
            c == (JoypadCommand { target: self.spec_addr(), op: JoypadOp::SetPressed { buttons } }),
    {
        JoypadCommand { target: self.addr(), op: JoypadOp::SetPressed { buttons } }
    }

    /// Marshals a trigger update.
    pub fn set_triggers(&self, left_trigger: i16, right_trigger: i16) -> (c: JoypadCommand)
        ensures
            c == (JoypadCommand {
                target: self.spec_addr(),
                op: JoypadOp::SetTriggers { left_trigger, right_trigger },
            }),
    {
        JoypadCommand {
            target: self.addr(),
            op: JoypadOp::SetTriggers { left_trigger, right_trigger },
        }
    }

    /// Marshals a stick position update.
    pub fn set_stick(&self, stick_type: StickPosition, x: i16, y: i16) -> (c: JoypadCommand)
        ensures
            c == (JoypadCommand {
                target: self.spec_addr(),
                op: JoypadOp::SetStick { stick_type, x, y },
            }),
    {
        JoypadCommand { target: self.addr(), op: JoypadOp::SetStick { stick_type, x, y } }
    }

    /// Installs the closure keyed by `token`, replacing whatever was
    /// installed before: later routing sees only the new token. Yields the
    /// trampoline registration the shell must perform against the native
    /// side.
    pub fn set_on_rumble(&mut self, token: u64) -> (r: RumbleRegistration)
        ensures
            final(self).spec_rumble() == install_transition(old(self).spec_rumble(), token),
            final(self).spec_addr() == old(self).spec_addr(),
            final(self).spec_definition() == old(self).spec_definition(),
            r == (RumbleRegistration { target: old(self).spec_addr() }),
    {
        let target = self.addr();
        self.rumble = RumbleSlot { installed: Some(token) };
        RumbleRegistration { target }
    }

    /// Routes one delivery: the currently installed token receives exactly
    /// the two motor intensities the native side reported. The shell's
    /// trampoline asks this before invoking any closure.
    pub fn route_rumble(&self, left: i32, right: i32) -> (d: RumbleDelivery)
        ensures
            d == route_of(self.spec_rumble(), left, right),
    {
        RumbleDelivery { recipient: self.rumble.installed, left, right }
    }

    /// Consumes the handle and releases its allocation from the ledger,
    /// yielding the address for the one native destruction call.
    pub fn destroy(self, arena: &mut NativeArena) -> (addr: usize)
        requires
            old(arena).inv(),
            old(arena).live_set().contains(self.spec_addr()),
        ensures
            final(arena).inv(),
            addr == self.spec_addr(),
            final(arena).live_set() == old(arena).live_set().remove(addr),
    {
        self.res.destroy(arena)
    }
}

} // verus!
