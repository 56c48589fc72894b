//! The switch-variant virtual gamepad, a distinct handle type over the
//! shared gamepad core so the two variants can never be mixed up.

use vstd::prelude::*;
use crate::arena::NativeArena;
use crate::common::DeviceError;
use crate::common::ErrorSlot;
use crate::common::InputtinoDeviceDefinition;
use crate::device::fetch_addr_seq;
use crate::device::fetch_texts;
use crate::device::fetch_wf;
use crate::device::texts_of;
use crate::device::NodeFetch;
use crate::joypad::install_transition;
use crate::joypad::route_of;
use crate::joypad::JoypadCommand;
use crate::joypad::JoypadCore;
use crate::joypad::RumbleDelivery;
use crate::joypad::RumbleRegistration;
use crate::joypad::RumbleSlot;
use crate::joypad::StickPosition;

verus! {

/// A live switch-variant virtual gamepad. Move-only: destruction consumes
/// the value, so no control or enumeration call can follow it.
pub struct InputtinoSwitchJoypad {
    core: JoypadCore,
}

impl InputtinoSwitchJoypad {
    /// The native handle's address.
    pub closed spec fn spec_addr(self) -> usize {
        self.core.spec_addr()
    }

    /// The description the handle keeps alive.
    pub closed spec fn spec_definition(self) -> InputtinoDeviceDefinition {
        self.core.spec_definition()
    }

    /// The rumble bridge's slot.
    pub closed spec fn spec_rumble(self) -> RumbleSlot {
        self.core.spec_rumble()
    }

    /// Completes a switch-pad creation call from what the native side
    /// returned; same contract shape as `InputtinoMouse::new`, and a fresh
    /// handle starts with no rumble closure installed.
    pub fn new(
        definition: InputtinoDeviceDefinition,
        raw_addr: usize,
        channel: ErrorSlot,
        arena: &mut NativeArena,
    ) -> (r: Result<InputtinoSwitchJoypad, DeviceError>)
        requires
            old(arena).inv(),
            !old(arena).live_set().contains(raw_addr),
        ensures
            final(arena).inv(),
            match r {
                Ok(j) => {
                    &&& raw_addr != 0
                    &&& j.spec_addr() == raw_addr
                    &&& j.spec_definition() == definition
                    &&& j.spec_rumble() == (RumbleSlot { installed: None })
                    &&& final(arena).live_set() == old(arena).live_set().insert(raw_addr)
                },
                Err(e) => {
                    &&& raw_addr == 0
                    &&& *final(arena) == *old(arena)
                    &&& e matches DeviceError::CreationFailed(m) && m@ == channel.spec_text()
                },
            },
    {
        match JoypadCore::new(definition, raw_addr, channel, arena) {
            Ok(core) => Ok(InputtinoSwitchJoypad { core }),
            Err(e) => Err(e),
        }
    }

    /// Turns the outcome of the native node-enumeration call into the owned
    /// node list, releasing every allocation the fetch carried exactly
    /// once; a null array (`None`) yields `EnumerationFailed` and releases
    /// nothing.
    pub fn get_nodes(&self, fetch: Option<NodeFetch>, arena: &mut NativeArena) -> (r: Result<
        Vec<String>,
        DeviceError,
    >)
        requires
            old(arena).inv(),
            fetch matches Some(f) ==> fetch_wf(f) && fetch_addr_seq(f).to_set().subset_of(
                old(arena).live_set(),
            ),
        ensures
            final(arena).inv(),
            match fetch {
                None => r matches Err(e) && e == DeviceError::EnumerationFailed && *final(arena)
                    == *old(arena),
                Some(f) => r matches Ok(nodes) && texts_of(nodes@) == fetch_texts(f)
                    && final(arena).live_set() == old(arena).live_set().difference(
                    fetch_addr_seq(f).to_set(),
                ),
            },
    {
        self.core.get_nodes(fetch, arena)
    }

    /// The native handle's address, for the shell's raw calls.
    pub fn addr(&self) -> (a: usize)
        ensures
            a == self.spec_addr(),
            a != 0,
    {
        self.core.addr()
    }

    /// The description backing this handle.
    pub fn definition(&self) -> (d: &InputtinoDeviceDefinition)
        ensures
            d == self.spec_definition(),
    {
        self.core.definition()
    }

    /// Marshals a whole-pad button state from the given mask, verbatim.
    pub fn set_pressed(&self, buttons: i32) -> (c: JoypadCommand)
        ensures
            c == (JoypadCommand { target: self.spec_addr(), op: crate::joypad::JoypadOp::SetPressed { buttons } }),
    {
        self.core.set_pressed(buttons)
    }

    /// Marshals a trigger update, verbatim.
    pub fn set_triggers(&self, left_trigger: i16, right_trigger: i16) -> (c: JoypadCommand)
        ensures
            c == (JoypadCommand {
                target: self.spec_addr(),
                op: crate::joypad::JoypadOp::SetTriggers { left_trigger, right_trigger },
            }),
    {
        self.core.set_triggers(left_trigger, right_trigger)
    }

    /// Marshals a stick position update, verbatim.
    pub fn set_stick(&self, stick_type: StickPosition, x: i16, y: i16) -> (c: JoypadCommand)
        ensures
            c == (JoypadCommand {
                target: self.spec_addr(),
                op: crate::joypad::JoypadOp::SetStick { stick_type, x, y },
            }),
    {
        self.core.set_stick(stick_type, x, y)
    }

    /// Installs the closure keyed by `token`, replacing whatever was
    /// installed before, and yields the trampoline registration the shell
    /// must perform.
    pub fn set_on_rumble(&mut self, token: u64) -> (r: RumbleRegistration)
        ensures
            final(self).spec_rumble() == install_transition(old(self).spec_rumble(), token),
            final(self).spec_addr() == old(self).spec_addr(),
            final(self).spec_definition() == old(self).spec_definition(),
            r == (RumbleRegistration { target: old(self).spec_addr() }),
    {
        self.core.set_on_rumble(token)
    }

    /// Routes one rumble delivery to the currently installed token,
    /// intensities verbatim.
    pub fn route_rumble(&self, left: i32, right: i32) -> (d: RumbleDelivery)
        ensures
            d == route_of(self.spec_rumble(), left, right),
    {
        self.core.route_rumble(left, right)
    }

    /// Consumes the handle and releases its allocation from the ledger,
    /// yielding the address for the one native destruction call.
    pub fn destroy(self, arena: &mut NativeArena) -> (addr: usize)
        requires
            old(arena).inv(),
            old(arena).live_set().contains(self.spec_addr()),
        ensures
            final(arena).inv(),
            addr == self.spec_addr(),
            final(arena).live_set() == old(arena).live_set().remove(addr),
    {
        self.core.destroy(arena)
    }
}

} // verus!
