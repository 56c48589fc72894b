use inputtino_rs::arena::NativeArena;
use inputtino_rs::common::ErrorSlot;
use inputtino_rs::common::InputtinoDeviceDefinition;
use inputtino_rs::device::register_fetch;
use inputtino_rs::device::NativeText;
use inputtino_rs::device::NodeFetch;
use inputtino_rs::joypad::JoypadCommand;
use inputtino_rs::joypad::JoypadOp;
use inputtino_rs::joypad::RumbleRegistration;
use inputtino_rs::joypad::StickPosition;
use inputtino_rs::joypad_switch::InputtinoSwitchJoypad;
use inputtino_rs::joypad_xbox::InputtinoXOneJoypad;

fn fetch_of(paths: &[(usize, &str)], array_addr: usize) -> NodeFetch {
    let mut entries: Vec<NativeText> = Vec::new();
    for (addr, text) in paths {
        entries.push(NativeText { addr: *addr, text: (*text).to_string() });
    }
    NodeFetch { array_addr, entries }
}

#[test]
fn test_xbox_joypad() {
    let def = InputtinoDeviceDefinition::new(
        "Rusty XOne controller",
        0x045e,
        0x02dd,
        0x0100,
        "00:11:22:33:44",
        "00:11:22:33:44",
    )
    .unwrap();
    let mut arena = NativeArena::new();
    let mut joypad = InputtinoXOneJoypad::new(def, 0x1000, ErrorSlot::empty(), &mut arena).unwrap();

    // A gamepad is exposed through an event node followed by a
    // joystick-compatibility node, in that order.
    let fetch = fetch_of(&[(0x2000, "/dev/input/event40"), (0x2100, "/dev/input/js0")], 0x2200);
    register_fetch(&fetch, &mut arena);
    let nodes = joypad.get_nodes(Some(fetch), &mut arena).unwrap();
    assert_eq!(nodes.len(), 2);
    assert!(nodes[0].starts_with("/dev/input/event"));
    assert!(nodes[1].starts_with("/dev/input/js"));

    let c = joypad.set_pressed(1);
    assert_eq!(c, JoypadCommand { target: 0x1000, op: JoypadOp::SetPressed { buttons: 1 } });

    let c = joypad.set_triggers(0, 0);
    assert_eq!(
        c,
        JoypadCommand {
            target: 0x1000,
            op: JoypadOp::SetTriggers { left_trigger: 0, right_trigger: 0 },
        }
    );

    let c = joypad.set_stick(StickPosition::LS, 0, 0);
    assert_eq!(
        c,
        JoypadCommand {
            target: 0x1000,
            op: JoypadOp::SetStick { stick_type: StickPosition::LS, x: 0, y: 0 },
        }
    );
    let c = joypad.set_stick(StickPosition::RS, 0, 0);
    assert_eq!(
        c,
        JoypadCommand {
            target: 0x1000,
            op: JoypadOp::SetStick { stick_type: StickPosition::RS, x: 0, y: 0 },
        }
    );

    // Install a closure (keyed 1 by the shell), check a delivery reaches
    // it with the intensities verbatim, then replace it and check the
    // replacement — and only the replacement — is routed to.
    let reg = joypad.set_on_rumble(1);
    assert_eq!(reg, RumbleRegistration { target: 0x1000 });
    let d = joypad.route_rumble(100, 200);
    assert_eq!(d.recipient, Some(1));
    assert_eq!(d.left, 100);
    assert_eq!(d.right, 200);

    let reg = joypad.set_on_rumble(2);
    assert_eq!(reg, RumbleRegistration { target: 0x1000 });
    let d = joypad.route_rumble(0, 0);
    assert_eq!(d.recipient, Some(2));
    assert_ne!(d.recipient, Some(1));
    assert_eq!(d.left, 0);
    assert_eq!(d.right, 0);

    let addr: usize = joypad.destroy(&mut arena);
    assert_eq!(addr, 0x1000);
    assert_eq!(arena.live_count(), 0);
}

#[test]
fn test_switch_joypad() {
    let def = InputtinoDeviceDefinition::new(
        "Rusty Switch controller",
        0x057e,
        0x2009,
        0x0100,
        "00:11:22:33:44",
        "00:11:22:33:44",
    )
    .unwrap();
    let mut arena = NativeArena::new();
    let mut joypad =
        InputtinoSwitchJoypad::new(def, 0x6000, ErrorSlot::empty(), &mut arena).unwrap();

    let fetch = fetch_of(&[(0x6100, "/dev/input/event41"), (0x6200, "/dev/input/js1")], 0x6300);
    register_fetch(&fetch, &mut arena);
    let nodes = joypad.get_nodes(Some(fetch), &mut arena).unwrap();
    assert_eq!(nodes.len(), 2);
    assert!(nodes[0].starts_with("/dev/input/event"));
    assert!(nodes[1].starts_with("/dev/input/js"));

    let c = joypad.set_triggers(-4, 7);
    assert_eq!(
        c,
        JoypadCommand {
            target: 0x6000,
            op: JoypadOp::SetTriggers { left_trigger: -4, right_trigger: 7 },
        }
    );

    // Before any installation, deliveries are routed to the no-op.
    let d = joypad.route_rumble(3, 4);
    assert_eq!(d.recipient, None);
    joypad.set_on_rumble(9);
    let d = joypad.route_rumble(3, 4);
    assert_eq!(d.recipient, Some(9));

    joypad.destroy(&mut arena);
    assert_eq!(arena.live_count(), 0);
}

#[test]
fn test_rumble_replacement_never_routes_to_old() {
    let def = InputtinoDeviceDefinition::new("pad", 0, 0, 0, "p", "u").unwrap();
    let mut arena = NativeArena::new();
    let mut joypad = InputtinoXOneJoypad::new(def, 0x8000, ErrorSlot::empty(), &mut arena).unwrap();
    // Two installations in quick succession: once the second is in place,
    // every delivery names the second token and never the first again.
    joypad.set_on_rumble(10);
    joypad.set_on_rumble(11);
    for i in 0..5i32 {
        let d = joypad.route_rumble(i, -i);
        assert_eq!(d.recipient, Some(11));
        assert_ne!(d.recipient, Some(10));
        assert_eq!(d.left, i);
        assert_eq!(d.right, -i);
    }
    joypad.destroy(&mut arena);
}
