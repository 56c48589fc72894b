use inputtino_rs::arena::NativeArena;
use inputtino_rs::common::ErrorSlot;
use inputtino_rs::common::InputtinoDeviceDefinition;
use inputtino_rs::device::register_fetch;
use inputtino_rs::device::NativeText;
use inputtino_rs::device::NodeFetch;
use inputtino_rs::keyboard::InputtinoKeyboard;
use inputtino_rs::keyboard::KeyboardCommand;
use inputtino_rs::keyboard::KeyboardOp;

#[test]
fn test_inputtino_keyboard() {
    let def = InputtinoDeviceDefinition::new(
        "Rusty Keyboard",
        0xAB,
        0xCD,
        0xEF,
        "Rusty Keyboard Phys",
        "Rusty Keyboard Uniq",
    )
    .unwrap();
    let mut arena = NativeArena::new();
    let keyboard = InputtinoKeyboard::new(def, 0x1000, ErrorSlot::empty(), &mut arena).unwrap();

    // A virtual keyboard is exposed through a single event node.
    let entries = vec![NativeText { addr: 0x2000, text: "/dev/input/event30".to_string() }];
    let fetch = NodeFetch { array_addr: 0x2100, entries };
    register_fetch(&fetch, &mut arena);
    let nodes = keyboard.get_nodes(Some(fetch), &mut arena).unwrap();
    assert_eq!(nodes.len(), 1);
    assert!(nodes[0].starts_with("/dev/input/event"));

    // The identity the device was created under is the one the description
    // carries.
    let d = keyboard.definition();
    assert_eq!(d.vendor_id(), 0xAB);
    assert_eq!(d.product_id(), 0xCD);
    assert_eq!(d.version(), 0xEF);
    assert_eq!(d.name_buffer().as_slice(), b"Rusty Keyboard\0");

    // Key press, then release, of KEY_A's code: passed through untouched
    // and marshalled to the right operation each time.
    let c = keyboard.press_key(0x41);
    assert_eq!(c, KeyboardCommand { target: 0x1000, op: KeyboardOp::PressKey { key: 0x41 } });
    let c = keyboard.release_key(0x41);
    assert_eq!(c, KeyboardCommand { target: 0x1000, op: KeyboardOp::ReleaseKey { key: 0x41 } });

    keyboard.destroy(&mut arena);
    assert_eq!(arena.live_count(), 0);
}

#[test]
fn test_keyboard_commands() {
    let def = InputtinoDeviceDefinition::new("kb", 1, 1, 1, "p", "u").unwrap();
    let mut arena = NativeArena::new();
    let keyboard = InputtinoKeyboard::new(def, 0x7000, ErrorSlot::empty(), &mut arena).unwrap();
    // Key codes are opaque, signed, and unvalidated here.
    let c = keyboard.press_key(-32768);
    assert_eq!(c, KeyboardCommand { target: 0x7000, op: KeyboardOp::PressKey { key: -32768 } });
    let c = keyboard.release_key(32767);
    assert_eq!(c, KeyboardCommand { target: 0x7000, op: KeyboardOp::ReleaseKey { key: 32767 } });
    keyboard.destroy(&mut arena);
}
