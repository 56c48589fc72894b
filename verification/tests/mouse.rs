use inputtino_rs::arena::NativeArena;
use inputtino_rs::common::DeviceError;
use inputtino_rs::common::ErrorSlot;
use inputtino_rs::common::InputtinoDeviceDefinition;
use inputtino_rs::device::register_fetch;
use inputtino_rs::device::NativeText;
use inputtino_rs::device::NodeFetch;
use inputtino_rs::mouse::InputtinoMouse;
use inputtino_rs::mouse::MouseButton;
use inputtino_rs::mouse::MouseCommand;
use inputtino_rs::mouse::MouseOp;

fn fetch_of(paths: &[(usize, &str)], array_addr: usize) -> NodeFetch {
    let mut entries: Vec<NativeText> = Vec::new();
    for (addr, text) in paths {
        entries.push(NativeText { addr: *addr, text: (*text).to_string() });
    }
    NodeFetch { array_addr, entries }
}

#[test]
fn test_inputtino_c_mouse() {
    let def = InputtinoDeviceDefinition::new(
        "Rusty Mouse",
        0,
        0,
        0,
        "Rusty Mouse Phys",
        "Rusty Mouse Uniq",
    )
    .unwrap();
    let mut arena = NativeArena::new();
    let mouse = InputtinoMouse::new(def, 0x1000, ErrorSlot::empty(), &mut arena).unwrap();
    assert!(mouse.addr() != 0);

    // The kernel exposes a virtual mouse through two event nodes; the
    // native enumeration hands them over and the library must preserve
    // count and order while consuming every allocation.
    let fetch = fetch_of(&[(0x2000, "/dev/input/event20"), (0x2100, "/dev/input/event21")], 0x2200);
    register_fetch(&fetch, &mut arena);
    let nodes = mouse.get_nodes(Some(fetch), &mut arena).unwrap();
    assert_eq!(nodes.len(), 2);
    assert!(nodes[0].starts_with("/dev/input/event"));
    assert!(nodes[1].starts_with("/dev/input/event"));

    let addr: usize = mouse.destroy(&mut arena);
    assert_eq!(addr, 0x1000);
    assert_eq!(arena.live_count(), 0);
}

#[test]
fn test_mouse_create_use_destroy() {
    let def = InputtinoDeviceDefinition::new("Test Mouse", 0, 0, 0, "phys", "uniq").unwrap();
    let mut arena = NativeArena::new();
    assert_eq!(arena.live_count(), 0);
    let mouse = InputtinoMouse::new(def, 0x3000, ErrorSlot::empty(), &mut arena).unwrap();
    assert_eq!(arena.live_count(), 1);

    let fetch = fetch_of(&[(0x3100, "/dev/input/event5"), (0x3200, "/dev/input/event6")], 0x3300);
    register_fetch(&fetch, &mut arena);
    let nodes = mouse.get_nodes(Some(fetch), &mut arena).unwrap();
    assert_eq!(nodes.len(), 2);
    assert!(nodes[0].starts_with("/dev/input/event"));
    assert!(nodes[1].starts_with("/dev/input/event"));
    assert_eq!(arena.live_count(), 1);

    let c1 = mouse.move_rel(10, 10);
    assert_eq!(c1, MouseCommand { target: 0x3000, op: MouseOp::MoveRel { x: 10, y: 10 } });
    let c2 = mouse.scroll_vertical(100);
    assert_eq!(c2, MouseCommand { target: 0x3000, op: MouseOp::ScrollVertical { amount: 100 } });

    let addr: usize = mouse.destroy(&mut arena);
    assert_eq!(addr, 0x3000);
    // Creation registered one allocation and destruction released it: the
    // ledger is back where it started, and `mouse` is gone — a further
    // control or enumeration call no longer compiles.
    assert_eq!(arena.live_count(), 0);
}

#[test]
fn test_mouse_commands() {
    let def = InputtinoDeviceDefinition::new("Test Mouse", 1, 2, 3, "p", "u").unwrap();
    let mut arena = NativeArena::new();
    let mouse = InputtinoMouse::new(def, 0x4000, ErrorSlot::empty(), &mut arena).unwrap();

    let c = mouse.move_abs(640, 360, 1920, 1080);
    assert_eq!(
        c,
        MouseCommand {
            target: 0x4000,
            op: MouseOp::MoveAbs { x: 640, y: 360, screen_width: 1920, screen_height: 1080 },
        }
    );
    let c = mouse.press_button(MouseButton::Left);
    assert_eq!(
        c,
        MouseCommand { target: 0x4000, op: MouseOp::PressButton { button: MouseButton::Left } }
    );
    let c = mouse.release_button(MouseButton::Extra);
    assert_eq!(
        c,
        MouseCommand { target: 0x4000, op: MouseOp::ReleaseButton { button: MouseButton::Extra } }
    );
    let c = mouse.scroll_horizontal(-7);
    assert_eq!(
        c,
        MouseCommand { target: 0x4000, op: MouseOp::ScrollHorizontal { amount: -7 } }
    );
    // Motion deltas are passed through signed and unclamped.
    let c = mouse.move_rel(-2147483648, 2147483647);
    assert_eq!(
        c,
        MouseCommand { target: 0x4000, op: MouseOp::MoveRel { x: -2147483648, y: 2147483647 } }
    );
    mouse.destroy(&mut arena);
}

#[test]
fn test_mouse_null_enumeration_frees_nothing() {
    let def = InputtinoDeviceDefinition::new("Test Mouse", 0, 0, 0, "p", "u").unwrap();
    let mut arena = NativeArena::new();
    let mouse = InputtinoMouse::new(def, 0x5000, ErrorSlot::empty(), &mut arena).unwrap();
    let before: usize = arena.live_count();
    let r = mouse.get_nodes(None, &mut arena);
    assert!(matches!(r, Err(DeviceError::EnumerationFailed)));
    // A null array means nothing was handed over: zero releases happened.
    assert_eq!(arena.live_count(), before);
    mouse.destroy(&mut arena);
}
