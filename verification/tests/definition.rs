use inputtino_rs::arena::NativeArena;
use inputtino_rs::common::DeviceError;
use inputtino_rs::common::ErrorSlot;
use inputtino_rs::common::InputtinoDeviceDefinition;
use inputtino_rs::mouse::InputtinoMouse;

#[test]
fn test_embedded_null_in_name_is_rejected() {
    let r = InputtinoDeviceDefinition::new("bad\0name", 1, 2, 3, "phys", "uniq");
    assert!(matches!(r, Err(DeviceError::InvalidString)));
}

#[test]
fn test_embedded_null_in_phys_is_rejected() {
    let r = InputtinoDeviceDefinition::new("name", 1, 2, 3, "ph\0ys", "uniq");
    assert!(matches!(r, Err(DeviceError::InvalidString)));
}

#[test]
fn test_embedded_null_in_uniq_is_rejected() {
    let r = InputtinoDeviceDefinition::new("name", 1, 2, 3, "phys", "\0uniq");
    assert!(matches!(r, Err(DeviceError::InvalidString)));
}

#[test]
fn test_definition_carries_fields_verbatim() {
    let d = InputtinoDeviceDefinition::new("A Device", 0x1234, 0x5678, 0x9ABC, "phys/path", "uid-1")
        .unwrap();
    assert_eq!(d.vendor_id(), 0x1234);
    assert_eq!(d.product_id(), 0x5678);
    assert_eq!(d.version(), 0x9ABC);
    // Each borrowed view is the field's bytes with exactly one terminator.
    assert_eq!(d.name_buffer().as_slice(), b"A Device\0");
    assert_eq!(d.phys_buffer().as_slice(), b"phys/path\0");
    assert_eq!(d.uniq_buffer().as_slice(), b"uid-1\0");
}

#[test]
fn test_empty_text_fields_are_valid() {
    let d = InputtinoDeviceDefinition::new("", 0, 0, 0, "", "").unwrap();
    assert_eq!(d.name_buffer().as_slice(), b"\0");
    assert_eq!(d.phys_buffer().as_slice(), b"\0");
    assert_eq!(d.uniq_buffer().as_slice(), b"\0");
}

#[test]
fn test_creation_failure_surfaces_channel_message() {
    let def = InputtinoDeviceDefinition::new("m", 0, 0, 0, "p", "u").unwrap();
    let mut arena = NativeArena::new();
    let mut channel = ErrorSlot::empty();
    channel.store("evdev refused the device".to_string());
    // The native create returned the null sentinel (address 0).
    let r = InputtinoMouse::new(def, 0, channel, &mut arena);
    match r {
        Err(DeviceError::CreationFailed(m)) => assert_eq!(m, "evdev refused the device"),
        _ => panic!("expected CreationFailed"),
    }
    // A failed creation retains nothing.
    assert_eq!(arena.live_count(), 0);
}

#[test]
fn test_creation_failure_with_silent_channel() {
    let def = InputtinoDeviceDefinition::new("m", 0, 0, 0, "p", "u").unwrap();
    let mut arena = NativeArena::new();
    let r = InputtinoMouse::new(def, 0, ErrorSlot::empty(), &mut arena);
    match r {
        Err(DeviceError::CreationFailed(m)) => assert_eq!(m, ""),
        _ => panic!("expected CreationFailed"),
    }
    assert_eq!(arena.live_count(), 0);
}

#[test]
fn test_error_slot_single_shot() {
    let mut s = ErrorSlot::empty();
    s.store("first".to_string());
    s.store("second".to_string());
    // The slot keeps the last stored message and is consumed exactly once.
    assert_eq!(s.into_message(), "second");
    let s = ErrorSlot::empty();
    assert_eq!(s.into_message(), "");
}

#[test]
fn test_arena_register_release() {
    let mut arena = NativeArena::new();
    assert_eq!(arena.live_count(), 0);
    assert!(!arena.contains(0x10));
    arena.register(0x10);
    arena.register(0x20);
    assert!(arena.contains(0x10));
    assert!(arena.contains(0x20));
    assert_eq!(arena.live_count(), 2);
    arena.release(0x10);
    assert!(!arena.contains(0x10));
    assert!(arena.contains(0x20));
    assert_eq!(arena.live_count(), 1);
    arena.release(0x20);
    assert_eq!(arena.live_count(), 0);
}
