use smithay_client_toolkit::reexports::client::protocol::{wl_keyboard::WlKeyboard, wl_pointer::WlPointer, wl_touch::WlTouch};
use smithay_client_toolkit::reexports::protocols::unstable::relative_pointer::v1::client::zwp_relative_pointer_v1::ZwpRelativePointerV1;
use winit::seat::{releases_device, SeatCapabilities, SeatData, SeatDeviceFactory, SeatManager};

struct NoDevices;

impl SeatDeviceFactory for NoDevices {
    fn create_pointer(&mut self) -> WlPointer {
        panic!("no pointer was asked for")
    }
    fn create_relative_pointer(&mut self, _pointer: &WlPointer) -> ZwpRelativePointerV1 {
        panic!("no pointer was asked for")
    }
    fn create_keyboard(&mut self) -> WlKeyboard {
        panic!("no keyboard was asked for")
    }
    fn create_touch(&mut self) -> WlTouch {
        panic!("no touchscreen was asked for")
    }
}

fn bare() -> SeatCapabilities {
    SeatCapabilities { has_pointer: false, has_keyboard: false, has_touch: false, defunct: false }
}

#[test]
fn release_needs_version_three() {
    assert!(!releases_device(0));
    assert!(!releases_device(2));
    assert!(releases_device(3));
    assert!(releases_device(7));
}

#[test]
fn seat_without_devices_creates_none() {
    let mut seat = SeatData::new(bare(), true, &mut NoDevices);
    let removed = seat.receive(bare(), true, &mut NoDevices);
    assert!(removed.pointer.is_none() && removed.keyboard.is_none() && removed.touch.is_none());
    let removed = seat.release_devices();
    assert!(removed.pointer.is_none() && removed.keyboard.is_none() && removed.touch.is_none());
}

#[test]
fn seats_are_added_and_removed_by_name() {
    let mut seats = SeatManager::new();
    assert!(!seats.contains("seat0"));
    seats.add_seat("seat0".to_string(), bare(), false, &mut NoDevices);
    assert!(seats.update_seat("seat1".to_string(), bare(), false, &mut NoDevices).is_none());
    assert!(seats.contains("seat0"));
    assert!(seats.contains("seat1"));
    assert!(seats.remove_seat("seat0").is_some());
    assert!(!seats.contains("seat0"));
    assert!(seats.contains("seat1"));
    assert!(seats.remove_seat("seat9").is_none());
    assert!(seats.contains("seat1"));
    let mut gone = bare();
    gone.defunct = true;
    assert!(seats.update_seat("seat1".to_string(), gone, false, &mut NoDevices).is_some());
    assert!(seats.release_all().is_empty());
    assert!(!seats.contains("seat1"));
}
