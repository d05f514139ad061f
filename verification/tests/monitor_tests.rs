use winit::monitor::{
    compare_identifiers, current_mode_size, describe_from_info, identifiers_equal, name_from_info, native_identifier_from_info, position_from_info,
    scale_factor_from_info, size_from_info, OutputMode, OutputSnapshot,
};
use winit::window::{PhysicalPosition, PhysicalSize};

fn mode(width: i32, height: i32, is_current: bool) -> OutputMode {
    OutputMode { width, height, refresh_rate: 59_940, is_current, is_preferred: false }
}

fn snapshot() -> OutputSnapshot {
    OutputSnapshot {
        id: 12,
        model: "XB271HU".to_string(),
        make: "Acer".to_string(),
        location: PhysicalPosition { x: -1920, y: 40 },
        scale_factor: 2,
        modes: vec![mode(1920, 1080, false), mode(2560, 1440, true), mode(1280, 720, true)],
    }
}

#[test]
fn report_fields() {
    let info = Some(snapshot());
    assert_eq!(name_from_info(&info), Some("XB271HU (Acer)".to_string()));
    assert_eq!(native_identifier_from_info(&info), 12);
    assert_eq!(size_from_info(&info), PhysicalSize { width: 2560, height: 1440 });
    assert_eq!(position_from_info(&info), PhysicalPosition { x: -1920, y: 40 });
    assert_eq!(scale_factor_from_info(&info), 2);
}

#[test]
fn missing_report_defaults() {
    let info: Option<OutputSnapshot> = None;
    assert_eq!(name_from_info(&info), None);
    assert_eq!(native_identifier_from_info(&info), 0);
    assert_eq!(size_from_info(&info), PhysicalSize { width: 0, height: 0 });
    assert_eq!(position_from_info(&info), PhysicalPosition { x: 0, y: 0 });
    assert_eq!(scale_factor_from_info(&info), 1);
}

#[test]
fn current_mode_search() {
    assert_eq!(current_mode_size(&vec![]), PhysicalSize { width: 0, height: 0 });
    assert_eq!(current_mode_size(&vec![mode(10, 20, false)]), PhysicalSize { width: 0, height: 0 });
    assert_eq!(current_mode_size(&vec![mode(-1, 20, true)]), PhysicalSize { width: u32::MAX, height: 20 });
}

#[test]
fn description_of_a_report() {
    let d = describe_from_info(&Some(snapshot()));
    assert_eq!(d.name, Some("XB271HU (Acer)".to_string()));
    assert_eq!(d.native_identifier, 12);
    assert_eq!(d.size, PhysicalSize { width: 2560, height: 1440 });
    assert_eq!(d.position, PhysicalPosition { x: -1920, y: 40 });
    assert_eq!(d.scale_factor, 2);
    let none = describe_from_info(&None);
    assert_eq!(none.name, None);
    assert_eq!(none.native_identifier, 0);
    assert_eq!(none.scale_factor, 1);
}

#[test]
fn monitors_compare_by_identifier() {
    let a = Some(snapshot());
    let mut other = snapshot();
    other.model = "Other".to_string();
    let b = Some(other);
    let mut later = snapshot();
    later.id = 13;
    let c = Some(later);
    assert!(identifiers_equal(&a, &b));
    assert!(!identifiers_equal(&a, &c));
    assert_eq!(compare_identifiers(&a, &b), std::cmp::Ordering::Equal);
    assert_eq!(compare_identifiers(&a, &c), std::cmp::Ordering::Less);
    assert_eq!(compare_identifiers(&c, &None), std::cmp::Ordering::Greater);
}
