use winit::window::{
    destroyed_events, redraw_steps, take_cleanup_request, to_logical, to_physical, window_update_finish, window_update_start, DecorationsAction,
    LogicalSize, PendingWindow, PhysicalSize, RedrawStep, WindowEvent, WindowId, WindowStep,
};

fn window() -> PendingWindow {
    PendingWindow {
        wid: WindowId(7),
        size: LogicalSize { width: 800, height: 600 },
        new_size: None,
        new_scale_factor: None,
        prev_scale_factor: 1,
        closed: false,
        grab_cursor: None,
        has_frame: false,
        decorations_action: None,
    }
}

#[test]
fn size_conversions() {
    assert_eq!(to_physical(LogicalSize { width: 800, height: 600 }, 2), PhysicalSize { width: 1600, height: 1200 });
    assert_eq!(
        to_physical(LogicalSize { width: u32::MAX, height: 3 }, 2),
        PhysicalSize { width: u32::MAX, height: 6 }
    );
    assert_eq!(to_logical(PhysicalSize { width: 1601, height: 1203 }, 2), LogicalSize { width: 801, height: 602 });
    assert_eq!(to_logical(PhysicalSize { width: 1600, height: 1199 }, 2), LogicalSize { width: 800, height: 600 });
    assert_eq!(to_logical(PhysicalSize { width: 10, height: 11 }, 3), LogicalSize { width: 3, height: 4 });
    assert_eq!(to_logical(PhysicalSize { width: u32::MAX, height: 0 }, 1), LogicalSize { width: u32::MAX, height: 0 });
}

#[test]
fn untouched_window_is_quiet() {
    let w = window();
    assert_eq!(window_update_start(&w), vec![WindowStep::StoreSize(w.size)]);
    assert_eq!(window_update_finish(&w, PhysicalSize { width: 1, height: 1 }), vec![]);
}

#[test]
fn resize_by_compositor() {
    let mut w = window();
    w.new_size = Some(LogicalSize { width: 1024, height: 768 });
    w.has_frame = true;
    w.decorations_action = Some(DecorationsAction::Hide);
    w.prev_scale_factor = 2;
    assert_eq!(window_update_start(&w), vec![WindowStep::StoreSize(LogicalSize { width: 1024, height: 768 })]);
    assert_eq!(
        window_update_finish(&w, PhysicalSize { width: 0, height: 0 }),
        vec![
            WindowStep::SetDecorations(DecorationsAction::Hide),
            WindowStep::ResizeFrame(LogicalSize { width: 1024, height: 768 }),
            WindowStep::RefreshFrame,
            WindowStep::Deliver(WindowEvent::Resized(PhysicalSize { width: 2048, height: 1536 })),
        ]
    );
}

#[test]
fn resize_to_the_same_size_is_not_reported() {
    let mut w = window();
    w.new_size = Some(w.size);
    w.has_frame = true;
    assert_eq!(
        window_update_finish(&w, PhysicalSize { width: 0, height: 0 }),
        vec![WindowStep::ResizeFrame(w.size), WindowStep::RefreshFrame]
    );
}

#[test]
fn scale_change_kept_by_callback() {
    let mut w = window();
    w.new_scale_factor = Some(2);
    let start = window_update_start(&w);
    let inner = PhysicalSize { width: 1600, height: 1200 };
    assert_eq!(
        start,
        vec![
            WindowStep::StoreSize(w.size),
            WindowStep::ScaleCursor(2),
            WindowStep::Deliver(WindowEvent::ScaleFactorChanged { scale_factor: 2, new_inner_size: inner }),
        ]
    );
    assert_eq!(
        window_update_finish(&w, inner),
        vec![WindowStep::Deliver(WindowEvent::Resized(inner))]
    );
}

#[test]
fn scale_change_resized_by_callback() {
    let mut w = window();
    w.new_scale_factor = Some(2);
    w.closed = true;
    w.grab_cursor = Some(true);
    assert_eq!(
        window_update_finish(&w, PhysicalSize { width: 1001, height: 500 }),
        vec![
            WindowStep::StoreSize(LogicalSize { width: 501, height: 250 }),
            WindowStep::Deliver(WindowEvent::Resized(PhysicalSize { width: 1002, height: 500 })),
            WindowStep::Deliver(WindowEvent::CloseRequested),
            WindowStep::GrabPointer(true),
        ]
    );
}

#[test]
fn close_and_release_grab() {
    let mut w = window();
    w.closed = true;
    w.grab_cursor = Some(false);
    assert_eq!(
        window_update_finish(&w, PhysicalSize { width: 0, height: 0 }),
        vec![WindowStep::Deliver(WindowEvent::CloseRequested), WindowStep::GrabPointer(false)]
    );
}

#[test]
fn redraw_plans() {
    assert_eq!(redraw_steps(true, true, true), vec![RedrawStep::RefreshFrame, RedrawStep::RequestRedraw]);
    assert_eq!(redraw_steps(false, true, true), vec![RedrawStep::RefreshFrame, RedrawStep::CommitSurface]);
    assert_eq!(redraw_steps(true, true, false), vec![RedrawStep::RequestRedraw]);
    assert_eq!(redraw_steps(false, true, false), vec![]);
    assert_eq!(redraw_steps(true, false, true), vec![RedrawStep::RequestRedraw]);
}

#[test]
fn pruned_windows_are_destroyed() {
    assert_eq!(
        destroyed_events(&vec![WindowId(3), WindowId(1)]),
        vec![(WindowId(3), WindowEvent::Destroyed), (WindowId(1), WindowEvent::Destroyed)]
    );
    assert_eq!(destroyed_events(&vec![]), vec![]);
}

#[test]
fn cleanup_request_is_served_once() {
    let mut flag = true;
    assert!(take_cleanup_request(&mut flag));
    assert!(!flag);
    assert!(!take_cleanup_request(&mut flag));
    assert!(!flag);
}
