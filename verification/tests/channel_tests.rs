use winit::channel::{DeviceId, Event, EventLoopClosed, EventLoopProxy, EventsSink};
use winit::control::StartCause;
use winit::window::WindowId;

#[test]
fn proxy_delivers_while_the_loop_exists() {
    let (sender, channel) = calloop::channel::channel::<u32>();
    let proxy = EventLoopProxy::new(sender);
    let other = proxy.clone();
    assert!(proxy.send_event(5).is_ok());
    assert!(other.send_event(6).is_ok());
    drop(channel);
}

#[test]
fn proxy_returns_the_event_once_the_loop_is_gone() {
    let (sender, channel) = calloop::channel::channel::<u32>();
    let proxy = EventLoopProxy::new(sender);
    drop(channel);
    assert_eq!(proxy.send_event(42).err(), Some(EventLoopClosed(42)));
}

#[test]
fn sink_wraps_window_and_device_events() {
    let (sender, channel) = calloop::channel::channel::<Event<(), u8, u16>>();
    let sink = EventsSink::new(sender);
    let copy = sink.clone();
    assert!(sink.send_window_event(3, WindowId(9)).is_ok());
    drop(channel);
    assert_eq!(
        copy.send_window_event(4, WindowId(9)).err(),
        Some(Event::WindowEvent { window_id: WindowId(9), event: 4 })
    );
    assert_eq!(
        copy.send_device_event(8, DeviceId).err(),
        Some(Event::DeviceEvent { device_id: DeviceId, event: 8 })
    );
    assert_eq!(copy.send_event(Event::MainEventsCleared).err(), Some(Event::MainEventsCleared));
}

#[test]
fn user_events_cannot_change_type() {
    let user: Event<u8, (), ()> = Event::UserEvent(1);
    assert_eq!(user.map_nonuser_event::<i64>(), Err(Event::UserEvent(1)));
    let other: Event<u8, (), ()> = Event::NewEvents(StartCause::Init);
    assert_eq!(other.map_nonuser_event::<i64>(), Ok(Event::NewEvents(StartCause::Init)));
    let redraw: Event<u8, (), ()> = Event::RedrawRequested(WindowId(2));
    assert_eq!(redraw.map_nonuser_event::<i64>(), Ok(Event::RedrawRequested(WindowId(2))));
}
