//! Events, and the channels that carry them to the event loop.
use crate::control::StartCause;
use crate::window::WindowId;
use crate::handoff::{channel_send, clone_sender, Sent};
use calloop::channel::Sender;
use vstd::prelude::*;

verus! {

/// Whether a send of `message` ended in `result`: either `message` was handed
/// to the channel (and the record of `Ok` shows it), or the loop is gone and it
/// came back.
pub open spec fn sent_or_returned<T>(result: Result<Sent<T>, T>, message: T) -> bool {
    match result {
        Ok(sent) => sent.message() == message,
        Err(m) => m == message,
    }
}

/// The identifier of an input device.
#[derive(Clone, Copy, Debug, PartialEq, Eq, Hash, Structural)]
pub struct DeviceId;

/// An event of the loop: `T` is the type of the user's own events, `W` that
/// of window events and `D` that of device events.
#[derive(Clone, Copy, Debug, PartialEq, Eq, Hash)]
pub enum Event<T, W, D> {
    NewEvents(StartCause),
    WindowEvent { window_id: WindowId, event: W },
    DeviceEvent { device_id: DeviceId, event: D },
    UserEvent(T),
    MainEventsCleared,
    RedrawRequested(WindowId),
    RedrawEventsCleared,
    LoopDestroyed,
}

impl<T, W, D> Event<T, W, D> {
    /// The same event with another type of user events; a user event cannot
    /// change type and comes back as the error.
    pub fn map_nonuser_event<U>(self) -> (result: Result<Event<U, W, D>, Event<T, W, D>>)
        ensures
            match self {
                Event::UserEvent(_) => result == Err::<Event<U, W, D>, Event<T, W, D>>(self),
                Event::NewEvents(c) => result == Ok::<Event<U, W, D>, Event<T, W, D>>(Event::NewEvents(c)),
                Event::WindowEvent { window_id, event } => result == Ok::<Event<U, W, D>, Event<T, W, D>>(
                    Event::WindowEvent { window_id, event },
                ),
                Event::DeviceEvent { device_id, event } => result == Ok::<Event<U, W, D>, Event<T, W, D>>(
                    Event::DeviceEvent { device_id, event },
                ),
                Event::MainEventsCleared => result == Ok::<Event<U, W, D>, Event<T, W, D>>(Event::MainEventsCleared),
                Event::RedrawRequested(w) => result == Ok::<Event<U, W, D>, Event<T, W, D>>(Event::RedrawRequested(w)),
                Event::RedrawEventsCleared => result == Ok::<Event<U, W, D>, Event<T, W, D>>(Event::RedrawEventsCleared),
                Event::LoopDestroyed => result == Ok::<Event<U, W, D>, Event<T, W, D>>(Event::LoopDestroyed),
            },
    {
        match self {
            Event::UserEvent(u) => Err(Event::UserEvent(u)),
            Event::NewEvents(c) => Ok(Event::NewEvents(c)),
            Event::WindowEvent { window_id, event } => Ok(Event::WindowEvent { window_id, event }),
            Event::DeviceEvent { device_id, event } => Ok(Event::DeviceEvent { device_id, event }),
            Event::MainEventsCleared => Ok(Event::MainEventsCleared),
            Event::RedrawRequested(w) => Ok(Event::RedrawRequested(w)),
            Event::RedrawEventsCleared => Ok(Event::RedrawEventsCleared),
            Event::LoopDestroyed => Ok(Event::LoopDestroyed),
        }
    }
}

/// Hands events of the input devices to the event loop.
#[verifier::reject_recursive_types(W)]
#[verifier::reject_recursive_types(D)]
pub struct EventsSink<W, D> {
    sender: Sender<Event<(), W, D>>,
}

impl<W, D> EventsSink<W, D> {
    /// The sending end this sink sends through.
    pub closed spec fn sender_spec(&self) -> Sender<Event<(), W, D>> {
        self.sender
    }

    pub fn new(sender: Sender<Event<(), W, D>>) -> (sink: EventsSink<W, D>)
        ensures
            sink.sender_spec() == sender,
    {
        EventsSink { sender }
    }

    /// Sends an event to the loop; when the loop is gone the event comes back.
    pub fn send_event(&self, event: Event<(), W, D>) -> (result: Result<Sent<Event<(), W, D>>, Event<(), W, D>>)
        ensures
            sent_or_returned(result, event),
    {
        channel_send(&self.sender, event)
    }

    /// Sends an event of the device `device_id`.
    pub fn send_device_event(&self, event: D, device_id: DeviceId) -> (result: Result<Sent<Event<(), W, D>>, Event<(), W, D>>)
        ensures
            sent_or_returned(result, Event::<(), W, D>::DeviceEvent { device_id, event }),
    {
        self.send_event(Event::DeviceEvent { device_id, event })
    }

    /// Sends an event of the window `window_id`.
    pub fn send_window_event(&self, event: W, window_id: WindowId) -> (result: Result<Sent<Event<(), W, D>>, Event<(), W, D>>)
        ensures
            sent_or_returned(result, Event::<(), W, D>::WindowEvent { window_id, event }),
    {
        self.send_event(Event::WindowEvent { window_id, event })
    }
}

impl<W, D> Clone for EventsSink<W, D> {
    fn clone(&self) -> Self {
        EventsSink { sender: clone_sender(&self.sender) }
    }
}

/// The event a user tried to send to an event loop that no longer exists.
#[derive(Clone, Copy, Debug, PartialEq, Eq, Hash)]
pub struct EventLoopClosed<T>(pub T);

/// A handle, usable from other threads, that sends user events to the loop and wakes it up.
#[verifier::reject_recursive_types(T)]
pub struct EventLoopProxy<T> {
    user_sender: Sender<T>,
}

impl<T> EventLoopProxy<T> {
    /// The sending end this proxy sends through.
    pub closed spec fn sender_spec(&self) -> Sender<T> {
        self.user_sender
    }

    pub fn new(user_sender: Sender<T>) -> (proxy: EventLoopProxy<T>)
        ensures
            proxy.sender_spec() == user_sender,
    {
        EventLoopProxy { user_sender }
    }

    /// Sends a user event to the loop; when the loop is gone, the event comes
    /// back inside `EventLoopClosed`.
    pub fn send_event(&self, event: T) -> (result: Result<Sent<T>, EventLoopClosed<T>>)
        ensures
            match result {
                Ok(sent) => sent.message() == event,
                Err(e) => e.0 == event,
            },
    {
        match channel_send(&self.user_sender, event) {
            Ok(sent) => Ok(sent),
            Err(x) => Err(EventLoopClosed(x)),
        }
    }
}

impl<T> Clone for EventLoopProxy<T> {
    fn clone(&self) -> Self {
        EventLoopProxy { user_sender: clone_sender(&self.user_sender) }
    }
}

} // verus!
