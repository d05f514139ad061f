# winit (Wayland event loop, verified core)

The decisions of a Wayland event loop, written in Verus and proved against
their contracts:

- `control`: the state machine of one run of the loop (`LoopRunner`): the caller
  reports what it did, the runner answers with the next action. Laws: the loop
  starts with `NewEvents(Init)`, an iteration hands out its events in a fixed
  order, an exit asked for through a sticky callback cannot be undone and ends
  the loop with `LoopDestroyed`, and the timing of `Poll`, `Wait`, `WaitUntil`.
- `window`: what a window needs after a dispatch (size, scale change, frame,
  `Resized`, close request, pointer grab) and to redraw, in integer pixels.
- `cursor`: the cursor state of the pointers and the theme names of the shapes.
- `seat`: the devices bound on each seat, and the seats known by name.
- `monitor`: monitors and their reports.
- `channel`: events and the channels that carry them to the loop.
- `handoff`: the calls that hand values to calloop and to Wayland handles,
  with records, made only by those calls, of what was handed over.

`app/` holds the loop itself: the connection to the compositor, the calloop
event loop, the calls of the user's callback, the Wayland requests that the
library hands back (lock destroys, device releases) and the reading of output
reports, performing what the library decides.
