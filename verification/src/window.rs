//! What a window needs after a dispatch: resizes, scale changes, close
//! requests, pointer grabs, and redraws.
//!
//! Sizes are in pixels. A logical size times the integer scale factor of the
//! window gives its physical size.
use vstd::prelude::*;

verus! {

/// The identifier of a window.
#[derive(Clone, Copy, Debug, PartialEq, Eq, Hash, Structural)]
pub struct WindowId(pub usize);

/// A size in physical pixels.
#[derive(Clone, Copy, Debug, PartialEq, Eq, Hash, Structural)]
pub struct PhysicalSize {
    pub width: u32,
    pub height: u32,
}

/// A size in logical pixels.
#[derive(Clone, Copy, Debug, PartialEq, Eq, Hash, Structural)]
pub struct LogicalSize {
    pub width: u32,
    pub height: u32,
}

/// A position in physical pixels.
#[derive(Clone, Copy, Debug, PartialEq, Eq, Hash, Structural)]
pub struct PhysicalPosition {
    pub x: i32,
    pub y: i32,
}

/// The events this module hands to the user's callback about a window.
#[derive(Clone, Copy, Debug, PartialEq, Eq, Hash, Structural)]
pub enum WindowEvent {
    /// The size of the window's content area changed.
    Resized(PhysicalSize),
    /// The scale factor of the window changed; the callback may change
    /// `new_inner_size` to pick the physical size the window takes.
    ScaleFactorChanged { scale_factor: i32, new_inner_size: PhysicalSize },
    /// The user asked to close the window.
    CloseRequested,
    /// The window was destroyed.
    Destroyed,
}

/// A change of the client-side decorations asked for the window.
#[derive(Clone, Copy, Debug, PartialEq, Eq, Hash, Structural)]
pub enum DecorationsAction {
    Hide,
    Show,
}

/// The state a window has accumulated since the last dispatch.
#[derive(Clone, Copy, Debug, PartialEq, Eq, Hash, Structural)]
pub struct PendingWindow {
    pub wid: WindowId,
    /// The logical size the window had so far.
    pub size: LogicalSize,
    /// A logical size asked for by the compositor.
    pub new_size: Option<LogicalSize>,
    /// A scale factor announced by the compositor.
    pub new_scale_factor: Option<i32>,
    /// The scale factor the window had so far.
    pub prev_scale_factor: i32,
    /// Whether the user asked to close the window.
    pub closed: bool,
    /// A change of the pointer grab: `true` to lock the pointer on the window.
    pub grab_cursor: Option<bool>,
    /// Whether the window draws its own frame.
    pub has_frame: bool,
    pub decorations_action: Option<DecorationsAction>,
}

/// One thing to do for a window, in the order given.
#[derive(Clone, Copy, Debug, PartialEq, Eq, Hash, Structural)]
pub enum WindowStep {
    /// Record this logical size as the window's size.
    StoreSize(LogicalSize),
    /// Give the cursor images this scale.
    ScaleCursor(u32),
    /// Hand this event to the user's callback.
    Deliver(WindowEvent),
    /// Change the decorations of the frame.
    SetDecorations(DecorationsAction),
    /// Resize the frame to this logical size.
    ResizeFrame(LogicalSize),
    /// Redraw the frame.
    RefreshFrame,
    /// Lock the pointer on the window (`true`) or release every lock (`false`).
    GrabPointer(bool),
}

/// One thing to do to redraw a window, in the order given.
#[derive(Clone, Copy, Debug, PartialEq, Eq, Hash, Structural)]
pub enum RedrawStep {
    /// Redraw the frame.
    RefreshFrame,
    /// Commit the surface of the frame.
    CommitSurface,
    /// Hand `RedrawRequested` for the window to the user's callback.
    RequestRedraw,
}

/// A logical length at the given scale, in physical pixels; lengths past the
/// range of `u32` are capped at its maximum.
pub open spec fn physical_len(len: u32, scale: i32) -> u32 {
    if len * scale > u32::MAX {
        u32::MAX
    } else {
        (len * scale) as u32
    }
}

/// A physical length at the given scale, in logical pixels, rounded to the
/// nearest integer, halves up.
pub open spec fn logical_len(len: u32, scale: i32) -> u32 {
    ((2 * len + scale) / (2 * scale)) as u32
}

pub open spec fn to_physical_spec(size: LogicalSize, scale: i32) -> PhysicalSize {
    PhysicalSize { width: physical_len(size.width, scale), height: physical_len(size.height, scale) }
}

pub open spec fn to_logical_spec(size: PhysicalSize, scale: i32) -> LogicalSize {
    LogicalSize { width: logical_len(size.width, scale), height: logical_len(size.height, scale) }
}

/// The logical size a window takes before its callback hears of a scale change.
pub open spec fn first_size(w: PendingWindow) -> LogicalSize {
    match w.new_size {
        Some(s) => s,
        None => w.size,
    }
}

/// Whether the scale factors that a window update uses are valid (at least 1).
pub open spec fn scales_valid(w: PendingWindow) -> bool {
    &&& (w.new_scale_factor matches Some(s) ==> s >= 1)
    &&& (w.new_scale_factor is None ==> w.prev_scale_factor >= 1)
}

/// The first part of a window update: the size is stored, and on a scale
/// change the cursor is rescaled and the callback hears of the new scale,
/// with the physical size of the window at that scale.
pub open spec fn update_start_spec(w: PendingWindow) -> Seq<WindowStep> {
    let logical = first_size(w);
    seq![WindowStep::StoreSize(logical)] + match w.new_scale_factor {
        Some(sf) => seq![
            WindowStep::ScaleCursor(sf as u32),
            WindowStep::Deliver(
                WindowEvent::ScaleFactorChanged {
                    scale_factor: sf,
                    new_inner_size: to_physical_spec(logical, sf),
                },
            ),
        ],
        None => Seq::empty(),
    }
}

/// The logical size of the window at the end of its update, given the
/// physical size that the callback of the scale change left.
pub open spec fn final_size(w: PendingWindow, inner_size: PhysicalSize) -> LogicalSize {
    match w.new_scale_factor {
        Some(sf) => to_logical_spec(inner_size, sf),
        None => first_size(w),
    }
}

/// The second part of a window update, once the callback of a scale change (if
/// any) returned `inner_size`: the size is stored again if the callback
/// changed it; a resized or rescaled window gets its decorations and frame
/// updated and, unless its size and scale stayed as they were, a `Resized`
/// event; then come the close request and the pointer grab.
pub open spec fn update_finish_spec(w: PendingWindow, inner_size: PhysicalSize) -> Seq<WindowStep> {
    let size = final_size(w, inner_size);
    store_part(w, size) + frame_part(w, size) + resized_part(w, size) + close_part(w) + grab_part(w)
}

/// Whether the window was resized or rescaled by the compositor.
pub open spec fn size_or_scale_changed(w: PendingWindow) -> bool {
    w.new_size is Some || w.new_scale_factor is Some
}

/// The scale of the window at the end of its update.
pub open spec fn final_scale(w: PendingWindow) -> i32 {
    match w.new_scale_factor {
        Some(sf) => sf,
        None => w.prev_scale_factor,
    }
}

/// The size is stored again when the callback of the scale change changed it.
pub open spec fn store_part(w: PendingWindow, size: LogicalSize) -> Seq<WindowStep> {
    if size != first_size(w) { seq![WindowStep::StoreSize(size)] } else { Seq::empty() }
}

/// A resized or rescaled window with a frame gets its decorations changed as
/// asked, then its frame resized and redrawn.
pub open spec fn frame_part(w: PendingWindow, size: LogicalSize) -> Seq<WindowStep> {
    if size_or_scale_changed(w) && w.has_frame {
        match w.decorations_action {
            Some(a) => seq![WindowStep::SetDecorations(a), WindowStep::ResizeFrame(size), WindowStep::RefreshFrame],
            None => seq![WindowStep::ResizeFrame(size), WindowStep::RefreshFrame],
        }
    } else {
        Seq::empty()
    }
}

/// A resized or rescaled window hears of its physical size, unless neither its
/// logical size nor its scale changed.
pub open spec fn resized_part(w: PendingWindow, size: LogicalSize) -> Seq<WindowStep> {
    if size_or_scale_changed(w) && (size != w.size || w.new_scale_factor is Some) {
        seq![WindowStep::Deliver(WindowEvent::Resized(to_physical_spec(size, final_scale(w))))]
    } else {
        Seq::empty()
    }
}

pub open spec fn close_part(w: PendingWindow) -> Seq<WindowStep> {
    if w.closed { seq![WindowStep::Deliver(WindowEvent::CloseRequested)] } else { Seq::empty() }
}

pub open spec fn grab_part(w: PendingWindow) -> Seq<WindowStep> {
    match w.grab_cursor {
        Some(g) => seq![WindowStep::GrabPointer(g)],
        None => Seq::empty(),
    }
}

/// The steps that redraw a window: a frame that needs it is redrawn, and its
/// surface committed when the window itself will not redraw; a window that
/// needs redrawing gets `RedrawRequested`.
pub open spec fn redraw_spec(refresh: bool, frame_refresh: bool, has_frame: bool) -> Seq<RedrawStep> {
    let frame = if has_frame && frame_refresh {
        if refresh {
            seq![RedrawStep::RefreshFrame]
        } else {
            seq![RedrawStep::RefreshFrame, RedrawStep::CommitSurface]
        }
    } else {
        Seq::empty()
    };
    frame + if refresh { seq![RedrawStep::RequestRedraw] } else { Seq::empty() }
}

/// A logical length at scale `scale`, in physical pixels, capped at `u32::MAX`.
pub fn to_physical_len(len: u32, scale: i32) -> (p: u32)
    requires
        scale >= 1,
    ensures
        p == physical_len(len, scale),
{
    assert((len as u64) * (scale as u64) <= 0xffff_ffffu64 * 0x7fff_ffffu64) by (nonlinear_arith)
        requires
            len <= 0xffff_ffffu64,
            1 <= scale <= 0x7fff_ffff,
    ;
    let product: u64 = (len as u64) * (scale as u64);
    if product > 0xffff_ffffu64 {
        0xffff_ffffu32
    } else {
        product as u32
    }
}

/// A physical length at scale `scale`, in logical pixels, rounded to nearest.
pub fn to_logical_len(len: u32, scale: i32) -> (l: u32)
    requires
        scale >= 1,
    ensures
        l == logical_len(len, scale),
{
    let num: u64 = 2 * (len as u64) + (scale as u64);
    let den: u64 = 2 * (scale as u64);
    proof {
        assert(num / den <= num) by (nonlinear_arith)
            requires
                den >= 1,
        ;
        assert(num / den <= u32::MAX) by (nonlinear_arith)
            requires
                den >= 2,
                num <= 2 * u32::MAX + den / 2,
                den == 2 * (scale as int),
                num == 2 * (len as int) + (scale as int),
                len <= u32::MAX,
        ;
    }
    (num / den) as u32
}

/// A logical size at scale `scale`, in physical pixels.
pub fn to_physical(size: LogicalSize, scale: i32) -> (p: PhysicalSize)
    requires
        scale >= 1,
    ensures
        p == to_physical_spec(size, scale),
{
    PhysicalSize { width: to_physical_len(size.width, scale), height: to_physical_len(size.height, scale) }
}

/// A physical size at scale `scale`, in logical pixels.
pub fn to_logical(size: PhysicalSize, scale: i32) -> (l: LogicalSize)
    requires
        scale >= 1,
    ensures
        l == to_logical_spec(size, scale),
{
    LogicalSize { width: to_logical_len(size.width, scale), height: to_logical_len(size.height, scale) }
}

/// The first part of the update of a window after a dispatch.
pub fn window_update_start(w: &PendingWindow) -> (steps: Vec<WindowStep>)
    requires
        scales_valid(*w),
    ensures
        steps@ == update_start_spec(*w),
{
    let logical = match w.new_size {
        Some(s) => s,
        None => w.size,
    };
    let mut steps: Vec<WindowStep> = Vec::new();
    steps.push(WindowStep::StoreSize(logical));
    if let Some(sf) = w.new_scale_factor {
        steps.push(WindowStep::ScaleCursor(sf as u32));
        steps.push(
            WindowStep::Deliver(
                WindowEvent::ScaleFactorChanged {
                    scale_factor: sf,
                    new_inner_size: to_physical(logical, sf),
                },
            ),
        );
    }
    assert(steps@ =~= update_start_spec(*w));
    steps
}

/// The second part of the update of a window, once the callback of a scale
/// change returned `inner_size` (when there was no scale change, `inner_size`
/// is not read).
pub fn window_update_finish(w: &PendingWindow, inner_size: PhysicalSize) -> (steps: Vec<WindowStep>)
    requires
        scales_valid(*w),
    ensures
        steps@ == update_finish_spec(*w, inner_size),
{
    let logical = match w.new_size {
        Some(s) => s,
        None => w.size,
    };
    let size = match w.new_scale_factor {
        Some(sf) => to_logical(inner_size, sf),
        None => logical,
    };
    let changed = w.new_size.is_some() || w.new_scale_factor.is_some();
    let scale = match w.new_scale_factor {
        Some(sf) => sf,
        None => w.prev_scale_factor,
    };
    let mut steps: Vec<WindowStep> = Vec::new();
    if size != logical {
        steps.push(WindowStep::StoreSize(size));
    }
    assert(steps@ =~= store_part(*w, size));
    if changed && w.has_frame {
        if let Some(a) = w.decorations_action {
            steps.push(WindowStep::SetDecorations(a));
        }
        steps.push(WindowStep::ResizeFrame(size));
        steps.push(WindowStep::RefreshFrame);
    }
    assert(steps@ =~= store_part(*w, size) + frame_part(*w, size));
    if changed && (size != w.size || w.new_scale_factor.is_some()) {
        steps.push(WindowStep::Deliver(WindowEvent::Resized(to_physical(size, scale))));
    }
    assert(steps@ =~= store_part(*w, size) + frame_part(*w, size) + resized_part(*w, size));
    if w.closed {
        steps.push(WindowStep::Deliver(WindowEvent::CloseRequested));
    }
    assert(steps@ =~= store_part(*w, size) + frame_part(*w, size) + resized_part(*w, size)
        + close_part(*w));
    if let Some(g) = w.grab_cursor {
        steps.push(WindowStep::GrabPointer(g));
    }
    assert(steps@ =~= update_finish_spec(*w, inner_size));
    steps
}

/// Whether the closed windows must be pruned now: the pending request is
/// taken, so that it is served once.
pub fn take_cleanup_request(cleanup_needed: &mut bool) -> (due: bool)
    ensures
        due == *old(cleanup_needed),
        *final(cleanup_needed) == false,
{
    let due = *cleanup_needed;
    *cleanup_needed = false;
    due
}

/// The events for the windows that a cleanup pruned: `Destroyed` for each,
/// in the order they were pruned.
pub fn destroyed_events(pruned: &Vec<WindowId>) -> (events: Vec<(WindowId, WindowEvent)>)
    ensures
        events@.len() == pruned@.len(),
        forall|i: int| 0 <= i < pruned@.len() ==> #[trigger] events@[i] == (pruned@[i], WindowEvent::Destroyed),
{
    let mut events: Vec<(WindowId, WindowEvent)> = Vec::new();
    let mut i: usize = 0;
    while i < pruned.len()
        invariant
            i <= pruned.len(),
            events@.len() == i,
            forall|j: int| 0 <= j < i ==> #[trigger] events@[j] == (pruned@[j], WindowEvent::Destroyed),
        decreases pruned.len() - i,
    {
        events.push((pruned[i], WindowEvent::Destroyed));
        i = i + 1;
    }
    events
}

/// The steps that redraw a window.
pub fn redraw_steps(refresh: bool, frame_refresh: bool, has_frame: bool) -> (steps: Vec<RedrawStep>)
    ensures
        steps@ == redraw_spec(refresh, frame_refresh, has_frame),
{
    let mut steps: Vec<RedrawStep> = Vec::new();
    if has_frame && frame_refresh {
        steps.push(RedrawStep::RefreshFrame);
        if !refresh {
            steps.push(RedrawStep::CommitSurface);
        }
    }
    if refresh {
        steps.push(RedrawStep::RequestRedraw);
    }
    assert(steps@ =~= redraw_spec(refresh, frame_refresh, has_frame));
    steps
}


/// Converting a logical length to physical pixels and back gives the length
/// again, as long as the physical length fits in a `u32`.
pub proof fn lemma_length_round_trip(len: u32, scale: i32)
    requires
        scale >= 1,
        len * scale <= u32::MAX,
    ensures
        logical_len(physical_len(len, scale), scale) == len,
{
    let p = len * scale;
    assert(2 * p + scale == (len as int) * (2 * scale) + scale) by (nonlinear_arith)
        requires
            p == len * scale,
    ;
    vstd::arithmetic::div_mod::lemma_fundamental_div_mod_converse(
        2 * p + scale,
        2 * scale,
        len as int,
        scale as int,
    );
}

/// A window whose callback keeps the physical size it was handed on a scale
/// change keeps its logical size: it is stored once and not again.
pub proof fn lemma_scale_change_keeps_size(w: PendingWindow, sf: i32)
    requires
        w.new_scale_factor == Some(sf),
        sf >= 1,
        first_size(w).width * sf <= u32::MAX,
        first_size(w).height * sf <= u32::MAX,
    ensures
        final_size(w, to_physical_spec(first_size(w), sf)) == first_size(w),
        store_part(w, final_size(w, to_physical_spec(first_size(w), sf))) == Seq::<WindowStep>::empty(),
{
    lemma_length_round_trip(first_size(w).width, sf);
    lemma_length_round_trip(first_size(w).height, sf);
}

/// A window that the compositor neither resized nor rescaled, that was not
/// closed and whose grab did not change only has its size stored again:
/// nothing reaches the callback.
pub proof fn lemma_untouched_window_is_quiet(w: PendingWindow, inner_size: PhysicalSize)
    requires
        w.new_size is None,
        w.new_scale_factor is None,
        !w.closed,
        w.grab_cursor is None,
    ensures
        update_start_spec(w) == seq![WindowStep::StoreSize(w.size)],
        update_finish_spec(w, inner_size) == Seq::<WindowStep>::empty(),
{
    assert(update_start_spec(w) =~= seq![WindowStep::StoreSize(w.size)]);
    assert(update_finish_spec(w, inner_size) =~= Seq::<WindowStep>::empty());
}

/// A window resized by the compositor to a new size, at an unchanged scale,
/// hears of its new physical size.
pub proof fn lemma_resize_is_reported(w: PendingWindow, inner_size: PhysicalSize, new_size: LogicalSize)
    requires
        w.new_size == Some(new_size),
        new_size != w.size,
        w.new_scale_factor is None,
    ensures
        update_finish_spec(w, inner_size).contains(
            WindowStep::Deliver(WindowEvent::Resized(to_physical_spec(new_size, w.prev_scale_factor))),
        ),
{
    let size = final_size(w, inner_size);
    let step = WindowStep::Deliver(WindowEvent::Resized(to_physical_spec(new_size, w.prev_scale_factor)));
    let prefix = store_part(w, size) + frame_part(w, size);
    assert(resized_part(w, size) == seq![step]);
    assert(update_finish_spec(w, inner_size)[prefix.len() as int] == step);
}


/// On a scale change to `sf`, the update first stores the size the window now
/// has (the one asked for by the compositor, else the one it had), rescales
/// the cursor to `sf`, and hands the callback that size in physical pixels:
/// each side times `sf`, capped at `u32::MAX`.
pub proof fn lemma_scale_change_hands_new_physical_size(w: PendingWindow, sf: i32)
    requires
        w.new_scale_factor == Some(sf),
        sf >= 1,
    ensures
        ({
            let size = match w.new_size {
                Some(n) => n,
                None => w.size,
            };
            let steps = update_start_spec(w);
            &&& steps.len() == 3
            &&& steps[0] == WindowStep::StoreSize(size)
            &&& steps[1] == WindowStep::ScaleCursor(sf as u32)
            &&& steps[2] matches WindowStep::Deliver(WindowEvent::ScaleFactorChanged { scale_factor, new_inner_size })
                && scale_factor == sf
                && new_inner_size.width == (if size.width * sf <= u32::MAX { size.width * sf } else { u32::MAX as int })
                && new_inner_size.height == (if size.height * sf <= u32::MAX { size.height * sf } else { u32::MAX as int })
        }),
{
}

/// A window that needs redrawing gets `RedrawRequested` last, whatever its
/// frame; a window that does not gets none.
pub proof fn lemma_redraw_requested_iff_refresh(refresh: bool, frame_refresh: bool, has_frame: bool)
    ensures
        refresh ==> redraw_spec(refresh, frame_refresh, has_frame).len() > 0
            && redraw_spec(refresh, frame_refresh, has_frame).last() == RedrawStep::RequestRedraw,
        !refresh ==> !redraw_spec(refresh, frame_refresh, has_frame).contains(RedrawStep::RequestRedraw),
{
    if !refresh {
        assert(redraw_spec(refresh, frame_refresh, has_frame).contains(RedrawStep::RequestRedraw) ==> false) by {
            if has_frame && frame_refresh {
                assert(redraw_spec(refresh, frame_refresh, has_frame) =~= seq![RedrawStep::RefreshFrame, RedrawStep::CommitSurface]);
            } else {
                assert(redraw_spec(refresh, frame_refresh, has_frame) =~= Seq::<RedrawStep>::empty());
            }
        }
    }
}

} // verus!
