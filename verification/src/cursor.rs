//! The cursor shown over the application's surfaces.
use smithay_client_toolkit::reexports::client::protocol::wl_surface::WlSurface;
use smithay_client_toolkit::reexports::protocols::unstable::pointer_constraints::v1::client::zwp_locked_pointer_v1::ZwpLockedPointerV1;
use smithay_client_toolkit::reexports::protocols::unstable::pointer_constraints::v1::client::zwp_pointer_constraints_v1::ZwpPointerConstraintsV1;
use std::sync::{Arc, Mutex};
use vstd::prelude::*;

verus! {

/// The cursor shapes an application can ask for.
#[derive(Clone, Copy, Debug, PartialEq, Eq, Hash, Structural)]
pub enum CursorIcon {
    Alias,
    Arrow,
    Cell,
    Copy,
    Crosshair,
    Default,
    Hand,
    Help,
    Move,
    Grab,
    Grabbing,
    Progress,
    AllScroll,
    ContextMenu,
    NoDrop,
    NotAllowed,
    EResize,
    NResize,
    NeResize,
    NwResize,
    SResize,
    SeResize,
    SwResize,
    WResize,
    EwResize,
    NsResize,
    NwseResize,
    NeswResize,
    ColResize,
    RowResize,
    Text,
    VerticalText,
    Wait,
    ZoomIn,
    ZoomOut,
}

/// The shape used when nothing else was asked for.
pub fn default_cursor_icon() -> (icon: CursorIcon)
    ensures
        icon == CursorIcon::Default,
{
    CursorIcon::Default
}

/// The name under which a cursor theme provides the image of `icon`.
pub open spec fn cursor_theme_name(icon: CursorIcon) -> Seq<char> {
    match icon {
        CursorIcon::Alias => "link"@,
        CursorIcon::Arrow => "arrow"@,
        CursorIcon::Cell => "plus"@,
        CursorIcon::Copy => "copy"@,
        CursorIcon::Crosshair => "crosshair"@,
        CursorIcon::Default => "left_ptr"@,
        CursorIcon::Hand => "hand"@,
        CursorIcon::Help => "question_arrow"@,
        CursorIcon::Move => "move"@,
        CursorIcon::Grab => "grab"@,
        CursorIcon::Grabbing => "grabbing"@,
        CursorIcon::Progress => "progress"@,
        CursorIcon::AllScroll => "all-scroll"@,
        CursorIcon::ContextMenu => "context-menu"@,
        CursorIcon::NoDrop => "no-drop"@,
        CursorIcon::NotAllowed => "crossed_circle"@,
        CursorIcon::EResize => "right_side"@,
        CursorIcon::NResize => "top_side"@,
        CursorIcon::NeResize => "top_right_corner"@,
        CursorIcon::NwResize => "top_left_corner"@,
        CursorIcon::SResize => "bottom_side"@,
        CursorIcon::SeResize => "bottom_right_corner"@,
        CursorIcon::SwResize => "bottom_left_corner"@,
        CursorIcon::WResize => "left_side"@,
        CursorIcon::EwResize => "h_double_arrow"@,
        CursorIcon::NsResize => "v_double_arrow"@,
        CursorIcon::NwseResize => "bd_double_arrow"@,
        CursorIcon::NeswResize => "fd_double_arrow"@,
        CursorIcon::ColResize => "h_double_arrow"@,
        CursorIcon::RowResize => "v_double_arrow"@,
        CursorIcon::Text => "text"@,
        CursorIcon::VerticalText => "vertical-text"@,
        CursorIcon::Wait => "watch"@,
        CursorIcon::ZoomIn => "zoom-in"@,
        CursorIcon::ZoomOut => "zoom-out"@,
    }
}

/// What the pointers of the seats have to show after a change of the cursor state.
#[derive(Clone, Copy, Debug, PartialEq, Eq)]
pub enum PointerCursor {
    /// No cursor image is attached to the pointers.
    Hidden,
    /// The themed image of the given name is attached to the pointers.
    Themed(&'static str),
}

/// Whether `shown` is what the pointers show for the given visibility and shape.
pub open spec fn shows(shown: PointerCursor, visible: bool, icon: CursorIcon) -> bool {
    match shown {
        PointerCursor::Hidden => !visible,
        PointerCursor::Themed(name) => visible && name@ == cursor_theme_name(icon),
    }
}

/// The abstract cursor state: visibility, shape, scale of the cursor image,
/// and how many pointer locks are held.
pub struct CursorState {
    pub visible: bool,
    pub icon: CursorIcon,
    pub scale_factor: u32,
    pub locked_pointers: Seq<ZwpLockedPointerV1>,
    /// The pointer-constraints global that locks are obtained from.
    pub pointer_constraints: Arc<Mutex<Option<ZwpPointerConstraintsV1>>>,
}

/// The state after the cursor was shown (`true`) or hidden.
pub open spec fn with_visibility(s: CursorState, visible: bool) -> CursorState {
    CursorState { visible, ..s }
}

/// The state after the shape was set to `icon`.
pub open spec fn with_icon(s: CursorState, icon: CursorIcon) -> CursorState {
    CursorState { icon, ..s }
}

/// The state after the scale of the images was set to `scale`.
pub open spec fn with_scale(s: CursorState, scale: u32) -> CursorState {
    CursorState { scale_factor: scale, ..s }
}

/// What the pointers must show after the shape was set to `icon` in state `s`,
/// if they must change at all: only a new shape of a visible cursor shows.
pub open spec fn icon_change_shows(s: CursorState, icon: CursorIcon, shown: Option<PointerCursor>) -> bool {
    match shown {
        Some(p) => icon != s.icon && s.visible && shows(p, true, icon),
        None => icon == s.icon || !s.visible,
    }
}

/// The cursor state of the pointers: visibility, shape and scale of the image,
/// and the pointer locks that are currently held.
pub struct CursorManager {
    pointer_constraints_proxy: Arc<Mutex<Option<ZwpPointerConstraintsV1>>>,
    locked_pointers: Vec<ZwpLockedPointerV1>,
    cursor_visible: bool,
    current_cursor: CursorIcon,
    scale_factor: u32,
}

impl View for CursorManager {
    type V = CursorState;

    closed spec fn view(&self) -> CursorState {
        CursorState {
            visible: self.cursor_visible,
            icon: self.current_cursor,
            scale_factor: self.scale_factor,
            locked_pointers: self.locked_pointers@,
            pointer_constraints: self.pointer_constraints_proxy,
        }
    }
}

impl CursorManager {
    /// A visible default cursor at scale 1, with no pointer lock held, that
    /// obtains locks from `constraints`.
    pub fn new(constraints: Arc<Mutex<Option<ZwpPointerConstraintsV1>>>) -> (manager: CursorManager)
        ensures
            manager@ == (CursorState {
                visible: true,
                icon: CursorIcon::Default,
                scale_factor: 1,
                locked_pointers: Seq::empty(),
                pointer_constraints: constraints,
            }),
    {
        CursorManager {
            pointer_constraints_proxy: constraints,
            locked_pointers: Vec::new(),
            cursor_visible: true,
            current_cursor: default_cursor_icon(),
            scale_factor: 1,
        }
    }

    /// Hides the cursor or shows the current shape again.
    pub fn set_cursor_visible(&mut self, visible: bool) -> (shown: PointerCursor)
        ensures
            final(self)@ == with_visibility(old(self)@, visible),
            shows(shown, visible, old(self)@.icon),
    {
        let shown = if !visible {
            PointerCursor::Hidden
        } else {
            PointerCursor::Themed(self.set_cursor_icon_impl(self.current_cursor))
        };
        self.cursor_visible = visible;
        shown
    }

    /// Restores the cursor of the current state, as on a pointer entering a surface.
    pub fn reload_cursor_style(&mut self) -> (shown: PointerCursor)
        ensures
            final(self)@ == old(self)@,
            shows(shown, old(self)@.visible, old(self)@.icon),
    {
        if !self.cursor_visible {
            self.set_cursor_visible(false)
        } else {
            PointerCursor::Themed(self.set_cursor_icon_impl(self.current_cursor))
        }
    }

    /// Changes the shape; the pointers change only when the shape is new and
    /// the cursor is visible.
    pub fn set_cursor_icon(&mut self, cursor: CursorIcon) -> (shown: Option<PointerCursor>)
        ensures
            final(self)@ == with_icon(old(self)@, cursor),
            icon_change_shows(old(self)@, cursor, shown),
    {
        if cursor != self.current_cursor {
            self.current_cursor = cursor;
            if self.cursor_visible {
                return Some(PointerCursor::Themed(self.set_cursor_icon_impl(cursor)));
            }
        }
        None
    }

    /// Records a new scale for the cursor images and restores the cursor.
    pub fn update_scale_factor(&mut self, scale: u32) -> (shown: PointerCursor)
        ensures
            final(self)@ == with_scale(old(self)@, scale),
            shows(shown, old(self)@.visible, old(self)@.icon),
    {
        self.scale_factor = scale;
        self.reload_cursor_style()
    }

    /// The theme name of the image for `cursor`.
    pub fn set_cursor_icon_impl(&self, cursor: CursorIcon) -> (name: &'static str)
        ensures
            name@ == cursor_theme_name(cursor),
    {
        match cursor {
            CursorIcon::Alias => "link",
            CursorIcon::Arrow => "arrow",
            CursorIcon::Cell => "plus",
            CursorIcon::Copy => "copy",
            CursorIcon::Crosshair => "crosshair",
            CursorIcon::Default => "left_ptr",
            CursorIcon::Hand => "hand",
            CursorIcon::Help => "question_arrow",
            CursorIcon::Move => "move",
            CursorIcon::Grab => "grab",
            CursorIcon::Grabbing => "grabbing",
            CursorIcon::Progress => "progress",
            CursorIcon::AllScroll => "all-scroll",
            CursorIcon::ContextMenu => "context-menu",
            CursorIcon::NoDrop => "no-drop",
            CursorIcon::NotAllowed => "crossed_circle",
            CursorIcon::EResize => "right_side",
            CursorIcon::NResize => "top_side",
            CursorIcon::NeResize => "top_right_corner",
            CursorIcon::NwResize => "top_left_corner",
            CursorIcon::SResize => "bottom_side",
            CursorIcon::SeResize => "bottom_right_corner",
            CursorIcon::SwResize => "bottom_left_corner",
            CursorIcon::WResize => "left_side",
            CursorIcon::EwResize => "h_double_arrow",
            CursorIcon::NsResize => "v_double_arrow",
            CursorIcon::NwseResize => "bd_double_arrow",
            CursorIcon::NeswResize => "fd_double_arrow",
            CursorIcon::ColResize => "h_double_arrow",
            CursorIcon::RowResize => "v_double_arrow",
            CursorIcon::Text => "text",
            CursorIcon::VerticalText => "vertical-text",
            CursorIcon::Wait => "watch",
            CursorIcon::ZoomIn => "zoom-in",
            CursorIcon::ZoomOut => "zoom-out",
        }
    }

    /// Gives up every pointer lock held: the locks are handed back, in
    /// order, for the caller to send each its `destroy` request on the thread
    /// of the pointer-constraints event queue. A surface to lock the pointer on
    /// may be given; no new lock is taken.
    pub fn grab_pointer(&mut self, surface: Option<&WlSurface>) -> (released: Vec<ZwpLockedPointerV1>)
        ensures
            final(self)@ == (CursorState { locked_pointers: Seq::empty(), ..old(self)@ }),
            released@ == old(self)@.locked_pointers,
    {
        let mut released: Vec<ZwpLockedPointerV1> = Vec::new();
        std::mem::swap(&mut released, &mut self.locked_pointers);
        if let Some(_surface) = surface {
        }
        released
    }
}


/// A shape set while the cursor is hidden does not show, and shows as soon as
/// the cursor is shown again.
pub proof fn lemma_hidden_icon_shows_later(
    s: CursorState,
    icon: CursorIcon,
    on_set: Option<PointerCursor>,
    on_show: PointerCursor,
)
    requires
        !s.visible,
        icon_change_shows(s, icon, on_set),
        shows(on_show, true, with_icon(s, icon).icon),
    ensures
        on_set is None,
        on_show matches PointerCursor::Themed(name) && name@ == cursor_theme_name(icon),
        with_visibility(with_icon(s, icon), true).icon == icon,
{
}

/// Hiding and showing the cursor again leaves the state as it was, apart from
/// visibility, and shows the shape it had.
pub proof fn lemma_hide_then_show(s: CursorState, on_show: PointerCursor)
    requires
        shows(on_show, true, with_visibility(s, false).icon),
    ensures
        with_visibility(with_visibility(s, false), true) == with_visibility(s, true),
        on_show matches PointerCursor::Themed(name) && name@ == cursor_theme_name(s.icon),
{
}

/// Setting the shape the cursor already has changes nothing on the pointers.
pub proof fn lemma_same_icon_is_silent(s: CursorState, shown: Option<PointerCursor>)
    requires
        icon_change_shows(s, s.icon, shown),
    ensures
        shown is None,
        with_icon(s, s.icon) == s,
{
}

/// A change of scale keeps what the pointers show: the same cursor is shown
/// again, at the new scale.
pub proof fn lemma_rescale_keeps_cursor(s: CursorState, scale: u32, shown: PointerCursor)
    requires
        shows(shown, with_scale(s, scale).visible, with_scale(s, scale).icon),
    ensures
        shows(shown, s.visible, s.icon),
        with_scale(s, scale).icon == s.icon && with_scale(s, scale).visible == s.visible,
{
}


/// Each shape is drawn with the image of its fixed name in the cursor theme.
pub proof fn lemma_theme_names()
    ensures
        cursor_theme_name(CursorIcon::Alias) == "link"@,
        cursor_theme_name(CursorIcon::Arrow) == "arrow"@,
        cursor_theme_name(CursorIcon::Cell) == "plus"@,
        cursor_theme_name(CursorIcon::Copy) == "copy"@,
        cursor_theme_name(CursorIcon::Crosshair) == "crosshair"@,
        cursor_theme_name(CursorIcon::Default) == "left_ptr"@,
        cursor_theme_name(CursorIcon::Hand) == "hand"@,
        cursor_theme_name(CursorIcon::Help) == "question_arrow"@,
        cursor_theme_name(CursorIcon::Move) == "move"@,
        cursor_theme_name(CursorIcon::Grab) == "grab"@,
        cursor_theme_name(CursorIcon::Grabbing) == "grabbing"@,
        cursor_theme_name(CursorIcon::Progress) == "progress"@,
        cursor_theme_name(CursorIcon::AllScroll) == "all-scroll"@,
        cursor_theme_name(CursorIcon::ContextMenu) == "context-menu"@,
        cursor_theme_name(CursorIcon::NoDrop) == "no-drop"@,
        cursor_theme_name(CursorIcon::NotAllowed) == "crossed_circle"@,
        cursor_theme_name(CursorIcon::EResize) == "right_side"@,
        cursor_theme_name(CursorIcon::NResize) == "top_side"@,
        cursor_theme_name(CursorIcon::NeResize) == "top_right_corner"@,
        cursor_theme_name(CursorIcon::NwResize) == "top_left_corner"@,
        cursor_theme_name(CursorIcon::SResize) == "bottom_side"@,
        cursor_theme_name(CursorIcon::SeResize) == "bottom_right_corner"@,
        cursor_theme_name(CursorIcon::SwResize) == "bottom_left_corner"@,
        cursor_theme_name(CursorIcon::WResize) == "left_side"@,
        cursor_theme_name(CursorIcon::EwResize) == "h_double_arrow"@,
        cursor_theme_name(CursorIcon::NsResize) == "v_double_arrow"@,
        cursor_theme_name(CursorIcon::NwseResize) == "bd_double_arrow"@,
        cursor_theme_name(CursorIcon::NeswResize) == "fd_double_arrow"@,
        cursor_theme_name(CursorIcon::ColResize) == "h_double_arrow"@,
        cursor_theme_name(CursorIcon::RowResize) == "v_double_arrow"@,
        cursor_theme_name(CursorIcon::Text) == "text"@,
        cursor_theme_name(CursorIcon::VerticalText) == "vertical-text"@,
        cursor_theme_name(CursorIcon::Wait) == "watch"@,
        cursor_theme_name(CursorIcon::ZoomIn) == "zoom-in"@,
        cursor_theme_name(CursorIcon::ZoomOut) == "zoom-out"@,
{
}

} // verus!
