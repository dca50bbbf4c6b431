//! Window-level types: creation attributes and their defaults, creation
//! errors, cursor appearance and cursor-state transitions, and the cached
//! per-window geometry that position and size queries are answered from.

use vstd::prelude::*;

use crate::geometry::FrameExtentsHeuristic;
use crate::geometry::FrameExtentsHeuristicPath;
use crate::util::spec_sat_add_i32;

verus! {

/// Error that can happen while creating a window.
#[derive(Debug, Clone, PartialEq, Eq)]
pub enum CreationError {
    OsError(String),
    NotSupported,
}

impl CreationError {
    /// A human-readable description of the error.
    pub fn to_string(&self) -> (r: &str)
        ensures
            (self matches CreationError::OsError(text) ==> r@ == text@),
            self == CreationError::NotSupported ==> r@
                == "Some of the requested attributes are not supported"@,
    {
        match self {
            CreationError::OsError(text) => text.as_str(),
            CreationError::NotSupported => "Some of the requested attributes are not supported",
        }
    }
}

/// Describes the appearance of the mouse cursor.
#[derive(Debug, Copy, Clone, PartialEq, Eq, Structural, Hash)]
pub enum MouseCursor {
    /// The platform-dependent default cursor.
    Default,
    /// A simple crosshair.
    Crosshair,
    /// A hand, often indicating a link.
    Hand,
    Arrow,
    /// Something is to be moved.
    Move,
    /// Text that may be selected or edited.
    Text,
    /// Busy indicator.
    Wait,
    /// Help indicator.
    Help,
    /// Processing indicator that still allows interaction.
    Progress,
    /// Something cannot be done.
    NotAllowed,
    ContextMenu,
    Cell,
    VerticalText,
    Alias,
    Copy,
    NoDrop,
    Grab,
    Grabbing,
    AllScroll,
    ZoomIn,
    ZoomOut,
    /// An edge is to be moved, named for the edge the movement starts at.
    EResize,
    NResize,
    NeResize,
    NwResize,
    SResize,
    SeResize,
    SwResize,
    WResize,
    EwResize,
    NsResize,
    NeswResize,
    NwseResize,
    ColResize,
    RowResize,
}

impl Default for MouseCursor {
    fn default() -> (r: Self)
        ensures
            r == MouseCursor::Default,
    {
        MouseCursor::Default
    }
}

/// The cursor-theme names a cursor is looked up under, in preference
/// order: the first name a theme provides is used.
pub fn cursor_names(cursor: MouseCursor) -> (r: Vec<&'static str>)
    ensures
        r@.len() >= 1,
        cursor == MouseCursor::Default ==> r@.len() == 1 && r@[0]@ == "left_ptr"@,
        cursor == MouseCursor::Hand ==> r@.len() == 2 && r@[0]@ == "hand2"@ && r@[1]@ == "hand1"@,
        cursor == MouseCursor::Grab ==> r@.len() == 2 && r@[0]@ == "openhand"@ && r@[1]@
            == "grab"@,
        cursor == MouseCursor::Grabbing ==> r@.len() == 2 && r@[0]@ == "closedhand"@ && r@[1]@
            == "grabbing"@,
        cursor == MouseCursor::Text ==> r@.len() == 2 && r@[0]@ == "text"@ && r@[1]@ == "xterm"@,
        cursor == MouseCursor::Wait ==> r@.len() == 1 && r@[0]@ == "watch"@,
        cursor == MouseCursor::NotAllowed ==> r@.len() == 1 && r@[0]@ == "crossed_circle"@,
{
    let mut names: Vec<&'static str> = Vec::new();
    match cursor {
        MouseCursor::Alias => names.push("link"),
        MouseCursor::Arrow => names.push("arrow"),
        MouseCursor::Cell => names.push("plus"),
        MouseCursor::Copy => names.push("copy"),
        MouseCursor::Crosshair => names.push("crosshair"),
        MouseCursor::Default => names.push("left_ptr"),
        MouseCursor::Hand => {
            names.push("hand2");
            names.push("hand1");
        },
        MouseCursor::Help => names.push("question_arrow"),
        MouseCursor::Move => names.push("move"),
        MouseCursor::Grab => {
            names.push("openhand");
            names.push("grab");
        },
        MouseCursor::Grabbing => {
            names.push("closedhand");
            names.push("grabbing");
        },
        MouseCursor::Progress => names.push("left_ptr_watch"),
        MouseCursor::AllScroll => names.push("all-scroll"),
        MouseCursor::ContextMenu => names.push("context-menu"),
        MouseCursor::NoDrop => {
            names.push("no-drop");
            names.push("circle");
        },
        MouseCursor::NotAllowed => names.push("crossed_circle"),
        MouseCursor::EResize => names.push("right_side"),
        MouseCursor::NResize => names.push("top_side"),
        MouseCursor::NeResize => names.push("top_right_corner"),
        MouseCursor::NwResize => names.push("top_left_corner"),
        MouseCursor::SResize => names.push("bottom_side"),
        MouseCursor::SeResize => names.push("bottom_right_corner"),
        MouseCursor::SwResize => names.push("bottom_left_corner"),
        MouseCursor::WResize => names.push("left_side"),
        MouseCursor::EwResize => names.push("h_double_arrow"),
        MouseCursor::NsResize => names.push("v_double_arrow"),
        MouseCursor::NwseResize => {
            names.push("bd_double_arrow");
            names.push("size_bdiag");
        },
        MouseCursor::NeswResize => {
            names.push("fd_double_arrow");
            names.push("size_fdiag");
        },
        MouseCursor::ColResize => {
            names.push("split_h");
            names.push("h_double_arrow");
        },
        MouseCursor::RowResize => {
            names.push("split_v");
            names.push("v_double_arrow");
        },
        MouseCursor::Text => {
            names.push("text");
            names.push("xterm");
        },
        MouseCursor::VerticalText => names.push("vertical-text"),
        MouseCursor::Wait => names.push("watch"),
        MouseCursor::ZoomIn => names.push("zoom-in"),
        MouseCursor::ZoomOut => names.push("zoom-out"),
    }
    names
}

/// How a cursor is obtained from the native toolkit: a documented named
/// cursor, an undocumented selector, or a cursor image shipped with the
/// system web view.
#[derive(Debug, Copy, Clone, PartialEq, Eq, Hash)]
pub enum CursorType {
    Native(&'static str),
    Undocumented(&'static str),
    WebKit(&'static str),
}

/// The native cursor source of each portable cursor.
pub open spec fn spec_cursor_type(cursor: MouseCursor) -> CursorType {
    match cursor {
        MouseCursor::Arrow => CursorType::Native("arrowCursor"),
        MouseCursor::Default => CursorType::Native("arrowCursor"),
        MouseCursor::Hand => CursorType::Native("pointingHandCursor"),
        MouseCursor::Grabbing => CursorType::Native("closedHandCursor"),
        MouseCursor::Grab => CursorType::Native("closedHandCursor"),
        MouseCursor::Text => CursorType::Native("IBeamCursor"),
        MouseCursor::VerticalText => CursorType::Native("IBeamCursorForVerticalLayout"),
        MouseCursor::Copy => CursorType::Native("dragCopyCursor"),
        MouseCursor::Alias => CursorType::Native("dragLinkCursor"),
        MouseCursor::NotAllowed => CursorType::Native("operationNotAllowedCursor"),
        MouseCursor::NoDrop => CursorType::Native("operationNotAllowedCursor"),
        MouseCursor::ContextMenu => CursorType::Native("contextualMenuCursor"),
        MouseCursor::Crosshair => CursorType::Native("crosshairCursor"),
        MouseCursor::EResize => CursorType::Native("resizeRightCursor"),
        MouseCursor::NResize => CursorType::Native("resizeUpCursor"),
        MouseCursor::WResize => CursorType::Native("resizeLeftCursor"),
        MouseCursor::SResize => CursorType::Native("resizeDownCursor"),
        MouseCursor::EwResize => CursorType::Native("resizeLeftRightCursor"),
        MouseCursor::ColResize => CursorType::Native("resizeLeftRightCursor"),
        MouseCursor::NsResize => CursorType::Native("resizeUpDownCursor"),
        MouseCursor::RowResize => CursorType::Native("resizeUpDownCursor"),
        MouseCursor::Help => CursorType::Undocumented("_helpCursor"),
        MouseCursor::ZoomIn => CursorType::Undocumented("_zoomInCursor"),
        MouseCursor::ZoomOut => CursorType::Undocumented("_zoomOutCursor"),
        MouseCursor::NeResize => CursorType::Undocumented("_windowResizeNorthEastCursor"),
        MouseCursor::NwResize => CursorType::Undocumented("_windowResizeNorthWestCursor"),
        MouseCursor::SeResize => CursorType::Undocumented("_windowResizeSouthEastCursor"),
        MouseCursor::SwResize => CursorType::Undocumented("_windowResizeSouthWestCursor"),
        MouseCursor::NeswResize => CursorType::Undocumented(
            "_windowResizeNorthEastSouthWestCursor",
        ),
        MouseCursor::NwseResize => CursorType::Undocumented(
            "_windowResizeNorthWestSouthEastCursor",
        ),
        MouseCursor::Wait => CursorType::Undocumented("busyButClickableCursor"),
        MouseCursor::Progress => CursorType::Undocumented("busyButClickableCursor"),
        MouseCursor::Move => CursorType::WebKit("move"),
        MouseCursor::AllScroll => CursorType::WebKit("move"),
        MouseCursor::Cell => CursorType::WebKit("cell"),
    }
}

impl CursorType {
    /// The native cursor source of a portable cursor.
    pub fn from(cursor: MouseCursor) -> (r: CursorType)
        ensures
            r == spec_cursor_type(cursor),
    {
        match cursor {
            MouseCursor::Arrow | MouseCursor::Default => CursorType::Native("arrowCursor"),
            MouseCursor::Hand => CursorType::Native("pointingHandCursor"),
            MouseCursor::Grabbing | MouseCursor::Grab => CursorType::Native("closedHandCursor"),
            MouseCursor::Text => CursorType::Native("IBeamCursor"),
            MouseCursor::VerticalText => CursorType::Native("IBeamCursorForVerticalLayout"),
            MouseCursor::Copy => CursorType::Native("dragCopyCursor"),
            MouseCursor::Alias => CursorType::Native("dragLinkCursor"),
            MouseCursor::NotAllowed | MouseCursor::NoDrop => CursorType::Native(
                "operationNotAllowedCursor",
            ),
            MouseCursor::ContextMenu => CursorType::Native("contextualMenuCursor"),
            MouseCursor::Crosshair => CursorType::Native("crosshairCursor"),
            MouseCursor::EResize => CursorType::Native("resizeRightCursor"),
            MouseCursor::NResize => CursorType::Native("resizeUpCursor"),
            MouseCursor::WResize => CursorType::Native("resizeLeftCursor"),
            MouseCursor::SResize => CursorType::Native("resizeDownCursor"),
            MouseCursor::EwResize | MouseCursor::ColResize => CursorType::Native(
                "resizeLeftRightCursor",
            ),
            MouseCursor::NsResize | MouseCursor::RowResize => CursorType::Native(
                "resizeUpDownCursor",
            ),
            MouseCursor::Help => CursorType::Undocumented("_helpCursor"),
            MouseCursor::ZoomIn => CursorType::Undocumented("_zoomInCursor"),
            MouseCursor::ZoomOut => CursorType::Undocumented("_zoomOutCursor"),
            MouseCursor::NeResize => CursorType::Undocumented("_windowResizeNorthEastCursor"),
            MouseCursor::NwResize => CursorType::Undocumented("_windowResizeNorthWestCursor"),
            MouseCursor::SeResize => CursorType::Undocumented("_windowResizeSouthEastCursor"),
            MouseCursor::SwResize => CursorType::Undocumented("_windowResizeSouthWestCursor"),
            MouseCursor::NeswResize => CursorType::Undocumented(
                "_windowResizeNorthEastSouthWestCursor",
            ),
            MouseCursor::NwseResize => CursorType::Undocumented(
                "_windowResizeNorthWestSouthEastCursor",
            ),
            MouseCursor::Wait | MouseCursor::Progress => CursorType::Undocumented(
                "busyButClickableCursor",
            ),
            MouseCursor::Move | MouseCursor::AllScroll => CursorType::WebKit("move"),
            MouseCursor::Cell => CursorType::WebKit("cell"),
        }
    }
}

/// Platform-specific window-creation attributes: the screen to create the
/// window on, when it is not the default one.
#[derive(Debug, Copy, Clone, PartialEq, Eq, Structural, Default)]
pub struct PlatformSpecificWindowBuilderAttributes {
    pub screen_id: Option<i32>,
}

/// How the cursor behaves over a window.
#[derive(Debug, Copy, Clone, PartialEq, Eq, Structural, Hash)]
pub enum CursorState {
    /// Visible and free.
    Normal,
    /// Confined to the window.
    Grab,
    /// Hidden.
    Hide,
}

/// The native steps of a cursor-state change, in order: possibly release
/// the pointer grab of the old state, possibly restore the visible cursor
/// hidden by the old state, then apply the new state.
#[derive(Debug, Copy, Clone, PartialEq, Eq, Structural)]
pub struct CursorStatePlan {
    /// The old state held a grab that must be released first.
    pub ungrab_first: bool,
    /// The old state hid the cursor, which must be restored.
    pub restore_cursor: bool,
    /// The new state hides the cursor.
    pub hide_cursor: bool,
    /// The new state takes a pointer grab (preceded by a release, so a
    /// passive grab cannot make the grab report itself as already held).
    pub grab: bool,
}

/// The cursor-state transition: `None` when the state does not change, so
/// that no native call is issued; otherwise the plan of native steps.
pub fn cursor_state_plan(current: CursorState, requested: CursorState) -> (r: Option<
    CursorStatePlan,
>)
    ensures
        current == requested ==> r is None,
        current != requested ==> r == Some(
            CursorStatePlan {
                ungrab_first: current == CursorState::Grab,
                restore_cursor: current == CursorState::Hide,
                hide_cursor: requested == CursorState::Hide,
                grab: requested == CursorState::Grab,
            },
        ),
{
    if current == requested {
        None
    } else {
        Some(
            CursorStatePlan {
                ungrab_first: matches!(current, CursorState::Grab),
                restore_cursor: matches!(current, CursorState::Hide),
                hide_cursor: matches!(requested, CursorState::Hide),
                grab: matches!(requested, CursorState::Grab),
            },
        )
    }
}

/// Interprets a native pointer-grab status: zero reports success; the
/// four documented failure codes — and, defensively, any other value —
/// report that the cursor could not be grabbed.
pub fn grab_status_result(status: i32) -> (r: Result<(), String>)
    ensures
        status == 0 ==> r is Ok,
        status != 0 ==> (r matches Err(msg) && msg@ == "cursor could not be grabbed"@),
{
    if status == 0 {
        Ok(())
    } else {
        Err(String::from_str("cursor could not be grabbed"))
    }
}

/// A native window's identity: the window handle, the root it lives
/// under, and the screen it was created on.
#[derive(Debug, Copy, Clone, PartialEq, Eq, Structural)]
pub struct XWindow {
    pub window: u64,
    pub root: u64,
    pub screen_id: i32,
}

/// Cached per-window geometry, filled from configure events and geometry
/// queries and invalidated when decorations change.
#[derive(Debug, Clone, PartialEq)]
pub struct SharedState {
    pub frame_extents: Option<FrameExtentsHeuristic>,
    pub inner_position: Option<(i32, i32)>,
    pub inner_size: Option<(u32, u32)>,
}

impl SharedState {
    /// An empty cache.
    pub fn new() -> (r: Self)
        ensures
            r.frame_extents is None,
            r.inner_position is None,
            r.inner_size is None,
    {
        SharedState { frame_extents: None, inner_position: None, inner_size: None }
    }

    /// Whether the cached extents are small enough for the position and
    /// size conversions.
    pub open spec fn extents_bounded(&self) -> bool {
        self.frame_extents matches Some(h) ==> {
            &&& h.frame_extents.left <= i32::MAX
            &&& h.frame_extents.top <= i32::MAX
            &&& h.frame_extents.left + h.frame_extents.right <= u32::MAX
            &&& h.frame_extents.top + h.frame_extents.bottom <= u32::MAX
        }
    }

    /// The window's outer position, answered from the cache: the cached
    /// inner position converted through the cached frame extents. `None`
    /// when either is missing, in which case the caller must fill the
    /// cache first.
    pub fn cached_position(&self) -> (r: Option<(i32, i32)>)
        requires
            self.extents_bounded(),
            self.frame_extents matches Some(h) ==> (self.inner_position matches Some(pos)
                ==> pos.0 - h.frame_extents.left >= i32::MIN && pos.1 - h.frame_extents.top
                >= i32::MIN),
        ensures
            !(self.frame_extents is Some && self.inner_position is Some) ==> r is None,
            self.frame_extents matches Some(h) ==> (self.inner_position matches Some(pos) ==> {
                &&& (h.heuristic_path != FrameExtentsHeuristicPath::UnsupportedBordered ==> r
                    == Some(
                    (
                        ((pos.0 - h.frame_extents.left) as i32),
                        ((pos.1 - h.frame_extents.top) as i32),
                    ),
                ))
                &&& (h.heuristic_path == FrameExtentsHeuristicPath::UnsupportedBordered ==> r
                    == Some(pos))
            }),
    {
        match (&self.frame_extents, &self.inner_position) {
            (Some(extents), Some(pos)) => Some(extents.inner_pos_to_outer(pos.0, pos.1)),
            _ => None,
        }
    }

    /// The window's inner position, answered from the cache.
    pub fn cached_inner_position(&self) -> (r: Option<(i32, i32)>)
        ensures
            r == self.inner_position,
    {
        self.inner_position
    }

    /// The window's inner size, answered from the cache.
    pub fn cached_inner_size(&self) -> (r: Option<(u32, u32)>)
        ensures
            r == self.inner_size,
    {
        self.inner_size
    }

    /// The window's outer size, answered from the cache: the cached inner
    /// size grown by the cached frame extents. `None` when either is
    /// missing.
    pub fn cached_outer_size(&self) -> (r: Option<(u32, u32)>)
        requires
            self.extents_bounded(),
        ensures
            !(self.frame_extents is Some && self.inner_size is Some) ==> r is None,
            self.frame_extents matches Some(h) ==> (self.inner_size matches Some(size) ==> r
                == Some(
                (
                    size.0.saturating_add(
                        h.frame_extents.left.saturating_add(h.frame_extents.right) as u32,
                    ),
                    size.1.saturating_add(
                        h.frame_extents.top.saturating_add(h.frame_extents.bottom) as u32,
                    ),
                ),
            )),
    {
        match (&self.frame_extents, &self.inner_size) {
            (Some(extents), Some(size)) => Some(extents.inner_size_to_outer(size.0, size.1)),
            _ => None,
        }
    }

    /// Drops the cached frame extents, forcing the next query to re-run
    /// the heuristic.
    pub fn invalidate_frame_extents(&mut self)
        ensures
            final(self).frame_extents is None,
            final(self).inner_position == old(self).inner_position,
            final(self).inner_size == old(self).inner_size,
    {
        self.frame_extents = None;
    }
}

/// The position a move request must actually ask for: window managers
/// that interpret a move as placing the client area need the left/top
/// frame margins added back in.
pub fn adjust_position_for_wm(
    x: i32,
    y: i32,
    wm_adjusts_client_area: bool,
    extents: &FrameExtentsHeuristic,
) -> (r: (i32, i32))
    requires
        extents.frame_extents.left <= i32::MAX,
        extents.frame_extents.top <= i32::MAX,
    ensures
        !wm_adjusts_client_area ==> r == (x, y),
        wm_adjusts_client_area ==> r.0 as int == spec_sat_add_i32(
            x as int,
            extents.frame_extents.left as int,
        ) && r.1 as int == spec_sat_add_i32(y as int, extents.frame_extents.top as int),
{
    if wm_adjusts_client_area {
        (
            crate::util::sat_add_i32(x, extents.frame_extents.left as i32),
            crate::util::sat_add_i32(y, extents.frame_extents.top as i32),
        )
    } else {
        (x, y)
    }
}

/// The initial size a window is created with: the requested dimensions
/// (or the standard default), clamped to the maximum and then to the
/// minimum, since the display server applies size constraints only to
/// interactive resizes.
pub fn initial_dimensions(
    requested: Option<(u32, u32)>,
    min_dimensions: Option<(u32, u32)>,
    max_dimensions: Option<(u32, u32)>,
) -> (r: (u32, u32))
    ensures
        ({
            let base = (match requested {
                Some(dims) => dims,
                None => (800u32, 600u32),
            });
            let capped = (match max_dimensions {
                Some(max) => (
                    (if base.0 < max.0 {
                        base.0
                    } else {
                        max.0
                    }),
                    (if base.1 < max.1 {
                        base.1
                    } else {
                        max.1
                    }),
                ),
                None => base,
            });
            r == (match min_dimensions {
                Some(min) => (
                    (if capped.0 > min.0 {
                        capped.0
                    } else {
                        min.0
                    }),
                    (if capped.1 > min.1 {
                        capped.1
                    } else {
                        min.1
                    }),
                ),
                None => capped,
            })
        }),
{
    let mut dims: (u32, u32) = match requested {
        Some(d) => d,
        None => (800, 600),
    };
    if let Some(max) = max_dimensions {
        dims.0 = if dims.0 < max.0 {
            dims.0
        } else {
            max.0
        };
        dims.1 = if dims.1 < max.1 {
            dims.1
        } else {
            max.1
        };
    }
    if let Some(min) = min_dimensions {
        dims.0 = if dims.0 > min.0 {
            dims.0
        } else {
            min.0
        };
        dims.1 = if dims.1 > min.1 {
            dims.1
        } else {
            min.1
        };
    }
    dims
}

/// Size-hint flag: the program specified a size.
pub const P_SIZE_FLAG: i64 = 8;

/// Size-hint flag: the program specified a minimum size.
pub const P_MIN_SIZE_FLAG: i64 = 16;

/// Size-hint flag: the program specified a maximum size.
pub const P_MAX_SIZE_FLAG: i64 = 32;

/// The size-hint flags a newly created window advertises: its size
/// always, and the minimum and maximum exactly when they are constrained.
pub fn size_hint_flags(min_present: bool, max_present: bool) -> (r: i64)
    ensures
        r == P_SIZE_FLAG + (if min_present {
            P_MIN_SIZE_FLAG
        } else {
            0
        }) + (if max_present {
            P_MAX_SIZE_FLAG
        } else {
            0
        }),
{
    // The three flags are disjoint bits, so setting them is addition.
    let mut flags: i64 = P_SIZE_FLAG;
    if min_present {
        flags = flags + P_MIN_SIZE_FLAG;
    }
    if max_present {
        flags = flags + P_MAX_SIZE_FLAG;
    }
    flags
}

/// Input-extension event mask bit for pointer motion.
pub const XI_MOTION_MASK: i32 = 1 << 6;

/// Input-extension event mask bit for button press.
pub const XI_BUTTON_PRESS_MASK: i32 = 1 << 4;

/// Input-extension event mask bit for button release.
pub const XI_BUTTON_RELEASE_MASK: i32 = 1 << 5;

/// Input-extension event mask bit for the pointer entering the window.
pub const XI_ENTER_MASK: i32 = 1 << 7;

/// Input-extension event mask bit for the pointer leaving the window.
pub const XI_LEAVE_MASK: i32 = 1 << 8;

/// Input-extension event mask bit for keyboard focus gained.
pub const XI_FOCUS_IN_MASK: i32 = 1 << 9;

/// Input-extension event mask bit for keyboard focus lost.
pub const XI_FOCUS_OUT_MASK: i32 = 1 << 10;

/// Input-extension event mask bit for a touch beginning.
pub const XI_TOUCH_BEGIN_MASK: i32 = 1 << 18;

/// Input-extension event mask bit for a touch moving.
pub const XI_TOUCH_UPDATE_MASK: i32 = 1 << 19;

/// Input-extension event mask bit for a touch ending.
pub const XI_TOUCH_END_MASK: i32 = 1 << 20;

/// The input-extension events a window subscribes to: pointer, crossing
/// and focus events always, and the touch events exactly when multitouch
/// was requested.
pub fn xinput_event_mask(multitouch: bool) -> (r: i32)
    ensures
        !multitouch ==> r == (XI_MOTION_MASK | XI_BUTTON_PRESS_MASK | XI_BUTTON_RELEASE_MASK
            | XI_ENTER_MASK | XI_LEAVE_MASK | XI_FOCUS_IN_MASK | XI_FOCUS_OUT_MASK),
        multitouch ==> r == (XI_MOTION_MASK | XI_BUTTON_PRESS_MASK | XI_BUTTON_RELEASE_MASK
            | XI_ENTER_MASK | XI_LEAVE_MASK | XI_FOCUS_IN_MASK | XI_FOCUS_OUT_MASK
            | XI_TOUCH_BEGIN_MASK | XI_TOUCH_UPDATE_MASK | XI_TOUCH_END_MASK),
{
    let mut mask: i32 = XI_MOTION_MASK | XI_BUTTON_PRESS_MASK | XI_BUTTON_RELEASE_MASK
        | XI_ENTER_MASK | XI_LEAVE_MASK | XI_FOCUS_IN_MASK | XI_FOCUS_OUT_MASK;
    if multitouch {
        mask = mask | XI_TOUCH_BEGIN_MASK | XI_TOUCH_UPDATE_MASK | XI_TOUCH_END_MASK;
    }
    mask
}

/// Attributes a window is created with; pass-through configuration for
/// the native window.
#[derive(Debug, Clone, PartialEq)]
pub struct WindowAttributes {
    /// Requested dimensions in physical pixels; platform defaults apply
    /// when absent.
    pub dimensions: Option<(u32, u32)>,
    /// Minimum dimensions, when constrained.
    pub min_dimensions: Option<(u32, u32)>,
    /// Maximum dimensions, when constrained.
    pub max_dimensions: Option<(u32, u32)>,
    /// Whether the window can be resized.
    pub resizable: bool,
    /// The monitor to cover fullscreen, by native identifier.
    pub fullscreen: Option<u32>,
    /// The title shown in the title bar.
    pub title: String,
    /// Whether the window starts maximized.
    pub maximized: bool,
    /// Whether the window is shown immediately.
    pub visible: bool,
    /// Whether alpha rendering shows through.
    pub transparent: bool,
    /// Whether the window has decorations.
    pub decorations: bool,
    /// Whether the window stays above the others.
    pub always_on_top: bool,
    /// Whether multitouch events are delivered.
    pub multitouch: bool,
}

impl Default for WindowAttributes {
    fn default() -> (r: WindowAttributes)
        ensures
            r.dimensions is None,
            r.min_dimensions is None,
            r.max_dimensions is None,
            r.resizable,
            r.fullscreen is None,
            r.title@ == "winit window"@,
            !r.maximized,
            r.visible,
            !r.transparent,
            r.decorations,
            !r.always_on_top,
            !r.multitouch,
    {
        WindowAttributes {
            dimensions: None,
            min_dimensions: None,
            max_dimensions: None,
            resizable: true,
            fullscreen: None,
            title: String::from_str("winit window"),
            maximized: false,
            visible: true,
            transparent: false,
            decorations: true,
            always_on_top: false,
            multitouch: false,
        }
    }
}

} // verus!
