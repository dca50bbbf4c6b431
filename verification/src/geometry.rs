//! Window geometry: frame extents, the three-tier frame-extents heuristic,
//! and the derived inner/outer positions and sizes.
//!
//! Window managers differ in how (and whether) they report the margins their
//! decorations add around a window's client area. The heuristic prefers the
//! server-reported extents property; failing that it diffs nested and outer
//! geometry; failing that it falls back to the raw border width.

use vstd::prelude::*;

verus! {

/// Raw result of translating a window's origin to root coordinates.
#[derive(Debug, Copy, Clone, PartialEq, Eq, Structural)]
pub struct TranslatedCoords {
    pub x_rel_root: i32,
    pub y_rel_root: i32,
    /// The direct child of the root that contains the window, or the window
    /// itself when it is not reparented.
    pub child: u64,
}

/// Raw result of querying a window's geometry.
#[derive(Debug, Copy, Clone, PartialEq, Eq, Structural)]
pub struct Geometry {
    pub root: u64,
    pub x_rel_parent: i32,
    pub y_rel_parent: i32,
    pub width: u32,
    pub height: u32,
    pub border: u32,
    pub depth: u32,
}

/// The pixel margins a window manager's decorations add on each side of a
/// window's client area.
#[derive(Debug, Copy, Clone, PartialEq, Eq, Structural)]
pub struct FrameExtents {
    pub left: u64,
    pub right: u64,
    pub top: u64,
    pub bottom: u64,
}

impl FrameExtents {
    pub fn new(left: u64, right: u64, top: u64, bottom: u64) -> (r: Self)
        ensures
            r == (FrameExtents { left, right, top, bottom }),
    {
        FrameExtents { left, right, top, bottom }
    }

    /// Extents of a window whose only decoration is a uniform border.
    pub fn from_border(border: u64) -> (r: Self)
        ensures
            r == (FrameExtents { left: border, right: border, top: border, bottom: border }),
    {
        Self::new(border, border, border, border)
    }
}

/// Which of the three signals the heuristic ended up using.
#[derive(Debug, Copy, Clone, PartialEq, Eq, Structural)]
pub enum FrameExtentsHeuristicPath {
    /// The window manager reports the extents property.
    Supported,
    /// No extents property, but the window is reparented: extents are
    /// inferred by diffing nested and outer geometry.
    UnsupportedNested,
    /// No extents property and no reparenting: the raw border width stands
    /// in for all four extents.
    UnsupportedBordered,
}

/// Frame extents together with the signal they were derived from.
#[derive(Debug, Copy, Clone, PartialEq, Eq, Structural)]
pub struct FrameExtentsHeuristic {
    pub frame_extents: FrameExtents,
    pub heuristic_path: FrameExtentsHeuristicPath,
}

impl FrameExtentsHeuristic {
    /// Converts an inner (client-area) position to the outer (frame)
    /// position by backing out the left/top margins. Under the bordered
    /// fallback the position is already the frame position.
    pub fn inner_pos_to_outer(&self, x: i32, y: i32) -> (r: (i32, i32))
        requires
            self.frame_extents.left <= i32::MAX,
            self.frame_extents.top <= i32::MAX,
            x - self.frame_extents.left >= i32::MIN,
            y - self.frame_extents.top >= i32::MIN,
        ensures
            self.heuristic_path != FrameExtentsHeuristicPath::UnsupportedBordered ==> r == (
                ((x - self.frame_extents.left) as i32),
                ((y - self.frame_extents.top) as i32),
            ),
            self.heuristic_path == FrameExtentsHeuristicPath::UnsupportedBordered ==> r == (x, y),
    {
        if self.heuristic_path != FrameExtentsHeuristicPath::UnsupportedBordered {
            let ox: i64 = (x as i64) - (self.frame_extents.left as i64);
            let oy: i64 = (y as i64) - (self.frame_extents.top as i64);
            (ox as i32, oy as i32)
        } else {
            (x, y)
        }
    }

    /// Converts an inner (client-area) size to the outer (frame) size by
    /// adding the margins, saturating at the type bounds.
    pub fn inner_size_to_outer(&self, width: u32, height: u32) -> (r: (u32, u32))
        requires
            self.frame_extents.left + self.frame_extents.right <= u32::MAX,
            self.frame_extents.top + self.frame_extents.bottom <= u32::MAX,
        ensures
            r.0 == width.saturating_add(
                self.frame_extents.left.saturating_add(self.frame_extents.right) as u32,
            ),
            r.1 == height.saturating_add(
                self.frame_extents.top.saturating_add(self.frame_extents.bottom) as u32,
            ),
    {
        let horizontal: u64 = self.frame_extents.left.saturating_add(self.frame_extents.right);
        let vertical: u64 = self.frame_extents.top.saturating_add(self.frame_extents.bottom);
        (
            width.saturating_add(horizontal as u32),
            height.saturating_add(vertical as u32),
        )
    }
}

/// Outer geometry obtained by climbing to the outermost window below the
/// root, used when the extents property is unsupported but the window is
/// nested.
#[derive(Debug, Copy, Clone, PartialEq, Eq, Structural)]
pub struct OuterGeometry {
    pub y_rel_parent: i32,
    pub width: u32,
    pub height: u32,
}

/// Whether the window counts as nested: it is reparented below some frame
/// window, rather than sitting directly under the root or being listed as a
/// top-level client itself.
pub open spec fn spec_is_nested(window: u64, child: u64, child_is_top_level: Option<bool>) -> bool {
    !(window == child || child_is_top_level == Some(true))
}

/// The top margin inferred from the vertical offset between the inner
/// window and the outer frame, clamped at zero.
pub open spec fn spec_nested_top(inner_y_rel_root: int, outer_y: int) -> int {
    if inner_y_rel_root - outer_y >= 0 {
        inner_y_rel_root - outer_y
    } else {
        0
    }
}

/// The three-tier frame-extents decision, on the values the adapter
/// queried from the server:
///
/// 1. If the window manager reports the extents property, use it — except
///    that an un-nested window keeps its decorated extents in some window
///    managers even when decorations are off, so un-nested windows get zero
///    extents.
/// 2. Otherwise, if the window is nested, infer the extents by diffing the
///    outer and inner geometry: the horizontal difference splits into equal
///    left/right margins, the vertical offset gives the top margin, and the
///    rest of the vertical difference is the bottom margin.
/// 3. Otherwise fall back to the raw border width on all four sides.
pub fn get_frame_extents_heuristic(
    window: u64,
    translated: TranslatedCoords,
    inner_width: u32,
    inner_height: u32,
    border: u32,
    child_is_top_level: Option<bool>,
    server_extents: Option<FrameExtents>,
    outer_geometry: Option<OuterGeometry>,
) -> (r: FrameExtentsHeuristic)
    requires
        server_extents is None && spec_is_nested(window, translated.child, child_is_top_level)
            ==> outer_geometry is Some,
    ensures
        ({
            let nested = spec_is_nested(window, translated.child, child_is_top_level);
            &&& (server_extents is Some && nested ==> r == (FrameExtentsHeuristic {
                frame_extents: server_extents->Some_0,
                heuristic_path: FrameExtentsHeuristicPath::Supported,
            }))
            &&& (server_extents is Some && !nested ==> r == (FrameExtentsHeuristic {
                frame_extents: FrameExtents { left: 0, right: 0, top: 0, bottom: 0 },
                heuristic_path: FrameExtentsHeuristicPath::Supported,
            }))
            &&& (server_extents is None && nested ==> {
                let outer = outer_geometry->Some_0;
                &&& r.heuristic_path == FrameExtentsHeuristicPath::UnsupportedNested
                &&& r.frame_extents.left == outer.width.saturating_sub(inner_width) / 2
                &&& r.frame_extents.right == r.frame_extents.left
                &&& r.frame_extents.top == spec_nested_top(
                    translated.y_rel_root as int,
                    outer.y_rel_parent as int,
                )
                &&& r.frame_extents.bottom == (outer.height.saturating_sub(inner_height) as u32)
                    .saturating_sub(spec_nested_top(
                        translated.y_rel_root as int,
                        outer.y_rel_parent as int,
                    ) as u32)
            })
            &&& (server_extents is None && !nested ==> r == (FrameExtentsHeuristic {
                frame_extents: FrameExtents {
                    left: border as u64,
                    right: border as u64,
                    top: border as u64,
                    bottom: border as u64,
                },
                heuristic_path: FrameExtentsHeuristicPath::UnsupportedBordered,
            }))
        }),
{
    let nested = !(window == translated.child || matches!(child_is_top_level, Some(true)));
    match server_extents {
        Some(extents) => {
            let frame_extents = if nested {
                extents
            } else {
                FrameExtents::new(0, 0, 0, 0)
            };
            FrameExtentsHeuristic {
                frame_extents,
                heuristic_path: FrameExtentsHeuristicPath::Supported,
            }
        },
        None => {
            if nested {
                let outer = outer_geometry.unwrap();
                let diff_x: u32 = outer.width.saturating_sub(inner_width);
                let diff_y: u32 = outer.height.saturating_sub(inner_height);
                let offset_y: u32 = if translated.y_rel_root >= outer.y_rel_parent {
                    ((translated.y_rel_root as i64) - (outer.y_rel_parent as i64)) as u32
                } else {
                    0
                };
                let left: u32 = diff_x / 2;
                FrameExtentsHeuristic {
                    frame_extents: FrameExtents::new(
                        left as u64,
                        left as u64,
                        offset_y as u64,
                        diff_y.saturating_sub(offset_y) as u64,
                    ),
                    heuristic_path: FrameExtentsHeuristicPath::UnsupportedNested,
                }
            } else {
                FrameExtentsHeuristic {
                    frame_extents: FrameExtents::from_border(border as u64),
                    heuristic_path: FrameExtentsHeuristicPath::UnsupportedBordered,
                }
            }
        },
    }
}

/// Cached geometry of one window: position and size of the client area and
/// the frame margins around it.
#[derive(Debug, Copy, Clone, PartialEq, Eq, Structural)]
pub struct WindowGeometry {
    pub x: i32,
    pub y: i32,
    pub width: u32,
    pub height: u32,
    pub frame: FrameExtents,
}

impl WindowGeometry {
    /// Position of the outer frame.
    pub fn get_position(&self) -> (r: (i32, i32))
        ensures
            r == (self.x, self.y),
    {
        (self.x, self.y)
    }

    /// Position of the client area: the frame position plus the left/top
    /// margins, saturating at the type bounds.
    pub fn get_inner_position(&self) -> (r: (i32, i32))
        requires
            self.frame.left <= i32::MAX,
            self.frame.top <= i32::MAX,
        ensures
            r.0 as int == crate::util::spec_sat_add_i32(self.x as int, self.frame.left as int),
            r.1 as int == crate::util::spec_sat_add_i32(self.y as int, self.frame.top as int),
    {
        (
            crate::util::sat_add_i32(self.x, self.frame.left as i32),
            crate::util::sat_add_i32(self.y, self.frame.top as i32),
        )
    }

    /// Size of the client area.
    pub fn get_inner_size(&self) -> (r: (u32, u32))
        ensures
            r == (self.width, self.height),
    {
        (self.width, self.height)
    }

    /// Size of the outer frame: the client area plus the margins on both
    /// axes, saturating at the type bounds.
    pub fn get_outer_size(&self) -> (r: (u32, u32))
        requires
            self.frame.left + self.frame.right <= u32::MAX,
            self.frame.top + self.frame.bottom <= u32::MAX,
        ensures
            r.0 == self.width.saturating_add(self.frame.left.saturating_add(self.frame.right) as u32),
            r.1 == self.height.saturating_add(self.frame.top.saturating_add(self.frame.bottom) as u32),
    {
        (
            self.width.saturating_add(self.frame.left.saturating_add(self.frame.right) as u32),
            self.height.saturating_add(self.frame.top.saturating_add(self.frame.bottom) as u32),
        )
    }
}

} // verus!
