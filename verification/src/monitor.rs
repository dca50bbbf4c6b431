//! Monitors: their identity and geometry, the primary-monitor pick, and
//! the rule selecting the monitor a window is considered to be on — the
//! one its outer rectangle overlaps the most.

use vstd::prelude::*;

verus! {

/// One monitor: native identifier, name, size and position in the screen
/// space, and whether it is the primary one.
#[derive(Debug, PartialEq, Eq)]
pub struct MonitorId {
    pub id: u32,
    pub name: String,
    pub dimensions: (u32, u32),
    pub position: (i32, i32),
    pub primary: bool,
}

impl MonitorId {
    /// The monitor's name.
    pub fn get_name(&self) -> (r: Option<String>)
        ensures
            r matches Some(name) && name@ == self.name@,
    {
        Some(self.name.clone())
    }

    /// The native identifier.
    pub fn get_native_identifier(&self) -> (r: u32)
        ensures
            r == self.id,
    {
        self.id
    }

    /// The size in physical pixels.
    pub fn get_dimensions(&self) -> (r: (u32, u32))
        ensures
            r == self.dimensions,
    {
        self.dimensions
    }

    /// The position in the screen space.
    pub fn get_position(&self) -> (r: (i32, i32))
        ensures
            r == self.position,
    {
        self.position
    }
}

/// Whether some monitor on the list is marked primary.
pub open spec fn has_primary(monitors: Seq<MonitorId>) -> bool {
    exists|i: int| 0 <= i < monitors.len() && (#[trigger] monitors[i]).primary
}

/// Whether `i` is the first monitor marked primary.
pub open spec fn is_first_primary(monitors: Seq<MonitorId>, i: int) -> bool {
    &&& 0 <= i < monitors.len()
    &&& monitors[i].primary
    &&& forall|j: int| 0 <= j < i ==> !(#[trigger] monitors[j]).primary
}

/// Picks the primary monitor: the first one marked primary, or — since a
/// missing primary is better handled by picking some existing monitor —
/// the first monitor of the list.
pub fn primary_monitor_index(monitors: &Vec<MonitorId>) -> (r: usize)
    requires
        monitors@.len() > 0,
    ensures
        r < monitors@.len(),
        has_primary(monitors@) ==> is_first_primary(monitors@, r as int),
        !has_primary(monitors@) ==> r == 0,
{
    let n = monitors.len();
    let mut i: usize = 0;
    while i < n
        invariant
            i <= n,
            n == monitors@.len(),
            forall|j: int| 0 <= j < i ==> !(#[trigger] monitors@[j]).primary,
        decreases n - i,
    {
        if monitors[i].primary {
            return i;
        }
        i = i + 1;
    }
    0
}

/// The area shared by the window's outer rectangle and a monitor's
/// rectangle, with the window clamped to nonnegative coordinates; zero
/// when they do not intersect.
pub open spec fn spec_overlap_area(
    wx: int,
    wy: int,
    ww: int,
    wh: int,
    monitor: MonitorId,
) -> int {
    let wxo = wx + ww - 1;
    let wyo = wy + wh - 1;
    let mx = monitor.position.0 as int;
    let my = monitor.position.1 as int;
    let mxo = mx + monitor.dimensions.0 - 1;
    let myo = my + monitor.dimensions.1 - 1;
    let ox = if wx >= mx {
        wx
    } else {
        mx
    };
    let oy = if wy >= my {
        wy
    } else {
        my
    };
    let oxo = if wxo <= mxo {
        wxo
    } else {
        mxo
    };
    let oyo = if wyo <= myo {
        wyo
    } else {
        myo
    };
    if ox <= oxo && oy <= oyo {
        (oxo - ox) * (oyo - oy)
    } else {
        0
    }
}

/// The window's clamped x origin.
pub open spec fn spec_clamped(v: int) -> int {
    if v >= 0 {
        v
    } else {
        0
    }
}

/// The overlap area, as executable arithmetic.
fn overlap_area(wx: i64, wy: i64, ww: u32, wh: u32, monitor: &MonitorId) -> (r: i128)
    requires
        0 <= wx <= i32::MAX,
        0 <= wy <= i32::MAX,
    ensures
        r == spec_overlap_area(wx as int, wy as int, ww as int, wh as int, *monitor),
{
    let wxo: i128 = wx as i128 + ww as i128 - 1;
    let wyo: i128 = wy as i128 + wh as i128 - 1;
    let mx: i128 = monitor.position.0 as i128;
    let my: i128 = monitor.position.1 as i128;
    let mxo: i128 = mx + monitor.dimensions.0 as i128 - 1;
    let myo: i128 = my + monitor.dimensions.1 as i128 - 1;
    let ox: i128 = if wx as i128 >= mx {
        wx as i128
    } else {
        mx
    };
    let oy: i128 = if wy as i128 >= my {
        wy as i128
    } else {
        my
    };
    let oxo: i128 = if wxo <= mxo {
        wxo
    } else {
        mxo
    };
    let oyo: i128 = if wyo <= myo {
        wyo
    } else {
        myo
    };
    if ox <= oxo && oy <= oyo {
        proof {
            assert(0 <= oxo - ox <= 0x10_0000_0000i128);
            assert(0 <= oyo - oy <= 0x10_0000_0000i128);
            assert((oxo - ox) * (oyo - oy) <= 0x10_0000_0000i128 * 0x10_0000_0000i128)
                by (nonlinear_arith)
                requires
                    0 <= oxo - ox <= 0x10_0000_0000i128,
                    0 <= oyo - oy <= 0x10_0000_0000i128,
            ;
        }
        (oxo - ox) * (oyo - oy)
    } else {
        0
    }
}

/// Picks the monitor the window is on: the window's position is clamped
/// to nonnegative coordinates and the earliest monitor with the strictly
/// greatest positive overlap wins; when no monitor overlaps — or the
/// window's position or size is unknown — the first monitor stands in as
/// the default.
pub fn current_monitor_index(
    monitors: &Vec<MonitorId>,
    window_position: Option<(i32, i32)>,
    window_size: Option<(u32, u32)>,
) -> (r: usize)
    requires
        monitors@.len() > 0,
    ensures
        r < monitors@.len(),
        !(window_position is Some && window_size is Some) ==> r == 0,
        window_position matches Some(pos) ==> (window_size matches Some(size) ==> {
            let wx = spec_clamped(pos.0 as int);
            let wy = spec_clamped(pos.1 as int);
            &&& (forall|j: int|
                0 <= j < monitors@.len() ==> #[trigger] spec_overlap_area(
                    wx,
                    wy,
                    size.0 as int,
                    size.1 as int,
                    monitors@[j],
                ) <= spec_overlap_area(wx, wy, size.0 as int, size.1 as int, monitors@[r as int])
                    || spec_overlap_area(
                    wx,
                    wy,
                    size.0 as int,
                    size.1 as int,
                    monitors@[r as int],
                ) <= 0 && r == 0)
        }),
{
    let (pos, size) = match (window_position, window_size) {
        (Some(pos), Some(size)) => (pos, size),
        _ => {
            return 0;
        },
    };
    let wx: i64 = if pos.0 >= 0 {
        pos.0 as i64
    } else {
        0
    };
    let wy: i64 = if pos.1 >= 0 {
        pos.1 as i64
    } else {
        0
    };
    let n = monitors.len();
    let mut best: usize = 0;
    let mut best_overlap: i128 = 0;
    let mut i: usize = 0;
    while i < n
        invariant
            i <= n,
            n == monitors@.len(),
            n > 0,
            best < n,
            0 <= wx <= i32::MAX,
            0 <= wy <= i32::MAX,
            wx == spec_clamped(pos.0 as int),
            wy == spec_clamped(pos.1 as int),
            best_overlap == 0 && best == 0 || best_overlap > 0 && best_overlap
                == spec_overlap_area(
                wx as int,
                wy as int,
                size.0 as int,
                size.1 as int,
                monitors@[best as int],
            ),
            forall|j: int|
                0 <= j < i ==> #[trigger] spec_overlap_area(
                    wx as int,
                    wy as int,
                    size.0 as int,
                    size.1 as int,
                    monitors@[j],
                ) <= best_overlap,
        decreases n - i,
    {
        let osize = overlap_area(wx, wy, size.0, size.1, &monitors[i]);
        if osize > best_overlap {
            best_overlap = osize;
            best = i;
        }
        i = i + 1;
    }
    best
}

} // verus!
