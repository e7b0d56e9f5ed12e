//! Window-placement geometry for a single display.
//!
//! Given a display resolution, a named screen anchor, and an optional window
//! footprint, the resolver computes the pixel coordinates of the window's
//! top-left corner. Coordinates are exact: the centering rule can land on a
//! half pixel, so a coordinate is carried as a whole number of half-pixels
//! (see [`Coord`]).

use vstd::prelude::*;

verus! {

/// Vertical pixels reserved at the bottom of the display for the system
/// taskbar. Subtracted from bottom-anchored placements unless the footprint
/// asks to ignore it.
pub const TASKBAR_RESERVATION: i64 = 91;

/// The five logical screen anchors a window can be placed at.
#[derive(Clone, Copy, Debug)]
pub enum ScreenLocations {
    TopLeft,
    TopRight,
    Center,
    BottomLeft,
    BottomRight,
}

/// The footprint of the window to be placed: its size in whole pixels, and
/// whether the bottom taskbar reservation should be ignored for it.
#[derive(Clone, Copy, PartialEq, Eq, Structural, Debug)]
pub struct ApplicationSize {
    pub width: i32,
    pub height: i32,
    pub ignore_win_taskbar: bool,
}

impl Default for ApplicationSize {
    /// A zero-sized footprint that keeps the taskbar reservation.
    fn default() -> (r: Self)
        ensures
            r.width == 0,
            r.height == 0,
            !r.ignore_win_taskbar,
    {
        Self { width: 0, height: 0, ignore_win_taskbar: false }
    }
}

/// One placement coordinate, measured in half-pixels so that the centering
/// rule's halving is exact: a coordinate of `p` whole pixels is
/// `Coord { halves: 2 * p }`.
#[derive(Clone, Copy, PartialEq, Eq, Structural, Debug)]
pub struct Coord {
    pub halves: i64,
}

/// The vertical reservation a footprint implies for bottom-anchored
/// placements: the taskbar reservation, unless the footprint asks to ignore
/// it or no footprint was supplied.
pub open spec fn spec_pad(app_size: Option<ApplicationSize>) -> int {
    match app_size {
        Option::Some(size) => if size.ignore_win_taskbar {
            0
        } else {
            TASKBAR_RESERVATION as int
        },
        Option::None => 0,
    }
}

/// The horizontal placement, in half-pixels, for a display `width` pixels
/// wide. With no footprint, right anchors sit on the last pixel column and
/// Center on the exact midpoint: an absent footprint means every
/// size-dependent term is zero. With a footprint, TopRight backs off by the
/// footprint's height (note: its height, not its width — long-standing
/// behaviour, kept as-is), BottomRight by its width, and Center by half of
/// its width, exactly.
pub open spec fn spec_x_halves(
    width: int,
    location: ScreenLocations,
    app_size: Option<ApplicationSize>,
) -> int {
    match location {
        ScreenLocations::TopLeft => 0,
        ScreenLocations::TopRight => match app_size {
            Option::Some(size) => 2 * (width - 1 - size.height),
            Option::None => 2 * (width - 1),
        },
        ScreenLocations::Center => match app_size {
            Option::Some(size) => width - size.width,
            Option::None => width,
        },
        ScreenLocations::BottomLeft => 0,
        ScreenLocations::BottomRight => match app_size {
            Option::Some(size) => 2 * (width - 1 - size.width),
            Option::None => 2 * (width - 1),
        },
    }
}

/// The vertical placement, in half-pixels, for a display `height` pixels
/// tall. With no footprint, bottom anchors sit on the last pixel row and
/// Center on the exact midpoint: an absent footprint means every
/// size-dependent term is zero. With a footprint, bottom anchors back off by
/// the footprint's width (note: its width, not its height — long-standing
/// behaviour, kept as-is) plus the pad of [`spec_pad`], and Center by half
/// of the footprint's height, exactly.
pub open spec fn spec_y_halves(
    height: int,
    location: ScreenLocations,
    app_size: Option<ApplicationSize>,
) -> int {
    match location {
        ScreenLocations::TopLeft => 0,
        ScreenLocations::TopRight => 0,
        ScreenLocations::Center => match app_size {
            Option::Some(size) => height - size.height,
            Option::None => height,
        },
        ScreenLocations::BottomLeft => match app_size {
            Option::Some(size) => 2 * (height - 1 - (size.width + spec_pad(app_size))),
            Option::None => 2 * (height - 1),
        },
        ScreenLocations::BottomRight => match app_size {
            Option::Some(size) => 2 * (height - 1 - (size.width + spec_pad(app_size))),
            Option::None => 2 * (height - 1),
        },
    }
}

/// The primary display, as a positive pixel resolution.
#[derive(Clone, Copy, PartialEq, Eq, Structural, Debug)]
pub struct WScreen {
    width: i32,
    height: i32,
}

impl WScreen {
    /// The display's width in pixels.
    pub closed spec fn spec_width(self) -> int {
        self.width as int
    }

    /// The display's height in pixels.
    pub closed spec fn spec_height(self) -> int {
        self.height as int
    }

    /// A real display resolution: both extents strictly positive.
    pub open spec fn wf(self) -> bool {
        &&& self.spec_width() >= 1
        &&& self.spec_height() >= 1
    }

    /// Builds a screen from a resolution already read from the platform.
    pub fn new(width: i32, height: i32) -> (r: Self)
        requires
            width >= 1,
            height >= 1,
        ensures
            r.wf(),
            r.spec_width() == width,
            r.spec_height() == height,
    {
        Self { width, height }
    }

    /// The resolution this screen was built from.
    pub fn resolution(&self) -> (r: (i32, i32))
        ensures
            r.0 == self.spec_width(),
            r.1 == self.spec_height(),
    {
        (self.width, self.height)
    }

    /// The vertical padding applied to bottom-anchored placements: the
    /// taskbar reservation, or zero when asked to ignore it.
    fn padding_tbar(&self, ignore_taskbar_space: bool) -> (r: i64)
        ensures
            r == if ignore_taskbar_space { 0int } else { TASKBAR_RESERVATION as int },
    {
        let taskbar_space: i64 = TASKBAR_RESERVATION;
        if ignore_taskbar_space {
            0
        } else {
            taskbar_space
        }
    }

    /// Resolves the top-left corner at which a window should be placed,
    /// given its anchor and optional footprint. Pure: the result is exactly
    /// the pair ([`spec_x_halves`], [`spec_y_halves`]) of the inputs, so
    /// identical inputs always resolve to identical coordinates.
    pub fn coordinates_of(
        &self,
        location: ScreenLocations,
        app_size: Option<ApplicationSize>,
    ) -> (r: (Coord, Coord))
        requires
            self.wf(),
        ensures
            r.0.halves == spec_x_halves(self.spec_width(), location, app_size),
            r.1.halves == spec_y_halves(self.spec_height(), location, app_size),
    {
        let pad_y: i64 = match app_size {
            Some(size) => self.padding_tbar(size.ignore_win_taskbar),
            None => 0,
        };

        match location {
            ScreenLocations::TopLeft => {
                (Coord { halves: 0 }, Coord { halves: 0 })
            },
            ScreenLocations::TopRight => {
                let x: i64 = match app_size {
                    Some(size) => 2 * (self.width as i64 - 1 - size.height as i64),
                    None => 2 * (self.width as i64 - 1),
                };
                (Coord { halves: x }, Coord { halves: 0 })
            },
            ScreenLocations::Center => {
                let x: i64 = match app_size {
                    Some(size) => self.width as i64 - size.width as i64,
                    None => self.width as i64,
                };
                let y: i64 = match app_size {
                    Some(size) => self.height as i64 - size.height as i64,
                    None => self.height as i64,
                };
                (Coord { halves: x }, Coord { halves: y })
            },
            ScreenLocations::BottomLeft => {
                let y: i64 = match app_size {
                    Some(size) => 2 * (self.height as i64 - 1 - (size.width as i64 + pad_y)),
                    None => 2 * (self.height as i64 - 1),
                };
                (Coord { halves: 0 }, Coord { halves: y })
            },
            ScreenLocations::BottomRight => {
                let x: i64 = match app_size {
                    Some(size) => 2 * (self.width as i64 - 1 - size.width as i64),
                    None => 2 * (self.width as i64 - 1),
                };
                let y: i64 = match app_size {
                    Some(size) => 2 * (self.height as i64 - 1 - (size.width as i64 + pad_y)),
                    None => 2 * (self.height as i64 - 1),
                };
                (Coord { halves: x }, Coord { halves: y })
            },
        }
    }
}

/// With no footprint supplied, the placement is determined by the resolution
/// alone: corner anchors land on the extreme pixel, Center on the exact
/// midpoint, and neither a taskbar reservation nor any default footprint
/// enters the result.
pub proof fn lemma_no_footprint_uses_resolution_alone(
    screen: WScreen,
    location: ScreenLocations,
)
    ensures
        spec_pad(None::<ApplicationSize>) == 0,
        spec_x_halves(screen.spec_width(), location, None) == (match location {
            ScreenLocations::TopLeft => 0int,
            ScreenLocations::BottomLeft => 0int,
            ScreenLocations::TopRight => 2 * (screen.spec_width() - 1),
            ScreenLocations::BottomRight => 2 * (screen.spec_width() - 1),
            ScreenLocations::Center => screen.spec_width(),
        }),
        spec_y_halves(screen.spec_height(), location, None) == (match location {
            ScreenLocations::TopLeft => 0int,
            ScreenLocations::TopRight => 0int,
            ScreenLocations::Center => screen.spec_height(),
            ScreenLocations::BottomLeft => 2 * (screen.spec_height() - 1),
            ScreenLocations::BottomRight => 2 * (screen.spec_height() - 1),
        }),
{
}

/// A footprint that asks to ignore the taskbar reservation always yields a
/// pad of zero, whatever the anchor and the footprint's size: bottom-anchored
/// placements then back off by the footprint term alone.
pub proof fn lemma_ignore_taskbar_zero_pad(
    screen: WScreen,
    location: ScreenLocations,
    size: ApplicationSize,
)
    requires
        size.ignore_win_taskbar,
    ensures
        spec_pad(Some(size)) == 0,
        spec_y_halves(screen.spec_height(), location, Some(size)) == (match location {
            ScreenLocations::TopLeft => 0int,
            ScreenLocations::TopRight => 0int,
            ScreenLocations::Center => screen.spec_height() - size.height,
            ScreenLocations::BottomLeft => 2 * (screen.spec_height() - 1 - size.width),
            ScreenLocations::BottomRight => 2 * (screen.spec_height() - 1 - size.width),
        }),
{
}

/// The resolver is deterministic: its contract equates the result with a
/// function of the inputs, so any two results of resolving the same anchor
/// and footprint on the same screen are identical.
pub proof fn lemma_resolver_deterministic(
    screen: WScreen,
    location: ScreenLocations,
    app_size: Option<ApplicationSize>,
    r1: (Coord, Coord),
    r2: (Coord, Coord),
)
    requires
        r1.0.halves == spec_x_halves(screen.spec_width(), location, app_size),
        r1.1.halves == spec_y_halves(screen.spec_height(), location, app_size),
        r2.0.halves == spec_x_halves(screen.spec_width(), location, app_size),
        r2.1.halves == spec_y_halves(screen.spec_height(), location, app_size),
    ensures
        r1 == r2,
{
}

} // verus!
