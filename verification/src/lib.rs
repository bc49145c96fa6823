//! Window size constraints for a desktop application shell.
//!
//! At startup, and again whenever the host reports that a window was
//! created, the shell clamps its window to fit the screen with a margin:
//! it reads the primary monitor's resolution, derives a maximum window
//! size, imposes that bound on the window, and shrinks the window if its
//! current size already exceeds the bound. This crate holds that decision
//! logic. The host windowing calls themselves (resolving the monitor,
//! mutating the window) are performed by the caller, which feeds the
//! queried values in as plain sizes and carries the returned plan out.
//!
//! Every host failure degrades to a no-op by design: window sizing is
//! cosmetic and must never block or crash startup. Accordingly nothing
//! here returns an error; an unresolved monitor or a failed size query
//! simply yields a plan with nothing to do for that part.

use vstd::prelude::*;

verus! {

/// Logical units reserved around the window for OS chrome such as the
/// taskbar and window decorations.
pub const CHROME_MARGIN: u32 = 200;

/// The imposed maximum width never drops below this, however small the
/// screen is.
pub const MIN_MAX_WIDTH: u32 = 800;

/// The imposed maximum height never drops below this, however small the
/// screen is.
pub const MIN_MAX_HEIGHT: u32 = 600;

/// A window or screen size in the host's logical (device-independent)
/// units.
#[derive(Clone, Copy, Debug, PartialEq, Eq, Structural)]
pub struct WindowSize {
    pub width: u32,
    pub height: u32,
}

/// An upper bound on a window's size, enforced by the host on later
/// user-driven resizes.
#[derive(Clone, Copy, Debug, PartialEq, Eq, Structural)]
pub struct SizeConstraint {
    pub max_width: u32,
    pub max_height: u32,
}

/// The bound derived from one screen dimension: the screen less the
/// chrome margin, but never below `floor`.
pub open spec fn constrained_dim(screen: int, floor: int) -> int {
    if screen - CHROME_MARGIN >= floor {
        screen - CHROME_MARGIN
    } else {
        floor
    }
}

/// The maximum window size imposed for a screen of the given resolution.
pub open spec fn max_size_for(screen: WindowSize) -> SizeConstraint {
    SizeConstraint {
        max_width: constrained_dim(screen.width as int, MIN_MAX_WIDTH as int) as u32,
        max_height: constrained_dim(screen.height as int, MIN_MAX_HEIGHT as int) as u32,
    }
}

/// Whether `current` lies within `bound` in both dimensions.
pub open spec fn fits_within(current: WindowSize, bound: SizeConstraint) -> bool {
    current.width <= bound.max_width && current.height <= bound.max_height
}

/// `current` clamped to `bound`, dimension by dimension.
pub open spec fn clamped_size(current: WindowSize, bound: SizeConstraint) -> WindowSize {
    WindowSize {
        width: if current.width <= bound.max_width {
            current.width
        } else {
            bound.max_width
        },
        height: if current.height <= bound.max_height {
            current.height
        } else {
            bound.max_height
        },
    }
}

/// The shrink requested for a window of size `current` under `bound`:
/// nothing when the window already fits, else the clamped size.
pub open spec fn resize_for(current: WindowSize, bound: SizeConstraint) -> Option<WindowSize> {
    if fits_within(current, bound) {
        None
    } else {
        Some(clamped_size(current, bound))
    }
}

/// Derives the maximum window size from the primary monitor's
/// resolution: each screen dimension less [`CHROME_MARGIN`], floored at
/// [`MIN_MAX_WIDTH`] by [`MIN_MAX_HEIGHT`] so that even a tiny screen
/// leaves a usable window.
pub fn compute_max_size(screen: WindowSize) -> (bound: SizeConstraint)
    ensures
        bound == max_size_for(screen),
        bound.max_width as int == constrained_dim(screen.width as int, MIN_MAX_WIDTH as int),
        bound.max_height as int == constrained_dim(screen.height as int, MIN_MAX_HEIGHT as int),
        bound.max_width >= MIN_MAX_WIDTH,
        bound.max_height >= MIN_MAX_HEIGHT,
{
    let max_width = if screen.width >= MIN_MAX_WIDTH + CHROME_MARGIN {
        screen.width - CHROME_MARGIN
    } else {
        MIN_MAX_WIDTH
    };
    let max_height = if screen.height >= MIN_MAX_HEIGHT + CHROME_MARGIN {
        screen.height - CHROME_MARGIN
    } else {
        MIN_MAX_HEIGHT
    };
    SizeConstraint { max_width, max_height }
}

/// Decides the resize for a window of size `current` under `bound`:
/// `None` exactly when the window already fits in both dimensions, so
/// that no resize is requested then; otherwise the size the window must
/// shrink to, each dimension capped at the bound and never grown.
pub fn plan_resize(current: WindowSize, bound: SizeConstraint) -> (resize: Option<WindowSize>)
    ensures
        resize == resize_for(current, bound),
        resize.is_none() <==> fits_within(current, bound),
        !fits_within(current, bound) ==> resize == Some(clamped_size(current, bound)),
        resize matches Some(shrunk) ==> fits_within(shrunk, bound)
            && shrunk.width <= current.width
            && shrunk.height <= current.height,
{
    if current.width > bound.max_width || current.height > bound.max_height {
        let width = if current.width <= bound.max_width {
            current.width
        } else {
            bound.max_width
        };
        let height = if current.height <= bound.max_height {
            current.height
        } else {
            bound.max_height
        };
        Some(WindowSize { width, height })
    } else {
        None
    }
}

/// Everything to do to one window, decided from what the host reported.
#[derive(Clone, Copy, Debug, PartialEq, Eq)]
pub enum ConstraintPlan {
    /// No primary monitor could be resolved: leave the window untouched.
    NoMonitor,
    /// Impose `max` as the window's maximum size, then shrink the window
    /// to `resize` where one is given.
    Constrain { max: SizeConstraint, resize: Option<WindowSize> },
}

/// The plan for a window, given the primary monitor's resolution
/// (`None` when no monitor was resolved) and the window's current size
/// (`None` when the size query failed).
pub open spec fn plan_for(monitor: Option<WindowSize>, current: Option<WindowSize>) -> ConstraintPlan {
    match monitor {
        None => ConstraintPlan::NoMonitor,
        Some(screen) => ConstraintPlan::Constrain {
            max: max_size_for(screen),
            resize: match current {
                None => None,
                Some(size) => resize_for(size, max_size_for(screen)),
            },
        },
    }
}

/// Decides, from what the host reported of the monitor and of the
/// window, everything the host must then do: which maximum size to
/// impose, and whether (and to what size) to shrink the window. With no
/// monitor resolved nothing at all is to be done; with the current size
/// unknown the bound is still imposed but no resize is requested.
pub fn plan_window_constraints(
    monitor: Option<WindowSize>,
    current: Option<WindowSize>,
) -> (plan: ConstraintPlan)
    ensures
        plan == plan_for(monitor, current),
        monitor.is_none() ==> plan == ConstraintPlan::NoMonitor,
{
    match monitor {
        None => ConstraintPlan::NoMonitor,
        Some(screen) => {
            let max = compute_max_size(screen);
            let resize = match current {
                None => None,
                Some(size) => plan_resize(size, max),
            };
            ConstraintPlan::Constrain { max, resize }
        },
    }
}

/// However small the screen, the computed maximum never drops below the
/// usable floor: the width is at least [`MIN_MAX_WIDTH`] and the height
/// at least [`MIN_MAX_HEIGHT`], including for a reported resolution of
/// zero by zero.
pub proof fn lemma_max_size_floor(screen: WindowSize)
    ensures
        max_size_for(screen).max_width >= MIN_MAX_WIDTH,
        max_size_for(screen).max_height >= MIN_MAX_HEIGHT,
{
}

} // verus!
