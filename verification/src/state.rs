use vstd::prelude::*;
use crate::events::WindowEventKind;

verus! {

/// A window size in physical pixels.
#[derive(Clone, Copy, PartialEq, Eq, Structural, Debug)]
pub struct Extent {
    pub width: u32,
    pub height: u32,
}

impl Extent {
    /// A size is usable as a surface configuration only when both
    /// dimensions are strictly positive; a minimized window reports zero.
    pub open spec fn is_positive(self) -> bool {
        self.width > 0 && self.height > 0
    }
}

/// The surface configuration the render context keeps: the texture format
/// chosen at startup (carried as an opaque identifier assigned by the
/// caller) and the current dimensions of the drawable area.
#[derive(Clone, Copy, PartialEq, Eq, Structural, Debug)]
pub struct SurfaceConfig {
    pub format: u32,
    pub width: u32,
    pub height: u32,
}

/// The render context's bookkeeping: the active surface configuration and
/// the last known window size. The GPU handles themselves live with the
/// caller; this type holds everything the resize and redraw decisions read.
#[derive(Clone, Copy, PartialEq, Eq, Structural, Debug)]
pub struct State {
    pub config: SurfaceConfig,
    pub size: Extent,
}

impl State {
    /// Well-formed: the configured dimensions are positive and mirror the
    /// last known window size.
    pub open spec fn wf(self) -> bool {
        &&& self.config.width > 0
        &&& self.config.height > 0
        &&& self.size.width == self.config.width
        &&& self.size.height == self.config.height
    }

    /// Builds the initial context state from the window's starting size and
    /// the texture format chosen for the surface.
    pub fn new(size: Extent, format: u32) -> (s: State)
        requires
            size.is_positive(),
        ensures
            s.wf(),
            s.config.format == format,
            s.config.width == size.width,
            s.config.height == size.height,
            s.size == size,
    {
        State {
            config: SurfaceConfig { format, width: size.width, height: size.height },
            size,
        }
    }

    /// What a resize request leaves behind: a positive size replaces the
    /// stored size and the configured dimensions; a request with a zero
    /// dimension leaves the state untouched.
    pub open spec fn resize_spec(self, new_size: Extent) -> State {
        if new_size.is_positive() {
            State {
                config: SurfaceConfig {
                    format: self.config.format,
                    width: new_size.width,
                    height: new_size.height,
                },
                size: new_size,
            }
        } else {
            self
        }
    }

    /// Applies a resize request. Returns whether the surface must be
    /// reconfigured, which is exactly when both dimensions were positive;
    /// zero-area requests are ignored so a minimized window cannot clobber
    /// the configuration.
    pub fn resize(&mut self, new_size: Extent) -> (reconfigure: bool)
        requires
            old(self).wf(),
        ensures
            final(self).wf(),
            *final(self) == old(self).resize_spec(new_size),
            reconfigure == new_size.is_positive(),
            reconfigure ==> final(self).config.width == new_size.width
                && final(self).config.height == new_size.height
                && final(self).size == new_size,
            !reconfigure ==> *final(self) == *old(self),
            final(self).config.format == old(self).config.format,
    {
        if new_size.width > 0 && new_size.height > 0 {
            self.size = new_size;
            self.config.width = new_size.width;
            self.config.height = new_size.height;
            true
        } else {
            false
        }
    }

    /// Reserved extension seam: the context claims no window event for
    /// itself, so dispatch always proceeds to the driver's own policy.
    pub fn input(&mut self, _event: &WindowEventKind) -> (handled: bool)
        ensures
            *final(self) == *old(self),
            !handled,
    {
        false
    }

    /// Reserved extension seam: per-frame state advancement, currently
    /// empty.
    pub fn update(&mut self)
        ensures
            *final(self) == *old(self),
    {
    }
}

/// A later valid resize fully determines the configuration: whatever an
/// earlier request did, the state after the second call matches the second
/// request alone, so no stale intermediate size survives.
pub proof fn lemma_resize_last_valid_wins(s: State, first: Extent, second: Extent)
    requires
        second.is_positive(),
    ensures
        s.resize_spec(first).resize_spec(second) == s.resize_spec(second),
{
}

/// Picks the texture format for the surface: the first format the adapter
/// reports as supported, given here as opaque identifiers.
pub fn select_format(supported: &Vec<u32>) -> (format: u32)
    requires
        supported@.len() > 0,
    ensures
        format == supported@[0],
{
    supported[0]
}

} // verus!
