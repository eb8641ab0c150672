use vstd::prelude::*;

use crate::config::resolved_size;
use crate::size::Size;

verus! {

/// What a resize asks of the device side.
#[derive(Clone, Copy, Debug, PartialEq, Eq, Structural)]
pub enum ResizeAction {
    /// Nothing changes: the size has an empty side.
    Ignore,
    /// Reconfigure the surface to the new window size; the texture keeps its size.
    Reconfigure(Size),
    /// Reconfigure the surface, write the new size into the uniform buffer and
    /// rebuild the whole pipeline resource package at that size.
    Rebuild(Size),
}

/// Why a surface image could not be acquired.
#[derive(Clone, Copy, Debug, PartialEq, Eq, Structural)]
pub enum SurfaceFailure {
    Timeout,
    Outdated,
    Lost,
    OutOfMemory,
}

impl SurfaceFailure {
    /// A lost or outdated surface is recovered by resizing it again; any other
    /// failure ends the loop.
    pub open spec fn recoverable(self) -> bool {
        self is Outdated || self is Lost
    }
}

/// The sizes that the device resources are built for.
#[derive(Clone, Copy, Debug)]
pub struct State {
    /// The resolution policy: a fixed size, or `Err(tile)` to follow the window.
    pub resolution: Result<Size, u32>,
    /// The size the surface is configured to.
    pub window_size: Size,
    /// The size of the storage texture and of the uniform the shaders read.
    pub target_size: Size,
}

impl State {
    /// The state after a resize to `size`, and what the device side must do.
    pub open spec fn resized(self, size: Size) -> (State, ResizeAction) {
        if !size.drawable() {
            (self, ResizeAction::Ignore)
        } else if self.resolution is Err {
            (State { window_size: size, target_size: size, ..self }, ResizeAction::Rebuild(size))
        } else {
            (State { window_size: size, ..self }, ResizeAction::Reconfigure(size))
        }
    }

    /// Whether the texture size agrees with the policy and the window.
    pub open spec fn wf(self) -> bool {
        self.target_size == resolved_size(self.resolution, self.window_size)
    }

    /// The state for a freshly built package, with the window at `window`.
    pub fn new(resolution: Result<Size, u32>, window: Size) -> (r: State)
        ensures
            r.resolution == resolution,
            r.window_size == window,
            r.target_size == resolved_size(resolution, window),
            r.wf(),
    {
        let target = match resolution {
            Ok(size) => size,
            Err(_) => window,
        };
        State { resolution, window_size: window, target_size: target }
    }

    /// Applies a resize: a size with an empty side is ignored; otherwise the
    /// surface follows it, and under the window-following policy the texture
    /// and its pipelines are rebuilt at that size.
    pub fn resize(&mut self, size: Size) -> (r: ResizeAction)
        ensures
            (*final(self), r) == old(self).resized(size),
            old(self).wf() ==> final(self).wf(),
    {
        if !size.is_drawable() {
            return ResizeAction::Ignore;
        }
        self.window_size = size;
        if self.resolution.is_err() {
            self.target_size = size;
            ResizeAction::Rebuild(size)
        } else {
            ResizeAction::Reconfigure(size)
        }
    }

    /// Handles a failed acquisition of the next surface image: a recoverable
    /// failure resizes to the current window size, any other is handed back.
    pub fn recover(&mut self, failure: SurfaceFailure) -> (r: Result<ResizeAction, SurfaceFailure>)
        ensures
            failure.recoverable() ==> {
                &&& r == Ok::<ResizeAction, SurfaceFailure>(old(self).resized(old(self).window_size).1)
                &&& *final(self) == old(self).resized(old(self).window_size).0
            },
            !failure.recoverable() ==> {
                &&& r == Err::<ResizeAction, SurfaceFailure>(failure)
                &&& *final(self) == *old(self)
            },
    {
        match failure {
            SurfaceFailure::Outdated | SurfaceFailure::Lost => {
                let size = self.size();
                Ok(self.resize(size))
            },
            _ => Err(failure),
        }
    }

    /// The size the surface is configured to.
    pub fn size(&self) -> (r: Size)
        ensures
            r == self.window_size,
    {
        self.window_size
    }
}

/// A resize to a size with an empty side leaves the state as it was and asks
/// nothing of the device.
pub proof fn lemma_empty_resize_ignored(s: State, size: Size)
    requires
        size.width == 0 || size.height == 0,
    ensures
        s.resized(size) == (s, ResizeAction::Ignore),
{
}

/// Under a fixed resolution no resize ever rebuilds the resource package.
pub proof fn lemma_fixed_never_rebuilds(s: State, size: Size)
    requires
        s.resolution is Ok,
    ensures
        !(s.resized(size).1 is Rebuild),
        s.resized(size).0.target_size == s.target_size,
{
}

} // verus!
