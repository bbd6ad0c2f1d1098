use vstd::prelude::*;

verus! {

/// What happened to a path at one bounce.
#[derive(Clone, Copy, Debug, PartialEq, Eq, Structural)]
pub enum Bounce {
    /// The ray hit a surface, which scattered it into a new ray.
    Scattered,
    /// The ray hit a surface, which absorbed it.
    Absorbed,
    /// The ray hit nothing and left the scene towards the sky.
    Escaped,
}

/// Where a path stands.
#[derive(Clone, Copy, Debug, PartialEq, Eq, Structural)]
pub enum PathStatus {
    /// The path goes on: its current ray is still to be traced.
    Tracing,
    /// A surface absorbed the path.
    Absorbed,
    /// The path left the scene and takes the sky's light.
    Escaped,
    /// The path used all its bounces without leaving the scene.
    Exhausted,
}

/// What the integrator does next with a path.
#[derive(Clone, Copy, Debug, PartialEq, Eq, Structural)]
pub enum PathAction {
    /// Intersect the current ray with the scene and scatter it.
    Trace,
    /// Stop, returning the accumulated attenuation times the sky's colour.
    ReturnSky,
    /// Stop, returning black.
    ReturnBlack,
}

/// The action that a path in `status` calls for. Only a path that reached the
/// sky carries light; an absorbed or exhausted one is black.
pub open spec fn action_of(status: PathStatus) -> PathAction {
    match status {
        PathStatus::Tracing => PathAction::Trace,
        PathStatus::Escaped => PathAction::ReturnSky,
        PathStatus::Absorbed => PathAction::ReturnBlack,
        PathStatus::Exhausted => PathAction::ReturnBlack,
    }
}

/// The status that follows `bounce` on a path that had taken `depth` bounces
/// before it, out of `max_depth`.
pub open spec fn status_after(depth: nat, max_depth: nat, bounce: Bounce) -> PathStatus {
    match bounce {
        Bounce::Scattered => if depth + 1 >= max_depth {
            PathStatus::Exhausted
        } else {
            PathStatus::Tracing
        },
        Bounce::Absorbed => PathStatus::Absorbed,
        Bounce::Escaped => PathStatus::Escaped,
    }
}

/// The control state of the bounce loop for one path: how many bounces it has
/// taken, how many it may take, and whether it has ended.
pub struct PathState {
    depth: u32,
    max_depth: u32,
    status: PathStatus,
}

impl PathState {
    /// The number of bounces taken.
    pub closed spec fn depth(&self) -> nat {
        self.depth as nat
    }

    /// The number of bounces allowed.
    pub closed spec fn max_depth(&self) -> nat {
        self.max_depth as nat
    }

    /// Where the path stands.
    pub closed spec fn status(&self) -> PathStatus {
        self.status
    }

    /// A path never takes more bounces than allowed; it is traced only while
    /// bounces remain, is exhausted exactly when none remain, and ends by
    /// absorption or escape only after a bounce.
    pub open spec fn wf(&self) -> bool {
        &&& self.depth() <= self.max_depth()
        &&& self.status() is Tracing ==> self.depth() < self.max_depth()
        &&& self.status() is Exhausted ==> self.depth() == self.max_depth()
        &&& (self.status() is Absorbed || self.status() is Escaped) ==> self.depth() > 0
    }

    /// A path about to trace its first ray, allowed `max_depth` bounces. With
    /// no bounce allowed it is exhausted from the start.
    pub fn new(max_depth: u32) -> (r: PathState)
        ensures
            r.wf(),
            r.depth() == 0,
            r.max_depth() == max_depth,
            r.status() == (if max_depth == 0 {
                PathStatus::Exhausted
            } else {
                PathStatus::Tracing
            }),
    {
        let status = if max_depth == 0 {
            PathStatus::Exhausted
        } else {
            PathStatus::Tracing
        };
        PathState { depth: 0, max_depth, status }
    }

    /// What the integrator does next with this path.
    pub fn next_action(&self) -> (r: PathAction)
        ensures
            r == action_of(self.status()),
    {
        match self.status {
            PathStatus::Tracing => PathAction::Trace,
            PathStatus::Escaped => PathAction::ReturnSky,
            PathStatus::Absorbed => PathAction::ReturnBlack,
            PathStatus::Exhausted => PathAction::ReturnBlack,
        }
    }

    /// Records what the current bounce did.
    pub fn record(&mut self, bounce: Bounce)
        requires
            old(self).wf(),
            old(self).status() is Tracing,
        ensures
            final(self).wf(),
            final(self).depth() == old(self).depth() + 1,
            final(self).max_depth() == old(self).max_depth(),
            final(self).status() == status_after(old(self).depth(), old(self).max_depth(), bounce),
    {
        self.depth = self.depth + 1;
        self.status = match bounce {
            Bounce::Scattered => if self.depth >= self.max_depth {
                PathStatus::Exhausted
            } else {
                PathStatus::Tracing
            },
            Bounce::Absorbed => PathStatus::Absorbed,
            Bounce::Escaped => PathStatus::Escaped,
        };
    }
}

/// A path allowed no bounce yields black, whatever the scene: it is never
/// traced and never reaches the sky.
pub proof fn lemma_zero_depth_is_black(path: PathState)
    requires
        path.wf(),
        path.max_depth() == 0,
    ensures
        action_of(path.status()) == PathAction::ReturnBlack,
{
}

/// Every path ends within its bound: a path that is still traced has bounces
/// left, and each recorded bounce takes one of them.
pub proof fn lemma_traced_within_bound(path: PathState)
    requires
        path.wf(),
        action_of(path.status()) == PathAction::Trace,
    ensures
        path.depth() < path.max_depth(),
{
}

} // verus!
