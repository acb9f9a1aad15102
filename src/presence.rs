//! Whether a visual object should be shown, whether it is, and what the
//! renderer must do to bring the two together.
use vstd::prelude::*;

verus! {

/// What the renderer is asked to do in a cycle.
#[derive(Clone, Copy, Debug, PartialEq, Eq, Structural)]
pub enum Lifecycle {
    /// Build the object.
    Create,
    /// Tear the object down.
    Destroy,
    /// The object exists: bring it up to date.
    Refresh,
    /// Nothing is shown and nothing is to be done.
    Idle,
}

/// `enabled`: should be shown; `created`: is currently rendered.
#[derive(Clone, Copy, Debug, PartialEq, Eq, Structural)]
pub struct Presence {
    pub enabled: bool,
    pub created: bool,
}

pub open spec fn enabled_spec(p: Presence) -> Presence {
    Presence { enabled: true, ..p }
}

pub open spec fn disabled_spec(p: Presence) -> Presence {
    Presence { enabled: false, ..p }
}

/// One cycle of the lifecycle: the new presence and the request it makes.
pub open spec fn sync_spec(p: Presence) -> (Presence, Lifecycle) {
    if p.enabled && !p.created {
        (Presence { created: true, ..p }, Lifecycle::Create)
    } else if !p.enabled && p.created {
        (Presence { created: false, ..p }, Lifecycle::Destroy)
    } else if p.enabled {
        (p, Lifecycle::Refresh)
    } else {
        (p, Lifecycle::Idle)
    }
}

impl Presence {
    /// Neither wanted nor rendered.
    pub fn hidden() -> (r: Presence)
        ensures
            !r.enabled && !r.created,
    {
        Presence { enabled: false, created: false }
    }

    pub fn enable(&mut self)
        ensures
            *final(self) == enabled_spec(*old(self)),
    {
        self.enabled = true;
    }

    pub fn disable(&mut self)
        ensures
            *final(self) == disabled_spec(*old(self)),
    {
        self.enabled = false;
    }

    /// Runs one cycle of the lifecycle.
    pub fn sync(&mut self) -> (r: Lifecycle)
        ensures
            (*final(self), r) == sync_spec(*old(self)),
    {
        if self.enabled && !self.created {
            self.created = true;
            Lifecycle::Create
        } else if !self.enabled && self.created {
            self.created = false;
            Lifecycle::Destroy
        } else if self.enabled {
            Lifecycle::Refresh
        } else {
            Lifecycle::Idle
        }
    }
}

/// Enabling is idempotent: enabling twice is enabling once, and two cycles
/// with an enable before each ask for at most one creation: exactly one
/// where the object was not rendered yet.
pub proof fn lemma_enable_twice_creates_once(p: Presence)
    ensures
        enabled_spec(enabled_spec(p)) == enabled_spec(p),
        ({
            let (q1, a1) = sync_spec(enabled_spec(p));
            let (q2, a2) = sync_spec(enabled_spec(q1));
            &&& !(a1 == Lifecycle::Create && a2 == Lifecycle::Create)
            &&& q2.created
            &&& !p.created ==> a1 == Lifecycle::Create && a2 == Lifecycle::Refresh
        }),
{
}

} // verus!
