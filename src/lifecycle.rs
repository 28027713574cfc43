use vstd::prelude::*;
use core::time::Duration;
use crate::config::SandboxBuilder;
use crate::groups::{
    LimitWrite, Subsystem, all_subsystems, group_subsystems, is_group_name, limit_plan,
    new_group_name,
};

verus! {

/// One removal made while tearing a sandbox down. Detaching the overlay comes
/// before these and is recorded on its own, with its outcome.
#[derive(Clone, Copy, Debug, PartialEq, Eq, Structural)]
pub enum ReleaseStep {
    /// Remove the mount target and the work directory.
    RemoveScratch,
    /// Remove the three resource groups.
    RemoveGroups,
}

/// The kernel resources a sandbox holds, as they are acquired. The overlay is
/// only ever mounted on scratch directories that exist.
pub struct Resources {
    mount: bool,
    scratch: bool,
    groups: bool,
}

/// The removals that may be made now, in order: the scratch directories only
/// once nothing is mounted on them, then the resource groups.
pub open spec fn release_plan(mount: bool, scratch: bool, groups: bool) -> Seq<ReleaseStep> {
    (if scratch && !mount {
        seq![ReleaseStep::RemoveScratch]
    } else {
        Seq::<ReleaseStep>::empty()
    }) + (if groups { seq![ReleaseStep::RemoveGroups] } else { Seq::<ReleaseStep>::empty() })
}

impl Resources {
    pub closed spec fn holds_mount(&self) -> bool {
        self.mount
    }

    pub closed spec fn holds_scratch(&self) -> bool {
        self.scratch
    }

    pub closed spec fn holds_groups(&self) -> bool {
        self.groups
    }

    pub open spec fn wf(&self) -> bool {
        self.holds_mount() ==> self.holds_scratch()
    }

    pub open spec fn is_empty(&self) -> bool {
        !self.holds_mount() && !self.holds_scratch() && !self.holds_groups()
    }

    pub open spec fn pending(&self) -> Seq<ReleaseStep> {
        release_plan(self.holds_mount(), self.holds_scratch(), self.holds_groups())
    }

    /// Nothing held yet.
    pub fn new() -> (r: Resources)
        ensures
            r.wf(),
            r.is_empty(),
    {
        Resources { mount: false, scratch: false, groups: false }
    }

    /// Records that the mount target and work directory were made.
    pub fn record_scratch(&mut self)
        requires
            old(self).wf(),
        ensures
            final(self).wf(),
            final(self).holds_scratch(),
            final(self).holds_mount() == old(self).holds_mount(),
            final(self).holds_groups() == old(self).holds_groups(),
    {
        self.scratch = true;
    }

    /// Records that the overlay was mounted on the scratch directories.
    pub fn record_mount(&mut self)
        requires
            old(self).wf(),
            old(self).holds_scratch(),
        ensures
            final(self).wf(),
            final(self).holds_mount(),
            final(self).holds_scratch(),
            final(self).holds_groups() == old(self).holds_groups(),
    {
        self.mount = true;
    }

    /// Records that the resource groups were created.
    pub fn record_groups(&mut self)
        requires
            old(self).wf(),
        ensures
            final(self).wf(),
            final(self).holds_groups(),
            final(self).holds_mount() == old(self).holds_mount(),
            final(self).holds_scratch() == old(self).holds_scratch(),
    {
        self.groups = true;
    }

    /// Whether the overlay is still mounted, so that detaching it is due.
    pub fn is_mounted(&self) -> (r: bool)
        ensures
            r == self.holds_mount(),
    {
        self.mount
    }

    /// Whether the scratch directories are still held.
    pub fn has_scratch(&self) -> (r: bool)
        ensures
            r == self.holds_scratch(),
    {
        self.scratch
    }

    /// Records how detaching the overlay went: on success it is no longer
    /// mounted; on failure it still is, and its directories stay held.
    pub fn record_unmount(&mut self, detached: bool)
        requires
            old(self).wf(),
            old(self).holds_mount(),
        ensures
            final(self).wf(),
            final(self).holds_mount() == !detached,
            final(self).holds_scratch(),
            final(self).holds_groups() == old(self).holds_groups(),
    {
        if detached {
            self.mount = false;
        }
    }

    /// Hands out the removals that are due, in order, and forgets what they
    /// release: what is released once is never released again. Scratch
    /// directories under a mount that could not be detached stay held.
    pub fn release(&mut self) -> (r: Vec<ReleaseStep>)
        requires
            old(self).wf(),
        ensures
            r@ == old(self).pending(),
            final(self).wf(),
            final(self).holds_mount() == old(self).holds_mount(),
            final(self).holds_scratch() == old(self).holds_mount(),
            !final(self).holds_groups(),
    {
        let mut r: Vec<ReleaseStep> = Vec::new();
        if self.scratch && !self.mount {
            r.push(ReleaseStep::RemoveScratch);
            self.scratch = false;
        }
        if self.groups {
            r.push(ReleaseStep::RemoveGroups);
        }
        self.groups = false;
        assert(r@ == release_plan(old(self).mount, old(self).scratch, old(self).groups));
        r
    }
}

/// Releasing twice is harmless: after one release nothing more is due, each
/// resource is released at most once, and scratch directories are removed
/// only when nothing is mounted on them.
pub proof fn lemma_release_idempotent(mount: bool, scratch: bool, groups: bool)
    requires
        mount ==> scratch,
    ensures
        release_plan(mount, mount, false) == Seq::<ReleaseStep>::empty(),
        forall|i: int, j: int|
            0 <= i < j < release_plan(mount, scratch, groups).len() ==> release_plan(
                mount,
                scratch,
                groups,
            )[i] != release_plan(mount, scratch, groups)[j],
        release_plan(mount, scratch, groups).contains(ReleaseStep::RemoveScratch) <==> (scratch
            && !mount),
        release_plan(mount, scratch, groups).contains(ReleaseStep::RemoveGroups) <==> groups,
{
    let p = release_plan(mount, scratch, groups);
    assert(release_plan(mount, mount, false) =~= Seq::<ReleaseStep>::empty());
    if scratch && !mount {
        if groups {
            assert(p =~= seq![ReleaseStep::RemoveScratch, ReleaseStep::RemoveGroups]);
            assert(p[1] == ReleaseStep::RemoveGroups);
        } else {
            assert(p =~= seq![ReleaseStep::RemoveScratch]);
        }
        assert(p[0] == ReleaseStep::RemoveScratch);
    } else if groups {
        assert(p =~= seq![ReleaseStep::RemoveGroups]);
        assert(p[0] == ReleaseStep::RemoveGroups);
        assert(!p.contains(ReleaseStep::RemoveScratch));
    } else {
        assert(p =~= Seq::<ReleaseStep>::empty());
    }
}

/// Everything building a sandbox does, decided before any of it is done:
/// the overlay to mount (lower, upper) if any, the name shared by the three
/// resource groups, the domains to create and join in order, the limits to
/// write, whether the child changes its root to the mount target, and the
/// deadline of a run.
pub struct SandboxPlan {
    pub overlay: Option<(String, String)>,
    pub group_name: String,
    pub subsystems: Vec<Subsystem>,
    pub limits: Vec<LimitWrite>,
    pub chroot: bool,
    pub time_limit: Option<Duration>,
}

impl SandboxBuilder {
    /// The plan for this configuration, with resource groups named `group_name`.
    pub fn plan_named(&self, group_name: String) -> (r: SandboxPlan)
        ensures
            r.overlay == self.overlay,
            r.group_name == group_name,
            r.subsystems@ == all_subsystems(),
            r.limits@ == limit_plan(self.memory_limit, self.pids_limit),
            r.chroot == self.overlay.is_some(),
            r.time_limit == self.time_limit,
    {
        let overlay = match &self.overlay {
            Some((lower, upper)) => Some((lower.clone(), upper.clone())),
            None => None,
        };
        SandboxPlan {
            overlay,
            group_name,
            subsystems: group_subsystems(),
            limits: self.limit_writes(),
            chroot: self.overlay.is_some(),
            time_limit: self.time_limit,
        }
    }

    /// The plan for this configuration, under a freshly generated group name;
    /// `None` when no name could be generated.
    pub fn plan(&self) -> (r: Option<SandboxPlan>)
        ensures
            r matches Some(p) ==> {
                &&& p.overlay == self.overlay
                &&& is_group_name(p.group_name@)
                &&& p.subsystems@ == all_subsystems()
                &&& p.limits@ == limit_plan(self.memory_limit, self.pids_limit)
                &&& p.chroot == self.overlay.is_some()
                &&& p.time_limit == self.time_limit
            },
    {
        match new_group_name() {
            Some(name) => Some(self.plan_named(name)),
            None => None,
        }
    }
}

} // verus!
