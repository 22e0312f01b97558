//! Tracking node processes while a launch is in progress, so that no
//! failure path can leak one.
//!
//! A [`ProvisioningSession`] records every process the backend spawns. A
//! launch either runs to [`ProvisioningSession::complete`], handing the full
//! node set to the new swarm, or goes through
//! [`ProvisioningSession::abort`], which hands back every spawned process id
//! for termination and keeps none: there is no third exit, so a failed
//! launch leaves zero lingering processes.

use vstd::prelude::*;

verus! {

/// One spawned node process: its process id, the client port it serves,
/// and whether it is still running.
#[derive(Clone, Copy, Debug, PartialEq, Eq, Structural)]
pub struct NodeProcess {
    pub id: u64,
    pub port: u16,
    pub running: bool,
}

/// What the backend reports for one spawn attempt.
#[derive(Clone, Copy, Debug, PartialEq, Eq, Structural)]
pub enum SpawnOutcome {
    /// A node process came up and serves clients on `port`.
    Spawned { id: u64, port: u16 },
    /// The attempt failed; no process exists for it.
    Failed,
}

/// The ids of `nodes`, in order: what a caller must terminate to release
/// them all.
pub open spec fn ids_of(nodes: Seq<NodeProcess>) -> Seq<u64> {
    nodes.map_values(|p: NodeProcess| p.id)
}

/// One launch in progress: how many nodes it still owes, which processes it
/// has spawned so far, and whether it has failed.
#[derive(Debug)]
pub struct ProvisioningSession {
    target: usize,
    spawned: Vec<NodeProcess>,
    failed: bool,
}

impl ProvisioningSession {
    /// How many nodes the launch owes.
    pub closed spec fn spec_target(&self) -> usize {
        self.target
    }

    /// The processes spawned so far and not yet released.
    pub closed spec fn spec_spawned(&self) -> Seq<NodeProcess> {
        self.spawned@
    }

    /// Has some step failed?
    pub closed spec fn spec_failed(&self) -> bool {
        self.failed
    }

    /// A launch that owes `target` nodes and has spawned nothing yet.
    pub fn new(target: usize) -> (r: Self)
        ensures
            r.spec_target() == target,
            r.spec_spawned() == Seq::<NodeProcess>::empty(),
            !r.spec_failed(),
    {
        ProvisioningSession { target, spawned: Vec::new(), failed: false }
    }

    /// Must another node still be spawned?
    pub fn pending(&self) -> (r: bool)
        ensures
            r == (self.spec_spawned().len() < self.spec_target() && !self.spec_failed()),
    {
        self.spawned.len() < self.target && !self.failed
    }

    /// Record what one spawn attempt came to: a spawned process joins the
    /// tracked set the moment it exists, so that no outcome can orphan it;
    /// a failed attempt marks the launch failed and spawns nothing.
    pub fn record_spawn(&mut self, outcome: SpawnOutcome)
        ensures
            final(self).spec_target() == old(self).spec_target(),
            outcome matches SpawnOutcome::Spawned { id, port } ==> {
                &&& final(self).spec_spawned() == old(self).spec_spawned().push(
                    (NodeProcess { id, port, running: true }),
                )
                &&& final(self).spec_failed() == old(self).spec_failed()
            },
            outcome == SpawnOutcome::Failed ==> final(self).spec_spawned() == old(
                self,
            ).spec_spawned() && final(self).spec_failed(),
    {
        match outcome {
            SpawnOutcome::Spawned { id, port } => {
                self.spawned.push(NodeProcess { id, port, running: true });
            },
            SpawnOutcome::Failed => {
                self.failed = true;
            },
        }
    }

    /// Record that the network missed its start-up deadline: the launch is
    /// failed, and every process spawned so far stays tracked for release.
    pub fn record_startup_timeout(&mut self)
        ensures
            final(self).spec_target() == old(self).spec_target(),
            final(self).spec_spawned() == old(self).spec_spawned(),
            final(self).spec_failed(),
    {
        self.failed = true;
    }

    /// Abandon the launch: hand back the id of every spawned process, in
    /// spawn order, for the caller to terminate, and keep none tracked.
    /// With [`ProvisioningSession::complete`] this is the only way out of a
    /// session, so an aborted launch lingers with zero spawned processes.
    pub fn abort(&mut self) -> (kills: Vec<u64>)
        ensures
            kills@ == ids_of(old(self).spec_spawned()),
            final(self).spec_spawned() == Seq::<NodeProcess>::empty(),
            final(self).spec_failed(),
            final(self).spec_target() == old(self).spec_target(),
    {
        let mut kills: Vec<u64> = Vec::new();
        let mut i: usize = 0;
        while i < self.spawned.len()
            invariant
                i <= self.spawned.len(),
                self == old(self),
                kills@ == ids_of(self.spec_spawned().take(i as int)),
            decreases self.spawned.len() - i,
        {
            kills.push(self.spawned[i].id);
            proof {
                assert(self.spec_spawned().take(i + 1 as int).drop_last() =~= self
                    .spec_spawned().take(i as int));
                assert(kills@ =~= ids_of(self.spec_spawned().take(i + 1 as int)));
            }
            i = i + 1;
        }
        proof {
            assert(self.spec_spawned().take(self.spawned@.len() as int) =~= self
                .spec_spawned());
        }
        self.spawned = Vec::new();
        self.failed = true;
        kills
    }

    /// Finish a launch that spawned everything it owed: the session is
    /// consumed and the full node set passes to the new swarm's ownership.
    pub fn complete(self) -> (nodes: Vec<NodeProcess>)
        requires
            self.spec_spawned().len() == self.spec_target(),
            !self.spec_failed(),
        ensures
            nodes@ == self.spec_spawned(),
    {
        self.spawned
    }
}

} // verus!
