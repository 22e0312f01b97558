//! One running test network and the privilege-scoped views onto it.
//!
//! A [`LocalSwarm`] owns the node processes, the in-process ledger they
//! serve, and the bootstrap authorities derived at genesis. It produces an
//! administrative view ([`AdminInfo`]) and a public view ([`PublicInfo`]) on
//! demand. A privileged authority is handed out by moving it into the view,
//! so at most one view can hold it at a time: a second request while one is
//! outstanding is rejected, never silently interleaved, and returning the
//! view makes the authority grantable again.

use vstd::prelude::*;
use crate::authority::AccountAuthority;
use crate::chain::{ChainIdentifier, EndpointDescriptor};
use crate::coffer::Coffer;
use crate::errors::HandleError;
use crate::ledger::Ledger;
use crate::provision::NodeProcess;

verus! {

/// The administrative view: exclusive custody of the root and
/// treasury-compliance authorities, plus the network's tag and endpoint.
#[derive(Debug)]
pub struct AdminInfo {
    pub root_account: AccountAuthority,
    pub treasury_compliance_account: AccountAuthority,
    pub chain: ChainIdentifier,
    pub endpoint: EndpointDescriptor,
}

/// The public view: a funding coffer, plus the network's tag and endpoint.
/// The local backend equips it with a privileged-mint coffer for test
/// convenience, since it holds the treasury keys anyway; a remote backend
/// would hand out a faucet-style coffer instead.
#[derive(Debug)]
pub struct PublicInfo {
    pub chain: ChainIdentifier,
    pub endpoint: EndpointDescriptor,
    pub coffer: Coffer,
}

/// `nodes` with every process terminated.
pub open spec fn stopped(nodes: Seq<NodeProcess>) -> Seq<NodeProcess> {
    nodes.map_values(
        |p: NodeProcess| (NodeProcess { id: p.id, port: p.port, running: false }),
    )
}

/// One provisioned, running network instance: its node processes, the
/// ledger state they serve, and the bootstrap authorities. An authority
/// field is `None` exactly while a view holds that authority.
#[derive(Debug)]
pub struct LocalSwarm {
    nodes: Vec<NodeProcess>,
    ledger: Ledger,
    root_account: Option<AccountAuthority>,
    treasury_compliance_account: Option<AccountAuthority>,
    designated_dealer_account: Option<AccountAuthority>,
    chain: ChainIdentifier,
    endpoint: EndpointDescriptor,
}

impl LocalSwarm {
    pub closed spec fn spec_nodes(&self) -> Seq<NodeProcess> {
        self.nodes@
    }

    pub closed spec fn spec_ledger(&self) -> Ledger {
        self.ledger
    }

    pub closed spec fn spec_root(&self) -> Option<AccountAuthority> {
        self.root_account
    }

    pub closed spec fn spec_treasury(&self) -> Option<AccountAuthority> {
        self.treasury_compliance_account
    }

    pub closed spec fn spec_dealer(&self) -> Option<AccountAuthority> {
        self.designated_dealer_account
    }

    pub closed spec fn spec_chain(&self) -> ChainIdentifier {
        self.chain
    }

    pub closed spec fn spec_endpoint(&self) -> EndpointDescriptor {
        self.endpoint
    }

    /// Can an administrative view be granted now?
    pub open spec fn spec_admin_available(&self) -> bool {
        self.spec_root() is Some && self.spec_treasury() is Some
    }

    /// Can a public view be granted now?
    pub open spec fn spec_public_available(&self) -> bool {
        self.spec_treasury() is Some && self.spec_dealer() is Some
    }

    /// Assemble a freshly launched swarm from what provisioning produced.
    pub(crate) fn assemble(
        nodes: Vec<NodeProcess>,
        ledger: Ledger,
        root_account: AccountAuthority,
        treasury_compliance_account: AccountAuthority,
        designated_dealer_account: AccountAuthority,
        chain: ChainIdentifier,
        endpoint: EndpointDescriptor,
    ) -> (r: Self)
        ensures
            r.spec_nodes() == nodes@,
            r.spec_ledger() == ledger,
            r.spec_root() == Some(root_account),
            r.spec_treasury() == Some(treasury_compliance_account),
            r.spec_dealer() == Some(designated_dealer_account),
            r.spec_chain() == chain,
            r.spec_endpoint() == endpoint,
    {
        LocalSwarm {
            nodes,
            ledger,
            root_account: Some(root_account),
            treasury_compliance_account: Some(treasury_compliance_account),
            designated_dealer_account: Some(designated_dealer_account),
            chain,
            endpoint,
        }
    }

    /// The node processes the swarm owns.
    pub fn nodes(&self) -> (r: &Vec<NodeProcess>)
        ensures
            r@ == self.spec_nodes(),
    {
        &self.nodes
    }

    /// The network's identifying tag.
    pub fn chain(&self) -> (r: ChainIdentifier)
        ensures
            r == self.spec_chain(),
    {
        self.chain
    }

    /// The network's client-facing endpoint.
    pub fn endpoint(&self) -> (r: &EndpointDescriptor)
        ensures
            *r == self.spec_endpoint(),
    {
        &self.endpoint
    }

    /// The network's ledger, as a client bound to the endpoint reaches it.
    pub fn client(&mut self) -> (l: &mut Ledger)
        ensures
            *l == old(self).spec_ledger(),
            final(self).spec_ledger() == *final(l),
            final(self).spec_nodes() == old(self).spec_nodes(),
            final(self).spec_root() == old(self).spec_root(),
            final(self).spec_treasury() == old(self).spec_treasury(),
            final(self).spec_dealer() == old(self).spec_dealer(),
            final(self).spec_chain() == old(self).spec_chain(),
            final(self).spec_endpoint() == old(self).spec_endpoint(),
    {
        &mut self.ledger
    }

    /// Grant the administrative view, moving the root and
    /// treasury-compliance authorities into it. Succeeds exactly when
    /// neither is held by an outstanding view; a swarm that has granted one
    /// rejects every further request until [`LocalSwarm::return_admin`].
    pub fn admin_info(&mut self) -> (r: Result<AdminInfo, HandleError>)
        ensures
            final(self).spec_nodes() == old(self).spec_nodes(),
            final(self).spec_ledger() == old(self).spec_ledger(),
            final(self).spec_dealer() == old(self).spec_dealer(),
            final(self).spec_chain() == old(self).spec_chain(),
            final(self).spec_endpoint() == old(self).spec_endpoint(),
            old(self).spec_admin_available() ==> {
                &&& r matches Ok(info) && old(self).spec_root() == Some(info.root_account)
                    && old(self).spec_treasury() == Some(info.treasury_compliance_account)
                    && info.chain == old(self).spec_chain() && info.endpoint == old(
                    self,
                ).spec_endpoint()
                &&& final(self).spec_root() is None
                &&& final(self).spec_treasury() is None
            },
            !old(self).spec_admin_available() ==> r == Result::<AdminInfo, HandleError>::Err(
                HandleError::AuthorityBorrowed,
            ) && *final(self) == *old(self),
    {
        if self.root_account.is_some() && self.treasury_compliance_account.is_some() {
            let root = self.root_account.take();
            let treasury = self.treasury_compliance_account.take();
            match (root, treasury) {
                (Some(root_account), Some(treasury_compliance_account)) => Ok(
                    AdminInfo {
                        root_account,
                        treasury_compliance_account,
                        chain: self.chain,
                        endpoint: self.endpoint.duplicate(),
                    },
                ),
                _ => Err(HandleError::AuthorityBorrowed),
            }
        } else {
            Err(HandleError::AuthorityBorrowed)
        }
    }

    /// Return an administrative view, making its authorities grantable
    /// again.
    pub fn return_admin(&mut self, info: AdminInfo)
        ensures
            final(self).spec_root() == Some(info.root_account),
            final(self).spec_treasury() == Some(info.treasury_compliance_account),
            final(self).spec_nodes() == old(self).spec_nodes(),
            final(self).spec_ledger() == old(self).spec_ledger(),
            final(self).spec_dealer() == old(self).spec_dealer(),
            final(self).spec_chain() == old(self).spec_chain(),
            final(self).spec_endpoint() == old(self).spec_endpoint(),
    {
        self.root_account = Some(info.root_account);
        self.treasury_compliance_account = Some(info.treasury_compliance_account);
    }

    /// Grant the public view, moving the treasury-compliance and
    /// designated-dealer authorities into its privileged-mint coffer.
    /// Succeeds exactly when neither is held by an outstanding view.
    pub fn public_info(&mut self) -> (r: Result<PublicInfo, HandleError>)
        ensures
            final(self).spec_nodes() == old(self).spec_nodes(),
            final(self).spec_ledger() == old(self).spec_ledger(),
            final(self).spec_root() == old(self).spec_root(),
            final(self).spec_chain() == old(self).spec_chain(),
            final(self).spec_endpoint() == old(self).spec_endpoint(),
            old(self).spec_public_available() ==> {
                &&& r matches Ok(info) && info.coffer matches Coffer::PrivilegedMint {
                    chain,
                    treasury,
                    dealer,
                } && chain == old(self).spec_chain() && old(self).spec_treasury() == Some(
                    treasury,
                ) && old(self).spec_dealer() == Some(dealer)
                &&& r matches Ok(info) && info.chain == old(self).spec_chain()
                    && info.endpoint == old(self).spec_endpoint()
                &&& final(self).spec_treasury() is None
                &&& final(self).spec_dealer() is None
            },
            !old(self).spec_public_available() ==> r == Result::<PublicInfo, HandleError>::Err(
                HandleError::AuthorityBorrowed,
            ) && *final(self) == *old(self),
    {
        if self.treasury_compliance_account.is_some()
            && self.designated_dealer_account.is_some() {
            let treasury = self.treasury_compliance_account.take();
            let dealer = self.designated_dealer_account.take();
            match (treasury, dealer) {
                (Some(treasury), Some(dealer)) => Ok(
                    PublicInfo {
                        chain: self.chain,
                        endpoint: self.endpoint.duplicate(),
                        coffer: Coffer::PrivilegedMint { chain: self.chain, treasury, dealer },
                    },
                ),
                _ => Err(HandleError::AuthorityBorrowed),
            }
        } else {
            Err(HandleError::AuthorityBorrowed)
        }
    }

    /// Return a public view. The authorities a privileged-mint coffer held
    /// become grantable again; a faucet coffer held none.
    pub fn return_public(&mut self, info: PublicInfo)
        ensures
            final(self).spec_nodes() == old(self).spec_nodes(),
            final(self).spec_ledger() == old(self).spec_ledger(),
            final(self).spec_root() == old(self).spec_root(),
            final(self).spec_chain() == old(self).spec_chain(),
            final(self).spec_endpoint() == old(self).spec_endpoint(),
            info.coffer matches Coffer::PrivilegedMint { treasury, dealer, .. } ==> {
                &&& final(self).spec_treasury() == Some(treasury)
                &&& final(self).spec_dealer() == Some(dealer)
            },
            info.coffer matches Coffer::PublicFaucet { .. } ==> final(self).spec_treasury()
                == old(self).spec_treasury() && final(self).spec_dealer() == old(
                self,
            ).spec_dealer(),
    {
        match info.coffer {
            Coffer::PrivilegedMint { treasury, dealer, .. } => {
                self.treasury_compliance_account = Some(treasury);
                self.designated_dealer_account = Some(dealer);
            },
            Coffer::PublicFaucet { .. } => {},
        }
    }

    /// Tear the network down: terminate every owned node process. Safe to
    /// call on every exit path and idempotent, so an error path that tears
    /// down a swarm an earlier path already tore down releases exactly the
    /// same processes and nothing more.
    pub fn teardown(&mut self)
        ensures
            final(self).spec_nodes() == stopped(old(self).spec_nodes()),
            forall|i: int| 0 <= i < final(self).spec_nodes().len()
                ==> !final(self).spec_nodes()[i].running,
            final(self).spec_ledger() == old(self).spec_ledger(),
            final(self).spec_root() == old(self).spec_root(),
            final(self).spec_treasury() == old(self).spec_treasury(),
            final(self).spec_dealer() == old(self).spec_dealer(),
            final(self).spec_chain() == old(self).spec_chain(),
            final(self).spec_endpoint() == old(self).spec_endpoint(),
    {
        let n = self.nodes.len();
        let mut i: usize = 0;
        while i < n
            invariant
                n == self.spec_nodes().len(),
                i <= n,
                self.spec_nodes().len() == old(self).spec_nodes().len(),
                forall|j: int| 0 <= j < i ==> self.spec_nodes()[j] == stopped(
                    old(self).spec_nodes(),
                )[j],
                forall|j: int| i <= j < n ==> self.spec_nodes()[j] == old(self).spec_nodes()[j],
                self.spec_ledger() == old(self).spec_ledger(),
                self.spec_root() == old(self).spec_root(),
                self.spec_treasury() == old(self).spec_treasury(),
                self.spec_dealer() == old(self).spec_dealer(),
                self.spec_chain() == old(self).spec_chain(),
                self.spec_endpoint() == old(self).spec_endpoint(),
            decreases n - i,
        {
            self.nodes[i].running = false;
            i = i + 1;
        }
        proof {
            assert(self.spec_nodes() =~= stopped(old(self).spec_nodes()));
        }
    }
}

/// Exclusivity law: a swarm that has granted its administrative view — its
/// root authority has been moved out — cannot grant a second one, for
/// `admin_info` rejects every request while `spec_admin_available` is
/// false. Grants of the same authority are therefore serialized by
/// `admin_info` / `return_admin` pairs and never overlap.
pub proof fn lemma_admin_grant_excludes_second(pre: LocalSwarm, post: LocalSwarm)
    requires
        pre.spec_admin_available(),
        post.spec_root() is None,
    ensures
        !post.spec_admin_available(),
{
}

/// Idempotence law: tearing down an already-torn-down node set changes
/// nothing, and a torn-down set has every process terminated.
pub proof fn lemma_teardown_idempotent(nodes: Seq<NodeProcess>)
    ensures
        stopped(stopped(nodes)) == stopped(nodes),
        forall|i: int| 0 <= i < stopped(nodes).len() ==> !stopped(nodes)[i].running,
{
    assert(stopped(stopped(nodes)) =~= stopped(nodes));
}

} // verus!
