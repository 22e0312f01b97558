//! Provisioning new swarms from a backend-specific configuration.
//!
//! The local backend runs the network in-process: launching a swarm spawns
//! its node synchronously, builds the genesis ledger the node serves, and
//! derives the bootstrap authorities from the generated root key material —
//! each exactly once, from the same key, as network genesis hands every
//! bootstrap identity the root key. There is no partial success: the caller
//! gets a fully started swarm or (for a backend that can fail) an error
//! after every spawned process was released.

use vstd::prelude::*;
use crate::authority::AccountAuthority;
use crate::chain::{ChainIdentifier, EndpointDescriptor, DESIGNATED_DEALER_ADDRESS, ROOT_ADDRESS,
    TEST_CHAIN, TREASURY_COMPLIANCE_ADDRESS};
use crate::errors::ProvisioningError;
use crate::ledger::Ledger;
use crate::provision::{ProvisioningSession, SpawnOutcome};
use crate::swarm::LocalSwarm;

verus! {

/// The client port the single in-process node serves. Nothing binds it on
/// the host: the in-process client reaches the node directly.
pub const LOCAL_NODE_PORT: u16 = 8080;

/// The fee the local network charges a transfer's sender. The local
/// backend charges none, so test arithmetic stays exact.
pub const LOCAL_TRANSFER_FEE: u64 = 0;

/// Length in bytes of the generated root key material.
pub const GENESIS_KEY_LEN: usize = 32;

/// The byte the local genesis fills its root key with: key material here is
/// a fixed test vector, not a secret.
pub const GENESIS_KEY_BYTE: u8 = 0x2A;

/// The root key material a local network's genesis generates.
pub open spec fn spec_genesis_key() -> Seq<u8> {
    Seq::new(GENESIS_KEY_LEN as nat, |i: int| GENESIS_KEY_BYTE)
}

/// Load the generated root key material, as each bootstrap authority does
/// once at launch.
fn genesis_root_key() -> (r: Vec<u8>)
    ensures
        r@ == spec_genesis_key(),
{
    let mut key: Vec<u8> = Vec::new();
    let mut i: usize = 0;
    while i < GENESIS_KEY_LEN
        invariant
            i <= GENESIS_KEY_LEN,
            key@.len() == i,
            forall|j: int| 0 <= j < i ==> key@[j] == GENESIS_KEY_BYTE,
        decreases GENESIS_KEY_LEN - i,
    {
        key.push(GENESIS_KEY_BYTE);
        i = i + 1;
    }
    proof {
        assert(key@ =~= spec_genesis_key());
    }
    key
}

/// Provisions local in-process swarms from the path of a node executable.
#[derive(Debug)]
pub struct LocalFactory {
    node_bin: String,
}

impl LocalFactory {
    /// The configured path of the node executable.
    pub closed spec fn spec_node_bin(&self) -> Seq<char> {
        self.node_bin@
    }

    /// A factory that will launch swarms of the node binary at `node_bin`.
    pub fn new(node_bin: &str) -> (r: Self)
        ensures
            r.spec_node_bin() == node_bin@,
    {
        LocalFactory { node_bin: node_bin.to_owned() }
    }

    /// The configured path of the node executable.
    pub fn node_bin(&self) -> (r: &str)
        ensures
            r@ == self.spec_node_bin(),
    {
        self.node_bin.as_str()
    }

    /// Launch one fully started single-node swarm.
    ///
    /// On success — and the in-process backend has no failing path — the
    /// swarm's node is running and serves the returned endpoint's port, the
    /// ledger is exactly the genesis state on the test chain, and the three
    /// bootstrap authorities stand at sequence number zero, each derived
    /// from the generated root key, matching the on-chain accounts. Both
    /// views are grantable.
    pub fn launch_swarm(&self) -> (r: Result<LocalSwarm, ProvisioningError>)
        ensures
            r is Ok,
            r matches Ok(s) ==> {
                &&& s.spec_chain() == (ChainIdentifier { id: TEST_CHAIN })
                &&& s.spec_root() matches Some(a) && a.spec_address() == ROOT_ADDRESS
                    && a.spec_sequence_number() == 0 && a.spec_key() == spec_genesis_key()
                &&& s.spec_treasury() matches Some(a) && a.spec_address()
                    == TREASURY_COMPLIANCE_ADDRESS && a.spec_sequence_number() == 0
                    && a.spec_key() == spec_genesis_key()
                &&& s.spec_dealer() matches Some(a) && a.spec_address()
                    == DESIGNATED_DEALER_ADDRESS && a.spec_sequence_number() == 0
                    && a.spec_key() == spec_genesis_key()
                &&& s.spec_admin_available() && s.spec_public_available()
                &&& s.spec_ledger().spec_chain() == s.spec_chain()
                &&& s.spec_ledger().spec_fee() == LOCAL_TRANSFER_FEE
                &&& s.spec_ledger().spec_accounts() == Map::<u64, crate::ledger::AccountState>::empty().insert(
                    ROOT_ADDRESS,
                    (crate::ledger::AccountState { balance: 0, sequence_number: 0 }),
                ).insert(
                    TREASURY_COMPLIANCE_ADDRESS,
                    (crate::ledger::AccountState { balance: 0, sequence_number: 0 }),
                ).insert(
                    DESIGNATED_DEALER_ADDRESS,
                    (crate::ledger::AccountState { balance: 0, sequence_number: 0 }),
                )
                &&& s.spec_nodes().len() == 1 && s.spec_nodes()[0].running
                    && s.spec_nodes()[0].port == s.spec_endpoint().port
                &&& s.spec_endpoint().port == LOCAL_NODE_PORT
            },
    {
        let chain = ChainIdentifier::test();
        let mut session = ProvisioningSession::new(1);
        // The in-process node starts synchronously; a process-backed
        // backend would report its spawn attempts here and abort on the
        // first failure, releasing everything already spawned.
        session.record_spawn(SpawnOutcome::Spawned { id: 1, port: LOCAL_NODE_PORT });
        let nodes = session.complete();
        let root_account = AccountAuthority::new(ROOT_ADDRESS, genesis_root_key());
        let treasury_compliance_account = AccountAuthority::new(
            TREASURY_COMPLIANCE_ADDRESS,
            genesis_root_key(),
        );
        let designated_dealer_account = AccountAuthority::new(
            DESIGNATED_DEALER_ADDRESS,
            genesis_root_key(),
        );
        let ledger = Ledger::genesis(chain, LOCAL_TRANSFER_FEE);
        let endpoint = EndpointDescriptor::local(LOCAL_NODE_PORT);
        Ok(
            LocalSwarm::assemble(
                nodes,
                ledger,
                root_account,
                treasury_compliance_account,
                designated_dealer_account,
                chain,
                endpoint,
            ),
        )
    }
}

} // verus!
