//! Plain-value descriptions of a network: its identifying tag, its
//! client-facing endpoint, and the well-known bootstrap addresses.

use vstd::prelude::*;

verus! {

/// The identifying tag of the test network every local swarm runs.
pub const TEST_CHAIN: u8 = 4;

/// Well-known address of the root authority created at genesis.
pub const ROOT_ADDRESS: u64 = 0xA550C18;

/// Well-known address of the treasury-compliance authority created at genesis.
pub const TREASURY_COMPLIANCE_ADDRESS: u64 = 0xB1E55ED;

/// Well-known address of the designated-dealer authority created at genesis.
pub const DESIGNATED_DEALER_ADDRESS: u64 = 0xDD;

/// An opaque tag distinguishing one network from every other. Every handle
/// carries it, and a transaction is accepted only by the network whose tag
/// it was signed for, which prevents cross-network replay.
#[derive(Clone, Copy, Debug, PartialEq, Eq, Structural)]
pub struct ChainIdentifier {
    pub id: u8,
}

impl ChainIdentifier {
    /// The tag of a local test network.
    pub fn test() -> (r: Self)
        ensures
            r.id == TEST_CHAIN,
    {
        ChainIdentifier { id: TEST_CHAIN }
    }
}

/// A resolved client-facing address of a running network: host, port and
/// request path. Immutable once the network has finished start-up.
#[derive(Clone, Debug)]
pub struct EndpointDescriptor {
    pub host: String,
    pub port: u16,
    pub path: String,
}

impl EndpointDescriptor {
    /// The endpoint of a node listening on `port` on the local host.
    pub fn local(port: u16) -> (r: Self)
        ensures
            r.port == port,
            r.host@ == "localhost"@,
            r.path@ == "/v1"@,
    {
        EndpointDescriptor { host: "localhost".to_owned(), port, path: "/v1".to_owned() }
    }

    /// An identical descriptor, for another handle to carry.
    pub fn duplicate(&self) -> (r: Self)
        ensures
            r == *self,
    {
        EndpointDescriptor {
            host: self.host.clone(),
            port: self.port,
            path: self.path.clone(),
        }
    }
}

} // verus!
