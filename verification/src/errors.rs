//! Typed errors for every fallible operation of the harness.

use vstd::prelude::*;

verus! {

/// Why provisioning a new swarm failed. Each failure is fatal to the launch:
/// no partially started network is ever handed back.
#[derive(Clone, Copy, Debug, PartialEq, Eq, Structural)]
pub enum ProvisioningError {
    /// Spawning the node process with this index failed outright.
    SpawnFailure { node_index: u64 },
    /// The port chosen for this node was already bound.
    PortConflict { port: u16 },
    /// The network did not report ready before the start-up deadline.
    StartupTimeout { node_index: u64 },
}

/// Why a funding request failed.
#[derive(Clone, Copy, Debug, PartialEq, Eq, Structural)]
pub enum FundingError {
    /// The round trip to the network did not complete; retryable.
    Network,
    /// The request reached the network and was refused; not retryable
    /// without investigating the refusal.
    Rejected,
    /// The amount lies outside the funding strategy's allowed range;
    /// nothing was submitted.
    InvalidAmount,
}

/// Why the network refused a submitted request. Mirrors the ledger's public
/// API contract: `submit` and the faucet return one of these when the request
/// reached the network but was not executed.
#[derive(Clone, Copy, Debug, PartialEq, Eq, Structural)]
pub enum ClientError {
    /// The transaction was signed for a different network.
    ChainMismatch,
    /// The sending account does not exist on this network.
    UnknownSender,
    /// The transaction's sequence number is not the sender's next one.
    SequenceMismatch,
    /// The sender's on-chain sequence counter can no longer be advanced.
    SequenceExhausted,
    /// The sender lacks the privilege the payload demands.
    NotAuthorized,
    /// The sender cannot cover the transferred amount plus the fee.
    InsufficientBalance,
    /// Crediting the target would overflow its balance.
    BalanceOverflow,
}

/// Why an operation on an account authority failed.
#[derive(Clone, Copy, Debug, PartialEq, Eq, Structural)]
pub enum AuthorityError {
    /// The cached sequence number cannot be advanced any further.
    SequenceExhausted,
}

/// Why a privilege-scoped view could not be produced.
#[derive(Clone, Copy, Debug, PartialEq, Eq, Structural)]
pub enum HandleError {
    /// An exclusive handle over the requested authority is still
    /// outstanding; obtain it again after the handle is returned.
    AuthorityBorrowed,
}

} // verus!
