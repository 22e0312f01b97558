//! Funding test accounts, under either authority tier.
//!
//! A [`Coffer`] credits a caller-supplied address in one of two ways: a
//! privileged direct mint signed by the treasury-compliance authority it
//! holds exclusively, or a faucet-style request that uses no local key
//! material at all. Funding always targets the caller's address, never the
//! coffer's own identities. Execution here is immediately final: a balance
//! credited by a successful call is visible to the next query.

use vstd::prelude::*;
use crate::authority::{AccountAuthority, TransactionPayload};
use crate::chain::{ChainIdentifier, EndpointDescriptor};
use crate::errors::{ClientError, FundingError};
use crate::ledger::{balance_in, credit, debit_and_bump, lemma_mint_credits_exactly,
    mint_authorized, Ledger};

verus! {

/// The most one faucet-style call may credit.
pub const FAUCET_CAP: u64 = 1_000_000_000;

/// What came back from the network for one submitted request, as the
/// transport reports it.
#[derive(Clone, Copy, Debug, PartialEq, Eq, Structural)]
pub enum SubmitOutcome {
    /// The request executed at this sequence number of its sender.
    Executed { consumed_sequence_number: u64 },
    /// The request reached the network and was refused.
    Refused { reason: ClientError },
    /// The round trip itself did not complete; nothing is known of the
    /// request's fate.
    TransportFailure,
}

/// Map a transport-level outcome onto the funding taxonomy: an executed
/// request funded the target; a refusal is not retryable as submitted; a
/// failed round trip is retryable.
pub fn interpret_submit_outcome(outcome: &SubmitOutcome) -> (r: Result<(), FundingError>)
    ensures
        (*outcome matches SubmitOutcome::Executed { .. }) ==> r is Ok,
        (*outcome matches SubmitOutcome::Refused { .. }) ==> r == Result::<(),
            FundingError,
        >::Err(FundingError::Rejected),
        *outcome == SubmitOutcome::TransportFailure ==> r == Result::<(), FundingError>::Err(
            FundingError::Network,
        ),
{
    match outcome {
        SubmitOutcome::Executed { .. } => Ok(()),
        SubmitOutcome::Refused { .. } => Err(FundingError::Rejected),
        SubmitOutcome::TransportFailure => Err(FundingError::Network),
    }
}

/// Does the network whose state is `l` execute a mint of `amount` to `to`,
/// signed by `treasury` for the network tagged `chain`? Exactly when the tag
/// is the ledger's, the signer exists on chain at its cached sequence number
/// with room to consume one more, the signer is treasury-privileged, and the
/// credited balance still fits.
pub open spec fn mint_acceptable(
    l: Ledger,
    treasury: AccountAuthority,
    chain: ChainIdentifier,
    to: u64,
    amount: u64,
) -> bool {
    let m = l.spec_accounts();
    let s = treasury.spec_address();
    &&& chain == l.spec_chain()
    &&& m.contains_key(s)
    &&& treasury.spec_sequence_number() == m[s].sequence_number
    &&& m[s].sequence_number < u64::MAX
    &&& mint_authorized(s)
    &&& balance_in(debit_and_bump(m, s, 0), to) + amount <= u64::MAX
}

/// A funding strategy. Exactly one variant is active per coffer.
#[derive(Debug)]
pub enum Coffer {
    /// Exclusive custody of the treasury-compliance and designated-dealer
    /// authorities: funds by signing and submitting a direct mint.
    PrivilegedMint {
        chain: ChainIdentifier,
        treasury: AccountAuthority,
        dealer: AccountAuthority,
    },
    /// A client bound to the network's faucet-equivalent API: funds without
    /// any local key material, capped at [`FAUCET_CAP`] per call.
    PublicFaucet { endpoint: EndpointDescriptor },
}

impl Coffer {
    /// Fund `address` with `amount` fresh units on the network `node`.
    ///
    /// Privileged-mint strategy: a mint is signed at the treasury's cached
    /// sequence number and that number is consumed exactly once per call,
    /// whether or not the network then executes the mint. Faucet strategy:
    /// amounts above the cap are refused locally and nothing is submitted.
    /// On every success the target's balance rises by exactly `amount`; on
    /// every failure the network is unchanged.
    pub fn fund(&mut self, node: &mut Ledger, address: u64, amount: u64) -> (r: Result<
        (),
        FundingError,
    >)
        requires
            *old(self) matches Coffer::PrivilegedMint { treasury, .. }
                ==> treasury.spec_sequence_number() < u64::MAX,
        ensures
            final(node).spec_chain() == old(node).spec_chain(),
            final(node).spec_fee() == old(node).spec_fee(),
            *old(self) matches Coffer::PrivilegedMint { chain, treasury, dealer } ==> {
                &&& (*final(self) matches Coffer::PrivilegedMint {
                    chain: c2,
                    treasury: t2,
                    dealer: d2,
                } && c2 == chain && d2 == dealer && t2.spec_address() == treasury.spec_address()
                    && t2.spec_key() == treasury.spec_key() && t2.spec_sequence_number()
                    == treasury.spec_sequence_number() + 1)
                &&& r is Ok <==> mint_acceptable(*old(node), treasury, chain, address, amount)
                &&& r is Ok ==> final(node).spec_accounts() == credit(
                    debit_and_bump(old(node).spec_accounts(), treasury.spec_address(), 0),
                    address,
                    amount,
                )
                &&& r is Ok ==> final(node).spec_balance(address) == old(node).spec_balance(
                    address,
                ) + amount
                &&& r is Ok ==> forall|a: u64|
                    a != address ==> final(node).spec_balance(a) == old(node).spec_balance(a)
                &&& !(r is Ok) ==> r == Result::<(), FundingError>::Err(FundingError::Rejected)
                    && *final(node) == *old(node)
            },
            *old(self) matches Coffer::PublicFaucet { .. } ==> {
                &&& *final(self) == *old(self)
                &&& amount > FAUCET_CAP ==> r == Result::<(), FundingError>::Err(
                    FundingError::InvalidAmount,
                ) && *final(node) == *old(node)
                &&& amount <= FAUCET_CAP ==> {
                    &&& r is Ok <==> old(node).spec_balance(address) + amount <= u64::MAX
                    &&& r is Ok ==> final(node).spec_accounts() == credit(
                        old(node).spec_accounts(),
                        address,
                        amount,
                    ) && final(node).spec_balance(address) == old(node).spec_balance(address)
                        + amount
                    &&& !(r is Ok) ==> r == Result::<(), FundingError>::Err(
                        FundingError::Rejected,
                    ) && *final(node) == *old(node)
                }
            },
    {
        match self {
            Coffer::PrivilegedMint { chain, treasury, .. } => {
                let tx = treasury.sign(
                    *chain,
                    TransactionPayload::Mint { to: address, amount },
                );
                let _ = treasury.advance_sequence_number();
                let submitted = node.submit(&tx);
                proof {
                    if old(node).spec_accepts(tx) {
                        lemma_mint_credits_exactly(*old(node), tx, address, amount);
                    }
                }
                let wire = match submitted {
                    Ok(n) => SubmitOutcome::Executed { consumed_sequence_number: n },
                    Err(e) => SubmitOutcome::Refused { reason: e },
                };
                interpret_submit_outcome(&wire)
            },
            Coffer::PublicFaucet { .. } => {
                if amount > FAUCET_CAP {
                    Err(FundingError::InvalidAmount)
                } else {
                    let wire = match node.faucet(address, amount) {
                        Ok(()) => SubmitOutcome::Executed { consumed_sequence_number: 0 },
                        Err(e) => SubmitOutcome::Refused { reason: e },
                    };
                    interpret_submit_outcome(&wire)
                }
            },
        }
    }
}

} // verus!
