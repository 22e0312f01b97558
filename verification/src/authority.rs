//! One controllable cryptographic identity: its key material, its on-chain
//! address, and its cached sequence number.

use vstd::prelude::*;
use crate::chain::ChainIdentifier;
use crate::errors::AuthorityError;

verus! {

/// What a transaction asks the network to do.
#[derive(Clone, Copy, Debug, PartialEq, Eq, Structural)]
pub enum TransactionPayload {
    /// Credit `amount` fresh units to `to`, creating the account if it does
    /// not exist. Only a treasury-level authority may submit this.
    Mint { to: u64, amount: u64 },
    /// Move `amount` units from the sender to `to`, creating the receiving
    /// account if it does not exist.
    Transfer { to: u64, amount: u64 },
}

/// A payload bound to a sender, a sequence number and a network tag.
///
/// A value of this type can only be produced by [`AccountAuthority::sign`],
/// so holding one models holding a transaction signed by the authority it
/// names: the fields can be read but not forged or altered.
#[derive(Clone, Copy, Debug)]
pub struct SignedTransaction {
    sender: u64,
    sequence_number: u64,
    chain: ChainIdentifier,
    payload: TransactionPayload,
}

impl SignedTransaction {
    /// The address of the authority that signed this transaction.
    pub closed spec fn spec_sender(&self) -> u64 {
        self.sender
    }

    /// The sequence number the transaction was signed at.
    pub closed spec fn spec_sequence_number(&self) -> u64 {
        self.sequence_number
    }

    /// The tag of the network the transaction was signed for.
    pub closed spec fn spec_chain(&self) -> ChainIdentifier {
        self.chain
    }

    /// What the transaction asks for.
    pub closed spec fn spec_payload(&self) -> TransactionPayload {
        self.payload
    }

    pub fn sender(&self) -> (r: u64)
        ensures
            r == self.spec_sender(),
    {
        self.sender
    }

    pub fn sequence_number(&self) -> (r: u64)
        ensures
            r == self.spec_sequence_number(),
    {
        self.sequence_number
    }

    pub fn chain(&self) -> (r: ChainIdentifier)
        ensures
            r == self.spec_chain(),
    {
        self.chain
    }

    pub fn payload(&self) -> (r: TransactionPayload)
        ensures
            r == self.spec_payload(),
    {
        self.payload
    }
}

/// A keypair together with its derived address and a cached sequence number.
///
/// The raw key bytes are owned exclusively by this value and are never handed
/// out: dropping the authority makes the key unrecoverable from it. Only the
/// sequence-number cache is ever mutated after construction, and only by
/// [`AccountAuthority::advance_sequence_number`].
#[derive(Debug)]
pub struct AccountAuthority {
    address: u64,
    private_key: Vec<u8>,
    sequence_number: u64,
}

impl AccountAuthority {
    /// The on-chain address of this identity.
    pub closed spec fn spec_address(&self) -> u64 {
        self.address
    }

    /// The cached sequence number.
    pub closed spec fn spec_sequence_number(&self) -> u64 {
        self.sequence_number
    }

    /// The private key bytes, visible to specifications only.
    pub closed spec fn spec_key(&self) -> Seq<u8> {
        self.private_key@
    }

    /// A fresh authority over `address`, holding `private_key` and starting
    /// at sequence number zero, as an account does at creation.
    pub fn new(address: u64, private_key: Vec<u8>) -> (r: Self)
        ensures
            r.spec_address() == address,
            r.spec_key() == private_key@,
            r.spec_sequence_number() == 0,
    {
        AccountAuthority { address, private_key, sequence_number: 0 }
    }

    /// An authority resuming control of an account that already exists on
    /// chain at the given sequence number.
    pub fn restore(address: u64, private_key: Vec<u8>, sequence_number: u64) -> (r: Self)
        ensures
            r.spec_address() == address,
            r.spec_key() == private_key@,
            r.spec_sequence_number() == sequence_number,
    {
        AccountAuthority { address, private_key, sequence_number }
    }

    pub fn address(&self) -> (r: u64)
        ensures
            r == self.spec_address(),
    {
        self.address
    }

    /// The sequence number the next transaction must be signed at.
    pub fn next_sequence_number(&self) -> (r: u64)
        ensures
            r == self.spec_sequence_number(),
    {
        self.sequence_number
    }

    /// Consume one sequence number. Called exactly once per submitted
    /// transaction, whether or not the transaction then executes, so that a
    /// retry can never collide with the submitted attempt. On success the
    /// cached value strictly increases, by exactly one; nothing else of the
    /// authority changes. Fails only when the counter is exhausted, and then
    /// changes nothing.
    pub fn advance_sequence_number(&mut self) -> (r: Result<(), AuthorityError>)
        ensures
            old(self).spec_sequence_number() < u64::MAX ==> {
                &&& r is Ok
                &&& final(self).spec_sequence_number() == old(self).spec_sequence_number() + 1
            },
            old(self).spec_sequence_number() == u64::MAX ==> {
                &&& r == Result::<(), AuthorityError>::Err(AuthorityError::SequenceExhausted)
                &&& final(self).spec_sequence_number() == old(self).spec_sequence_number()
            },
            r is Ok ==> final(self).spec_sequence_number() > old(self).spec_sequence_number(),
            final(self).spec_address() == old(self).spec_address(),
            final(self).spec_key() == old(self).spec_key(),
    {
        if self.sequence_number == u64::MAX {
            Err(AuthorityError::SequenceExhausted)
        } else {
            self.sequence_number = self.sequence_number + 1;
            Ok(())
        }
    }

    /// Sign `payload` for the network tagged `chain` at the current cached
    /// sequence number. Pure: nothing of the authority changes, and the
    /// resulting transaction carries exactly this authority's address, the
    /// current sequence number, the given tag and the given payload.
    pub fn sign(&self, chain: ChainIdentifier, payload: TransactionPayload) -> (tx:
        SignedTransaction)
        ensures
            tx.spec_sender() == self.spec_address(),
            tx.spec_sequence_number() == self.spec_sequence_number(),
            tx.spec_chain() == chain,
            tx.spec_payload() == payload,
    {
        SignedTransaction {
            sender: self.address,
            sequence_number: self.sequence_number,
            chain,
            payload,
        }
    }
}

} // verus!
