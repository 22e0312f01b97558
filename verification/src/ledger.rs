//! The running network as its clients observe it: accounts, balances and
//! sequence numbers behind the submit / query / faucet API.
//!
//! A [`Ledger`] is the state of one local test network. The harness talks to
//! it exactly as a remote client would talk to a deployed network: it submits
//! signed transactions and queries account state; it never reaches into the
//! ledger directly.

use vstd::prelude::*;
use std::collections::HashMap;
use crate::authority::{SignedTransaction, TransactionPayload};
use crate::chain::{ChainIdentifier, DESIGNATED_DEALER_ADDRESS, ROOT_ADDRESS,
    TREASURY_COMPLIANCE_ADDRESS};
use crate::errors::ClientError;

verus! {

broadcast use vstd::std_specs::hash::group_hash_axioms;

/// What a client sees of one account: its balance and its on-chain
/// sequence number.
#[derive(Clone, Copy, Debug, PartialEq, Eq, Structural)]
pub struct AccountState {
    pub balance: u64,
    pub sequence_number: u64,
}

/// The balance of `address` in `accounts`; zero for an account that does
/// not exist yet.
pub open spec fn balance_in(accounts: Map<u64, AccountState>, address: u64) -> u64 {
    if accounts.contains_key(address) {
        accounts[address].balance
    } else {
        0
    }
}

/// The sequence number of `address` in `accounts`; zero for an account that
/// does not exist yet, as a created account starts at zero.
pub open spec fn sequence_in(accounts: Map<u64, AccountState>, address: u64) -> u64 {
    if accounts.contains_key(address) {
        accounts[address].sequence_number
    } else {
        0
    }
}

/// `accounts` with `amount` fresh units credited to `address`, the account
/// being created at sequence number zero if it does not exist.
pub open spec fn credit(accounts: Map<u64, AccountState>, address: u64, amount: u64) -> Map<
    u64,
    AccountState,
> {
    accounts.insert(
        address,
        (AccountState {
            balance: (balance_in(accounts, address) + amount) as u64,
            sequence_number: sequence_in(accounts, address),
        }),
    )
}

/// `accounts` with the sender `address` having paid `cost` and consumed one
/// sequence number.
pub open spec fn debit_and_bump(accounts: Map<u64, AccountState>, address: u64, cost: u64) -> Map<
    u64,
    AccountState,
> {
    accounts.insert(
        address,
        (AccountState {
            balance: (accounts[address].balance - cost) as u64,
            sequence_number: (accounts[address].sequence_number + 1) as u64,
        }),
    )
}

/// May `sender` submit a mint? Only the treasury-level bootstrap
/// authorities created at genesis may conjure fresh units.
pub open spec fn mint_authorized(sender: u64) -> bool {
    sender == TREASURY_COMPLIANCE_ADDRESS || sender == ROOT_ADDRESS
}

/// One local test network's ledger state, reachable through its endpoint.
#[derive(Debug)]
pub struct Ledger {
    accounts: HashMap<u64, AccountState>,
    chain: ChainIdentifier,
    transfer_fee: u64,
}

impl Ledger {
    /// The account map a client can observe query by query.
    pub closed spec fn spec_accounts(&self) -> Map<u64, AccountState> {
        self.accounts@
    }

    /// The tag transactions must be signed for.
    pub closed spec fn spec_chain(&self) -> ChainIdentifier {
        self.chain
    }

    /// The fee charged to the sender of every executed transfer.
    pub closed spec fn spec_fee(&self) -> u64 {
        self.transfer_fee
    }

    /// The observable balance of `address`.
    pub open spec fn spec_balance(&self, address: u64) -> u64 {
        balance_in(self.spec_accounts(), address)
    }

    /// Does this ledger execute `tx`? Exactly when the tag matches, the
    /// sender exists with the signed sequence number and can consume one
    /// more, the payload is within the sender's privilege, and the moved
    /// amounts neither overdraw the sender nor overflow the target.
    pub open spec fn spec_accepts(&self, tx: SignedTransaction) -> bool {
        let m = self.spec_accounts();
        let s = tx.spec_sender();
        &&& tx.spec_chain() == self.spec_chain()
        &&& m.contains_key(s)
        &&& tx.spec_sequence_number() == m[s].sequence_number
        &&& m[s].sequence_number < u64::MAX
        &&& match tx.spec_payload() {
            TransactionPayload::Mint { to, amount } => {
                &&& mint_authorized(s)
                &&& balance_in(debit_and_bump(m, s, 0), to) + amount <= u64::MAX
            },
            TransactionPayload::Transfer { to, amount } => {
                &&& amount + self.spec_fee() <= m[s].balance
                &&& balance_in(debit_and_bump(m, s, (amount + self.spec_fee()) as u64), to)
                    + amount <= u64::MAX
            },
        }
    }

    /// The account map after `tx` executes: the sender consumes one sequence
    /// number and pays what the payload costs it, then the target is
    /// credited. Meaningful only when `spec_accepts(tx)` holds.
    pub open spec fn spec_execute(&self, tx: SignedTransaction) -> Map<u64, AccountState> {
        let m = self.spec_accounts();
        let s = tx.spec_sender();
        match tx.spec_payload() {
            TransactionPayload::Mint { to, amount } => credit(
                debit_and_bump(m, s, 0),
                to,
                amount,
            ),
            TransactionPayload::Transfer { to, amount } => credit(
                debit_and_bump(m, s, (amount + self.spec_fee()) as u64),
                to,
                amount,
            ),
        }
    }

    /// The error a refused submission comes back with. Meaningful only when
    /// `!spec_accepts(tx)`: the checks run in the order a node would run
    /// them, and the first one to fail names the error.
    pub open spec fn spec_refusal(&self, tx: SignedTransaction) -> ClientError {
        let m = self.spec_accounts();
        let s = tx.spec_sender();
        if tx.spec_chain() != self.spec_chain() {
            ClientError::ChainMismatch
        } else if !m.contains_key(s) {
            ClientError::UnknownSender
        } else if tx.spec_sequence_number() != m[s].sequence_number {
            ClientError::SequenceMismatch
        } else if m[s].sequence_number == u64::MAX {
            ClientError::SequenceExhausted
        } else {
            match tx.spec_payload() {
                TransactionPayload::Mint { to, amount } => if !mint_authorized(s) {
                    ClientError::NotAuthorized
                } else {
                    ClientError::BalanceOverflow
                },
                TransactionPayload::Transfer { to, amount } => if amount + self.spec_fee()
                    > m[s].balance {
                    ClientError::InsufficientBalance
                } else {
                    ClientError::BalanceOverflow
                },
            }
        }
    }

    /// A freshly started network: the three bootstrap accounts exist with
    /// empty balances and sequence number zero, and nothing else does.
    pub fn genesis(chain: ChainIdentifier, transfer_fee: u64) -> (r: Self)
        ensures
            r.spec_chain() == chain,
            r.spec_fee() == transfer_fee,
            r.spec_accounts() == Map::<u64, AccountState>::empty().insert(
                ROOT_ADDRESS,
                (AccountState { balance: 0, sequence_number: 0 }),
            ).insert(
                TREASURY_COMPLIANCE_ADDRESS,
                (AccountState { balance: 0, sequence_number: 0 }),
            ).insert(
                DESIGNATED_DEALER_ADDRESS,
                (AccountState { balance: 0, sequence_number: 0 }),
            ),
    {
        let mut accounts: HashMap<u64, AccountState> = HashMap::new();
        accounts.insert(ROOT_ADDRESS, AccountState { balance: 0, sequence_number: 0 });
        accounts.insert(
            TREASURY_COMPLIANCE_ADDRESS,
            AccountState { balance: 0, sequence_number: 0 },
        );
        accounts.insert(
            DESIGNATED_DEALER_ADDRESS,
            AccountState { balance: 0, sequence_number: 0 },
        );
        Ledger { accounts, chain, transfer_fee }
    }

    /// Query one account, as a client would over the wire.
    pub fn get_account(&self, address: u64) -> (r: Option<AccountState>)
        ensures
            match r {
                Some(a) => self.spec_accounts().contains_key(address) && a
                    == self.spec_accounts()[address],
                None => !self.spec_accounts().contains_key(address),
            },
    {
        match self.accounts.get(&address) {
            Some(a) => Some(*a),
            None => None,
        }
    }

    /// The observable balance of `address`; zero for an account that does
    /// not exist yet.
    pub fn balance(&self, address: u64) -> (r: u64)
        ensures
            r == self.spec_balance(address),
    {
        match self.get_account(address) {
            Some(a) => a.balance,
            None => 0,
        }
    }

    /// The faucet-equivalent client-facing API: credit `amount` fresh units
    /// to `address` without any signature, creating the account if needed.
    /// Succeeds exactly when the credited balance still fits; on failure
    /// nothing changes.
    pub fn faucet(&mut self, address: u64, amount: u64) -> (r: Result<(), ClientError>)
        ensures
            final(self).spec_chain() == old(self).spec_chain(),
            final(self).spec_fee() == old(self).spec_fee(),
            r is Ok <==> old(self).spec_balance(address) + amount <= u64::MAX,
            r is Ok ==> final(self).spec_accounts() == credit(
                old(self).spec_accounts(),
                address,
                amount,
            ),
            r is Err ==> r == Result::<(), ClientError>::Err(ClientError::BalanceOverflow)
                && *final(self) == *old(self),
    {
        let (bal, seqno) = match self.get_account(address) {
            Some(a) => (a.balance, a.sequence_number),
            None => (0u64, 0u64),
        };
        if amount > u64::MAX - bal {
            Err(ClientError::BalanceOverflow)
        } else {
            self.accounts.insert(
                address,
                AccountState { balance: bal + amount, sequence_number: seqno },
            );
            Ok(())
        }
    }

    /// Submit a signed transaction, as a client would over the wire. The
    /// result is `Ok` with the consumed sequence number exactly when the
    /// ledger accepts the transaction, and then the accounts change to
    /// `spec_execute(tx)`; on any refusal the stated error comes back and
    /// nothing changes.
    pub fn submit(&mut self, tx: &SignedTransaction) -> (r: Result<u64, ClientError>)
        ensures
            final(self).spec_chain() == old(self).spec_chain(),
            final(self).spec_fee() == old(self).spec_fee(),
            r is Ok <==> old(self).spec_accepts(*tx),
            old(self).spec_accepts(*tx) ==> r == Result::<u64, ClientError>::Ok(
                tx.spec_sequence_number(),
            ) && final(self).spec_accounts() == old(self).spec_execute(*tx),
            !old(self).spec_accepts(*tx) ==> *final(self) == *old(self) && r == Result::<
                u64,
                ClientError,
            >::Err(old(self).spec_refusal(*tx)),
    {
        let sender = tx.sender();
        if tx.chain().id != self.chain.id {
            return Err(ClientError::ChainMismatch);
        }
        let sender_state = match self.get_account(sender) {
            Some(a) => a,
            None => { return Err(ClientError::UnknownSender); },
        };
        if tx.sequence_number() != sender_state.sequence_number {
            return Err(ClientError::SequenceMismatch);
        }
        if sender_state.sequence_number == u64::MAX {
            return Err(ClientError::SequenceExhausted);
        }
        match tx.payload() {
            TransactionPayload::Mint { to, amount } => {
                if !(sender == TREASURY_COMPLIANCE_ADDRESS || sender == ROOT_ADDRESS) {
                    return Err(ClientError::NotAuthorized);
                }
                let debited = AccountState {
                    balance: sender_state.balance,
                    sequence_number: sender_state.sequence_number + 1,
                };
                let target_balance: u64 = if to == sender {
                    debited.balance
                } else {
                    self.balance(to)
                };
                if amount > u64::MAX - target_balance {
                    return Err(ClientError::BalanceOverflow);
                }
                let target_sequence: u64 = if to == sender {
                    debited.sequence_number
                } else {
                    match self.get_account(to) {
                        Some(a) => a.sequence_number,
                        None => 0,
                    }
                };
                self.accounts.insert(sender, debited);
                self.accounts.insert(
                    to,
                    AccountState {
                        balance: target_balance + amount,
                        sequence_number: target_sequence,
                    },
                );
                Ok(tx.sequence_number())
            },
            TransactionPayload::Transfer { to, amount } => {
                if amount > sender_state.balance
                    || self.transfer_fee > sender_state.balance - amount {
                    return Err(ClientError::InsufficientBalance);
                }
                let cost = amount + self.transfer_fee;
                let debited = AccountState {
                    balance: sender_state.balance - cost,
                    sequence_number: sender_state.sequence_number + 1,
                };
                let target_balance: u64 = if to == sender {
                    debited.balance
                } else {
                    self.balance(to)
                };
                if amount > u64::MAX - target_balance {
                    return Err(ClientError::BalanceOverflow);
                }
                let target_sequence: u64 = if to == sender {
                    debited.sequence_number
                } else {
                    match self.get_account(to) {
                        Some(a) => a.sequence_number,
                        None => 0,
                    }
                };
                self.accounts.insert(sender, debited);
                self.accounts.insert(
                    to,
                    AccountState {
                        balance: target_balance + amount,
                        sequence_number: target_sequence,
                    },
                );
                Ok(tx.sequence_number())
            },
        }
    }
}

/// Funding law: whenever the ledger accepts a mint of `amount` units to
/// `to`, executing it raises the observable balance of `to` by exactly
/// `amount`, and moves no other account's balance.
pub proof fn lemma_mint_credits_exactly(l: Ledger, tx: SignedTransaction, to: u64, amount: u64)
    requires
        l.spec_accepts(tx),
        tx.spec_payload() == (TransactionPayload::Mint { to, amount }),
    ensures
        balance_in(l.spec_execute(tx), to) == l.spec_balance(to) + amount,
        forall|a: u64| a != to ==> balance_in(l.spec_execute(tx), a) == l.spec_balance(a),
{
}

/// Transfer law: whenever the ledger accepts a transfer of `amount` units
/// from its sender to a distinct `to`, executing it lowers the sender's
/// balance by exactly the amount plus the fee, raises the balance of `to`
/// by exactly `amount`, and moves no other account's balance.
pub proof fn lemma_transfer_moves_exactly(l: Ledger, tx: SignedTransaction, to: u64, amount: u64)
    requires
        l.spec_accepts(tx),
        tx.spec_payload() == (TransactionPayload::Transfer { to, amount }),
        to != tx.spec_sender(),
    ensures
        balance_in(l.spec_execute(tx), tx.spec_sender()) == l.spec_balance(tx.spec_sender())
            - amount - l.spec_fee(),
        balance_in(l.spec_execute(tx), to) == l.spec_balance(to) + amount,
        forall|a: u64| a != to && a != tx.spec_sender() ==> balance_in(l.spec_execute(tx), a)
            == l.spec_balance(a),
{
}

} // verus!
