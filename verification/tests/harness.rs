//! The full harness: launching, privilege-scoped views, teardown, and the
//! end-to-end funding scenario.

use forge::authority::{AccountAuthority, TransactionPayload};
use forge::chain::{DESIGNATED_DEALER_ADDRESS, ROOT_ADDRESS, TEST_CHAIN,
    TREASURY_COMPLIANCE_ADDRESS};
use forge::coffer::Coffer;
use forge::errors::HandleError;
use forge::factory::{LocalFactory, GENESIS_KEY_LEN, LOCAL_NODE_PORT};
use forge::ledger::AccountState;
use forge::provision::{ProvisioningSession, SpawnOutcome};
use forge::swarm::LocalSwarm;

fn launch() -> LocalSwarm {
    LocalFactory::new("local-node").launch_swarm().expect("launch cannot fail in-process")
}

#[test]
fn factory_keeps_the_configured_binary_path() {
    let factory = LocalFactory::new("local-node");
    assert_eq!(factory.node_bin(), "local-node");
}

#[test]
fn launch_swarm_yields_a_started_reachable_network() {
    let mut swarm = launch();
    assert_eq!(swarm.chain().id, TEST_CHAIN);
    assert_eq!(swarm.endpoint().port, LOCAL_NODE_PORT);
    assert_eq!(swarm.endpoint().host, "localhost");
    assert_eq!(swarm.endpoint().path, "/v1");
    assert_eq!(swarm.nodes().len(), 1);
    assert!(swarm.nodes()[0].running);
    assert_eq!(swarm.nodes()[0].port, swarm.endpoint().port);
    for address in [ROOT_ADDRESS, TREASURY_COMPLIANCE_ADDRESS, DESIGNATED_DEALER_ADDRESS] {
        assert_eq!(
            swarm.client().get_account(address),
            Some(AccountState { balance: 0, sequence_number: 0 })
        );
    }
}

#[test]
fn admin_info_grants_the_bootstrap_authorities() {
    let mut swarm = launch();
    let admin = swarm.admin_info().expect("authorities are free after launch");
    assert_eq!(admin.root_account.address(), ROOT_ADDRESS);
    assert_eq!(admin.root_account.next_sequence_number(), 0);
    assert_eq!(
        admin.treasury_compliance_account.address(),
        TREASURY_COMPLIANCE_ADDRESS
    );
    assert_eq!(admin.chain.id, TEST_CHAIN);
    assert_eq!(admin.endpoint.port, LOCAL_NODE_PORT);
}

#[test]
fn admin_handles_never_overlap() {
    let mut swarm = launch();
    let admin = swarm.admin_info().expect("first grant succeeds");
    // The root and treasury authorities are out: every further request for
    // either view is rejected, never interleaved.
    assert!(matches!(swarm.admin_info(), Err(HandleError::AuthorityBorrowed)));
    assert!(matches!(swarm.public_info(), Err(HandleError::AuthorityBorrowed)));
    swarm.return_admin(admin);
    // Returning the view serializes the next grant after the first.
    assert!(swarm.admin_info().is_ok());
}

#[test]
fn public_info_carries_a_privileged_mint_coffer() {
    let mut swarm = launch();
    let public = swarm.public_info().expect("authorities are free after launch");
    assert_eq!(public.chain.id, TEST_CHAIN);
    assert_eq!(public.endpoint.port, LOCAL_NODE_PORT);
    match &public.coffer {
        Coffer::PrivilegedMint { chain, treasury, dealer } => {
            assert_eq!(chain.id, TEST_CHAIN);
            assert_eq!(treasury.address(), TREASURY_COMPLIANCE_ADDRESS);
            assert_eq!(dealer.address(), DESIGNATED_DEALER_ADDRESS);
        }
        Coffer::PublicFaucet { .. } => panic!("local backend funds by privileged mint"),
    }
    // While the public view holds the treasury authority, the admin view is
    // rejected too.
    assert!(matches!(swarm.admin_info(), Err(HandleError::AuthorityBorrowed)));
    swarm.return_public(public);
    assert!(swarm.admin_info().is_ok());
}

#[test]
fn teardown_is_idempotent_and_stops_every_node() {
    let mut swarm = launch();
    swarm.teardown();
    assert_eq!(swarm.nodes().len(), 1);
    assert!(!swarm.nodes()[0].running);
    let after_first: Vec<_> = swarm.nodes().iter().map(|n| (n.id, n.port, n.running)).collect();
    swarm.teardown();
    let after_second: Vec<_> = swarm.nodes().iter().map(|n| (n.id, n.port, n.running)).collect();
    assert_eq!(after_first, after_second);
}

#[test]
fn aborted_provisioning_releases_every_spawned_process() {
    let mut session = ProvisioningSession::new(3);
    assert!(session.pending());
    session.record_spawn(SpawnOutcome::Spawned { id: 70, port: 9001 });
    session.record_spawn(SpawnOutcome::Spawned { id: 71, port: 9002 });
    session.record_spawn(SpawnOutcome::Failed);
    assert!(!session.pending());
    let kills = session.abort();
    assert_eq!(kills, vec![70, 71]);
    // A second abort has nothing left to release.
    assert_eq!(session.abort(), Vec::<u64>::new());
}

#[test]
fn startup_timeout_fails_the_launch_and_releases_processes() {
    let mut session = ProvisioningSession::new(2);
    session.record_spawn(SpawnOutcome::Spawned { id: 40, port: 9100 });
    session.record_spawn(SpawnOutcome::Spawned { id: 41, port: 9101 });
    session.record_startup_timeout();
    assert!(!session.pending());
    assert_eq!(session.abort(), vec![40, 41]);
}

#[test]
fn completed_provisioning_hands_over_the_node_set() {
    let mut session = ProvisioningSession::new(2);
    session.record_spawn(SpawnOutcome::Spawned { id: 70, port: 9001 });
    session.record_spawn(SpawnOutcome::Spawned { id: 71, port: 9002 });
    assert!(!session.pending());
    let nodes = session.complete();
    assert_eq!(nodes.len(), 2);
    assert_eq!(nodes[0].id, 70);
    assert!(nodes[0].running);
    assert_eq!(nodes[1].port, 9002);
}

#[test]
fn end_to_end_fund_and_transfer() {
    // Launch a one-node local swarm and look at the admin view.
    let mut swarm = launch();
    let admin = swarm.admin_info().expect("admin view is free after launch");
    assert_eq!(admin.root_account.address(), ROOT_ADDRESS);
    swarm.return_admin(admin);

    // Fund a fresh address with one million units by privileged mint.
    let sender_address = 0x1001;
    let receiver_address = 0x1002;
    let mut public = swarm.public_info().expect("public view is free again");
    let chain = public.chain;
    assert_eq!(
        public.coffer.fund(swarm.client(), sender_address, 1_000_000),
        Ok(())
    );
    assert_eq!(swarm.client().balance(sender_address), 1_000_000);
    swarm.return_public(public);

    // Transfer 100 units from the funded address to a second fresh one.
    let sender = AccountAuthority::new(sender_address, vec![5; GENESIS_KEY_LEN]);
    let tx = sender.sign(
        chain,
        TransactionPayload::Transfer { to: receiver_address, amount: 100 },
    );
    assert_eq!(swarm.client().submit(&tx), Ok(0));

    // The local network charges no fee, so the sender holds exactly
    // 999_900 and the receiver exactly 100.
    assert_eq!(swarm.client().balance(sender_address), 999_900);
    assert_eq!(swarm.client().balance(receiver_address), 100);

    swarm.teardown();
    assert!(swarm.nodes().iter().all(|n| !n.running));
}
