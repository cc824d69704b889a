use hemion::chain::ChainId;
use hemion::persistence::PersistedNetwork;
use hemion::records::{ChainAccount, Network, SanadStatus, SealRecord, SealStatus, TrackedSanad};
use hemion::state::AppState;

fn seal(seal_ref: &str, consumed: bool, status: SealStatus) -> SealRecord {
    SealRecord {
        seal_ref: seal_ref.to_string(),
        chain: ChainId::new("bitcoin"),
        value: 10,
        consumed,
        sanad_id: None,
        status,
        created_at: 1,
        content: None,
        proof_ref: None,
    }
}

#[test]
fn a_persisted_state_restores_its_selection_and_records() {
    let mut state = AppState::default();
    state.add_account(ChainAccount::watch_only(ChainId::new("sui"), "W", "0x1"));
    state.set_selected_chain(ChainId::new("sui"));
    state.set_selected_network(Network::Main);
    state.add_sanad(TrackedSanad { id: "s1".to_string(), chain: ChainId::new("sui"), value: 3, status: SanadStatus::Active });
    state.seals.push(seal("active", false, SealStatus::Active));
    let record = state.persisted();
    assert_eq!(record.version, 1);
    assert!(record.initialized);
    assert_eq!(record.selected_network, Some(PersistedNetwork::Main));
    assert_eq!(record.data_dir, "~/.csv/data");

    let mut fresh = AppState::default();
    fresh.restore(record);
    assert_eq!(fresh.selected_chain.as_str(), "sui");
    assert_eq!(fresh.selected_network, Network::Main);
    assert_eq!(fresh.sanads, state.sanads);
    assert_eq!(fresh.seals, state.seals);
    assert!(fresh.wallet.accounts.is_empty());
}

#[test]
fn restored_seals_take_their_status_from_the_consumption_flag() {
    let mut state = AppState::default();
    state.seals.push(seal("flagged", true, SealStatus::Active));
    state.seals.push(seal("marked", false, SealStatus::Consumed));
    let mut fresh = AppState::default();
    fresh.restore(state.persisted());
    assert_eq!(fresh.seals[0].status, SealStatus::Consumed);
    assert!(!fresh.seals[0].consumed);
    assert_eq!(fresh.seals[1].status, SealStatus::Active);
}

#[test]
fn a_record_without_a_network_restores_the_test_network() {
    let mut state = AppState::default();
    state.set_selected_network(Network::Dev);
    let mut record = state.persisted();
    record.selected_network = None;
    record.selected_chain = None;
    let mut target = AppState::default();
    target.set_selected_chain(ChainId::new("aptos"));
    target.restore(record);
    assert_eq!(target.selected_network, Network::Test);
    assert_eq!(target.selected_chain.as_str(), "aptos");
}
