use payment_escrow::addr::validate_address;
use payment_escrow::contract::{
    execute, execute_post_result, execute_rate_job, execute_rent_agent, instantiate,
    lore_token_id, query,
};
use payment_escrow::error::ContractError;
use payment_escrow::msg::{ExecuteMsg, InstantiateMsg, QueryMsg};
use payment_escrow::state::{EscrowState, JobStatus};

fn setup() -> EscrowState {
    instantiate(
        String::from("deployer"),
        InstantiateMsg {
            agent_nft_address: String::from("agent-nft-addr"),
            lore_nft_address: String::from("lore-nft-addr"),
            trusted_worker: String::from("trusted-worker"),
        },
    )
    .expect("valid addresses must be accepted")
}

fn rent(state: &mut EscrowState, client: &str) -> u64 {
    let before = state.registry.counter;
    let resp = execute_rent_agent(
        state,
        String::from(client),
        String::from("agent-1"),
        String::from("addr-parent"),
        String::from("tok-1"),
    )
    .expect("rent with a valid parent address must succeed");
    assert!(resp.mint.is_none());
    assert_eq!(resp.attributes.len(), 3);
    assert_eq!(resp.attributes[0].key, "action");
    assert_eq!(resp.attributes[0].value, "rent_agent");
    assert_eq!(resp.attributes[1].key, "job_id");
    assert_eq!(resp.attributes[1].value, before.to_string());
    assert_eq!(resp.attributes[2].key, "client");
    assert_eq!(resp.attributes[2].value, client);
    before
}

#[test]
fn instantiate_sets_config() {
    let state = setup();
    assert_eq!(state.config.owner, "deployer");
    assert_eq!(state.config.agent_nft_address, "agent-nft-addr");
    assert_eq!(state.config.lore_nft_address, "lore-nft-addr");
    assert_eq!(state.config.trusted_worker, "trusted-worker");
    assert_eq!(state.registry.counter, 0);
    assert_eq!(state.registry.jobs.len(), 0);
}

#[test]
fn instantiate_rejects_malformed_addresses() {
    let cases = ["Agent-Nft", "ab", "1starts-with-digit", ""];
    for bad in cases {
        let r = instantiate(
            String::from("deployer"),
            InstantiateMsg {
                agent_nft_address: String::from(bad),
                lore_nft_address: String::from("lore-nft-addr"),
                trusted_worker: String::from("trusted-worker"),
            },
        );
        assert!(matches!(r, Err(ContractError::InvalidAddress)), "{bad}");
    }
}

#[test]
fn validate_address_checks_shape() {
    assert!(validate_address("addr-parent"));
    assert!(validate_address("cosmos1abcdef0123"));
    assert!(!validate_address("ab"));
    assert!(!validate_address("Addr-Parent"));
    assert!(!validate_address("1leading-digit"));
    assert!(!validate_address("has space"));
    assert!(!validate_address("has_underscore"));
    let long = "a".repeat(90);
    assert!(validate_address(&long));
    let too_long = "a".repeat(91);
    assert!(!validate_address(&too_long));
}

#[test]
fn rent_agent_assigns_unique_increasing_ids() {
    let mut state = setup();
    let id0 = rent(&mut state, "client-A");
    let id1 = rent(&mut state, "client-B");
    let id2 = rent(&mut state, "client-A");
    assert_eq!((id0, id1, id2), (0, 1, 2));
    assert_eq!(state.registry.counter, 3);
    for id in [0u64, 1, 2] {
        let job = query(&state, QueryMsg::GetJob { job_id: id }).unwrap();
        assert_eq!(job.job_id, id);
    }
}

#[test]
fn rent_agent_rejects_invalid_parent_address() {
    let mut state = setup();
    let r = execute_rent_agent(
        &mut state,
        String::from("client-A"),
        String::from("agent-1"),
        String::from("Not-A-Valid-Addr!"),
        String::from("tok-1"),
    );
    assert!(matches!(r, Err(ContractError::InvalidAddress)));
    assert_eq!(state.registry.counter, 0);
    assert_eq!(state.registry.jobs.len(), 0);
}

#[test]
fn get_job_after_rent_is_pending() {
    let mut state = setup();
    let id = rent(&mut state, "client-A");
    let job = query(&state, QueryMsg::GetJob { job_id: id }).unwrap();
    assert_eq!(job.job_id, id);
    assert_eq!(job.client, "client-A");
    assert_eq!(job.agent_token_id, "agent-1");
    assert_eq!(job.parent_nft_address, "addr-parent");
    assert_eq!(job.parent_nft_token_id, "tok-1");
    assert_eq!(job.status, JobStatus::Pending);
    assert!(job.result_uri.is_none());
    assert!(job.rating.is_none());
}

#[test]
fn get_job_unknown_id_not_found() {
    let state = setup();
    let r = query(&state, QueryMsg::GetJob { job_id: 7 });
    assert!(matches!(r, Err(ContractError::NotFound)));
}

#[test]
fn post_result_by_non_worker_unauthorized_job_unchanged() {
    let mut state = setup();
    let id = rent(&mut state, "client-A");
    let r = execute_post_result(
        &mut state,
        String::from("client-A"),
        id,
        String::from("ipfs://cid123"),
    );
    assert!(matches!(r, Err(ContractError::Unauthorized)));
    let job = query(&state, QueryMsg::GetJob { job_id: id }).unwrap();
    assert_eq!(job.status, JobStatus::Pending);
    assert!(job.result_uri.is_none());
}

#[test]
fn post_result_unknown_job_not_found() {
    let mut state = setup();
    let r = execute_post_result(
        &mut state,
        String::from("trusted-worker"),
        0,
        String::from("ipfs://cid123"),
    );
    assert!(matches!(r, Err(ContractError::NotFound)));
}

#[test]
fn post_result_settles_job_and_requests_mint() {
    let mut state = setup();
    let id = rent(&mut state, "client-A");
    let resp = execute_post_result(
        &mut state,
        String::from("trusted-worker"),
        id,
        String::from("ipfs://cid123"),
    )
    .unwrap();
    let job = query(&state, QueryMsg::GetJob { job_id: id }).unwrap();
    assert_eq!(job.status, JobStatus::Complete);
    assert_eq!(job.result_uri.as_deref(), Some("ipfs://cid123"));
    assert!(job.rating.is_none());
    let mint = resp.mint.expect("settlement must request a mint");
    assert_eq!(mint.token_id, "lore-0");
    assert_eq!(mint.owner, "client-A");
    assert_eq!(mint.token_uri.as_deref(), Some("ipfs://cid123"));
    assert_eq!(resp.attributes.len(), 2);
    assert_eq!(resp.attributes[0].key, "action");
    assert_eq!(resp.attributes[0].value, "post_result");
    assert_eq!(resp.attributes[1].key, "job_id");
    assert_eq!(resp.attributes[1].value, "0");
}

#[test]
fn post_result_twice_second_invalid_state() {
    let mut state = setup();
    let id = rent(&mut state, "client-A");
    execute_post_result(
        &mut state,
        String::from("trusted-worker"),
        id,
        String::from("ipfs://cid123"),
    )
    .unwrap();
    let r = execute_post_result(
        &mut state,
        String::from("trusted-worker"),
        id,
        String::from("ipfs://cid456"),
    );
    assert!(matches!(r, Err(ContractError::InvalidState)));
    let job = query(&state, QueryMsg::GetJob { job_id: id }).unwrap();
    assert_eq!(job.result_uri.as_deref(), Some("ipfs://cid123"));
}

#[test]
fn rate_job_by_non_client_unauthorized() {
    let mut state = setup();
    let id = rent(&mut state, "client-A");
    execute_post_result(
        &mut state,
        String::from("trusted-worker"),
        id,
        String::from("ipfs://cid123"),
    )
    .unwrap();
    let r = execute_rate_job(&mut state, String::from("client-B"), id, 4);
    assert!(matches!(r, Err(ContractError::Unauthorized)));
    let job = query(&state, QueryMsg::GetJob { job_id: id }).unwrap();
    assert!(job.rating.is_none());
}

#[test]
fn rate_job_out_of_range_invalid_input() {
    let mut state = setup();
    let id = rent(&mut state, "client-A");
    execute_post_result(
        &mut state,
        String::from("trusted-worker"),
        id,
        String::from("ipfs://cid123"),
    )
    .unwrap();
    for bad in [0u8, 6, 200] {
        let r = execute_rate_job(&mut state, String::from("client-A"), id, bad);
        assert!(matches!(r, Err(ContractError::InvalidInput)), "{bad}");
    }
    let job = query(&state, QueryMsg::GetJob { job_id: id }).unwrap();
    assert!(job.rating.is_none());
}

#[test]
fn rate_job_pending_invalid_state() {
    let mut state = setup();
    let id = rent(&mut state, "client-A");
    let r = execute_rate_job(&mut state, String::from("client-A"), id, 5);
    assert!(matches!(r, Err(ContractError::InvalidState)));
}

#[test]
fn rate_job_unknown_job_not_found() {
    let mut state = setup();
    let r = execute_rate_job(&mut state, String::from("client-A"), 3, 5);
    assert!(matches!(r, Err(ContractError::NotFound)));
}

#[test]
fn rate_job_twice_already_rated() {
    let mut state = setup();
    let id = rent(&mut state, "client-A");
    execute_post_result(
        &mut state,
        String::from("trusted-worker"),
        id,
        String::from("ipfs://cid123"),
    )
    .unwrap();
    let resp = execute_rate_job(&mut state, String::from("client-A"), id, 5).unwrap();
    assert!(resp.mint.is_none());
    assert_eq!(resp.attributes.len(), 3);
    assert_eq!(resp.attributes[0].value, "rate_job");
    assert_eq!(resp.attributes[1].value, "0");
    assert_eq!(resp.attributes[2].key, "rating");
    assert_eq!(resp.attributes[2].value, "5");
    let r = execute_rate_job(&mut state, String::from("client-A"), id, 3);
    assert!(matches!(r, Err(ContractError::AlreadyRated)));
    let job = query(&state, QueryMsg::GetJob { job_id: id }).unwrap();
    assert_eq!(job.rating, Some(5));
}

#[test]
fn full_rental_scenario_through_dispatch() {
    let mut state = setup();

    let resp = execute(
        &mut state,
        String::from("client-A"),
        ExecuteMsg::RentAgent {
            agent_token_id: String::from("agent-1"),
            parent_nft_address: String::from("addr-parent"),
            parent_nft_token_id: String::from("tok-1"),
        },
    )
    .unwrap();
    assert_eq!(resp.attributes[1].value, "0");

    let resp = execute(
        &mut state,
        String::from("trusted-worker"),
        ExecuteMsg::PostResult { job_id: 0, result_ipfs_uri: String::from("ipfs://cid123") },
    )
    .unwrap();
    let mint = resp.mint.expect("settlement must request a mint");
    assert_eq!(mint.token_id, "lore-0");
    assert_eq!(mint.owner, "client-A");
    assert_eq!(mint.token_uri.as_deref(), Some("ipfs://cid123"));
    let job = query(&state, QueryMsg::GetJob { job_id: 0 }).unwrap();
    assert_eq!(job.status, JobStatus::Complete);
    assert_eq!(job.result_uri.as_deref(), Some("ipfs://cid123"));

    let resp = execute(
        &mut state,
        String::from("client-A"),
        ExecuteMsg::RateJob { job_id: 0, rating: 5 },
    )
    .unwrap();
    assert!(resp.mint.is_none());
    let job = query(&state, QueryMsg::GetJob { job_id: 0 }).unwrap();
    assert_eq!(job.rating, Some(5));

    let r = execute(
        &mut state,
        String::from("client-A"),
        ExecuteMsg::RateJob { job_id: 0, rating: 3 },
    );
    assert!(matches!(r, Err(ContractError::AlreadyRated)));
}
