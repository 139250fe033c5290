use batch_swap::params::{
    empty_response_message, AppParameters, AppParametersMessage, AppParametersResponse, Component,
    ParamsError, Part,
};

type Message = AppParametersMessage<u8, u16, u32, u64, i8, i16, i32, i64, bool, String>;
type Params = AppParameters<u8, u16, u32, u64, i8, i16, i32, i64, bool>;

fn full() -> Message {
    AppParametersMessage {
        chain_id: "chain-1".to_string(),
        community_pool_params: Part::Valid(1),
        distributions_params: Part::Valid(2),
        fee_params: Part::Valid(3),
        funding_params: Part::Valid(4),
        governance_params: Part::Valid(-5),
        ibc_params: Part::Valid(-6),
        sct_params: Part::Valid(-7),
        shielded_pool_params: Part::Valid(-8),
        stake_params: Part::Valid(true),
    }
}

fn missing(result: Result<Params, ParamsError<String>>) -> Component {
    match result {
        Err(ParamsError::Missing(component)) => component,
        other => panic!("a missing part was expected, not {other:?}"),
    }
}

#[test]
fn reads_a_full_message() {
    let params = Params::try_from(full()).unwrap();
    assert_eq!(params.chain_id, "chain-1");
    assert_eq!(params.community_pool_params, 1);
    assert_eq!(params.distributions_params, 2);
    assert_eq!(params.fee_params, 3);
    assert_eq!(params.funding_params, 4);
    assert_eq!(params.governance_params, -5);
    assert_eq!(params.ibc_params, -6);
    assert_eq!(params.sct_params, -7);
    assert_eq!(params.shielded_pool_params, -8);
    assert!(params.stake_params);
}

#[test]
fn names_the_part_that_is_missing() {
    let mut msg = full();
    msg.community_pool_params = Part::Missing;
    assert_eq!(missing(Params::try_from(msg)), Component::CommunityPool);
    let mut msg = full();
    msg.distributions_params = Part::Missing;
    assert_eq!(missing(Params::try_from(msg)), Component::Distributions);
    let mut msg = full();
    msg.fee_params = Part::Missing;
    assert_eq!(missing(Params::try_from(msg)), Component::Fee);
    let mut msg = full();
    msg.funding_params = Part::Missing;
    assert_eq!(missing(Params::try_from(msg)), Component::Funding);
    let mut msg = full();
    msg.governance_params = Part::Missing;
    assert_eq!(missing(Params::try_from(msg)), Component::Governance);
    let mut msg = full();
    msg.ibc_params = Part::Missing;
    assert_eq!(missing(Params::try_from(msg)), Component::Ibc);
    let mut msg = full();
    msg.sct_params = Part::Missing;
    assert_eq!(missing(Params::try_from(msg)), Component::Sct);
    let mut msg = full();
    msg.shielded_pool_params = Part::Missing;
    assert_eq!(missing(Params::try_from(msg)), Component::ShieldedPool);
    let mut msg = full();
    msg.stake_params = Part::Missing;
    assert_eq!(missing(Params::try_from(msg)), Component::Stake);
}

#[test]
fn first_part_that_fails_says_why() {
    let mut msg = full();
    msg.fee_params = Part::Invalid("bad fee".to_string());
    msg.stake_params = Part::Missing;
    assert!(matches!(Params::try_from(msg), Err(ParamsError::Invalid(reason)) if reason == "bad fee"));
    let mut msg = full();
    msg.distributions_params = Part::Missing;
    msg.fee_params = Part::Invalid("bad fee".to_string());
    assert_eq!(missing(Params::try_from(msg)), Component::Distributions);
    let mut msg = full();
    msg.stake_params = Part::Invalid("bad stake".to_string());
    assert!(matches!(Params::try_from(msg), Err(ParamsError::Invalid(reason)) if reason == "bad stake"));
}

#[test]
fn message_of_parameters_reads_back() {
    let params = Params::try_from(full()).unwrap();
    let msg = Message::from(params);
    assert!(matches!(msg.fee_params, Part::Valid(3)));
    assert!(matches!(msg.stake_params, Part::Valid(true)));
    let again = Params::try_from(msg).unwrap();
    assert_eq!(again.chain_id, "chain-1");
    assert_eq!(again.governance_params, -5);
    assert_eq!(again.shielded_pool_params, -8);
}

#[test]
fn empty_response_has_no_parameters() {
    let response: AppParametersResponse<u8, u16, u32, u64, i8, i16, i32, i64, bool, String> =
        AppParametersResponse { app_parameters: None };
    assert!(matches!(Params::try_from(response), Err(ParamsError::EmptyResponse)));
    let response = AppParametersResponse { app_parameters: Some(full()) };
    assert_eq!(Params::try_from(response).unwrap().sct_params, -7);
    let mut msg = full();
    msg.ibc_params = Part::Missing;
    let response = AppParametersResponse { app_parameters: Some(msg) };
    assert_eq!(missing(Params::try_from(response)), Component::Ibc);
}

#[test]
fn messages_of_missing_parts() {
    assert_eq!(Component::CommunityPool.missing_message(), "proto response missing community pool params");
    assert_eq!(Component::Distributions.missing_message(), "proto response missing distribution params");
    assert_eq!(Component::Fee.missing_message(), "proto response missing fee params");
    assert_eq!(Component::Funding.missing_message(), "proto response missing funding params");
    assert_eq!(Component::Governance.missing_message(), "proto response missing governance params");
    assert_eq!(Component::Ibc.missing_message(), "proto response missing ibc params");
    assert_eq!(Component::Sct.missing_message(), "proto response missing sct params");
    assert_eq!(Component::ShieldedPool.missing_message(), "proto response missing shielded pool params");
    assert_eq!(Component::Stake.missing_message(), "proto response missing stake params");
    assert_eq!(empty_response_message(), "empty AppParametersResponse message");
}
