use oracle_core::chain::{Digest32, PublicKey};
use oracle_core::governance::{
    Ballot, PrepareUpdateParameters, RewardToken, UpdateBox, UpdateParameters, ValidationError,
    VoteParameters,
};
use oracle_core::pool_commands::{
    build_action, build_publish_datapoint_action, read_pool_state, BoxKind, DataPointSourceError,
    PoolAction, PoolCommandError, PoolContext, PublishDatapointActionError,
};
use oracle_core::refresh::{
    AggregationRule, Datapoint, DeviationBound, PoolBox, RefreshActionError, RefreshParameters,
    RefreshSettings,
};
use oracle_core::state::{BoxRef, EpochCommand, LiveEpochState, PoolState};

const HASH_TEXT: &str = "1111111111111111111111111111111111111111111111111111111111111111";

fn operator(tag: u8) -> PublicKey {
    let mut bytes = [0u8; 33];
    bytes[0] = 2;
    bytes[32] = tag;
    PublicKey { bytes }
}

fn posted(tag: u8, value: u64, height: u32) -> Datapoint {
    Datapoint {
        box_ref: BoxRef { index: 100 + tag as u64 },
        public_key: operator(tag),
        value,
        height,
    }
}

fn snapshot(min_data_points: u32) -> PoolContext {
    let parameters = RefreshParameters::new(RefreshSettings {
        epoch_length: 30,
        min_data_points,
        aggregation: AggregationRule::Average,
        max_deviation: DeviationBound::Relative { percent: 5 },
    })
    .unwrap();
    PoolContext {
        parameters,
        pool_box: Some(PoolBox {
            box_ref: BoxRef { index: 1 },
            value: 990,
            epoch_counter: 11,
            epoch_start_height: 100,
        }),
        refresh_box: Some(BoxRef { index: 2 }),
        update_box: Some(UpdateBox { box_ref: BoxRef { index: 3 }, creation_height: 50 }),
        datapoint_boxes: vec![
            posted(1, 1000, 110),
            posted(2, 700, 111),
            posted(3, 1010, 112),
            posted(4, 1200, 113),
            posted(5, 990, 114),
            posted(6, 1100, 115),
        ],
        ballot_boxes: Vec::new(),
        local_public_key: operator(1),
        local_datapoint_box: Some(posted(1, 1000, 110)),
        local_ballot_box: None,
        datapoint_source: Ok(1003),
    }
}

#[test]
fn reads_a_live_epoch_from_the_snapshot() {
    let context = snapshot(4);
    let epoch = LiveEpochState {
        epoch_start_height: 100,
        pool_box_ref: BoxRef { index: 1 },
        refresh_box_ref: BoxRef { index: 2 },
        local_datapoint_height: Some(110),
    };
    assert_eq!(context.get_live_epoch_state(), Ok(epoch));
    assert_eq!(read_pool_state(&context), PoolState::LiveEpoch(epoch));
    let context = PoolContext { local_datapoint_box: None, ..snapshot(4) };
    assert_eq!(
        read_pool_state(&context),
        PoolState::LiveEpoch(LiveEpochState { local_datapoint_height: None, ..epoch })
    );
}

#[test]
fn a_snapshot_without_a_pool_box_needs_bootstrap() {
    let context = PoolContext { pool_box: None, ..snapshot(4) };
    assert_eq!(
        context.get_live_epoch_state(),
        Err(PoolCommandError::BoxNotFound(BoxKind::Pool))
    );
    assert_eq!(read_pool_state(&context), PoolState::NeedsBootstrap);
    let context = PoolContext { pool_box: None, refresh_box: None, ..snapshot(4) };
    assert_eq!(
        context.get_live_epoch_state(),
        Err(PoolCommandError::BoxNotFound(BoxKind::Pool))
    );
}

#[test]
fn a_snapshot_without_a_refresh_box_needs_bootstrap() {
    let context = PoolContext { refresh_box: None, ..snapshot(4) };
    assert_eq!(
        context.get_live_epoch_state(),
        Err(PoolCommandError::BoxNotFound(BoxKind::Refresh))
    );
    assert_eq!(read_pool_state(&context), PoolState::NeedsBootstrap);
}

#[test]
fn publishing_replaces_the_local_datapoint_box() {
    let built = build_action(EpochCommand::PublishDatapoint, &snapshot(4), 120, "addr".to_string());
    match built {
        Ok(PoolAction::PublishDatapoint(action)) => {
            assert_eq!(action.spent_datapoint_box, Some(BoxRef { index: 101 }));
            assert_eq!(action.public_key, operator(1));
            assert_eq!(action.value, 1003);
            assert_eq!(action.height, 120);
            assert_eq!(action.change_address, "addr");
        }
        other => panic!("{:?}", other),
    }
}

#[test]
fn a_first_datapoint_spends_no_box() {
    let action =
        build_publish_datapoint_action(None, operator(9), &Ok(5), 7, String::new()).unwrap();
    assert_eq!(action.spent_datapoint_box, None);
    assert_eq!(action.public_key, operator(9));
    assert_eq!(action.value, 5);
    assert_eq!(action.height, 7);
}

#[test]
fn a_failing_datapoint_source_fails_the_publication() {
    let failure = DataPointSourceError { message: "feed unreachable".to_string() };
    let context = PoolContext { datapoint_source: Err(failure.clone()), ..snapshot(4) };
    let built = build_action(EpochCommand::PublishDatapoint, &context, 120, String::new());
    assert_eq!(
        built,
        Err(PoolCommandError::PublishDatapointActionError(
            PublishDatapointActionError::DataPointSource(failure)
        ))
    );
}

#[test]
fn a_refresh_without_consensus_names_the_agreeing_operators() {
    let built = build_action(EpochCommand::Refresh, &snapshot(4), 130, String::new());
    assert_eq!(
        built,
        Err(PoolCommandError::RefreshActionError(RefreshActionError::FailedToReachConsensus {
            expected: 4,
            found_public_keys: vec![operator(1), operator(3), operator(5)],
            found_num: 3,
        }))
    );
}

#[test]
fn a_refresh_with_consensus_spends_the_agreeing_datapoints() {
    let built = build_action(EpochCommand::Refresh, &snapshot(3), 130, "addr".to_string());
    match built {
        Ok(PoolAction::Refresh(action)) => {
            assert_eq!(action.pool_box_in, BoxRef { index: 1 });
            assert_eq!(action.refresh_box_in, BoxRef { index: 2 });
            assert_eq!(
                action.datapoint_inputs,
                vec![BoxRef { index: 101 }, BoxRef { index: 103 }, BoxRef { index: 105 }]
            );
            assert_eq!(action.new_pool_value, 1000);
            assert_eq!(action.new_epoch_counter, 12);
            assert_eq!(action.new_epoch_start_height, 130);
            assert_eq!(action.change_address, "addr");
        }
        other => panic!("{:?}", other),
    }
}

#[test]
fn a_refresh_needs_the_pool_box_and_the_refresh_box() {
    let context = PoolContext { pool_box: None, refresh_box: None, ..snapshot(3) };
    assert_eq!(
        build_action(EpochCommand::Refresh, &context, 130, String::new()),
        Err(PoolCommandError::BoxNotFound(BoxKind::Pool))
    );
    let context = PoolContext { refresh_box: None, ..snapshot(3) };
    assert_eq!(
        build_action(EpochCommand::Refresh, &context, 130, String::new()),
        Err(PoolCommandError::BoxNotFound(BoxKind::Refresh))
    );
}

fn vote(hash_text: &str) -> EpochCommand {
    EpochCommand::VoteUpdatePool(VoteParameters {
        new_pool_box_address_hash_str: hash_text.to_string(),
        reward_token_id_str: HASH_TEXT.to_string(),
        reward_token_amount: 8,
        update_box_creation_height: 50,
    })
}

#[test]
fn a_vote_is_built_for_the_local_operator() {
    let local = Ballot {
        box_ref: BoxRef { index: 44 },
        voter: operator(1),
        pool_box_hash: Digest32 { bytes: [0; 32] },
        reward_token: RewardToken { token_id: Digest32 { bytes: [0; 32] }, amount: 1 },
        update_box_creation_height: 40,
    };
    let context = PoolContext { local_ballot_box: Some(local), ..snapshot(3) };
    match build_action(vote(HASH_TEXT), &context, 130, "addr".to_string()) {
        Ok(PoolAction::VoteUpdatePool(action)) => {
            assert_eq!(action.spent_ballot_box, Some(BoxRef { index: 44 }));
            assert_eq!(action.voter, operator(1));
            assert_eq!(action.new_pool_box_hash, Digest32 { bytes: [0x11; 32] });
            assert_eq!(
                action.reward_token,
                RewardToken { token_id: Digest32 { bytes: [0x11; 32] }, amount: 8 }
            );
            assert_eq!(action.update_box_creation_height, 50);
            assert_eq!(action.change_address, "addr");
        }
        other => panic!("{:?}", other),
    }
}

#[test]
fn a_malformed_vote_builds_nothing() {
    assert_eq!(
        build_action(vote("11"), &snapshot(3), 130, String::new()),
        Err(PoolCommandError::ValidationError(ValidationError::MalformedPoolBoxHash))
    );
}

fn update(hash_text: Option<&str>) -> EpochCommand {
    EpochCommand::UpdatePool(UpdateParameters {
        new_pool_box_hash: hash_text.map(|text| text.to_string()),
        new_reward_token: None,
    })
}

#[test]
fn an_update_spends_the_pool_box_and_the_update_box() {
    let ballot = |tag: u8, byte: u8| Ballot {
        box_ref: BoxRef { index: 200 + tag as u64 },
        voter: operator(tag),
        pool_box_hash: Digest32 { bytes: [byte; 32] },
        reward_token: RewardToken { token_id: Digest32 { bytes: [9; 32] }, amount: 1 },
        update_box_creation_height: 50,
    };
    let context = PoolContext {
        ballot_boxes: vec![ballot(1, 0x11), ballot(2, 0x12), ballot(3, 0x11)],
        ..snapshot(3)
    };
    match build_action(update(Some(HASH_TEXT)), &context, 130, "addr".to_string()) {
        Ok(PoolAction::UpdatePool(action)) => {
            assert_eq!(action.pool_box_in, BoxRef { index: 1 });
            assert_eq!(action.update_box_in, BoxRef { index: 3 });
            assert_eq!(action.ballot_inputs, vec![BoxRef { index: 201 }, BoxRef { index: 203 }]);
            assert_eq!(action.new_pool_box_hash, Digest32 { bytes: [0x11; 32] });
            assert_eq!(action.new_reward_token, None);
        }
        other => panic!("{:?}", other),
    }
}

#[test]
fn an_update_is_checked_before_its_boxes_are_looked_for() {
    let context = PoolContext { pool_box: None, update_box: None, ..snapshot(3) };
    assert_eq!(
        build_action(update(None), &context, 130, String::new()),
        Err(PoolCommandError::ValidationError(ValidationError::MissingPoolBoxHash))
    );
    assert_eq!(
        build_action(update(Some("zz")), &context, 130, String::new()),
        Err(PoolCommandError::ValidationError(ValidationError::MalformedPoolBoxHash))
    );
    assert_eq!(
        build_action(update(Some(HASH_TEXT)), &context, 130, String::new()),
        Err(PoolCommandError::BoxNotFound(BoxKind::Pool))
    );
    let context = PoolContext { update_box: None, ..snapshot(3) };
    assert_eq!(
        build_action(update(Some(HASH_TEXT)), &context, 130, String::new()),
        Err(PoolCommandError::BoxNotFound(BoxKind::Update))
    );
}

#[test]
fn a_preparation_is_built_from_new_settings() {
    let new_settings = RefreshSettings {
        epoch_length: 60,
        min_data_points: 2,
        aggregation: AggregationRule::TrimmedMean,
        max_deviation: DeviationBound::Absolute { delta: 3 },
    };
    let command = EpochCommand::PrepareUpdate(PrepareUpdateParameters {
        new_settings,
        new_reward_token: None,
    });
    match build_action(command, &snapshot(3), 130, "addr".to_string()) {
        Ok(PoolAction::PrepareUpdate(action)) => {
            assert_eq!(action.new_parameters.settings(), new_settings);
            assert_eq!(action.new_reward_token, None);
            assert_eq!(action.change_address, "addr");
        }
        other => panic!("{:?}", other),
    }
    let command = EpochCommand::PrepareUpdate(PrepareUpdateParameters {
        new_settings: RefreshSettings { epoch_length: 0, ..new_settings },
        new_reward_token: None,
    });
    assert!(matches!(
        build_action(command, &snapshot(3), 130, String::new()),
        Err(PoolCommandError::ValidationError(ValidationError::InvalidSettings(_)))
    ));
}
