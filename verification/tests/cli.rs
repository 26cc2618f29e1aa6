use oracle_core::chain::Digest32;
use oracle_core::cli::{
    command_needs_oracle_pool, handle_oracle_command, Command, CommandError, OracleTask,
};
use oracle_core::governance::{RewardToken, UpdateParameters, ValidationError, VoteParameters};

const TOKEN_TEXT: &str = "abababababababababababababababababababababababababababababababab";

fn update(id: Option<&str>, amount: Option<u64>) -> Command {
    Command::UpdatePool {
        new_pool_box_hash: Some("hash".to_string()),
        reward_token_id: id.map(|text| text.to_string()),
        reward_token_amount: amount,
    }
}

#[test]
fn tells_the_commands_that_work_on_the_pool() {
    let bootstrap =
        Command::Bootstrap { yaml_config_name: "b.yaml".to_string(), generate_config_template: true };
    assert!(!command_needs_oracle_pool(&bootstrap));
    assert!(!command_needs_oracle_pool(&Command::PrintContractHashes));
    assert!(!command_needs_oracle_pool(&Command::PrintSafeConfig));
    assert!(command_needs_oracle_pool(&Command::PrintRewardTokens));
    assert!(command_needs_oracle_pool(&Command::Run { read_only: true, enable_rest_api: false }));
    assert!(command_needs_oracle_pool(&update(None, None)));
    assert!(command_needs_oracle_pool(&Command::PrepareUpdate { update_file: "u".to_string() }));
}

#[test]
fn a_locked_wallet_turns_every_command_down() {
    assert_eq!(
        handle_oracle_command(Command::PrintRewardTokens, true),
        Err(CommandError::WalletLocked)
    );
    assert_eq!(
        handle_oracle_command(Command::Run { read_only: true, enable_rest_api: true }, true),
        Err(CommandError::WalletLocked)
    );
    assert_eq!(
        handle_oracle_command(update(Some("malformed"), Some(0)), true),
        Err(CommandError::WalletLocked)
    );
}

#[test]
fn hands_plain_commands_on_as_given() {
    assert_eq!(
        handle_oracle_command(Command::Run { read_only: true, enable_rest_api: false }, false),
        Ok(OracleTask::Run { read_only: true, enable_rest_api: false })
    );
    assert_eq!(
        handle_oracle_command(Command::PrintRewardTokens, false),
        Ok(OracleTask::PrintRewardTokens)
    );
    assert_eq!(
        handle_oracle_command(
            Command::ExtractRewardTokens { rewards_address: "9f".to_string() },
            false
        ),
        Ok(OracleTask::ExtractRewardTokens { rewards_address: "9f".to_string() })
    );
    assert_eq!(
        handle_oracle_command(
            Command::TransferOracleToken { oracle_token_address: "9g".to_string() },
            false
        ),
        Ok(OracleTask::TransferOracleToken { oracle_token_address: "9g".to_string() })
    );
    assert_eq!(
        handle_oracle_command(Command::PrepareUpdate { update_file: "u.yaml".to_string() }, false),
        Ok(OracleTask::PrepareUpdate { update_file: "u.yaml".to_string() })
    );
}

#[test]
fn hands_a_vote_on_unread() {
    let command = Command::VoteUpdatePool {
        new_pool_box_address_hash_str: "no hash".to_string(),
        reward_token_id_str: "no id".to_string(),
        reward_token_amount: 0,
        update_box_creation_height: 12,
    };
    assert_eq!(
        handle_oracle_command(command, false),
        Ok(OracleTask::VoteUpdatePool(VoteParameters {
            new_pool_box_address_hash_str: "no hash".to_string(),
            reward_token_id_str: "no id".to_string(),
            reward_token_amount: 0,
            update_box_creation_height: 12,
        }))
    );
}

#[test]
fn reads_the_reward_token_of_an_update() {
    assert_eq!(
        handle_oracle_command(update(Some(TOKEN_TEXT), Some(25)), false),
        Ok(OracleTask::UpdatePool(UpdateParameters {
            new_pool_box_hash: Some("hash".to_string()),
            new_reward_token: Some(RewardToken {
                token_id: Digest32 { bytes: [0xab; 32] },
                amount: 25
            }),
        }))
    );
}

#[test]
fn an_update_names_a_reward_token_only_by_id_and_amount_together() {
    let without = Ok(OracleTask::UpdatePool(UpdateParameters {
        new_pool_box_hash: Some("hash".to_string()),
        new_reward_token: None,
    }));
    assert_eq!(handle_oracle_command(update(None, None), false), without);
    assert_eq!(handle_oracle_command(update(Some("malformed"), None), false), without);
    assert_eq!(handle_oracle_command(update(None, Some(0)), false), without);
}

#[test]
fn a_malformed_reward_token_turns_an_update_down() {
    assert_eq!(
        handle_oracle_command(update(Some("malformed"), Some(25)), false),
        Err(CommandError::Validation(ValidationError::MalformedRewardTokenId))
    );
    assert_eq!(
        handle_oracle_command(update(Some(TOKEN_TEXT), Some(0)), false),
        Err(CommandError::Validation(ValidationError::RewardTokenAmountOutOfRange))
    );
    assert_eq!(
        handle_oracle_command(update(Some(TOKEN_TEXT), Some(1 << 63)), false),
        Err(CommandError::Validation(ValidationError::RewardTokenAmountOutOfRange))
    );
}
