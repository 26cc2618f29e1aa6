//! The operator's commands, and what each asks of the pool.

use crate::governance::{
    is_reward_token_of, parse_reward_token, reward_token_error, RewardToken, RewardTokenText,
    UpdateParameters, ValidationError, VoteParameters,
};
use vstd::prelude::*;

verus! {

/// A command as the operator gave it.
#[allow(inconsistent_fields)]
#[derive(Clone, Debug, PartialEq, Eq)]
pub enum Command {
    /// Bootstrap a new pool, or write a template of its configuration.
    Bootstrap { yaml_config_name: String, generate_config_template: bool },
    /// Run the control loop.
    Run { read_only: bool, enable_rest_api: bool },
    /// Send the reward tokens of the local datapoint box to an address.
    ExtractRewardTokens { rewards_address: String },
    /// Print the number of reward tokens of the local datapoint box.
    PrintRewardTokens,
    /// Transfer the oracle token to an address.
    TransferOracleToken { oracle_token_address: String },
    /// Vote for an update of the pool.
    VoteUpdatePool {
        new_pool_box_address_hash_str: String,
        reward_token_id_str: String,
        reward_token_amount: u32,
        update_box_creation_height: u32,
    },
    /// Ratify an update of the pool.
    UpdatePool {
        new_pool_box_hash: Option<String>,
        reward_token_id: Option<String>,
        reward_token_amount: Option<u64>,
    },
    /// Prepare an update from a file of new parameters.
    PrepareUpdate { update_file: String },
    /// Print the hashes of the pool's contracts.
    PrintContractHashes,
    /// Print the configuration without its private fields.
    PrintSafeConfig,
}

/// What a command asks of the pool, with its parameters read.
#[derive(Clone, Debug, PartialEq, Eq)]
pub enum OracleTask {
    Run { read_only: bool, enable_rest_api: bool },
    ExtractRewardTokens { rewards_address: String },
    PrintRewardTokens,
    TransferOracleToken { oracle_token_address: String },
    VoteUpdatePool(VoteParameters),
    UpdatePool(UpdateParameters),
    PrepareUpdate { update_file: String },
}

/// Why a command was turned down before anything was done.
#[derive(Clone, Copy, Debug, PartialEq, Eq, Structural)]
pub enum CommandError {
    /// The wallet is locked.
    WalletLocked,
    /// What the operator gave is malformed.
    Validation(ValidationError),
}

/// The command works on the pool: it needs the wallet, the box scans and the
/// pool's configuration. The others are served without them.
pub open spec fn needs_oracle_pool(command: Command) -> bool {
    !(command is Bootstrap || command is PrintContractHashes || command is PrintSafeConfig)
}

/// Whether the command works on the pool.
pub fn command_needs_oracle_pool(command: &Command) -> (needs: bool)
    ensures
        needs == needs_oracle_pool(*command),
{
    match command {
        Command::Bootstrap { .. } => false,
        Command::PrintContractHashes => false,
        Command::PrintSafeConfig => false,
        _ => true,
    }
}

/// The reward token that an id and an amount name: both must be given.
pub open spec fn reward_token_text_of(
    token_id: Option<String>,
    amount: Option<u64>,
) -> Option<RewardTokenText> {
    match (token_id, amount) {
        (Some(token_id), Some(amount)) => Some(RewardTokenText { token_id, amount }),
        _ => None,
    }
}

/// What `handle_oracle_command` returns on a command that works on the pool.
/// A locked wallet turns every command down. The reward token of an update is
/// read here; what else the operator gave is handed on as it was given.
pub open spec fn is_task_outcome(
    r: Result<OracleTask, CommandError>,
    command: Command,
    wallet_locked: bool,
) -> bool {
    if wallet_locked {
        r == Err::<OracleTask, _>(CommandError::WalletLocked)
    } else {
        match command {
            Command::Run { read_only, enable_rest_api } => r == Ok::<_, CommandError>(
                OracleTask::Run { read_only, enable_rest_api },
            ),
            Command::ExtractRewardTokens { rewards_address } => r == Ok::<_, CommandError>(
                OracleTask::ExtractRewardTokens { rewards_address },
            ),
            Command::PrintRewardTokens => r == Ok::<_, CommandError>(OracleTask::PrintRewardTokens),
            Command::TransferOracleToken { oracle_token_address } => r == Ok::<_, CommandError>(
                OracleTask::TransferOracleToken { oracle_token_address },
            ),
            Command::VoteUpdatePool {
                new_pool_box_address_hash_str,
                reward_token_id_str,
                reward_token_amount,
                update_box_creation_height,
            } => r == Ok::<_, CommandError>(
                OracleTask::VoteUpdatePool(
                    VoteParameters {
                        new_pool_box_address_hash_str,
                        reward_token_id_str,
                        reward_token_amount,
                        update_box_creation_height,
                    },
                ),
            ),
            Command::UpdatePool { new_pool_box_hash, reward_token_id, reward_token_amount } => {
                let text = reward_token_text_of(reward_token_id, reward_token_amount);
                match reward_token_error(text) {
                    Some(e) => r == Err::<OracleTask, _>(CommandError::Validation(e)),
                    None => {
                        &&& r matches Ok(OracleTask::UpdatePool(parameters))
                        &&& parameters.new_pool_box_hash == new_pool_box_hash
                        &&& is_reward_token_of(text, parameters.new_reward_token)
                    },
                }
            },
            Command::PrepareUpdate { update_file } => r == Ok::<_, CommandError>(
                OracleTask::PrepareUpdate { update_file },
            ),
            _ => true,
        }
    }
}

/// Reads a command that works on the pool into the task it asks for.
pub fn handle_oracle_command(command: Command, wallet_locked: bool) -> (r: Result<
    OracleTask,
    CommandError,
>)
    requires
        needs_oracle_pool(command),
    ensures
        is_task_outcome(r, command, wallet_locked),
{
    if wallet_locked {
        return Err(CommandError::WalletLocked);
    }
    match command {
        Command::Run { read_only, enable_rest_api } => Ok(
            OracleTask::Run { read_only, enable_rest_api },
        ),
        Command::ExtractRewardTokens { rewards_address } => Ok(
            OracleTask::ExtractRewardTokens { rewards_address },
        ),
        Command::PrintRewardTokens => Ok(OracleTask::PrintRewardTokens),
        Command::TransferOracleToken { oracle_token_address } => Ok(
            OracleTask::TransferOracleToken { oracle_token_address },
        ),
        Command::VoteUpdatePool {
            new_pool_box_address_hash_str,
            reward_token_id_str,
            reward_token_amount,
            update_box_creation_height,
        } => Ok(
            OracleTask::VoteUpdatePool(
                VoteParameters {
                    new_pool_box_address_hash_str,
                    reward_token_id_str,
                    reward_token_amount,
                    update_box_creation_height,
                },
            ),
        ),
        Command::UpdatePool { new_pool_box_hash, reward_token_id, reward_token_amount } => {
            let new_reward_token: Option<RewardToken> = match (reward_token_id, reward_token_amount) {
                (Some(token_id), Some(amount)) => {
                    match parse_reward_token(token_id.as_str(), amount) {
                        Ok(token) => Some(token),
                        Err(e) => {
                            return Err(CommandError::Validation(e));
                        },
                    }
                },
                _ => None,
            };
            Ok(OracleTask::UpdatePool(UpdateParameters { new_pool_box_hash, new_reward_token }))
        },
        Command::PrepareUpdate { update_file } => Ok(OracleTask::PrepareUpdate { update_file }),
        Command::Bootstrap { .. } | Command::PrintContractHashes | Command::PrintSafeConfig => {
            vstd::pervasive::unreached()
        },
    }
}

} // verus!
