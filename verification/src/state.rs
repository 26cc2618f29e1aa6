//! The state of the pool as read from the ledger, and the epoch decision engine.

use crate::governance::{PrepareUpdateParameters, UpdateParameters, VoteParameters};
use vstd::prelude::*;

verus! {

/// A reference to an unspent box by the number under which the box repository
/// indexed it. The library never assumes that a box it was given is still
/// unspent when the action is submitted.
#[derive(Clone, Copy, Debug, PartialEq, Eq, Structural)]
pub struct BoxRef {
    pub index: u64,
}

/// A live epoch, as read from the pool box, the refresh box and the local
/// operator's datapoint box.
#[derive(Clone, Copy, Debug, PartialEq, Eq, Structural)]
pub struct LiveEpochState {
    /// Ledger height at which the current epoch began.
    pub epoch_start_height: u32,
    pub pool_box_ref: BoxRef,
    pub refresh_box_ref: BoxRef,
    /// Height at which the local operator last committed a datapoint, if ever.
    pub local_datapoint_height: Option<u32>,
}

/// What the box repository shows of the pool.
#[derive(Clone, Copy, Debug, PartialEq, Eq, Structural)]
pub enum PoolState {
    /// No valid pool box was found. Bootstrapping is an administrative
    /// operation; the automated loop takes no action.
    NeedsBootstrap,
    LiveEpoch(LiveEpochState),
}

/// A command for the action builder. A decision produces at most one, and
/// only one of the first two; the governance commands come from an operator,
/// with what the operator gave.
#[derive(Clone, Debug, PartialEq, Eq)]
pub enum EpochCommand {
    PublishDatapoint,
    Refresh,
    VoteUpdatePool(VoteParameters),
    UpdatePool(UpdateParameters),
    PrepareUpdate(PrepareUpdateParameters),
}

/// The epoch that began at `epoch_start_height` has run its full length.
pub open spec fn epoch_is_over(epoch_start_height: u32, epoch_length: u32, height: u32) -> bool {
    height >= epoch_start_height + epoch_length
}

/// The local operator has committed a datapoint since the epoch began.
pub open spec fn published_this_epoch(epoch: LiveEpochState) -> bool {
    match epoch.local_datapoint_height {
        Some(h) => h >= epoch.epoch_start_height,
        None => false,
    }
}

/// The command that is due in `state` at `height`.
pub open spec fn due_command(state: PoolState, epoch_length: u32, height: u32) -> Option<
    EpochCommand,
> {
    match state {
        PoolState::NeedsBootstrap => None,
        PoolState::LiveEpoch(epoch) => if epoch_is_over(
            epoch.epoch_start_height,
            epoch_length,
            height,
        ) {
            Some(EpochCommand::Refresh)
        } else if published_this_epoch(epoch) {
            None
        } else {
            Some(EpochCommand::PublishDatapoint)
        },
    }
}

/// Decides which command, if any, is due. The decision reads nothing but its
/// arguments, and never yields a governance command.
pub fn process(state: PoolState, epoch_length: u32, height: u32) -> (command: Option<EpochCommand>)
    ensures
        command == due_command(state, epoch_length, height),
        state is NeedsBootstrap ==> command is None,
        state matches PoolState::LiveEpoch(epoch) ==> (command == Some(EpochCommand::Refresh)
            <==> height >= epoch.epoch_start_height + epoch_length),
        command matches Some(c) ==> c is Refresh || c is PublishDatapoint,
{
    match state {
        PoolState::NeedsBootstrap => None,
        PoolState::LiveEpoch(epoch) => {
            let epoch_end: u64 = epoch.epoch_start_height as u64 + epoch_length as u64;
            if height as u64 >= epoch_end {
                Some(EpochCommand::Refresh)
            } else {
                match epoch.local_datapoint_height {
                    Some(h) => if h >= epoch.epoch_start_height {
                        None
                    } else {
                        Some(EpochCommand::PublishDatapoint)
                    },
                    None => Some(EpochCommand::PublishDatapoint),
                }
            }
        },
    }
}

/// While an epoch of positive length is open, the decision is to publish a
/// datapoint or to do nothing; it is never a refresh.
pub proof fn lemma_open_epoch_is_not_refreshed(epoch: LiveEpochState, epoch_length: u32, height: u32)
    requires
        epoch_length > 0,
        height < epoch.epoch_start_height + epoch_length,
    ensures
        due_command(PoolState::LiveEpoch(epoch), epoch_length, height) != Some(
            EpochCommand::Refresh,
        ),
        due_command(PoolState::LiveEpoch(epoch), epoch_length, height) is None || due_command(
            PoolState::LiveEpoch(epoch),
            epoch_length,
            height,
        ) == Some(EpochCommand::PublishDatapoint),
{
}

/// Once an epoch has run its length, the decision is a refresh, whether or not
/// the local operator has published a datapoint.
pub proof fn lemma_expired_epoch_is_refreshed(epoch: LiveEpochState, epoch_length: u32, height: u32)
    requires
        height >= epoch.epoch_start_height + epoch_length,
    ensures
        due_command(PoolState::LiveEpoch(epoch), epoch_length, height) == Some(
            EpochCommand::Refresh,
        ),
{
}

/// The decision is a function of the state, the epoch length and the height:
/// two results for the same inputs are the same command.
pub proof fn lemma_decision_is_repeatable(
    state: PoolState,
    epoch_length: u32,
    height: u32,
    first: Option<EpochCommand>,
    second: Option<EpochCommand>,
)
    requires
        first == due_command(state, epoch_length, height),
        second == due_command(state, epoch_length, height),
    ensures
        first == second,
{
}

/// A pool that needs bootstrapping is left alone, whatever the epoch length
/// and the height.
pub proof fn lemma_bootstrap_is_idle(epoch_length: u32, height: u32)
    ensures
        due_command(PoolState::NeedsBootstrap, epoch_length, height) is None,
{
}

} // verus!
