//! The action builder: from a command and a snapshot of the pool to the
//! transaction that is to be signed and submitted. Nothing here touches the
//! ledger.

use crate::chain::PublicKey;
use crate::governance::{
    build_prepare_update_action, build_update_pool_action, build_vote_update_pool_action,
    is_prepare_outcome, is_update_outcome, is_vote_outcome, Ballot, PrepareUpdateAction,
    UpdateBox, UpdatePoolAction, ValidationError, VoteUpdatePoolAction,
};
use crate::refresh::{
    build_refresh_action, consensus_reached, is_consensus_failure, is_refresh_outcome,
    qualifying_datapoints, Datapoint, PoolBox, RefreshAction, RefreshActionError,
    RefreshParameters,
};
use crate::state::{BoxRef, EpochCommand, LiveEpochState, PoolState};
use vstd::prelude::*;

verus! {

/// The datapoint source could not produce a value.
#[derive(Clone, Debug, PartialEq, Eq)]
pub struct DataPointSourceError {
    pub message: String,
}

/// Why no datapoint could be published.
#[derive(Clone, Debug, PartialEq, Eq)]
pub enum PublishDatapointActionError {
    DataPointSource(DataPointSourceError),
}

/// The publication of a datapoint: the operator's earlier datapoint box, which
/// is spent if there is one, and the datapoint that replaces it.
#[derive(Debug, PartialEq, Eq)]
pub struct PublishDatapointAction {
    pub spent_datapoint_box: Option<BoxRef>,
    pub public_key: PublicKey,
    pub value: u64,
    pub height: u32,
    pub change_address: String,
}

/// The kinds of box that an action may need and not find.
#[derive(Clone, Copy, Debug, PartialEq, Eq, Structural)]
pub enum BoxKind {
    Pool,
    Refresh,
    Update,
}

/// A snapshot of what the box repository and the datapoint source show. The
/// builder reads it and changes nothing.
#[derive(Debug, PartialEq, Eq)]
pub struct PoolContext {
    pub parameters: RefreshParameters,
    pub pool_box: Option<PoolBox>,
    pub refresh_box: Option<BoxRef>,
    pub update_box: Option<UpdateBox>,
    pub datapoint_boxes: Vec<Datapoint>,
    pub ballot_boxes: Vec<Ballot>,
    pub local_public_key: PublicKey,
    pub local_datapoint_box: Option<Datapoint>,
    pub local_ballot_box: Option<Ballot>,
    /// What the datapoint source returned. It is looked at only where a
    /// datapoint is published.
    pub datapoint_source: Result<u64, DataPointSourceError>,
}

/// A transaction that is fully described and not yet signed.
#[derive(Debug, PartialEq, Eq)]
pub enum PoolAction {
    Refresh(RefreshAction),
    PublishDatapoint(PublishDatapointAction),
    VoteUpdatePool(VoteUpdatePoolAction),
    UpdatePool(UpdatePoolAction),
    PrepareUpdate(PrepareUpdateAction),
}

/// Why no action could be built.
#[derive(Debug, PartialEq, Eq)]
pub enum PoolCommandError {
    RefreshActionError(RefreshActionError),
    PublishDatapointActionError(PublishDatapointActionError),
    ValidationError(ValidationError),
    /// The snapshot holds no box of this kind.
    BoxNotFound(BoxKind),
}

/// What `build_publish_datapoint_action` returns.
pub open spec fn is_publish_outcome(
    r: Result<PublishDatapointAction, PublishDatapointActionError>,
    local_datapoint_box: Option<Datapoint>,
    public_key: PublicKey,
    reading: Result<u64, DataPointSourceError>,
    height: u32,
    change_address: Seq<char>,
) -> bool {
    match reading {
        Err(e) => r == Err::<PublishDatapointAction, _>(
            PublishDatapointActionError::DataPointSource(e),
        ),
        Ok(value) => {
            &&& r matches Ok(action)
            &&& action.spent_datapoint_box == match local_datapoint_box {
                Some(dp) => Some(dp.box_ref),
                None => None,
            }
            &&& action.public_key == public_key
            &&& action.value == value
            &&& action.height == height
            &&& action.change_address@ == change_address
        },
    }
}

/// Builds the publication of the value that the datapoint source gave; where
/// the source gave none, fails with its error and spends nothing.
pub fn build_publish_datapoint_action(
    local_datapoint_box: Option<Datapoint>,
    public_key: PublicKey,
    reading: &Result<u64, DataPointSourceError>,
    height: u32,
    change_address: String,
) -> (r: Result<PublishDatapointAction, PublishDatapointActionError>)
    ensures
        is_publish_outcome(
            r,
            local_datapoint_box,
            public_key,
            *reading,
            height,
            change_address@,
        ),
{
    match reading {
        Err(e) => Err(
            PublishDatapointActionError::DataPointSource(
                DataPointSourceError { message: e.message.clone() },
            ),
        ),
        Ok(value) => {
            let spent_datapoint_box = match local_datapoint_box {
                Some(dp) => Some(dp.box_ref),
                None => None,
            };
            Ok(
                PublishDatapointAction {
                    spent_datapoint_box,
                    public_key,
                    value: *value,
                    height,
                    change_address,
                },
            )
        },
    }
}

/// The live epoch that the snapshot shows: it takes a pool box and a refresh
/// box.
pub open spec fn live_epoch_of(context: PoolContext) -> Option<LiveEpochState> {
    match (context.pool_box, context.refresh_box) {
        (Some(pool_box), Some(refresh_box)) => Some(
            LiveEpochState {
                epoch_start_height: pool_box.epoch_start_height,
                pool_box_ref: pool_box.box_ref,
                refresh_box_ref: refresh_box,
                local_datapoint_height: match context.local_datapoint_box {
                    Some(dp) => Some(dp.height),
                    None => None,
                },
            },
        ),
        _ => None,
    }
}

/// The state of the pool that the snapshot shows.
pub open spec fn pool_state_of(context: PoolContext) -> PoolState {
    match live_epoch_of(context) {
        Some(epoch) => PoolState::LiveEpoch(epoch),
        None => PoolState::NeedsBootstrap,
    }
}

impl PoolContext {
    /// The live epoch that the snapshot shows, or the kind of box that is
    /// missing for one: the pool box is looked for first.
    pub fn get_live_epoch_state(&self) -> (r: Result<LiveEpochState, PoolCommandError>)
        ensures
            self.pool_box is None ==> r matches Err(PoolCommandError::BoxNotFound(BoxKind::Pool)),
            self.pool_box is Some && self.refresh_box is None ==> r matches Err(
                PoolCommandError::BoxNotFound(BoxKind::Refresh),
            ),
            match live_epoch_of(*self) {
                Some(epoch) => r == Ok::<_, PoolCommandError>(epoch),
                None => r is Err,
            },
    {
        let pool_box = match self.pool_box {
            Some(pool_box) => pool_box,
            None => {
                return Err(PoolCommandError::BoxNotFound(BoxKind::Pool));
            },
        };
        let refresh_box = match self.refresh_box {
            Some(refresh_box) => refresh_box,
            None => {
                return Err(PoolCommandError::BoxNotFound(BoxKind::Refresh));
            },
        };
        let local_datapoint_height = match self.local_datapoint_box {
            Some(dp) => Some(dp.height),
            None => None,
        };
        Ok(
            LiveEpochState {
                epoch_start_height: pool_box.epoch_start_height,
                pool_box_ref: pool_box.box_ref,
                refresh_box_ref: refresh_box,
                local_datapoint_height,
            },
        )
    }
}

/// Reads the state of the pool from the snapshot. Where no live epoch can be
/// read the pool needs bootstrapping, which is no error.
pub fn read_pool_state(context: &PoolContext) -> (state: PoolState)
    ensures
        state == pool_state_of(*context),
{
    match context.get_live_epoch_state() {
        Ok(epoch) => PoolState::LiveEpoch(epoch),
        Err(_) => PoolState::NeedsBootstrap,
    }
}

/// The refresh that `r` holds, or the error of one.
pub open spec fn refresh_part(r: Result<PoolAction, PoolCommandError>) -> Option<
    Result<RefreshAction, RefreshActionError>,
> {
    match r {
        Ok(PoolAction::Refresh(action)) => Some(Ok(action)),
        Err(PoolCommandError::RefreshActionError(e)) => Some(Err(e)),
        _ => None,
    }
}

/// The publication that `r` holds, or the error of one.
pub open spec fn publish_part(r: Result<PoolAction, PoolCommandError>) -> Option<
    Result<PublishDatapointAction, PublishDatapointActionError>,
> {
    match r {
        Ok(PoolAction::PublishDatapoint(action)) => Some(Ok(action)),
        Err(PoolCommandError::PublishDatapointActionError(e)) => Some(Err(e)),
        _ => None,
    }
}

/// The vote that `r` holds, or the validation error.
pub open spec fn vote_part(r: Result<PoolAction, PoolCommandError>) -> Option<
    Result<VoteUpdatePoolAction, ValidationError>,
> {
    match r {
        Ok(PoolAction::VoteUpdatePool(action)) => Some(Ok(action)),
        Err(PoolCommandError::ValidationError(e)) => Some(Err(e)),
        _ => None,
    }
}

/// The update that `r` holds, or the validation error.
pub open spec fn update_part(r: Result<PoolAction, PoolCommandError>) -> Option<
    Result<UpdatePoolAction, ValidationError>,
> {
    match r {
        Ok(PoolAction::UpdatePool(action)) => Some(Ok(action)),
        Err(PoolCommandError::ValidationError(e)) => Some(Err(e)),
        _ => None,
    }
}

/// The preparation that `r` holds, or the validation error.
pub open spec fn prepare_part(r: Result<PoolAction, PoolCommandError>) -> Option<
    Result<PrepareUpdateAction, ValidationError>,
> {
    match r {
        Ok(PoolAction::PrepareUpdate(action)) => Some(Ok(action)),
        Err(PoolCommandError::ValidationError(e)) => Some(Err(e)),
        _ => None,
    }
}

/// `r` is the failure to find a box of `kind`.
pub open spec fn is_box_not_found(r: Result<PoolAction, PoolCommandError>, kind: BoxKind) -> bool {
    r matches Err(PoolCommandError::BoxNotFound(found)) && found == kind
}

/// What `build_action` returns. The action is of the command's kind. A
/// refresh needs the pool box and the refresh box. An update has its
/// parameters checked before the pool box and the update box are looked for.
pub open spec fn is_build_outcome(
    r: Result<PoolAction, PoolCommandError>,
    command: EpochCommand,
    context: PoolContext,
    height: u32,
    change_address: Seq<char>,
) -> bool {
    match command {
        EpochCommand::PublishDatapoint => {
            &&& publish_part(r) matches Some(inner)
            &&& is_publish_outcome(
                inner,
                context.local_datapoint_box,
                context.local_public_key,
                context.datapoint_source,
                height,
                change_address,
            )
        },
        EpochCommand::Refresh => match (context.pool_box, context.refresh_box) {
            (None, _) => is_box_not_found(r, BoxKind::Pool),
            (Some(_), None) => is_box_not_found(r, BoxKind::Refresh),
            (Some(pool_box), Some(refresh_box)) => {
                &&& refresh_part(r) matches Some(inner)
                &&& is_refresh_outcome(
                    inner,
                    context.parameters@,
                    pool_box,
                    refresh_box,
                    context.datapoint_boxes@,
                    height,
                    change_address,
                )
            },
        },
        EpochCommand::VoteUpdatePool(parameters) => {
            &&& vote_part(r) matches Some(inner)
            &&& is_vote_outcome(
                inner,
                parameters,
                context.local_ballot_box,
                context.local_public_key,
                change_address,
            )
        },
        EpochCommand::UpdatePool(parameters) => match crate::governance::update_parameters_error(
            parameters,
        ) {
            Some(e) => r matches Err(PoolCommandError::ValidationError(found)) && found == e,
            None => match (context.pool_box, context.update_box) {
                (None, _) => is_box_not_found(r, BoxKind::Pool),
                (Some(_), None) => is_box_not_found(r, BoxKind::Update),
                (Some(pool_box), Some(update_box)) => {
                    &&& update_part(r) matches Some(inner)
                    &&& is_update_outcome(
                        inner,
                        parameters,
                        pool_box.box_ref,
                        update_box,
                        context.ballot_boxes@,
                        change_address,
                    )
                },
            },
        },
        EpochCommand::PrepareUpdate(parameters) => {
            &&& prepare_part(r) matches Some(inner)
            &&& is_prepare_outcome(inner, parameters, change_address)
        },
    }
}

/// Turns a command into the transaction to sign, against the snapshot
/// `context` and at ledger height `height`. Change goes to `change_address`.
pub fn build_action(
    command: EpochCommand,
    context: &PoolContext,
    height: u32,
    change_address: String,
) -> (r: Result<PoolAction, PoolCommandError>)
    ensures
        is_build_outcome(r, command, *context, height, change_address@),
{
    match command {
        EpochCommand::PublishDatapoint => {
            match build_publish_datapoint_action(
                context.local_datapoint_box,
                context.local_public_key,
                &context.datapoint_source,
                height,
                change_address,
            ) {
                Ok(action) => Ok(PoolAction::PublishDatapoint(action)),
                Err(e) => Err(PoolCommandError::PublishDatapointActionError(e)),
            }
        },
        EpochCommand::Refresh => {
            let pool_box = match context.pool_box {
                Some(pool_box) => pool_box,
                None => {
                    return Err(PoolCommandError::BoxNotFound(BoxKind::Pool));
                },
            };
            let refresh_box = match context.refresh_box {
                Some(refresh_box) => refresh_box,
                None => {
                    return Err(PoolCommandError::BoxNotFound(BoxKind::Refresh));
                },
            };
            match build_refresh_action(
                &context.parameters,
                pool_box,
                refresh_box,
                &context.datapoint_boxes,
                height,
                change_address,
            ) {
                Ok(action) => Ok(PoolAction::Refresh(action)),
                Err(e) => Err(PoolCommandError::RefreshActionError(e)),
            }
        },
        EpochCommand::VoteUpdatePool(parameters) => {
            match build_vote_update_pool_action(
                &parameters,
                context.local_ballot_box,
                context.local_public_key,
                change_address,
            ) {
                Ok(action) => Ok(PoolAction::VoteUpdatePool(action)),
                Err(e) => Err(PoolCommandError::ValidationError(e)),
            }
        },
        EpochCommand::UpdatePool(parameters) => {
            match crate::governance::check_update_parameters(&parameters) {
                Ok(_) => {},
                Err(e) => {
                    return Err(PoolCommandError::ValidationError(e));
                },
            }
            let pool_box = match context.pool_box {
                Some(pool_box) => pool_box,
                None => {
                    return Err(PoolCommandError::BoxNotFound(BoxKind::Pool));
                },
            };
            let update_box = match context.update_box {
                Some(update_box) => update_box,
                None => {
                    return Err(PoolCommandError::BoxNotFound(BoxKind::Update));
                },
            };
            match build_update_pool_action(
                &parameters,
                pool_box.box_ref,
                update_box,
                &context.ballot_boxes,
                change_address,
            ) {
                Ok(action) => Ok(PoolAction::UpdatePool(action)),
                Err(e) => Err(PoolCommandError::ValidationError(e)),
            }
        },
        EpochCommand::PrepareUpdate(parameters) => {
            match build_prepare_update_action(&parameters, change_address) {
                Ok(action) => Ok(PoolAction::PrepareUpdate(action)),
                Err(e) => Err(PoolCommandError::ValidationError(e)),
            }
        },
    }
}

/// A refresh for which fewer datapoints qualify than the settings ask for is
/// never built: whatever `build_action` returns for it is the consensus
/// failure that carries exactly the public keys of the qualifying datapoints.
pub proof fn lemma_refresh_needs_consensus(
    r: Result<PoolAction, PoolCommandError>,
    context: PoolContext,
    pool_box: PoolBox,
    height: u32,
    change_address: Seq<char>,
)
    requires
        is_build_outcome(r, EpochCommand::Refresh, context, height, change_address),
        context.pool_box == Some(pool_box),
        context.refresh_box is Some,
        !consensus_reached(
            context.parameters@,
            context.datapoint_boxes@,
            pool_box.epoch_start_height,
            height,
        ),
    ensures
        r matches Err(PoolCommandError::RefreshActionError(e)) && is_consensus_failure(
            Err::<RefreshAction, _>(e),
            context.parameters@.min_data_points,
            qualifying_datapoints(
                context.parameters@,
                context.datapoint_boxes@,
                pool_box.epoch_start_height,
                height,
            ),
        ),
{
}

/// The action is of the command's kind.
pub open spec fn is_of_kind(action: PoolAction, command: EpochCommand) -> bool {
    match command {
        EpochCommand::PublishDatapoint => action is PublishDatapoint,
        EpochCommand::Refresh => action is Refresh,
        EpochCommand::VoteUpdatePool(_) => action is VoteUpdatePool,
        EpochCommand::UpdatePool(_) => action is UpdatePool,
        EpochCommand::PrepareUpdate(_) => action is PrepareUpdate,
    }
}

/// Whatever `build_action` builds for a command is an action of the command's
/// kind.
pub proof fn lemma_action_is_of_the_commands_kind(
    r: Result<PoolAction, PoolCommandError>,
    command: EpochCommand,
    context: PoolContext,
    height: u32,
    change_address: Seq<char>,
)
    requires
        is_build_outcome(r, command, context, height, change_address),
    ensures
        r matches Ok(action) ==> is_of_kind(action, command),
{
}

} // verus!
