//! One iteration of the control loop, as a function of what was read: decide,
//! build, and tell failures that the loop waits out from those it reports.

use crate::chain::{
    network_of_address, network_of_address_text, p2pk_address_text, p2pk_address_to_base58,
    NetworkPrefix, PublicKey,
};
use crate::pool_commands::{
    build_action, is_build_outcome, pool_state_of, read_pool_state, PoolAction, PoolCommandError,
    PoolContext, PublishDatapointActionError,
};
use crate::refresh::RefreshActionError;
use crate::state::{due_command, process};
use vstd::prelude::*;

verus! {

/// What the node says of its wallet.
#[derive(Clone, Debug, PartialEq, Eq)]
pub struct WalletStatus {
    pub change_address: Option<String>,
    pub locked: bool,
}

/// The wallet's change address: its base58 text and the network it names.
#[derive(Clone, Debug, PartialEq, Eq)]
pub struct ChangeAddress {
    pub network: NetworkPrefix,
    pub address: String,
}

/// Why an iteration ended in an error.
#[derive(Debug, PartialEq, Eq)]
pub enum IterationError {
    /// The node did not give the current height.
    HeightUnavailable,
    /// The node did not give the wallet's status.
    WalletStatusUnavailable,
    /// The wallet has no change address; it may be locked.
    NoChangeAddress,
    /// The wallet's change address is no address.
    MalformedChangeAddress,
    /// The action builder failed, and not in a way that the loop waits out.
    PoolCommand(PoolCommandError),
}

/// A failure that the loop reports and waits out.
#[derive(Debug, PartialEq, Eq)]
pub enum NonFatalReport {
    /// Too few datapoints lie within the deviation bound. The addresses are
    /// those of the operators whose datapoints do; `None` stands for a key
    /// that is no group element.
    ConsensusNotReached {
        expected: u32,
        found_num: u32,
        found_oracle_addresses: Vec<Option<String>>,
    },
    /// The datapoint source gave no value.
    DatapointSourceFailed { message: String },
}

/// What became of a build result.
#[derive(Debug, PartialEq, Eq)]
pub enum Handled {
    /// The action was built and is to be carried on with.
    Proceed(PoolAction),
    /// The build failed in a way that is reported and waited out.
    Logged(NonFatalReport),
}

/// How an iteration ended.
#[derive(Debug, PartialEq, Eq)]
pub enum IterationStep {
    /// No command is due.
    Idle,
    /// A command was due, and building it failed in a way that is reported and
    /// waited out. Nothing is submitted.
    Logged(NonFatalReport),
    /// The action was built; the loop is read-only, so it is not submitted.
    Built(PoolAction),
    /// The action is to be signed and submitted.
    Execute(PoolAction),
}

/// The failures that the loop waits out: no consensus, and no value from the
/// datapoint source.
pub open spec fn is_non_fatal(e: PoolCommandError) -> bool {
    match e {
        PoolCommandError::RefreshActionError(
            RefreshActionError::FailedToReachConsensus { .. },
        ) => true,
        PoolCommandError::PublishDatapointActionError(
            PublishDatapointActionError::DataPointSource(_),
        ) => true,
        _ => false,
    }
}

/// Whether the loop waits the failure out and tries again at its next
/// iteration.
pub fn is_retryable(e: &PoolCommandError) -> (retryable: bool)
    ensures
        retryable == is_non_fatal(*e),
{
    match e {
        PoolCommandError::RefreshActionError(
            RefreshActionError::FailedToReachConsensus { .. },
        ) => true,
        PoolCommandError::PublishDatapointActionError(
            PublishDatapointActionError::DataPointSource(_),
        ) => true,
        _ => false,
    }
}

/// The text of an address, where there is one.
pub open spec fn address_text(address: Option<String>) -> Option<Seq<char>> {
    match address {
        Some(text) => Some(text@),
        None => None,
    }
}

/// `addresses` are the pay-to-public-key addresses of `keys` on `network`,
/// in order.
pub open spec fn are_addresses_of(
    addresses: Seq<Option<String>>,
    network: NetworkPrefix,
    keys: Seq<PublicKey>,
) -> bool {
    &&& addresses.len() == keys.len()
    &&& forall|i: int|
        0 <= i < keys.len() ==> address_text(#[trigger] addresses[i]) == p2pk_address_text(
            network,
            keys[i].bytes@,
        )
}

/// The addresses of the operators with the given public keys.
pub fn oracle_addresses(network: NetworkPrefix, keys: &Vec<PublicKey>) -> (addresses: Vec<
    Option<String>,
>)
    ensures
        are_addresses_of(addresses@, network, keys@),
{
    let mut addresses: Vec<Option<String>> = Vec::new();
    let mut i: usize = 0;
    while i < keys.len()
        invariant
            i <= keys.len(),
            are_addresses_of(addresses@, network, keys@.take(i as int)),
        decreases keys.len() - i,
    {
        let address = match p2pk_address_to_base58(network, &keys[i]) {
            Ok(text) => Some(text),
            Err(_) => None,
        };
        addresses.push(address);
        i += 1;
    }
    assert(keys@.take(i as int) =~= keys@);
    addresses
}

/// `report` says what the non-fatal failure `e` holds.
pub open spec fn is_report_of(
    report: NonFatalReport,
    network: NetworkPrefix,
    e: PoolCommandError,
) -> bool {
    match e {
        PoolCommandError::RefreshActionError(
            RefreshActionError::FailedToReachConsensus { expected, found_public_keys, found_num },
        ) => {
            &&& report matches NonFatalReport::ConsensusNotReached {
                expected: reported_expected,
                found_num: reported_num,
                found_oracle_addresses,
            }
            &&& reported_expected == expected
            &&& reported_num == found_num
            &&& are_addresses_of(found_oracle_addresses@, network, found_public_keys@)
        },
        PoolCommandError::PublishDatapointActionError(
            PublishDatapointActionError::DataPointSource(source),
        ) => {
            &&& report matches NonFatalReport::DatapointSourceFailed { message }
            &&& message@ == source.message@
        },
        _ => false,
    }
}

/// What `log_and_continue_if_non_fatal` returns.
pub open spec fn is_handled_outcome(
    r: Result<Handled, PoolCommandError>,
    network: NetworkPrefix,
    res: Result<PoolAction, PoolCommandError>,
) -> bool {
    match res {
        Ok(action) => r == Ok::<_, PoolCommandError>(Handled::Proceed(action)),
        Err(e) => if is_non_fatal(e) {
            r matches Ok(Handled::Logged(report)) && is_report_of(report, network, e)
        } else {
            r == Err::<Handled, _>(e)
        },
    }
}

/// Sorts a build result: an action is carried on with; a failure that the
/// loop waits out becomes a report, with the addresses of the operators whose
/// datapoints qualified; any other failure is handed on unchanged.
pub fn log_and_continue_if_non_fatal(
    network_prefix: NetworkPrefix,
    res: Result<PoolAction, PoolCommandError>,
) -> (r: Result<Handled, PoolCommandError>)
    ensures
        is_handled_outcome(r, network_prefix, res),
{
    match res {
        Ok(action) => Ok(Handled::Proceed(action)),
        Err(
            PoolCommandError::RefreshActionError(
                RefreshActionError::FailedToReachConsensus {
                    expected,
                    found_public_keys,
                    found_num,
                },
            ),
        ) => {
            let found_oracle_addresses = oracle_addresses(network_prefix, &found_public_keys);
            Ok(
                Handled::Logged(
                    NonFatalReport::ConsensusNotReached {
                        expected,
                        found_num,
                        found_oracle_addresses,
                    },
                ),
            )
        },
        Err(
            PoolCommandError::PublishDatapointActionError(
                PublishDatapointActionError::DataPointSource(source),
            ),
        ) => Ok(Handled::Logged(NonFatalReport::DatapointSourceFailed { message: source.message })),
        Err(e) => Err(e),
    }
}

/// The error, if any, that the wallet's change address is turned down with.
pub open spec fn change_address_error(wallet_status: Option<WalletStatus>) -> Option<
    IterationError,
> {
    match wallet_status {
        None => Some(IterationError::WalletStatusUnavailable),
        Some(status) => match status.change_address {
            None => Some(IterationError::NoChangeAddress),
            Some(text) => if network_of_address_text(text@) is None {
                Some(IterationError::MalformedChangeAddress)
            } else {
                None
            },
        },
    }
}

/// `address` is the change address that the wallet's status names.
pub open spec fn is_change_address_of(
    address: ChangeAddress,
    wallet_status: Option<WalletStatus>,
) -> bool {
    &&& wallet_status matches Some(status)
    &&& status.change_address matches Some(text)
    &&& address.address@ == text@
    &&& network_of_address_text(text@) == Some(address.network)
}

/// Reads the change address from the wallet status that the node gave, if it
/// gave one.
pub fn get_change_address_from_node(wallet_status: Option<WalletStatus>) -> (r: Result<
    ChangeAddress,
    IterationError,
>)
    ensures
        match change_address_error(wallet_status) {
            Some(e) => r matches Err(found) && found == e,
            None => r matches Ok(address) && is_change_address_of(address, wallet_status),
        },
{
    let status = match wallet_status {
        Some(status) => status,
        None => {
            return Err(IterationError::WalletStatusUnavailable);
        },
    };
    let address = match status.change_address {
        Some(address) => address,
        None => {
            return Err(IterationError::NoChangeAddress);
        },
    };
    match network_of_address(address.as_str()) {
        Ok(network) => Ok(ChangeAddress { network, address }),
        Err(_) => Err(IterationError::MalformedChangeAddress),
    }
}

/// How an iteration ends once `built` is what the action builder returned.
pub open spec fn is_step_outcome(
    r: Result<IterationStep, IterationError>,
    network: NetworkPrefix,
    built: Result<PoolAction, PoolCommandError>,
    read_only: bool,
) -> bool {
    match built {
        Ok(action) => if read_only {
            r == Ok::<_, IterationError>(IterationStep::Built(action))
        } else {
            r == Ok::<_, IterationError>(IterationStep::Execute(action))
        },
        Err(e) => if is_non_fatal(e) {
            r matches Ok(IterationStep::Logged(report)) && is_report_of(report, network, e)
        } else {
            r == Err::<IterationStep, _>(IterationError::PoolCommand(e))
        },
    }
}

/// What `main_loop_iteration` returns. The height is looked at first, then
/// the change address; then the command that is due in the snapshot's state
/// is built against the snapshot, with the change address that was read.
pub open spec fn is_iteration_outcome(
    r: Result<IterationStep, IterationError>,
    context: PoolContext,
    height: Option<u32>,
    wallet_status: Option<WalletStatus>,
    read_only: bool,
) -> bool {
    match height {
        None => r matches Err(IterationError::HeightUnavailable),
        Some(height) => match change_address_error(wallet_status) {
            Some(e) => r matches Err(found) && found == e,
            None => {
                let text = wallet_status->0.change_address->0@;
                match due_command(pool_state_of(context), context.parameters@.epoch_length, height) {
                    None => r matches Ok(IterationStep::Idle),
                    Some(command) => exists|built: Result<PoolAction, PoolCommandError>|
                        {
                            &&& is_build_outcome(built, command, context, height, text)
                            &&& #[trigger] is_step_outcome(
                                r,
                                network_of_address_text(text)->0,
                                built,
                                read_only,
                            )
                        },
                }
            },
        },
    }
}

/// One iteration of the control loop, on what was read for it: the snapshot
/// of the pool, the ledger height and the wallet's status, each `None` where
/// the node did not answer. Decides which command is due, builds its action,
/// and says what the loop is to do with it. The iteration itself submits
/// nothing.
pub fn main_loop_iteration(
    context: &PoolContext,
    height: Option<u32>,
    wallet_status: Option<WalletStatus>,
    read_only: bool,
) -> (r: Result<IterationStep, IterationError>)
    ensures
        is_iteration_outcome(r, *context, height, wallet_status, read_only),
{
    let current_height = match height {
        Some(current_height) => current_height,
        None => {
            return Err(IterationError::HeightUnavailable);
        },
    };
    let network_change_address = get_change_address_from_node(wallet_status)?;
    let pool_state = read_pool_state(context);
    let epoch_length = context.parameters.settings().epoch_length;
    let command = match process(pool_state, epoch_length, current_height) {
        Some(command) => command,
        None => {
            return Ok(IterationStep::Idle);
        },
    };
    let network = network_change_address.network;
    let ghost text = network_change_address.address@;
    let built = build_action(command, context, current_height, network_change_address.address);
    let ghost built_then = built;
    let step = match log_and_continue_if_non_fatal(network, built) {
        Ok(Handled::Proceed(action)) => if read_only {
            Ok(IterationStep::Built(action))
        } else {
            Ok(IterationStep::Execute(action))
        },
        Ok(Handled::Logged(report)) => Ok(IterationStep::Logged(report)),
        Err(e) => Err(IterationError::PoolCommand(e)),
    };
    assert(is_step_outcome(step, network_of_address_text(text)->0, built_then, read_only));
    step
}

/// What is known at launch for the log.
#[derive(Debug, PartialEq, Eq)]
pub struct LaunchReport {
    pub app_version: String,
    /// The local operator's address; `None` where no configuration was read,
    /// or where its key is no group element.
    pub oracle_address: Option<String>,
}

/// What is logged at launch: the version and, where the configuration was
/// read, the local operator's address.
pub fn log_on_launch(app_version: String, oracle: Option<(NetworkPrefix, PublicKey)>) -> (report:
    LaunchReport)
    ensures
        report.app_version@ == app_version@,
        address_text(report.oracle_address) == match oracle {
            Some((network, key)) => p2pk_address_text(network, key.bytes@),
            None => None,
        },
{
    let oracle_address = match oracle {
        Some((network, key)) => match p2pk_address_to_base58(network, &key) {
            Ok(text) => Some(text),
            Err(_) => None,
        },
        None => None,
    };
    LaunchReport { app_version, oracle_address }
}

/// The action that a step hands to the loop for submission, if any.
pub open spec fn submitted_action(step: IterationStep) -> Option<PoolAction> {
    match step {
        IterationStep::Execute(action) => Some(action),
        _ => None,
    }
}

/// An iteration in which a refresh is due and too few datapoints qualify
/// ends with the report of the consensus failure, and submits nothing.
pub proof fn lemma_failed_consensus_is_waited_out(
    r: Result<IterationStep, IterationError>,
    context: PoolContext,
    height: u32,
    wallet_status: Option<WalletStatus>,
    read_only: bool,
)
    requires
        is_iteration_outcome(r, context, Some(height), wallet_status, read_only),
        change_address_error(wallet_status) is None,
        due_command(pool_state_of(context), context.parameters@.epoch_length, height) == Some(
            crate::state::EpochCommand::Refresh,
        ),
        !crate::refresh::consensus_reached(
            context.parameters@,
            context.datapoint_boxes@,
            context.pool_box->0.epoch_start_height,
            height,
        ),
    ensures
        r matches Ok(IterationStep::Logged(NonFatalReport::ConsensusNotReached { expected, found_num, .. }))
            && expected == context.parameters@.min_data_points && found_num
            == crate::refresh::qualifying_datapoints(
            context.parameters@,
            context.datapoint_boxes@,
            context.pool_box->0.epoch_start_height,
            height,
        ).len(),
        submitted_action(r->Ok_0) is None,
{
    let text = wallet_status->0.change_address->0@;
    let built = choose|built: Result<PoolAction, PoolCommandError>|
        {
            &&& is_build_outcome(built, crate::state::EpochCommand::Refresh, context, height, text)
            &&& #[trigger] is_step_outcome(
                r,
                network_of_address_text(text)->0,
                built,
                read_only,
            )
        };
    crate::pool_commands::lemma_refresh_needs_consensus(
        built,
        context,
        context.pool_box->0,
        height,
        text,
    );
}

/// An iteration in which a datapoint is due and the datapoint source gave no
/// value ends with the report of that failure, and submits nothing: no box is
/// spent.
pub proof fn lemma_failed_source_is_waited_out(
    r: Result<IterationStep, IterationError>,
    context: PoolContext,
    height: u32,
    wallet_status: Option<WalletStatus>,
    read_only: bool,
)
    requires
        is_iteration_outcome(r, context, Some(height), wallet_status, read_only),
        change_address_error(wallet_status) is None,
        due_command(pool_state_of(context), context.parameters@.epoch_length, height) == Some(
            crate::state::EpochCommand::PublishDatapoint,
        ),
        context.datapoint_source is Err,
    ensures
        r matches Ok(IterationStep::Logged(NonFatalReport::DatapointSourceFailed { message }))
            && message@ == context.datapoint_source->Err_0.message@,
        submitted_action(r->Ok_0) is None,
{
}

/// A read-only iteration submits nothing.
pub proof fn lemma_read_only_submits_nothing(
    r: Result<IterationStep, IterationError>,
    context: PoolContext,
    height: Option<u32>,
    wallet_status: Option<WalletStatus>,
)
    requires
        is_iteration_outcome(r, context, height, wallet_status, true),
    ensures
        r matches Ok(step) ==> submitted_action(step) is None,
{
}

} // verus!
