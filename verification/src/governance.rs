//! Governance: voting for new pool parameters, ratifying a vote, and preparing
//! an update. Each builder checks that what was proposed is well formed before
//! it describes a transaction.

use crate::chain::{
    digest32_from_base16, digest_of_text, is_digest_text, token_amount_from_raw, Digest32,
    PublicKey,
};
use crate::refresh::{RefreshParameters, RefreshSettings, SettingsError};
use crate::sequences::lemma_filter_next;
use crate::state::BoxRef;
use vstd::prelude::*;

verus! {

/// A reward token as an operator writes it: the token id in base16.
#[derive(Clone, Debug, PartialEq, Eq)]
pub struct RewardTokenText {
    pub token_id: String,
    pub amount: u64,
}

/// A reward token: its id and an amount.
#[derive(Clone, Copy, Debug, PartialEq, Eq)]
pub struct RewardToken {
    pub token_id: Digest32,
    pub amount: u64,
}

/// Why a proposal was turned down before anything was built.
#[derive(Clone, Copy, Debug, PartialEq, Eq, Structural)]
pub enum ValidationError {
    /// The pool box hash is not 64 base16 digits.
    MalformedPoolBoxHash,
    /// The reward token id is not 64 base16 digits.
    MalformedRewardTokenId,
    /// The reward token amount is zero or above `i64::MAX`.
    RewardTokenAmountOutOfRange,
    /// An update was asked for without the hash of the new pool box.
    MissingPoolBoxHash,
    /// The new refresh settings are not valid.
    InvalidSettings(SettingsError),
}

/// The amounts of a token that a box can hold.
pub open spec fn is_token_amount(amount: u64) -> bool {
    1 <= amount <= i64::MAX
}

/// Whether two digests hold the same bytes.
pub fn digests_equal(a: &Digest32, b: &Digest32) -> (same: bool)
    ensures
        same == (*a == *b),
{
    let mut i: usize = 0;
    while i < 32
        invariant
            i <= 32,
            forall|j: int| 0 <= j < i ==> a.bytes@[j] == b.bytes@[j],
        decreases 32 - i,
    {
        if a.bytes[i] != b.bytes[i] {
            return false;
        }
        i += 1;
    }
    assert(a.bytes@ =~= b.bytes@);
    assert(a.bytes == b.bytes);
    true
}

/// Reads the hash of a pool box contract from base16.
pub fn parse_pool_box_hash(text: &str) -> (r: Result<Digest32, ValidationError>)
    ensures
        r is Ok <==> is_digest_text(text@),
        r matches Ok(hash) ==> digest_of_text(text@, hash),
        r matches Err(e) ==> e == ValidationError::MalformedPoolBoxHash,
{
    match digest32_from_base16(text) {
        Ok(hash) => Ok(hash),
        Err(_) => Err(ValidationError::MalformedPoolBoxHash),
    }
}

/// What `parse_reward_token` returns: the id is checked first, then the
/// amount.
pub open spec fn is_reward_token_outcome(
    r: Result<RewardToken, ValidationError>,
    token_id: Seq<char>,
    amount: u64,
) -> bool {
    if !is_digest_text(token_id) {
        r == Err::<RewardToken, _>(ValidationError::MalformedRewardTokenId)
    } else if !is_token_amount(amount) {
        r == Err::<RewardToken, _>(ValidationError::RewardTokenAmountOutOfRange)
    } else {
        &&& r matches Ok(token)
        &&& digest_of_text(token_id, token.token_id)
        &&& token.amount == amount
    }
}

/// Reads a reward token: the id from base16, the amount within the ledger's
/// bounds for tokens.
pub fn parse_reward_token(token_id: &str, amount: u64) -> (r: Result<RewardToken, ValidationError>)
    ensures
        is_reward_token_outcome(r, token_id@, amount),
{
    let id = match digest32_from_base16(token_id) {
        Ok(id) => id,
        Err(_) => {
            return Err(ValidationError::MalformedRewardTokenId);
        },
    };
    match token_amount_from_raw(amount) {
        Ok(checked) => Ok(RewardToken { token_id: id, amount: checked }),
        Err(_) => Err(ValidationError::RewardTokenAmountOutOfRange),
    }
}

/// One operator's vote for new pool parameters, as its ballot box holds it.
#[derive(Clone, Copy, Debug, PartialEq, Eq)]
pub struct Ballot {
    pub box_ref: BoxRef,
    pub voter: PublicKey,
    pub pool_box_hash: Digest32,
    pub reward_token: RewardToken,
    /// Creation height of the update box that the vote is for.
    pub update_box_creation_height: u32,
}

/// The update box: the authority that an update of the pool spends.
#[derive(Clone, Copy, Debug, PartialEq, Eq)]
pub struct UpdateBox {
    pub box_ref: BoxRef,
    pub creation_height: u32,
}

/// What an operator gives to vote for an update.
#[derive(Clone, Debug, PartialEq, Eq)]
pub struct VoteParameters {
    /// Hash of the new pool box contract, in base16.
    pub new_pool_box_address_hash_str: String,
    /// Id of the reward token of the new pool box, in base16.
    pub reward_token_id_str: String,
    pub reward_token_amount: u32,
    pub update_box_creation_height: u32,
}

/// What an operator gives to ratify an update.
#[derive(Clone, Debug, PartialEq, Eq)]
pub struct UpdateParameters {
    /// Hash of the new pool box contract, in base16.
    pub new_pool_box_hash: Option<String>,
    /// The new reward token, where the vote was for one.
    pub new_reward_token: Option<RewardToken>,
}

/// What an operator gives to prepare an update.
#[derive(Clone, Debug, PartialEq, Eq)]
pub struct PrepareUpdateParameters {
    pub new_settings: RefreshSettings,
    /// The reward token to mint for the new pool box, if any.
    pub new_reward_token: Option<RewardTokenText>,
}

/// A vote: the ballot box it replaces, if the operator has one, and what the
/// new ballot says.
#[derive(Debug, PartialEq, Eq)]
pub struct VoteUpdatePoolAction {
    pub spent_ballot_box: Option<BoxRef>,
    pub voter: PublicKey,
    pub new_pool_box_hash: Digest32,
    pub reward_token: RewardToken,
    pub update_box_creation_height: u32,
    pub change_address: String,
}

/// An update of the pool: the boxes it spends and the parameters of the new
/// pool box.
#[derive(Debug, PartialEq, Eq)]
pub struct UpdatePoolAction {
    pub pool_box_in: BoxRef,
    pub update_box_in: BoxRef,
    /// The ballot boxes that vote for this update.
    pub ballot_inputs: Vec<BoxRef>,
    pub new_pool_box_hash: Digest32,
    pub new_reward_token: Option<RewardToken>,
    pub change_address: String,
}

/// The preparation of an update: the checked parameters of the new refresh
/// box and the reward token to mint.
#[derive(Debug, PartialEq, Eq)]
pub struct PrepareUpdateAction {
    pub new_parameters: RefreshParameters,
    pub new_reward_token: Option<RewardToken>,
    pub change_address: String,
}

/// What `build_vote_update_pool_action` returns: the hash is checked first,
/// then the reward token.
pub open spec fn is_vote_outcome(
    r: Result<VoteUpdatePoolAction, ValidationError>,
    parameters: VoteParameters,
    local_ballot_box: Option<Ballot>,
    voter: PublicKey,
    change_address: Seq<char>,
) -> bool {
    if !is_digest_text(parameters.new_pool_box_address_hash_str@) {
        r matches Err(ValidationError::MalformedPoolBoxHash)
    } else if !is_digest_text(parameters.reward_token_id_str@) {
        r matches Err(ValidationError::MalformedRewardTokenId)
    } else if parameters.reward_token_amount == 0 {
        r matches Err(ValidationError::RewardTokenAmountOutOfRange)
    } else {
        &&& r matches Ok(action)
        &&& action.spent_ballot_box == match local_ballot_box {
            Some(ballot) => Some(ballot.box_ref),
            None => None,
        }
        &&& action.voter == voter
        &&& digest_of_text(parameters.new_pool_box_address_hash_str@, action.new_pool_box_hash)
        &&& digest_of_text(parameters.reward_token_id_str@, action.reward_token.token_id)
        &&& action.reward_token.amount == parameters.reward_token_amount
        &&& action.update_box_creation_height == parameters.update_box_creation_height
        &&& action.change_address@ == change_address
    }
}

/// Builds the local operator's vote for an update of the pool.
pub fn build_vote_update_pool_action(
    parameters: &VoteParameters,
    local_ballot_box: Option<Ballot>,
    voter: PublicKey,
    change_address: String,
) -> (r: Result<VoteUpdatePoolAction, ValidationError>)
    ensures
        is_vote_outcome(r, *parameters, local_ballot_box, voter, change_address@),
{
    let new_pool_box_hash = parse_pool_box_hash(parameters.new_pool_box_address_hash_str.as_str())?;
    let reward_token = parse_reward_token(
        parameters.reward_token_id_str.as_str(),
        parameters.reward_token_amount as u64,
    )?;
    let spent_ballot_box = match local_ballot_box {
        Some(ballot) => Some(ballot.box_ref),
        None => None,
    };
    Ok(
        VoteUpdatePoolAction {
            spent_ballot_box,
            voter,
            new_pool_box_hash,
            reward_token,
            update_box_creation_height: parameters.update_box_creation_height,
            change_address,
        },
    )
}

/// The ballot votes for the update box created at `update_box_creation_height`
/// to install the pool box with `pool_box_hash`, and for `reward_token` where
/// one is proposed.
pub open spec fn votes_for(
    ballot: Ballot,
    pool_box_hash: Digest32,
    reward_token: Option<RewardToken>,
    update_box_creation_height: u32,
) -> bool {
    &&& ballot.pool_box_hash == pool_box_hash
    &&& ballot.update_box_creation_height == update_box_creation_height
    &&& reward_token matches Some(token) ==> ballot.reward_token == token
}

/// The predicate that keeps the ballots that vote for an update.
pub open spec fn voting_for(
    pool_box_hash: Digest32,
    reward_token: Option<RewardToken>,
    update_box_creation_height: u32,
) -> spec_fn(Ballot) -> bool {
    |ballot: Ballot| votes_for(ballot, pool_box_hash, reward_token, update_box_creation_height)
}

/// The box references of the ballots, in order.
pub open spec fn ballot_refs_of(ballots: Seq<Ballot>) -> Seq<BoxRef> {
    Seq::new(ballots.len(), |i: int| ballots[i].box_ref)
}

/// Whether the ballot votes for the update.
pub fn ballot_votes_for(
    ballot: &Ballot,
    pool_box_hash: &Digest32,
    reward_token: &Option<RewardToken>,
    update_box_creation_height: u32,
) -> (votes: bool)
    ensures
        votes == votes_for(*ballot, *pool_box_hash, *reward_token, update_box_creation_height),
{
    if !digests_equal(&ballot.pool_box_hash, pool_box_hash) {
        return false;
    }
    if ballot.update_box_creation_height != update_box_creation_height {
        return false;
    }
    match reward_token {
        Some(token) => digests_equal(&ballot.reward_token.token_id, &token.token_id)
            && ballot.reward_token.amount == token.amount,
        None => true,
    }
}

/// The boxes of the ballots that vote for the update, in the order in which
/// the ballots were given.
pub fn collect_votes(
    ballots: &Vec<Ballot>,
    pool_box_hash: &Digest32,
    reward_token: &Option<RewardToken>,
    update_box_creation_height: u32,
) -> (refs: Vec<BoxRef>)
    ensures
        refs@ == ballot_refs_of(
            ballots@.filter(voting_for(*pool_box_hash, *reward_token, update_box_creation_height)),
        ),
{
    let ghost pred = voting_for(*pool_box_hash, *reward_token, update_box_creation_height);
    let mut refs: Vec<BoxRef> = Vec::new();
    let mut i: usize = 0;
    proof {
        reveal(Seq::filter);
        assert(ballots@.take(0).len() == 0);
        assert(refs@ =~= ballot_refs_of(ballots@.take(0).filter(pred)));
    }
    while i < ballots.len()
        invariant
            i <= ballots.len(),
            pred == voting_for(*pool_box_hash, *reward_token, update_box_creation_height),
            refs@ == ballot_refs_of(ballots@.take(i as int).filter(pred)),
        decreases ballots.len() - i,
    {
        let ballot = ballots[i];
        proof {
            lemma_filter_next(ballots@, pred, i as int);
        }
        if ballot_votes_for(&ballot, pool_box_hash, reward_token, update_box_creation_height) {
            refs.push(ballot.box_ref);
        }
        i += 1;
        assert(refs@ =~= ballot_refs_of(ballots@.take(i as int).filter(pred)));
    }
    proof {
        assert(ballots@.take(i as int) =~= ballots@);
    }
    refs
}

/// The error, if any, that an optional reward token is turned down with.
pub open spec fn reward_token_error(text: Option<RewardTokenText>) -> Option<ValidationError> {
    match text {
        None => None,
        Some(text) => if !is_digest_text(text.token_id@) {
            Some(ValidationError::MalformedRewardTokenId)
        } else if !is_token_amount(text.amount) {
            Some(ValidationError::RewardTokenAmountOutOfRange)
        } else {
            None
        },
    }
}

/// `token` is what the well-formed `text` stands for.
pub open spec fn is_reward_token_of(text: Option<RewardTokenText>, token: Option<RewardToken>) -> bool {
    match text {
        None => token is None,
        Some(text) => {
            &&& token matches Some(token)
            &&& digest_of_text(text.token_id@, token.token_id)
            &&& token.amount == text.amount
        },
    }
}

/// Reads a reward token where one is given.
pub fn parse_optional_reward_token(text: &Option<RewardTokenText>) -> (r: Result<
    Option<RewardToken>,
    ValidationError,
>)
    ensures
        match reward_token_error(*text) {
            Some(e) => r == Err::<Option<RewardToken>, _>(e),
            None => r is Ok && is_reward_token_of(*text, r->Ok_0),
        },
{
    match text {
        None => Ok(None),
        Some(text) => {
            let token = parse_reward_token(text.token_id.as_str(), text.amount)?;
            Ok(Some(token))
        },
    }
}

/// The parameters of an update, read and checked.
#[derive(Clone, Copy, Debug, PartialEq, Eq)]
pub struct CheckedUpdate {
    pub new_pool_box_hash: Digest32,
    pub new_reward_token: Option<RewardToken>,
}

/// The error, if any, that the parameters of an update are turned down with:
/// the hash must be there and well formed, then the amount of the reward
/// token, where one is given, within the ledger's bounds.
pub open spec fn update_parameters_error(parameters: UpdateParameters) -> Option<ValidationError> {
    match parameters.new_pool_box_hash {
        None => Some(ValidationError::MissingPoolBoxHash),
        Some(hash_text) => if !is_digest_text(hash_text@) {
            Some(ValidationError::MalformedPoolBoxHash)
        } else {
            match parameters.new_reward_token {
                Some(token) => if is_token_amount(token.amount) {
                    None
                } else {
                    Some(ValidationError::RewardTokenAmountOutOfRange)
                },
                None => None,
            }
        },
    }
}

/// `checked` is what the well-formed `parameters` stand for.
pub open spec fn is_checked_update(parameters: UpdateParameters, checked: CheckedUpdate) -> bool {
    &&& parameters.new_pool_box_hash matches Some(hash_text)
    &&& digest_of_text(hash_text@, checked.new_pool_box_hash)
    &&& checked.new_reward_token == parameters.new_reward_token
}

/// Reads and checks the parameters of an update.
pub fn check_update_parameters(parameters: &UpdateParameters) -> (r: Result<
    CheckedUpdate,
    ValidationError,
>)
    ensures
        match update_parameters_error(*parameters) {
            Some(e) => r == Err::<CheckedUpdate, _>(e),
            None => r is Ok && is_checked_update(*parameters, r->Ok_0),
        },
{
    let new_pool_box_hash = match &parameters.new_pool_box_hash {
        None => {
            return Err(ValidationError::MissingPoolBoxHash);
        },
        Some(hash_text) => parse_pool_box_hash(hash_text.as_str())?,
    };
    match parameters.new_reward_token {
        Some(token) => {
            if token_amount_from_raw(token.amount).is_err() {
                return Err(ValidationError::RewardTokenAmountOutOfRange);
            }
        },
        None => {},
    }
    Ok(CheckedUpdate { new_pool_box_hash, new_reward_token: parameters.new_reward_token })
}

/// What `build_update_pool_action` returns.
pub open spec fn is_update_outcome(
    r: Result<UpdatePoolAction, ValidationError>,
    parameters: UpdateParameters,
    pool_box: BoxRef,
    update_box: UpdateBox,
    ballots: Seq<Ballot>,
    change_address: Seq<char>,
) -> bool {
    match update_parameters_error(parameters) {
        Some(e) => r matches Err(found) && found == e,
        None => {
            &&& r matches Ok(action)
            &&& action.pool_box_in == pool_box
            &&& action.update_box_in == update_box.box_ref
            &&& is_checked_update(
                parameters,
                CheckedUpdate {
                    new_pool_box_hash: action.new_pool_box_hash,
                    new_reward_token: action.new_reward_token,
                },
            )
            &&& action.ballot_inputs@ == ballot_refs_of(
                ballots.filter(
                    voting_for(
                        action.new_pool_box_hash,
                        action.new_reward_token,
                        update_box.creation_height,
                    ),
                ),
            )
            &&& action.change_address@ == change_address
        },
    }
}

/// Builds the update of the pool: spends the pool box, the update box and the
/// ballot boxes that vote for the proposed parameters.
pub fn build_update_pool_action(
    parameters: &UpdateParameters,
    pool_box: BoxRef,
    update_box: UpdateBox,
    ballots: &Vec<Ballot>,
    change_address: String,
) -> (r: Result<UpdatePoolAction, ValidationError>)
    ensures
        is_update_outcome(r, *parameters, pool_box, update_box, ballots@, change_address@),
{
    let checked = check_update_parameters(parameters)?;
    let ballot_inputs = collect_votes(
        ballots,
        &checked.new_pool_box_hash,
        &checked.new_reward_token,
        update_box.creation_height,
    );
    Ok(
        UpdatePoolAction {
            pool_box_in: pool_box,
            update_box_in: update_box.box_ref,
            ballot_inputs,
            new_pool_box_hash: checked.new_pool_box_hash,
            new_reward_token: checked.new_reward_token,
            change_address,
        },
    )
}

/// The error, if any, that settings are turned down with.
pub open spec fn settings_error(settings: RefreshSettings) -> Option<SettingsError> {
    if settings.epoch_length == 0 {
        Some(SettingsError::ZeroEpochLength)
    } else if settings.min_data_points == 0 {
        Some(SettingsError::ZeroMinDataPoints)
    } else {
        None
    }
}

/// What `build_prepare_update_action` returns: the settings are checked
/// first, then the reward token where one is given.
pub open spec fn is_prepare_outcome(
    r: Result<PrepareUpdateAction, ValidationError>,
    parameters: PrepareUpdateParameters,
    change_address: Seq<char>,
) -> bool {
    match settings_error(parameters.new_settings) {
        Some(e) => r matches Err(ValidationError::InvalidSettings(found)) && found == e,
        None => match reward_token_error(parameters.new_reward_token) {
            Some(e) => r matches Err(found) && found == e,
            None => {
                &&& r matches Ok(action)
                &&& action.new_parameters@ == parameters.new_settings
                &&& is_reward_token_of(parameters.new_reward_token, action.new_reward_token)
                &&& action.change_address@ == change_address
            },
        },
    }
}

/// Builds the preparation of an update from new settings and, where new reward
/// tokens are to be minted, the new reward token.
pub fn build_prepare_update_action(
    parameters: &PrepareUpdateParameters,
    change_address: String,
) -> (r: Result<PrepareUpdateAction, ValidationError>)
    ensures
        is_prepare_outcome(r, *parameters, change_address@),
{
    let new_parameters = match RefreshParameters::new(parameters.new_settings) {
        Ok(checked) => checked,
        Err(e) => {
            return Err(ValidationError::InvalidSettings(e));
        },
    };
    let new_reward_token = parse_optional_reward_token(&parameters.new_reward_token)?;
    Ok(PrepareUpdateAction { new_parameters, new_reward_token, change_address })
}

} // verus!
