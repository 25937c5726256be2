//! The lifecycle of an option contract: issuance, and the exercise that
//! moves the consideration to the creator and the escrow to the exerciser.
//!
//! The custody service and the clock stand outside. A request is given the
//! clock's reading, and answers with the transfers that the custody service
//! is to make. An exercise takes two transfers: the caller makes each one,
//! reports how it ended, and is told what comes next. Only when both are
//! made is the contract marked as exercised.
//!
//! An accepted exercise is carried by a [`PendingExercise`], which holds the
//! clock's reading and the transfer that is awaited. Only an accepted
//! request gives one, only the report of a completed first transfer moves it
//! to the second, and every report is held against the contract again.

use vstd::prelude::*;
use crate::accounts::{
    Authority, CreateOption, ExerciseOption, ExerciseParams, Initialize, OptionContract,
    OptionParams, OptionStatus, State, TransferOutcome, TransferRequest, Address,
};
use crate::errors::ProtocolError;
use crate::escrow::{derive_escrow_authority, escrow_authority};
use crate::math::{black_scholes_approx, black_scholes_spec};

verus! {

/// A contract as issued, with where it is kept and the deposit that funds
/// its escrow. The contract stands only once the deposit has been made.
#[derive(Clone, Copy, Debug, PartialEq, Eq)]
pub struct Issuance {
    pub contract: OptionContract,
    /// The address under which the contract is kept: its escrow authority.
    pub contract_address: Address,
    /// The transfer of the underlying asset from the creator into escrow.
    pub deposit: TransferRequest,
}

/// The transfer of an exercise whose outcome is reported.
#[derive(Clone, Copy, Debug, PartialEq, Eq, Structural)]
pub enum ExerciseLeg {
    /// The strike price, from the exerciser to the creator.
    Consideration,
    /// The underlying asset, from escrow to the exerciser.
    Release,
}

/// An exercise that was accepted and is under way: when it was accepted,
/// and which of its two transfers is awaited. Its fields are private: one
/// comes only from [`exercise_option`], and moves on only through
/// [`settle_exercise_leg`], which consumes it.
#[derive(Debug, PartialEq, Eq)]
pub struct PendingExercise {
    accepted_at: i64,
    awaiting: ExerciseLeg,
}

impl PendingExercise {
    /// The clock's reading at which the exercise was accepted.
    pub closed spec fn accepted_at(self) -> i64 {
        self.accepted_at
    }

    /// The transfer whose outcome is awaited.
    pub closed spec fn awaiting(self) -> ExerciseLeg {
        self.awaiting
    }

    /// The exercise as accepted at `now`: it awaits the consideration.
    pub closed spec fn opened(now: i64) -> PendingExercise {
        PendingExercise { accepted_at: now, awaiting: ExerciseLeg::Consideration }
    }

    /// The exercise after its consideration was paid: it awaits the release.
    pub closed spec fn advanced(self) -> PendingExercise {
        PendingExercise { accepted_at: self.accepted_at, awaiting: ExerciseLeg::Release }
    }

    /// What a pending exercise holds when it is opened and when it moves on,
    /// and that it holds nothing else.
    pub proof fn lemma_stages(self, now: i64, other: PendingExercise)
        ensures
            Self::opened(now).accepted_at() == now,
            Self::opened(now).awaiting() == ExerciseLeg::Consideration,
            self.advanced().accepted_at() == self.accepted_at(),
            self.advanced().awaiting() == ExerciseLeg::Release,
            self.accepted_at() == other.accepted_at() && self.awaiting() == other.awaiting()
                ==> self == other,
    {
    }

    /// Returns the clock's reading at which the exercise was accepted.
    pub fn accepted_time(&self) -> (at: i64)
        ensures
            at == self.accepted_at(),
    {
        self.accepted_at
    }

    /// Returns the transfer whose outcome is awaited.
    pub fn awaited_leg(&self) -> (leg: ExerciseLeg)
        ensures
            leg == self.awaiting(),
    {
        self.awaiting
    }
}

/// What the caller of an exercise is to do next.
#[derive(Debug, PartialEq, Eq)]
pub enum ExerciseStep {
    /// Ask the custody service for this transfer and report its outcome
    /// with the pending exercise given here.
    Transfer(TransferRequest, PendingExercise),
    /// Both transfers are made and the contract is exercised: keep all of it.
    Commit,
    /// The exercise has failed: nothing of it may take effect.
    Abort(ProtocolError),
}

/// The time from `now` to `expiration` in seconds, for an expiration that
/// lies in the future.
pub open spec fn time_to_expiry(expiration: i64, now: i64) -> u64 {
    (expiration - now) as u64
}

/// The deposit that funds the escrow of a new contract.
pub open spec fn deposit_request(ctx: CreateOption, params: OptionParams) -> TransferRequest {
    TransferRequest {
        from: ctx.creator_underlying_account,
        to: ctx.option_underlying_account,
        amount: params.amount,
        authority: Authority::Holder(ctx.creator),
    }
}

/// What a creation request gives when the escrow authority derived for the
/// creator is `authority`.
pub open spec fn issue_option_spec(
    ctx: CreateOption,
    params: OptionParams,
    now: i64,
    authority: Option<(Address, u8)>,
) -> Result<Issuance, ProtocolError> {
    if params.expiration <= now {
        Err(ProtocolError::InvalidExpiration)
    } else {
        match black_scholes_spec(
            params.current_price,
            params.strike_price,
            time_to_expiry(params.expiration, now),
            params.risk_free_rate,
            params.volatility,
        ) {
            Err(e) => Err(e),
            Ok(premium) => match authority {
                None => Err(ProtocolError::EscrowAuthorityUnavailable),
                Some((address, bump)) => Ok(
                    Issuance {
                        contract: OptionContract {
                            creator: ctx.creator,
                            underlying_asset_mint: params.underlying_asset_mint,
                            strike_price: params.strike_price,
                            expiration: params.expiration,
                            is_exercised: false,
                            option_price: premium,
                            amount: params.amount,
                            bump: bump,
                        },
                        contract_address: address,
                        deposit: deposit_request(ctx, params),
                    },
                ),
            },
        }
    }
}

/// What a creation request gives.
pub open spec fn create_option_spec(ctx: CreateOption, params: OptionParams, now: i64) -> Result<
    Issuance,
    ProtocolError,
> {
    issue_option_spec(ctx, params, now, escrow_authority(ctx.creator, ctx.program_id))
}

/// The first transfer of an exercise: the strike price, from the exerciser
/// to the creator, on the exerciser's own authority.
pub open spec fn consideration_request(ctx: ExerciseOption) -> TransferRequest {
    TransferRequest {
        from: ctx.exerciser_strike_account,
        to: ctx.creator_strike_account,
        amount: ctx.option_contract.strike_price,
        authority: Authority::Holder(ctx.exerciser),
    }
}

/// The second transfer of an exercise: the whole escrowed amount, from
/// escrow to the exerciser, on the contract's escrow authority.
pub open spec fn release_request(ctx: ExerciseOption) -> TransferRequest {
    TransferRequest {
        from: ctx.option_underlying_account,
        to: ctx.exerciser_underlying_account,
        amount: ctx.option_contract.amount,
        authority: Authority::Escrow {
            account: ctx.option_contract_address,
            creator: ctx.option_contract.creator,
            bump: ctx.option_contract.bump,
        },
    }
}

/// What an exercise request at time `now` gives. Past the expiration it is
/// refused as expired, whether or not the contract was exercised. Before
/// that an exercised contract is refused as such. Any other contract gives
/// the first transfer, with the exercise that is now pending.
pub open spec fn exercise_option_spec(ctx: ExerciseOption, now: i64) -> Result<
    (TransferRequest, PendingExercise),
    ProtocolError,
> {
    if now > ctx.option_contract.expiration {
        Err(ProtocolError::OptionExpired)
    } else if ctx.option_contract.is_exercised {
        Err(ProtocolError::OptionAlreadyExercised)
    } else {
        Ok((consideration_request(ctx), PendingExercise::opened(now)))
    }
}

/// The contract of `ctx` marked as exercised, all else unchanged.
pub open spec fn exercised(ctx: ExerciseOption) -> ExerciseOption {
    ExerciseOption {
        option_contract: OptionContract { is_exercised: true, ..ctx.option_contract },
        ..ctx
    }
}

/// The request after the outcome of the awaited transfer is reported, and
/// what the caller is to do next. The report is held against the contract
/// first, as the request was: an exercise accepted past the contract's
/// expiration is aborted as expired, and one on an exercised contract as
/// already exercised.
pub open spec fn settle_exercise_leg_spec(
    ctx: ExerciseOption,
    pending: PendingExercise,
    outcome: TransferOutcome,
) -> (ExerciseOption, ExerciseStep) {
    if pending.accepted_at() > ctx.option_contract.expiration {
        (ctx, ExerciseStep::Abort(ProtocolError::OptionExpired))
    } else if ctx.option_contract.is_exercised {
        (ctx, ExerciseStep::Abort(ProtocolError::OptionAlreadyExercised))
    } else if outcome == TransferOutcome::Failed {
        (ctx, ExerciseStep::Abort(ProtocolError::InsufficientFunds))
    } else if pending.awaiting() == ExerciseLeg::Consideration {
        (ctx, ExerciseStep::Transfer(release_request(ctx), pending.advanced()))
    } else {
        (exercised(ctx), ExerciseStep::Commit)
    }
}

/// Sets up the administrative record with `admin` as its holder.
pub fn initialize(ctx: &Initialize) -> (state: State)
    ensures
        state == (State { admin: ctx.admin }),
{
    State { admin: ctx.admin }
}

/// Issues a contract for which the escrow authority has been derived, or
/// found not to exist.
///
/// The expiration must lie after `now`. The premium is priced from the spot,
/// the strike, the time to expiry, the rate and the volatility.
pub fn issue_option(
    ctx: &CreateOption,
    params: &OptionParams,
    now: i64,
    authority: Option<(Address, u8)>,
) -> (res: Result<Issuance, ProtocolError>)
    ensures
        res == issue_option_spec(*ctx, *params, now, authority),
{
    if params.expiration <= now {
        return Err(ProtocolError::InvalidExpiration);
    }
    let t: u64 = (params.expiration as i128 - now as i128) as u64;
    let option_price = match black_scholes_approx(
        params.current_price,
        params.strike_price,
        t,
        params.risk_free_rate,
        params.volatility,
    ) {
        Ok(premium) => premium,
        Err(e) => {
            return Err(e);
        },
    };
    let (contract_address, bump) = match authority {
        Some(found) => found,
        None => {
            return Err(ProtocolError::EscrowAuthorityUnavailable);
        },
    };
    let contract = OptionContract {
        creator: ctx.creator,
        underlying_asset_mint: params.underlying_asset_mint,
        strike_price: params.strike_price,
        expiration: params.expiration,
        is_exercised: false,
        option_price,
        amount: params.amount,
        bump,
    };
    let deposit = TransferRequest {
        from: ctx.creator_underlying_account,
        to: ctx.option_underlying_account,
        amount: params.amount,
        authority: Authority::Holder(ctx.creator),
    };
    Ok(Issuance { contract, contract_address, deposit })
}

/// Issues a contract at time `now`: derives the creator's escrow authority,
/// prices the premium, and names the deposit that funds the escrow.
///
/// The contract and the deposit stand or fall together: the caller keeps the
/// contract only if the custody service makes the deposit.
pub fn create_option(ctx: &CreateOption, params: &OptionParams, now: i64) -> (res: Result<
    Issuance,
    ProtocolError,
>)
    ensures
        res == create_option_spec(*ctx, *params, now),
{
    let authority = derive_escrow_authority(&ctx.creator, &ctx.program_id);
    issue_option(ctx, params, now, authority)
}

/// Opens an exercise at time `now`. Past the expiration the request is
/// refused as expired; before that an exercised contract is refused. Any
/// other contract gives the first transfer, the strike price from the
/// exerciser to the creator, and the pending exercise with which its
/// outcome is reported.
pub fn exercise_option(ctx: &ExerciseOption, _params: &ExerciseParams, now: i64) -> (res: Result<
    (TransferRequest, PendingExercise),
    ProtocolError,
>)
    ensures
        res == exercise_option_spec(*ctx, now),
{
    if now > ctx.option_contract.expiration {
        return Err(ProtocolError::OptionExpired);
    }
    if ctx.option_contract.is_exercised {
        return Err(ProtocolError::OptionAlreadyExercised);
    }
    let consideration = TransferRequest {
        from: ctx.exerciser_strike_account,
        to: ctx.creator_strike_account,
        amount: ctx.option_contract.strike_price,
        authority: Authority::Holder(ctx.exerciser),
    };
    Ok((consideration, PendingExercise { accepted_at: now, awaiting: ExerciseLeg::Consideration }))
}

/// Takes the outcome of the transfer that a pending exercise awaits, and
/// says what comes next. After the first transfer it names the second, the
/// release of the escrow to the exerciser. After the second it marks the
/// contract as exercised. A failed transfer ends the exercise and leaves
/// the contract as it was, and so does a contract that has expired by the
/// time the exercise was accepted, or that was exercised in the meantime.
pub fn settle_exercise_leg(
    ctx: &mut ExerciseOption,
    pending: PendingExercise,
    outcome: TransferOutcome,
) -> (step: ExerciseStep)
    ensures
        (*final(ctx), step) == settle_exercise_leg_spec(*old(ctx), pending, outcome),
{
    if pending.accepted_at > ctx.option_contract.expiration {
        return ExerciseStep::Abort(ProtocolError::OptionExpired);
    }
    if ctx.option_contract.is_exercised {
        return ExerciseStep::Abort(ProtocolError::OptionAlreadyExercised);
    }
    match outcome {
        TransferOutcome::Failed => ExerciseStep::Abort(ProtocolError::InsufficientFunds),
        TransferOutcome::Completed => match pending.awaiting {
            ExerciseLeg::Consideration => ExerciseStep::Transfer(
                TransferRequest {
                    from: ctx.option_underlying_account,
                    to: ctx.exerciser_underlying_account,
                    amount: ctx.option_contract.amount,
                    authority: Authority::Escrow {
                        account: ctx.option_contract_address,
                        creator: ctx.option_contract.creator,
                        bump: ctx.option_contract.bump,
                    },
                },
                PendingExercise { accepted_at: pending.accepted_at, awaiting: ExerciseLeg::Release },
            ),
            ExerciseLeg::Release => {
                ctx.option_contract.is_exercised = true;
                ExerciseStep::Commit
            },
        },
    }
}

/// A contract is exercised at most once. The report of a transfer commits
/// only on a contract that is not exercised and had not expired when the
/// exercise was accepted, only for a completed release, and it then marks
/// the contract as exercised; no report changes anything else of the
/// request, and none clears the mark. On a contract that is marked, every
/// further request and every further report is refused and changes nothing.
pub proof fn lemma_exercise_at_most_once(
    ctx: ExerciseOption,
    pending: PendingExercise,
    outcome: TransferOutcome,
    now: i64,
)
    ensures
        ({
            let (next, step) = settle_exercise_leg_spec(ctx, pending, outcome);
            &&& step == ExerciseStep::Commit <==> !ctx.option_contract.is_exercised
                && pending.accepted_at() <= ctx.option_contract.expiration && outcome
                == TransferOutcome::Completed && pending.awaiting() == ExerciseLeg::Release
            &&& step == ExerciseStep::Commit ==> next == exercised(ctx)
                && next.option_contract.is_exercised
            &&& step != ExerciseStep::Commit ==> next == ctx
            &&& ctx.option_contract.is_exercised ==> next.option_contract.is_exercised
            &&& next.option_contract.is_exercised ==> exercise_option_spec(next, now) is Err
            &&& next.option_contract.is_exercised ==> forall|p: PendingExercise, o: TransferOutcome|
                (#[trigger] settle_exercise_leg_spec(next, p, o)).0 == next
                    && settle_exercise_leg_spec(next, p, o).1 is Abort
        }),
{
}

/// After its expiration no request to exercise a contract is accepted: it
/// is refused as expired, whether or not the contract was exercised. A
/// request is accepted exactly for a contract that is active at that time.
/// And a report for an exercise accepted at a time past the contract's
/// expiration is aborted as expired and changes nothing.
pub proof fn lemma_expiration_gate(
    ctx: ExerciseOption,
    now: i64,
    pending: PendingExercise,
    outcome: TransferOutcome,
)
    ensures
        now > ctx.option_contract.expiration ==> exercise_option_spec(ctx, now) == Err::<
            (TransferRequest, PendingExercise),
            ProtocolError,
        >(ProtocolError::OptionExpired),
        exercise_option_spec(ctx, now) is Ok <==> ctx.option_contract.status_at(now)
            == OptionStatus::Active,
        exercise_option_spec(ctx, now) is Ok ==> exercise_option_spec(ctx, now)->Ok_0.1.accepted_at()
            == now && exercise_option_spec(ctx, now)->Ok_0.1.awaiting()
            == ExerciseLeg::Consideration,
        pending.accepted_at() > ctx.option_contract.expiration ==> settle_exercise_leg_spec(
            ctx,
            pending,
            outcome,
        ) == (ctx, ExerciseStep::Abort(ProtocolError::OptionExpired)),
{
}

/// If either transfer of an exercise fails, the exercise is aborted and the
/// request with its contract stays as it was: the contract is not marked.
pub proof fn lemma_failed_leg_changes_nothing(ctx: ExerciseOption, pending: PendingExercise)
    ensures
        settle_exercise_leg_spec(ctx, pending, TransferOutcome::Failed).0 == ctx,
        settle_exercise_leg_spec(ctx, pending, TransferOutcome::Failed).1 is Abort,
        !ctx.option_contract.is_exercised && pending.accepted_at()
            <= ctx.option_contract.expiration ==> settle_exercise_leg_spec(
            ctx,
            pending,
            TransferOutcome::Failed,
        ).1 == ExerciseStep::Abort(ProtocolError::InsufficientFunds),
{
}

/// The release is asked for only after the consideration was reported as
/// completed: a report names a further transfer only for a pending exercise
/// that awaits the consideration, that transfer is the release, and the
/// exercise it hands on awaits the release.
pub proof fn lemma_release_follows_consideration(
    ctx: ExerciseOption,
    pending: PendingExercise,
    outcome: TransferOutcome,
)
    ensures
        ({
            let step = settle_exercise_leg_spec(ctx, pending, outcome).1;
            &&& step is Transfer ==> pending.awaiting() == ExerciseLeg::Consideration && outcome
                == TransferOutcome::Completed
            &&& step is Transfer ==> step->Transfer_0 == release_request(ctx)
                && step->Transfer_1.awaiting() == ExerciseLeg::Release
                && step->Transfer_1.accepted_at() == pending.accepted_at()
        }),
{
}

/// A contract is issued active, and what was put in escrow at its creation
/// is what an exercise releases: the same amount, out of the account that
/// the deposit went into, on the authority of the address where the
/// contract is kept.
pub proof fn lemma_escrow_released_whole(
    create: CreateOption,
    params: OptionParams,
    now: i64,
    authority: Option<(Address, u8)>,
    exercise: ExerciseOption,
)
    requires
        issue_option_spec(create, params, now, authority) is Ok,
        exercise.option_contract == issue_option_spec(create, params, now, authority)->Ok_0.contract,
        exercise.option_contract_address == issue_option_spec(
            create,
            params,
            now,
            authority,
        )->Ok_0.contract_address,
        exercise.option_underlying_account == create.option_underlying_account,
    ensures
        ({
            let issuance = issue_option_spec(create, params, now, authority)->Ok_0;
            &&& issuance.contract.status_at(now) == OptionStatus::Active
            &&& issuance.deposit.amount == params.amount
            &&& issuance.contract.amount == params.amount
            &&& release_request(exercise).amount == issuance.deposit.amount
            &&& release_request(exercise).from == issuance.deposit.to
            &&& release_request(exercise).authority == (Authority::Escrow {
                account: issuance.contract_address,
                creator: create.creator,
                bump: issuance.contract.bump,
            })
        }),
{
}

} // verus!
