//! The records that the lifecycle works on, and the parties and accounts
//! that a request names.

use vstd::prelude::*;

verus! {

/// The identity of a party, an asset or an account: thirty-two bytes.
#[derive(Clone, Copy, Debug, PartialEq, Eq)]
pub struct Address {
    pub bytes: [u8; 32],
}

impl View for Address {
    type V = Seq<u8>;

    open spec fn view(&self) -> Seq<u8> {
        self.bytes@
    }
}

/// The administrative record: who holds the protocol.
#[derive(Clone, Copy, Debug, PartialEq, Eq)]
pub struct State {
    pub admin: Address,
}

/// One option contract. All of it is fixed at creation but `is_exercised`,
/// which goes from false to true once, on a successful exercise.
#[derive(Clone, Copy, Debug, PartialEq, Eq)]
pub struct OptionContract {
    /// The party that issued the contract and funded its escrow.
    pub creator: Address,
    /// The asset that the contract gives the right to acquire.
    pub underlying_asset_mint: Address,
    /// What the exerciser owes the creator, in units of the strike asset.
    pub strike_price: u64,
    /// The last moment at which the contract can be exercised.
    pub expiration: i64,
    /// Whether the contract has been exercised.
    pub is_exercised: bool,
    /// The premium computed at creation.
    pub option_price: u64,
    /// The quantity of the underlying asset held in escrow.
    pub amount: u64,
    /// The bump seed of the escrow authority derived for the creator.
    pub bump: u8,
}

/// Where a contract stands at a given time.
#[derive(Clone, Copy, Debug, PartialEq, Eq, Structural)]
pub enum OptionStatus {
    /// Created, not exercised, not past its expiration.
    Active,
    /// Exercised: the terminal state.
    Exercised,
    /// Not exercised and past its expiration. This is not stored: it follows
    /// from the time of the request.
    Expired,
}

impl OptionContract {
    /// The status of the contract at time `now`.
    pub open spec fn status_at(self, now: i64) -> OptionStatus {
        if self.is_exercised {
            OptionStatus::Exercised
        } else if now > self.expiration {
            OptionStatus::Expired
        } else {
            OptionStatus::Active
        }
    }

    /// Computes the status of the contract at time `now`.
    pub fn status(&self, now: i64) -> (status: OptionStatus)
        ensures
            status == self.status_at(now),
    {
        if self.is_exercised {
            OptionStatus::Exercised
        } else if now > self.expiration {
            OptionStatus::Expired
        } else {
            OptionStatus::Active
        }
    }
}

/// What a creation request asks for.
#[derive(Clone, Copy, Debug, PartialEq, Eq)]
pub struct OptionParams {
    pub underlying_asset_mint: Address,
    pub strike_asset_mint: Address,
    pub strike_price: u64,
    pub expiration: i64,
    /// The spot price of the underlying asset.
    pub current_price: u64,
    /// The risk-free rate, in fixed point.
    pub risk_free_rate: u64,
    /// The volatility, in fixed point.
    pub volatility: u64,
    /// The quantity of the underlying asset to put in escrow.
    pub amount: u64,
}

/// What an exercise request asks for: nothing beyond the accounts it names.
#[derive(Clone, Copy, Debug, PartialEq, Eq)]
pub struct ExerciseParams {
}

/// The parties of an initialisation request.
#[derive(Clone, Copy, Debug, PartialEq, Eq)]
pub struct Initialize {
    pub admin: Address,
}

/// The parties and accounts of a creation request.
#[derive(Clone, Copy, Debug, PartialEq, Eq)]
pub struct CreateOption {
    /// The program under which escrow authorities are derived.
    pub program_id: Address,
    pub creator: Address,
    /// The creator's holding of the underlying asset.
    pub creator_underlying_account: Address,
    /// The escrow that will hold the underlying asset.
    pub option_underlying_account: Address,
}

/// The parties and accounts of an exercise request, with the contract.
#[derive(Clone, Copy, Debug, PartialEq, Eq)]
pub struct ExerciseOption {
    pub exerciser: Address,
    /// The address under which the contract is kept: its escrow authority.
    pub option_contract_address: Address,
    pub option_contract: OptionContract,
    /// The creator's holding of the strike asset.
    pub creator_strike_account: Address,
    /// The exerciser's holding of the strike asset.
    pub exerciser_strike_account: Address,
    /// The escrow that holds the underlying asset.
    pub option_underlying_account: Address,
    /// The exerciser's holding of the underlying asset.
    pub exerciser_underlying_account: Address,
}

/// Who authorises a transfer.
#[derive(Clone, Copy, Debug, PartialEq, Eq)]
pub enum Authority {
    /// The named party, by its own signature.
    Holder(Address),
    /// The contract kept at `account`, by the escrow authority derived for
    /// `creator` with `bump`. It is good only for transfers out of that
    /// contract's escrow.
    Escrow { account: Address, creator: Address, bump: u8 },
}

/// A transfer that the custody service is asked to make.
#[derive(Clone, Copy, Debug, PartialEq, Eq)]
pub struct TransferRequest {
    pub from: Address,
    pub to: Address,
    pub amount: u64,
    pub authority: Authority,
}

/// How a requested transfer ended.
#[derive(Clone, Copy, Debug, PartialEq, Eq, Structural)]
pub enum TransferOutcome {
    Completed,
    Failed,
}

} // verus!
