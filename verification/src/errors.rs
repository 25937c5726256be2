//! The errors that a pricing or lifecycle request can end in.

use vstd::prelude::*;

verus! {

/// Why a request was refused. Every error is terminal for the request that
/// raised it: nothing of the request takes effect.
#[derive(Clone, Copy, Debug, PartialEq, Eq, Structural)]
pub enum ProtocolError {
    /// The contract was exercised before.
    OptionAlreadyExercised,
    /// The request came after the contract's expiration.
    OptionExpired,
    /// The expiration asked for is not in the future.
    InvalidExpiration,
    /// The custody service reported a shortfall on a transfer.
    InsufficientFunds,
    /// A fixed-point operation overflowed, underflowed or divided by zero.
    ArithmeticFault,
    /// No escrow authority can be derived for the creator.
    EscrowAuthorityUnavailable,
}

impl ProtocolError {
    /// The text shown to a user for this error.
    pub open spec fn message_text(self) -> Seq<char> {
        match self {
            ProtocolError::OptionAlreadyExercised => "Option has already been exercised."@,
            ProtocolError::OptionExpired => "Option has expired."@,
            ProtocolError::InvalidExpiration => "Invalid expiration time."@,
            ProtocolError::InsufficientFunds => "Insufficient funds."@,
            ProtocolError::ArithmeticFault => "Arithmetic fault."@,
            ProtocolError::EscrowAuthorityUnavailable => "Escrow authority unavailable."@,
        }
    }

    /// Returns the text shown to a user for this error.
    pub fn message(&self) -> (text: String)
        ensures
            text@ == self.message_text(),
    {
        match self {
            ProtocolError::OptionAlreadyExercised => "Option has already been exercised.".to_owned(),
            ProtocolError::OptionExpired => "Option has expired.".to_owned(),
            ProtocolError::InvalidExpiration => "Invalid expiration time.".to_owned(),
            ProtocolError::InsufficientFunds => "Insufficient funds.".to_owned(),
            ProtocolError::ArithmeticFault => "Arithmetic fault.".to_owned(),
            ProtocolError::EscrowAuthorityUnavailable => "Escrow authority unavailable.".to_owned(),
        }
    }
}

} // verus!
