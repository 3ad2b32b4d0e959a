use vstd::prelude::*;

verus! {

/// Every way in which a game operation can be refused.
#[derive(Debug, Clone, Copy, PartialEq, Eq, Structural)]
pub enum ErrorCode {
    MinimumDeposit,
    NameTooLong,
    InvalidName,
    NameAlreadyTaken,
    UnauthorizedAdmin,
    NotFishOwner,
    FishAlreadyDead,
    CannotTransferToSelf,
    InsufficientFeedingAmount,
    InsufficientFunds,
    InsufficientVaultBalance,
    MathOverflow,
    PreyTooHeavy,
    HuntingOnCooldown,
    InvalidPrey,
    SlippageExceeded,
    MarkLimitExceeded,
    MarkTooEarly,
    MarkInactive,
    MarkWrongHunter,
    MarkWrongPrey,
    MarkExpired,
    MarkExclusivityActive,
    MarkAlreadyActive,
    ExitDuringStorm,
}

impl ErrorCode {
    /// The message shown to a player for this error.
    pub fn message(&self) -> (r: &'static str) {
        match self {
            ErrorCode::MinimumDeposit => "Minimum deposit is 0.01 SOL",
            ErrorCode::NameTooLong => "Name too long: maximum 32 characters",
            ErrorCode::InvalidName => "Invalid fish name",
            ErrorCode::NameAlreadyTaken => "Fish name is already taken",
            ErrorCode::UnauthorizedAdmin => "Unauthorized admin action",
            ErrorCode::NotFishOwner => "Caller is not the fish owner",
            ErrorCode::FishAlreadyDead => "Fish is already dead",
            ErrorCode::CannotTransferToSelf => "Cannot transfer fish to yourself",
            ErrorCode::InsufficientFeedingAmount => "Insufficient feeding amount",
            ErrorCode::InsufficientFunds => "Insufficient funds",
            ErrorCode::InsufficientVaultBalance => "Vault has insufficient balance",
            ErrorCode::MathOverflow => "Math overflow/underflow",
            ErrorCode::PreyTooHeavy => "Prey is too heavy",
            ErrorCode::HuntingOnCooldown => "Hunter is on hunting cooldown",
            ErrorCode::InvalidPrey => "Invalid prey",
            ErrorCode::SlippageExceeded => "Slippage exceeded: prey weight changed more than 5%",
            ErrorCode::MarkLimitExceeded => "Hunting mark limit exceeded (max 4 per ocean mode period)",
            ErrorCode::MarkTooEarly => "Too early to place hunting mark (must be within 3 hours of hunger)",
            ErrorCode::MarkInactive => "Hunting mark is inactive",
            ErrorCode::MarkWrongHunter => "Wrong hunter for this mark",
            ErrorCode::MarkWrongPrey => "Wrong prey for this mark",
            ErrorCode::MarkExpired => "Hunting mark has expired",
            ErrorCode::MarkExclusivityActive => "Mark exclusivity period active - only mark owner can hunt",
            ErrorCode::MarkAlreadyActive => "An active mark already exists for this prey",
            ErrorCode::ExitDuringStorm => "Cannot exit during storm",
        }
    }
}

} // verus!
