//! The records of the escrow, the accounts each instruction touches, and the
//! error and event surface.

use vstd::prelude::*;
use crate::address::Address;

verus! {

/// The side of the coin a bettor stakes on.
#[derive(Clone, Copy, Debug, PartialEq, Eq, Structural)]
pub enum BetType {
    Head,
    Tail,
}

/// The failure codes of the escrow.
#[derive(Clone, Copy, Debug, PartialEq, Eq, Structural)]
pub enum CoinFlipErrorCode {
    /// A stake of zero.
    AmountMustBeGreaterThanZero,
    /// A presented account is not the one derived from its seeds, or a
    /// receipt belongs to another bettor.
    OwnerMismatch,
    /// The pool record already exists.
    AlreadyInitialized,
    /// The paying account holds less than the amount to move.
    InsufficientFunds,
    /// The claim receipt does not exist.
    NotFound,
}

/// The pool: the escrow's singleton record.
#[derive(Clone, Copy, Debug, PartialEq, Eq)]
pub struct CoinFlip {
    /// The identity that created the pool.
    pub authority: Address,
    /// The bump seed of the pool's derived address.
    pub bump: u8,
    /// The reserve floor: the balance the pool keeps after any payout.
    pub minimum_tokens: u64,
}

/// A bettor's claim receipt.
#[derive(Clone, Copy, Debug, PartialEq, Eq)]
pub struct Claimant {
    /// Whether the latest bet was won.
    pub success: bool,
    /// The stake of the latest bet.
    pub amount: u64,
    /// The bump seed of the receipt's derived address.
    pub claimant_bump: u8,
    /// The bettor the receipt belongs to.
    pub claimant: Address,
}

/// An account's address with its native balance, in lamports.
#[derive(Clone, Copy, Debug, PartialEq, Eq)]
pub struct Wallet {
    pub key: Address,
    pub lamports: u64,
}

/// The arguments of `initialize_coin_flip`.
#[derive(Clone, Copy, Debug, PartialEq, Eq)]
pub struct CoinFlipArgs {
    /// The initial funding moved from the authority to the pool.
    pub amount: u64,
    /// The reserve floor of the pool.
    pub minimum_tokens: u64,
}

/// The arguments of `bet`.
#[derive(Clone, Copy, Debug, PartialEq, Eq)]
pub struct BetArgs {
    /// The stake.
    pub amount: u64,
    /// The side staked on.
    pub bet_type: BetType,
}

/// The arguments of `claim` (there are none).
#[derive(Clone, Copy, Debug, PartialEq, Eq)]
pub struct ClaimArgs {}

/// The accounts of `initialize_coin_flip`.
#[derive(Clone, Copy, Debug, PartialEq, Eq)]
pub struct InitializeCoinFlip {
    /// The pool record; `None` while it does not exist.
    pub coin_flip: Option<CoinFlip>,
    pub coin_flip_account: Wallet,
    /// The creator and payer.
    pub authority: Wallet,
}

/// The accounts of `bet`.
#[derive(Clone, Copy, Debug, PartialEq, Eq)]
pub struct Bet {
    pub coin_flip: CoinFlip,
    pub coin_flip_account: Wallet,
    /// The bettor's receipt; `None` while it does not exist.
    pub claimant: Option<Claimant>,
    pub claimant_account: Wallet,
    /// The bettor, who signs and pays.
    pub payer: Wallet,
}

/// The accounts of `claim`.
#[derive(Clone, Copy, Debug, PartialEq, Eq)]
pub struct Claim {
    /// The caller's receipt; `None` while it does not exist.
    pub claimant: Option<Claimant>,
    pub claimant_account: Wallet,
    /// The caller, who receives the receipt's balance.
    pub payer: Wallet,
}

/// What a committed bet did: whether it was won and how much was paid out
/// of the pool to the receipt.
#[derive(Clone, Copy, Debug, PartialEq, Eq, Structural)]
pub struct Settlement {
    pub won: bool,
    pub payout: u64,
}

/// The event reported for a committed bet.
#[derive(Clone, Debug, PartialEq, Eq)]
pub struct CoinFlipEvent {
    pub status: String,
    pub message: String,
}

impl InitializeCoinFlip {
    /// The lamports held by the accounts of the instruction.
    pub open spec fn total(&self) -> int {
        self.coin_flip_account.lamports + self.authority.lamports
    }

    /// All lamports of the instruction fit in a `u64`, as the native supply does.
    pub open spec fn wf(&self) -> bool {
        self.total() <= u64::MAX
    }
}

impl Bet {
    pub open spec fn total(&self) -> int {
        self.coin_flip_account.lamports + self.claimant_account.lamports + self.payer.lamports
    }

    pub open spec fn wf(&self) -> bool {
        self.total() <= u64::MAX
    }
}

impl Claim {
    pub open spec fn total(&self) -> int {
        self.claimant_account.lamports + self.payer.lamports
    }

    pub open spec fn wf(&self) -> bool {
        self.total() <= u64::MAX
    }
}

impl Settlement {
    /// The event that reports this settlement.
    pub fn event(&self) -> (r: CoinFlipEvent)
        ensures
            r.status@ == "OK"@,
            self.won ==> r.message@ == "Congratulations you've won!"@,
            !self.won ==> r.message@ == "Sorry you've lost"@,
    {
        let message = if self.won {
            String::from_str("Congratulations you've won!")
        } else {
            String::from_str("Sorry you've lost")
        };
        CoinFlipEvent { status: String::from_str("OK"), message }
    }
}

} // verus!
