//! The settlement engine: pool creation, stake intake, outcome resolution,
//! payout under the reserve floor, and receipt claims.

use vstd::prelude::*;
use crate::address::{
    Address, program_address, pool_seeds, claimant_seeds, pool_address, claimant_address,
};
use crate::state::{
    BetType, CoinFlipErrorCode, CoinFlip, Claimant, Wallet, CoinFlipArgs, BetArgs, ClaimArgs,
    InitializeCoinFlip, Bet, Claim, Settlement,
};

verus! {

// ---------------------------------------------------------------------------
// Outcome and payout rules
// ---------------------------------------------------------------------------

/// The side the outcome signal shows: heads on an even timestamp, tails on an
/// odd one.
pub open spec fn side_of(unix_timestamp: i64) -> BetType {
    if unix_timestamp % 2 == 0 {
        BetType::Head
    } else {
        BetType::Tail
    }
}

/// A stake on `bet_type` wins exactly when the signal shows that side.
pub open spec fn wins(unix_timestamp: i64, bet_type: BetType) -> bool {
    side_of(unix_timestamp) == bet_type
}

/// What the pool may pay without dropping below its reserve floor.
pub open spec fn headroom(balance: int, floor: int) -> int {
    if balance > floor {
        balance - floor
    } else {
        0
    }
}

/// The payout for a winning stake of `amount`: the stake itself, or the whole
/// headroom when the stake reaches it.
pub open spec fn payout_of(balance: int, floor: int, amount: int) -> int {
    if amount >= headroom(balance, floor) {
        headroom(balance, floor)
    } else {
        amount
    }
}

/// Whether a timestamp resolves a stake on `bet_type` as a win.
pub fn flip_wins(unix_timestamp: i64, bet_type: BetType) -> (r: bool)
    ensures
        r == wins(unix_timestamp, bet_type),
{
    let side = if unix_timestamp % 2 == 0 {
        BetType::Head
    } else {
        BetType::Tail
    };
    side == bet_type
}

// ---------------------------------------------------------------------------
// Initialize
// ---------------------------------------------------------------------------

/// The failure, if any, of `initialize_coin_flip`, in the order it is checked.
pub open spec fn initialize_error(
    ctx: InitializeCoinFlip,
    args: CoinFlipArgs,
    program_id: Seq<u8>,
) -> Option<CoinFlipErrorCode> {
    let derived = program_address(pool_seeds(), program_id);
    if !(derived is Some && derived->Some_0.0 == ctx.coin_flip_account.key@) {
        Some(CoinFlipErrorCode::OwnerMismatch)
    } else if ctx.coin_flip is Some {
        Some(CoinFlipErrorCode::AlreadyInitialized)
    } else if ctx.authority.lamports < args.amount {
        Some(CoinFlipErrorCode::InsufficientFunds)
    } else {
        None
    }
}

/// The accounts after a successful `initialize_coin_flip`.
pub open spec fn initialize_post(
    ctx: InitializeCoinFlip,
    args: CoinFlipArgs,
    program_id: Seq<u8>,
) -> InitializeCoinFlip {
    InitializeCoinFlip {
        coin_flip: Some(
            CoinFlip {
                authority: ctx.authority.key,
                bump: program_address(pool_seeds(), program_id)->Some_0.1,
                minimum_tokens: args.minimum_tokens,
            },
        ),
        coin_flip_account: Wallet {
            key: ctx.coin_flip_account.key,
            lamports: (ctx.coin_flip_account.lamports + args.amount) as u64,
        },
        authority: Wallet {
            key: ctx.authority.key,
            lamports: (ctx.authority.lamports - args.amount) as u64,
        },
    }
}

/// Creates the pool with the caller as authority and the given reserve floor,
/// and funds it with `args.amount` from the authority. Nothing changes on
/// failure.
pub fn initialize_coin_flip(
    ctx: &mut InitializeCoinFlip,
    args: CoinFlipArgs,
    program_id: &Address,
) -> (r: Result<(), CoinFlipErrorCode>)
    requires
        old(ctx).wf(),
    ensures
        final(ctx).wf(),
        final(ctx).total() == old(ctx).total(),
        match r {
            Ok(()) => initialize_error(*old(ctx), args, program_id@) is None
                && *final(ctx) == initialize_post(*old(ctx), args, program_id@),
            Err(e) => initialize_error(*old(ctx), args, program_id@) == Some(e)
                && *final(ctx) == *old(ctx),
        },
{
    let bump = match pool_address(program_id) {
        Some((a, b)) => {
            if !a.same_as(&ctx.coin_flip_account.key) {
                return Err(CoinFlipErrorCode::OwnerMismatch);
            }
            b
        },
        None => {
            return Err(CoinFlipErrorCode::OwnerMismatch);
        },
    };
    if ctx.coin_flip.is_some() {
        return Err(CoinFlipErrorCode::AlreadyInitialized);
    }
    if ctx.authority.lamports < args.amount {
        return Err(CoinFlipErrorCode::InsufficientFunds);
    }
    ctx.coin_flip = Some(
        CoinFlip {
            authority: ctx.authority.key,
            bump,
            minimum_tokens: args.minimum_tokens,
        },
    );
    ctx.authority.lamports = ctx.authority.lamports - args.amount;
    ctx.coin_flip_account.lamports = ctx.coin_flip_account.lamports + args.amount;
    Ok(())
}

// ---------------------------------------------------------------------------
// Payout
// ---------------------------------------------------------------------------

impl Bet {
    /// The accounts after `paid` lamports move from the pool to the receipt.
    pub open spec fn moved_to_winner(self, paid: int) -> Bet {
        Bet {
            coin_flip_account: Wallet {
                key: self.coin_flip_account.key,
                lamports: (self.coin_flip_account.lamports - paid) as u64,
            },
            claimant_account: Wallet {
                key: self.claimant_account.key,
                lamports: (self.claimant_account.lamports + paid) as u64,
            },
            ..self
        }
    }

    /// The pool's balance.
    pub open spec fn pool_balance(self) -> int {
        self.coin_flip_account.lamports as int
    }

    /// The pool's reserve floor.
    pub open spec fn floor(self) -> int {
        self.coin_flip.minimum_tokens as int
    }

    /// Pays the winner the pool's whole headroom, leaving the pool at its
    /// reserve floor (or untouched when it holds no more than the floor).
    pub fn transfer_minimum_money_to_winners(&mut self) -> (r: Result<u64, CoinFlipErrorCode>)
        requires
            old(self).wf(),
        ensures
            final(self).wf(),
            r == Ok::<u64, CoinFlipErrorCode>(
                headroom(old(self).pool_balance(), old(self).floor()) as u64,
            ),
            *final(self) == old(self).moved_to_winner(
                headroom(old(self).pool_balance(), old(self).floor()),
            ),
    {
        let paid: u64 = if self.coin_flip_account.lamports > self.coin_flip.minimum_tokens {
            self.coin_flip_account.lamports - self.coin_flip.minimum_tokens
        } else {
            0
        };
        self.coin_flip_account.lamports = self.coin_flip_account.lamports - paid;
        self.claimant_account.lamports = self.claimant_account.lamports + paid;
        Ok(paid)
    }

    /// Pays the winner `amount` from the pool; fails, changing nothing, when
    /// the pool holds less.
    pub fn transfer_money_to_winners(&mut self, amount: u64) -> (r: Result<u64, CoinFlipErrorCode>)
        requires
            old(self).wf(),
        ensures
            final(self).wf(),
            old(self).coin_flip_account.lamports >= amount ==> r == Ok::<u64, CoinFlipErrorCode>(amount)
                && *final(self) == old(self).moved_to_winner(amount as int),
            old(self).coin_flip_account.lamports < amount ==> r == Err::<u64, CoinFlipErrorCode>(
                CoinFlipErrorCode::InsufficientFunds,
            ) && *final(self) == *old(self),
    {
        if self.coin_flip_account.lamports < amount {
            return Err(CoinFlipErrorCode::InsufficientFunds);
        }
        self.coin_flip_account.lamports = self.coin_flip_account.lamports - amount;
        self.claimant_account.lamports = self.claimant_account.lamports + amount;
        Ok(amount)
    }

    /// Pays a winning stake of `amount`: the stake itself when the pool's
    /// headroom exceeds it, else the whole headroom. Returns what was paid.
    pub fn distribute_money(&mut self, amount: u64) -> (r: Result<u64, CoinFlipErrorCode>)
        requires
            old(self).wf(),
        ensures
            final(self).wf(),
            r == Ok::<u64, CoinFlipErrorCode>(
                payout_of(old(self).pool_balance(), old(self).floor(), amount as int) as u64,
            ),
            *final(self) == old(self).moved_to_winner(
                payout_of(old(self).pool_balance(), old(self).floor(), amount as int),
            ),
            final(self).pool_balance() >= old(self).floor() || final(self).pool_balance()
                == old(self).pool_balance(),
    {
        let lamports = self.coin_flip_account.lamports;
        let floor = self.coin_flip.minimum_tokens;
        if lamports <= floor || amount >= lamports - floor {
            self.transfer_minimum_money_to_winners()
        } else {
            self.transfer_money_to_winners(amount)
        }
    }
}

// ---------------------------------------------------------------------------
// Bet
// ---------------------------------------------------------------------------

/// The pool account is the one derived from the pool's seeds, with the stored
/// bump.
pub open spec fn pool_matches(ctx: Bet, program_id: Seq<u8>) -> bool {
    program_address(pool_seeds(), program_id) == Some((ctx.coin_flip_account.key@, ctx.coin_flip.bump))
}

/// The receipt account is the one derived from the payer's identity, and an
/// existing receipt belongs to the payer and holds the derived bump.
pub open spec fn receipt_matches(ctx: Bet, program_id: Seq<u8>) -> bool {
    match program_address(claimant_seeds(ctx.payer.key@), program_id) {
        Some((a, b)) => a == ctx.claimant_account.key@ && match ctx.claimant {
            Some(c) => c.claimant_bump == b && c.claimant@ == ctx.payer.key@,
            None => true,
        },
        None => false,
    }
}

/// The failure, if any, of `bet`, in the order it is checked.
pub open spec fn bet_error(ctx: Bet, args: BetArgs, program_id: Seq<u8>) -> Option<
    CoinFlipErrorCode,
> {
    if args.amount == 0 {
        Some(CoinFlipErrorCode::AmountMustBeGreaterThanZero)
    } else if !pool_matches(ctx, program_id) || !receipt_matches(ctx, program_id) {
        Some(CoinFlipErrorCode::OwnerMismatch)
    } else if ctx.payer.lamports < args.amount {
        Some(CoinFlipErrorCode::InsufficientFunds)
    } else {
        None
    }
}

/// The accounts once the stake has moved to the pool and the receipt records
/// the bet, before any payout.
pub open spec fn bet_staked(ctx: Bet, args: BetArgs, program_id: Seq<u8>, unix_timestamp: i64) -> Bet {
    Bet {
        coin_flip: ctx.coin_flip,
        coin_flip_account: Wallet {
            key: ctx.coin_flip_account.key,
            lamports: (ctx.coin_flip_account.lamports + args.amount) as u64,
        },
        claimant: Some(
            Claimant {
                success: wins(unix_timestamp, args.bet_type),
                amount: args.amount,
                claimant_bump: program_address(claimant_seeds(ctx.payer.key@), program_id)->Some_0.1,
                claimant: ctx.payer.key,
            },
        ),
        claimant_account: ctx.claimant_account,
        payer: Wallet { key: ctx.payer.key, lamports: (ctx.payer.lamports - args.amount) as u64 },
    }
}

/// The payout of a committed bet: none on a loss.
pub open spec fn bet_payout(ctx: Bet, args: BetArgs, unix_timestamp: i64) -> int {
    if wins(unix_timestamp, args.bet_type) {
        payout_of(ctx.pool_balance() + args.amount, ctx.floor(), args.amount as int)
    } else {
        0
    }
}

/// The accounts after a committed bet.
pub open spec fn bet_post(ctx: Bet, args: BetArgs, program_id: Seq<u8>, unix_timestamp: i64) -> Bet {
    bet_staked(ctx, args, program_id, unix_timestamp).moved_to_winner(
        bet_payout(ctx, args, unix_timestamp),
    )
}

/// Takes a stake of `args.amount` from the payer into the pool, resolves it
/// against `unix_timestamp`, records the bet on the payer's receipt (creating
/// it if absent), and on a win pays the receipt under the reserve floor.
/// Nothing changes on failure.
pub fn bet(ctx: &mut Bet, args: BetArgs, program_id: &Address, unix_timestamp: i64) -> (r: Result<
    Settlement,
    CoinFlipErrorCode,
>)
    requires
        old(ctx).wf(),
    ensures
        final(ctx).wf(),
        final(ctx).total() == old(ctx).total(),
        match r {
            Ok(s) => bet_error(*old(ctx), args, program_id@) is None
                && *final(ctx) == bet_post(*old(ctx), args, program_id@, unix_timestamp)
                && s.won == wins(unix_timestamp, args.bet_type)
                && s.payout == bet_payout(*old(ctx), args, unix_timestamp),
            Err(e) => bet_error(*old(ctx), args, program_id@) == Some(e)
                && *final(ctx) == *old(ctx),
        },
{
    if args.amount == 0 {
        return Err(CoinFlipErrorCode::AmountMustBeGreaterThanZero);
    }
    let pool_ok = match pool_address(program_id) {
        Some((a, b)) => a.same_as(&ctx.coin_flip_account.key) && b == ctx.coin_flip.bump,
        None => false,
    };
    if !pool_ok {
        return Err(CoinFlipErrorCode::OwnerMismatch);
    }
    let bump = match claimant_address(program_id, &ctx.payer.key) {
        Some((a, b)) => {
            if !a.same_as(&ctx.claimant_account.key) {
                return Err(CoinFlipErrorCode::OwnerMismatch);
            }
            match &ctx.claimant {
                Some(c) => {
                    if c.claimant_bump != b || !c.claimant.same_as(&ctx.payer.key) {
                        return Err(CoinFlipErrorCode::OwnerMismatch);
                    }
                },
                None => {},
            }
            b
        },
        None => {
            return Err(CoinFlipErrorCode::OwnerMismatch);
        },
    };
    if ctx.payer.lamports < args.amount {
        return Err(CoinFlipErrorCode::InsufficientFunds);
    }
    ctx.payer.lamports = ctx.payer.lamports - args.amount;
    ctx.coin_flip_account.lamports = ctx.coin_flip_account.lamports + args.amount;
    let won = flip_wins(unix_timestamp, args.bet_type);
    ctx.claimant = Some(
        Claimant { success: won, amount: args.amount, claimant_bump: bump, claimant: ctx.payer.key },
    );
    let payout: u64 = if won {
        match ctx.distribute_money(args.amount) {
            Ok(p) => p,
            Err(e) => {
                return Err(e);
            },
        }
    } else {
        0
    };
    Ok(Settlement { won, payout })
}

// ---------------------------------------------------------------------------
// Claim
// ---------------------------------------------------------------------------

/// The failure, if any, of `claim`, in the order it is checked.
pub open spec fn claim_error(ctx: Claim, program_id: Seq<u8>) -> Option<CoinFlipErrorCode> {
    match ctx.claimant {
        None => Some(CoinFlipErrorCode::NotFound),
        Some(c) => if program_address(claimant_seeds(ctx.payer.key@), program_id) == Some(
            (ctx.claimant_account.key@, c.claimant_bump),
        ) && c.claimant@ == ctx.payer.key@ {
            None
        } else {
            Some(CoinFlipErrorCode::OwnerMismatch)
        },
    }
}

/// The accounts after a successful claim: the receipt is gone and its whole
/// balance has moved to the caller.
pub open spec fn claim_post(ctx: Claim) -> Claim {
    Claim {
        claimant: None,
        claimant_account: Wallet { key: ctx.claimant_account.key, lamports: 0 },
        payer: Wallet {
            key: ctx.payer.key,
            lamports: (ctx.payer.lamports + ctx.claimant_account.lamports) as u64,
        },
    }
}

/// Closes the caller's receipt after checking that it is derived from the
/// caller's identity, moving its whole balance to the caller. Returns the
/// amount moved. Nothing changes on failure.
pub fn claim(ctx: &mut Claim, _args: ClaimArgs, program_id: &Address) -> (r: Result<u64, CoinFlipErrorCode>)
    requires
        old(ctx).wf(),
    ensures
        final(ctx).wf(),
        final(ctx).total() == old(ctx).total(),
        match r {
            Ok(paid) => claim_error(*old(ctx), program_id@) is None
                && *final(ctx) == claim_post(*old(ctx))
                && paid == old(ctx).claimant_account.lamports,
            Err(e) => claim_error(*old(ctx), program_id@) == Some(e)
                && *final(ctx) == *old(ctx),
        },
{
    let bump = match &ctx.claimant {
        None => {
            return Err(CoinFlipErrorCode::NotFound);
        },
        Some(c) => {
            if !c.claimant.same_as(&ctx.payer.key) {
                return Err(CoinFlipErrorCode::OwnerMismatch);
            }
            c.claimant_bump
        },
    };
    let derived_ok = match claimant_address(program_id, &ctx.payer.key) {
        Some((a, b)) => a.same_as(&ctx.claimant_account.key) && b == bump,
        None => false,
    };
    if !derived_ok {
        return Err(CoinFlipErrorCode::OwnerMismatch);
    }
    let paid = ctx.claimant_account.lamports;
    ctx.payer.lamports = ctx.payer.lamports + paid;
    ctx.claimant_account.lamports = 0;
    ctx.claimant = None;
    Ok(paid)
}

} // verus!
