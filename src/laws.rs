//! Properties of the escrow that hold across calls and over every input.

use vstd::prelude::*;
use crate::address::{program_address, claimant_seeds};
use crate::state::{BetType, CoinFlipErrorCode, BetArgs, Bet, Claim};
use crate::engine::{
    wins, headroom, bet_error, bet_payout, bet_post, claim_error, claim_post,
};

verus! {

/// A committed bet moves value and never creates or destroys it: the pool
/// gains the stake and loses the payout, and the payout never exceeds the
/// pool's balance plus the stake above the reserve floor.
pub proof fn bet_conserves_value(ctx: Bet, args: BetArgs, program_id: Seq<u8>, unix_timestamp: i64)
    requires
        ctx.wf(),
        bet_error(ctx, args, program_id) is None,
    ensures
        bet_post(ctx, args, program_id, unix_timestamp).total() == ctx.total(),
        bet_post(ctx, args, program_id, unix_timestamp).pool_balance() == ctx.pool_balance()
            + args.amount - bet_payout(ctx, args, unix_timestamp),
        0 <= bet_payout(ctx, args, unix_timestamp) <= headroom(
            ctx.pool_balance() + args.amount,
            ctx.floor(),
        ),
        ctx.pool_balance() + args.amount >= ctx.floor() ==> bet_payout(ctx, args, unix_timestamp)
            <= ctx.pool_balance() + args.amount - ctx.floor(),
{
}

/// A committed bet leaves the pool at or above its reserve floor whenever the
/// pool's balance plus the stake reaches the floor (in particular whenever the
/// pool was at or above the floor before the bet).
pub proof fn bet_keeps_reserve_floor(ctx: Bet, args: BetArgs, program_id: Seq<u8>, unix_timestamp: i64)
    requires
        ctx.wf(),
        bet_error(ctx, args, program_id) is None,
        ctx.pool_balance() + args.amount >= ctx.floor(),
    ensures
        bet_post(ctx, args, program_id, unix_timestamp).pool_balance() >= ctx.floor(),
        bet_post(ctx, args, program_id, unix_timestamp).floor() == ctx.floor(),
{
    bet_conserves_value(ctx, args, program_id, unix_timestamp);
}

/// A run of committed bets on one pool: each call is committed, and each call
/// starts from the pool the previous one left.
pub open spec fn chained_bets(calls: Seq<(Bet, BetArgs, i64)>, program_id: Seq<u8>) -> bool {
    &&& forall|i: int|
        0 <= i < calls.len() ==> #[trigger] calls[i].0.wf() && bet_error(
            calls[i].0,
            calls[i].1,
            program_id,
        ) is None
    &&& forall|i: int|
        0 <= i < calls.len() - 1 ==> {
            let post = #[trigger] bet_post(calls[i].0, calls[i].1, program_id, calls[i].2);
            &&& post.coin_flip == calls[i + 1].0.coin_flip
            &&& post.coin_flip_account == calls[i + 1].0.coin_flip_account
        }
}

/// The stakes of a run of bets.
pub open spec fn total_stakes(calls: Seq<(Bet, BetArgs, i64)>) -> int
    decreases calls.len(),
{
    if calls.len() == 0 {
        0
    } else {
        total_stakes(calls.drop_last()) + calls.last().1.amount
    }
}

/// The payouts of a run of bets.
pub open spec fn total_payouts(calls: Seq<(Bet, BetArgs, i64)>) -> int
    decreases calls.len(),
{
    if calls.len() == 0 {
        0
    } else {
        total_payouts(calls.drop_last()) + bet_payout(calls.last().0, calls.last().1, calls.last().2)
    }
}

/// Over any run of committed bets on one pool, the pool's final balance is its
/// first balance plus all stakes minus all payouts; the reserve floor holds
/// after each bet of the run when it held before the first.
pub proof fn pool_conservation(calls: Seq<(Bet, BetArgs, i64)>, program_id: Seq<u8>)
    requires
        calls.len() > 0,
        chained_bets(calls, program_id),
    ensures
        calls.last().0.coin_flip == calls[0].0.coin_flip,
        ({
            let last = calls.last();
            bet_post(last.0, last.1, program_id, last.2).pool_balance() == calls[0].0.pool_balance()
                + total_stakes(calls) - total_payouts(calls)
        }),
        calls[0].0.pool_balance() >= calls[0].0.floor() ==> forall|i: int|
            0 <= i < calls.len() ==> #[trigger] bet_post(
                calls[i].0,
                calls[i].1,
                program_id,
                calls[i].2,
            ).pool_balance() >= calls[0].0.floor(),
    decreases calls.len(),
{
    let n = calls.len();
    let last = calls.last();
    assert(last.0.wf() && bet_error(last.0, last.1, program_id) is None) by {
        assert(calls[n - 1].0.wf());
    }
    bet_conserves_value(last.0, last.1, program_id, last.2);
    if n == 1 {
        assert(calls.drop_last().len() == 0);
        assert(total_stakes(calls.drop_last()) == 0);
        assert(total_payouts(calls.drop_last()) == 0);
        if calls[0].0.pool_balance() >= calls[0].0.floor() {
            bet_keeps_reserve_floor(calls[0].0, calls[0].1, program_id, calls[0].2);
        }
    } else {
        let prefix = calls.drop_last();
        assert(chained_bets(prefix, program_id)) by {
            assert forall|i: int| 0 <= i < prefix.len() implies #[trigger] prefix[i].0.wf()
                && bet_error(prefix[i].0, prefix[i].1, program_id) is None by {
                assert(prefix[i] == calls[i]);
                assert(calls[i].0.wf());
            }
            assert forall|i: int| 0 <= i < prefix.len() - 1 implies {
                let post = #[trigger] bet_post(prefix[i].0, prefix[i].1, program_id, prefix[i].2);
                &&& post.coin_flip == prefix[i + 1].0.coin_flip
                &&& post.coin_flip_account == prefix[i + 1].0.coin_flip_account
            } by {
                assert(prefix[i] == calls[i]);
                assert(prefix[i + 1] == calls[i + 1]);
                let _ = bet_post(calls[i].0, calls[i].1, program_id, calls[i].2);
            }
        }
        pool_conservation(prefix, program_id);
        let p = prefix.last();
        assert(p == calls[n - 2]);
        let _ = bet_post(calls[n - 2].0, calls[n - 2].1, program_id, calls[n - 2].2);
        assert(prefix[0] == calls[0]);
        assert(bet_post(p.0, p.1, program_id, p.2).coin_flip_account == last.0.coin_flip_account);
        if calls[0].0.pool_balance() >= calls[0].0.floor() {
            let prev = bet_post(p.0, p.1, program_id, p.2);
            assert(prev.pool_balance() >= calls[0].0.floor()) by {
                let _ = bet_post(prefix[n - 2].0, prefix[n - 2].1, program_id, prefix[n - 2].2);
            }
            bet_keeps_reserve_floor(last.0, last.1, program_id, last.2);
            assert forall|i: int| 0 <= i < calls.len() implies #[trigger] bet_post(
                calls[i].0,
                calls[i].1,
                program_id,
                calls[i].2,
            ).pool_balance() >= calls[0].0.floor() by {
                if i < n - 1 {
                    assert(prefix[i] == calls[i]);
                    let _ = bet_post(prefix[i].0, prefix[i].1, program_id, prefix[i].2);
                }
            }
        }
    }
}

/// The outcome depends on the timestamp's parity and the chosen side alone:
/// exactly one of the four parity-and-side cases applies, and two bets with the
/// same signal and side resolve alike.
pub proof fn outcome_is_determined(
    first: Bet,
    second: Bet,
    args: BetArgs,
    program_id: Seq<u8>,
    unix_timestamp: i64,
)
    ensures
        ((unix_timestamp % 2 == 0 && args.bet_type == BetType::Head) as int + (unix_timestamp % 2
            == 0 && args.bet_type == BetType::Tail) as int + (unix_timestamp % 2 != 0
            && args.bet_type == BetType::Tail) as int + (unix_timestamp % 2 != 0 && args.bet_type
            == BetType::Head) as int) == 1,
        wins(unix_timestamp, args.bet_type) <==> ((unix_timestamp % 2 == 0 && args.bet_type
            == BetType::Head) || (unix_timestamp % 2 != 0 && args.bet_type == BetType::Tail)),
        bet_post(first, args, program_id, unix_timestamp).claimant->Some_0.success == bet_post(
            second,
            args,
            program_id,
            unix_timestamp,
        ).claimant->Some_0.success,
{
}

/// After a successful claim the receipt is gone, so a second claim by the same
/// caller fails with `NotFound`, and a failed claim changes nothing.
pub proof fn no_double_settlement(ctx: Claim, program_id: Seq<u8>)
    requires
        ctx.wf(),
        claim_error(ctx, program_id) is None,
    ensures
        claim_error(claim_post(ctx), program_id) == Some(CoinFlipErrorCode::NotFound),
        claim_post(ctx).total() == ctx.total(),
        claim_post(ctx).claimant_account.lamports == 0,
{
}

/// A claim on a receipt that is not derived from the caller's identity, or
/// that belongs to another bettor, fails with `OwnerMismatch`.
pub proof fn claim_requires_owner(ctx: Claim, program_id: Seq<u8>)
    requires
        ctx.claimant is Some,
        program_address(claimant_seeds(ctx.payer.key@), program_id) != Some(
            (ctx.claimant_account.key@, ctx.claimant->Some_0.claimant_bump),
        ) || ctx.claimant->Some_0.claimant@ != ctx.payer.key@,
    ensures
        claim_error(ctx, program_id) == Some(CoinFlipErrorCode::OwnerMismatch),
{
}

/// A stake of zero is rejected before anything else is checked.
pub proof fn zero_stake_rejected(ctx: Bet, args: BetArgs, program_id: Seq<u8>)
    requires
        args.amount == 0,
    ensures
        bet_error(ctx, args, program_id) == Some(CoinFlipErrorCode::AmountMustBeGreaterThanZero),
{
}

} // verus!
