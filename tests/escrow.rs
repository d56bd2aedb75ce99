use coin_flip::address::{claimant_address, pool_address, Address};
use coin_flip::engine::{bet, claim, flip_wins, initialize_coin_flip};
use coin_flip::state::{
    Bet, BetArgs, BetType, Claim, ClaimArgs, Claimant, CoinFlip, CoinFlipArgs, CoinFlipErrorCode,
    InitializeCoinFlip, Settlement, Wallet,
};

const EVEN: i64 = 1_700_000_000;
const ODD: i64 = 1_700_000_001;

fn program_id() -> Address {
    Address::new([7u8; 32])
}

fn bettor(n: u8) -> Address {
    Address::new([n; 32])
}

fn pool_key() -> (Address, u8) {
    pool_address(&program_id()).expect("pool address")
}

fn receipt_key(owner: &Address) -> (Address, u8) {
    claimant_address(&program_id(), owner).expect("receipt address")
}

fn bet_ctx(pool: u64, floor: u64, payer: u64, who: u8) -> Bet {
    let (pk, pb) = pool_key();
    let owner = bettor(who);
    let (rk, _) = receipt_key(&owner);
    Bet {
        coin_flip: CoinFlip { authority: bettor(1), bump: pb, minimum_tokens: floor },
        coin_flip_account: Wallet { key: pk, lamports: pool },
        claimant: None,
        claimant_account: Wallet { key: rk, lamports: 0 },
        payer: Wallet { key: owner, lamports: payer },
    }
}

fn total(b: &Bet) -> u128 {
    b.coin_flip_account.lamports as u128
        + b.claimant_account.lamports as u128
        + b.payer.lamports as u128
}

fn claim_ctx_after(b: &Bet) -> Claim {
    Claim { claimant: b.claimant, claimant_account: b.claimant_account, payer: b.payer }
}

#[test]
fn derivation_is_deterministic_and_distinct() {
    let (a1, b1) = pool_key();
    let (a2, b2) = pool_key();
    assert_eq!(a1, a2);
    assert_eq!(b1, b2);
    assert_ne!(a1, program_id());
    let (r1, _) = receipt_key(&bettor(2));
    let (r2, _) = receipt_key(&bettor(3));
    assert_ne!(r1, r2);
    assert_ne!(r1, a1);
    assert_ne!(r1, bettor(2));
    assert!(a1.same_as(&a2));
    assert!(!r1.same_as(&r2));
}

#[test]
fn initialize_creates_and_funds_pool() {
    let (pk, pb) = pool_key();
    let mut ctx = InitializeCoinFlip {
        coin_flip: None,
        coin_flip_account: Wallet { key: pk, lamports: 0 },
        authority: Wallet { key: bettor(1), lamports: 1000 },
    };
    let r = initialize_coin_flip(&mut ctx, CoinFlipArgs { amount: 300, minimum_tokens: 100 }, &program_id());
    assert_eq!(r, Ok(()));
    assert_eq!(
        ctx.coin_flip,
        Some(CoinFlip { authority: bettor(1), bump: pb, minimum_tokens: 100 })
    );
    assert_eq!(ctx.coin_flip_account.lamports, 300);
    assert_eq!(ctx.authority.lamports, 700);

    let before = ctx;
    let again = initialize_coin_flip(&mut ctx, CoinFlipArgs { amount: 1, minimum_tokens: 5 }, &program_id());
    assert_eq!(again, Err(CoinFlipErrorCode::AlreadyInitialized));
    assert_eq!(ctx, before);
}

#[test]
fn initialize_rejects_wrong_account_and_short_funds() {
    let (pk, _) = pool_key();
    let mut wrong = InitializeCoinFlip {
        coin_flip: None,
        coin_flip_account: Wallet { key: bettor(9), lamports: 0 },
        authority: Wallet { key: bettor(1), lamports: 1000 },
    };
    let before = wrong;
    let r = initialize_coin_flip(&mut wrong, CoinFlipArgs { amount: 10, minimum_tokens: 1 }, &program_id());
    assert_eq!(r, Err(CoinFlipErrorCode::OwnerMismatch));
    assert_eq!(wrong, before);

    let mut poor = InitializeCoinFlip {
        coin_flip: None,
        coin_flip_account: Wallet { key: pk, lamports: 0 },
        authority: Wallet { key: bettor(1), lamports: 5 },
    };
    let before = poor;
    let r = initialize_coin_flip(&mut poor, CoinFlipArgs { amount: 10, minimum_tokens: 1 }, &program_id());
    assert_eq!(r, Err(CoinFlipErrorCode::InsufficientFunds));
    assert_eq!(poor, before);
}

#[test]
fn outcome_follows_timestamp_parity() {
    assert!(flip_wins(EVEN, BetType::Head));
    assert!(!flip_wins(EVEN, BetType::Tail));
    assert!(flip_wins(ODD, BetType::Tail));
    assert!(!flip_wins(ODD, BetType::Head));
    assert!(flip_wins(-4, BetType::Head));
    assert!(flip_wins(-3, BetType::Tail));
    assert!(flip_wins(0, BetType::Head));
}

#[test]
fn same_signal_and_side_resolve_alike() {
    let mut a = bet_ctx(1000, 100, 500, 2);
    let mut b = bet_ctx(40, 10, 90, 3);
    let args = BetArgs { amount: 20, bet_type: BetType::Tail };
    let ra = bet(&mut a, args, &program_id(), ODD).unwrap();
    let rb = bet(&mut b, args, &program_id(), ODD).unwrap();
    assert!(ra.won);
    assert_eq!(ra.won, rb.won);
    let mut c = bet_ctx(1000, 100, 500, 4);
    let rc = bet(&mut c, args, &program_id(), EVEN).unwrap();
    assert!(!rc.won);
}

#[test]
fn zero_stake_is_rejected() {
    let mut ctx = bet_ctx(500, 100, 100, 2);
    let before = ctx;
    let r = bet(&mut ctx, BetArgs { amount: 0, bet_type: BetType::Head }, &program_id(), EVEN);
    assert_eq!(r, Err(CoinFlipErrorCode::AmountMustBeGreaterThanZero));
    assert_eq!(ctx, before);
    assert_eq!(ctx.coin_flip_account.lamports, 500);
}

#[test]
fn reduced_payout_leaves_pool_at_floor() {
    let mut ctx = bet_ctx(150, 100, 0, 2);
    assert_eq!(ctx.distribute_money(80), Ok(50));
    assert_eq!(ctx.coin_flip_account.lamports, 100);
    assert_eq!(ctx.claimant_account.lamports, 50);
}

#[test]
fn reduced_payout_through_bet() {
    // 70 in the pool plus the stake of 80 makes 150 at payout time.
    let mut ctx = bet_ctx(70, 100, 200, 2);
    let r = bet(&mut ctx, BetArgs { amount: 80, bet_type: BetType::Head }, &program_id(), EVEN);
    assert_eq!(r, Ok(Settlement { won: true, payout: 50 }));
    assert_eq!(ctx.coin_flip_account.lamports, 100);
    assert_eq!(ctx.claimant_account.lamports, 50);
    assert_eq!(ctx.payer.lamports, 120);
}

#[test]
fn normal_payout_pays_the_stake() {
    let mut ctx = bet_ctx(500, 100, 0, 2);
    assert_eq!(ctx.distribute_money(50), Ok(50));
    assert_eq!(ctx.coin_flip_account.lamports, 450);
    assert_eq!(ctx.claimant_account.lamports, 50);
}

#[test]
fn normal_payout_through_bet() {
    let mut ctx = bet_ctx(450, 100, 60, 2);
    let r = bet(&mut ctx, BetArgs { amount: 50, bet_type: BetType::Tail }, &program_id(), ODD);
    assert_eq!(r, Ok(Settlement { won: true, payout: 50 }));
    assert_eq!(ctx.coin_flip_account.lamports, 450);
    assert_eq!(ctx.claimant_account.lamports, 50);
    assert_eq!(ctx.payer.lamports, 10);
    let rec = ctx.claimant.unwrap();
    assert!(rec.success);
    assert_eq!(rec.amount, 50);
    assert_eq!(rec.claimant, bettor(2));
    assert_eq!(rec.claimant_bump, receipt_key(&bettor(2)).1);
}

#[test]
fn payout_when_stake_equals_headroom() {
    let mut ctx = bet_ctx(180, 100, 0, 2);
    assert_eq!(ctx.distribute_money(80), Ok(80));
    assert_eq!(ctx.coin_flip_account.lamports, 100);
}

#[test]
fn pool_below_floor_pays_nothing() {
    let mut ctx = bet_ctx(60, 100, 0, 2);
    assert_eq!(ctx.transfer_minimum_money_to_winners(), Ok(0));
    assert_eq!(ctx.coin_flip_account.lamports, 60);
    assert_eq!(ctx.distribute_money(10), Ok(0));
    assert_eq!(ctx.claimant_account.lamports, 0);
}

#[test]
fn transfer_money_needs_funds() {
    let mut ctx = bet_ctx(30, 0, 0, 2);
    let before = ctx;
    assert_eq!(ctx.transfer_money_to_winners(31), Err(CoinFlipErrorCode::InsufficientFunds));
    assert_eq!(ctx, before);
    assert_eq!(ctx.transfer_money_to_winners(30), Ok(30));
    assert_eq!(ctx.coin_flip_account.lamports, 0);
    assert_eq!(ctx.claimant_account.lamports, 30);
}

#[test]
fn lost_bet_keeps_stake_in_pool() {
    let mut ctx = bet_ctx(200, 100, 100, 2);
    let r = bet(&mut ctx, BetArgs { amount: 30, bet_type: BetType::Tail }, &program_id(), EVEN);
    assert_eq!(r, Ok(Settlement { won: false, payout: 0 }));
    assert_eq!(ctx.coin_flip_account.lamports, 230);
    assert_eq!(ctx.payer.lamports, 70);
    assert_eq!(ctx.claimant_account.lamports, 0);
    let rec = ctx.claimant.unwrap();
    assert!(!rec.success);
    assert_eq!(rec.amount, 30);
}

#[test]
fn bet_rejects_short_funds_and_wrong_accounts() {
    let mut poor = bet_ctx(200, 100, 10, 2);
    let before = poor;
    let r = bet(&mut poor, BetArgs { amount: 11, bet_type: BetType::Head }, &program_id(), EVEN);
    assert_eq!(r, Err(CoinFlipErrorCode::InsufficientFunds));
    assert_eq!(poor, before);

    let mut wrong_pool = bet_ctx(200, 100, 100, 2);
    wrong_pool.coin_flip_account.key = bettor(9);
    let before = wrong_pool;
    let r = bet(&mut wrong_pool, BetArgs { amount: 5, bet_type: BetType::Head }, &program_id(), EVEN);
    assert_eq!(r, Err(CoinFlipErrorCode::OwnerMismatch));
    assert_eq!(wrong_pool, before);

    let mut wrong_bump = bet_ctx(200, 100, 100, 2);
    wrong_bump.coin_flip.bump = wrong_bump.coin_flip.bump.wrapping_add(1);
    let r = bet(&mut wrong_bump, BetArgs { amount: 5, bet_type: BetType::Head }, &program_id(), EVEN);
    assert_eq!(r, Err(CoinFlipErrorCode::OwnerMismatch));

    // a receipt derived from another bettor
    let mut wrong_receipt = bet_ctx(200, 100, 100, 2);
    wrong_receipt.claimant_account.key = receipt_key(&bettor(3)).0;
    let before = wrong_receipt;
    let r = bet(&mut wrong_receipt, BetArgs { amount: 5, bet_type: BetType::Head }, &program_id(), EVEN);
    assert_eq!(r, Err(CoinFlipErrorCode::OwnerMismatch));
    assert_eq!(wrong_receipt, before);

    // an existing receipt that names another owner
    let mut foreign = bet_ctx(200, 100, 100, 2);
    foreign.claimant = Some(Claimant {
        success: false,
        amount: 1,
        claimant_bump: receipt_key(&bettor(2)).1,
        claimant: bettor(3),
    });
    let r = bet(&mut foreign, BetArgs { amount: 5, bet_type: BetType::Head }, &program_id(), EVEN);
    assert_eq!(r, Err(CoinFlipErrorCode::OwnerMismatch));
}

#[test]
fn second_bet_overwrites_receipt() {
    let mut ctx = bet_ctx(1000, 100, 500, 2);
    bet(&mut ctx, BetArgs { amount: 40, bet_type: BetType::Head }, &program_id(), EVEN).unwrap();
    let r = bet(&mut ctx, BetArgs { amount: 25, bet_type: BetType::Head }, &program_id(), ODD);
    assert_eq!(r, Ok(Settlement { won: false, payout: 0 }));
    let rec = ctx.claimant.unwrap();
    assert!(!rec.success);
    assert_eq!(rec.amount, 25);
    assert_eq!(ctx.claimant_account.lamports, 40);
    assert_eq!(ctx.coin_flip_account.lamports, 1000 + 40 - 40 + 25);
}

#[test]
fn value_is_conserved_over_a_run_of_bets() {
    let mut ctx = bet_ctx(300, 100, 1000, 2);
    let start_total = total(&ctx);
    let start_pool = ctx.coin_flip_account.lamports as i128;
    let mut stakes: i128 = 0;
    let mut payouts: i128 = 0;
    let plays = [
        (50u64, BetType::Head, EVEN),
        (120, BetType::Head, ODD),
        (400, BetType::Tail, ODD),
        (10, BetType::Tail, EVEN),
        (90, BetType::Head, EVEN),
    ];
    for (amount, side, ts) in plays {
        let s = bet(&mut ctx, BetArgs { amount, bet_type: side }, &program_id(), ts).unwrap();
        stakes += amount as i128;
        payouts += s.payout as i128;
        assert!(ctx.coin_flip_account.lamports >= 100);
        assert_eq!(total(&ctx), start_total);
    }
    assert_eq!(ctx.coin_flip_account.lamports as i128, start_pool + stakes - payouts);
}

#[test]
fn claim_pays_once() {
    let mut b = bet_ctx(1000, 100, 500, 2);
    bet(&mut b, BetArgs { amount: 70, bet_type: BetType::Head }, &program_id(), EVEN).unwrap();
    let mut c = claim_ctx_after(&b);
    assert_eq!(claim(&mut c, ClaimArgs {}, &program_id()), Ok(70));
    assert_eq!(c.claimant, None);
    assert_eq!(c.claimant_account.lamports, 0);
    assert_eq!(c.payer.lamports, 500 - 70 + 70);
    let before = c;
    assert_eq!(claim(&mut c, ClaimArgs {}, &program_id()), Err(CoinFlipErrorCode::NotFound));
    assert_eq!(c, before);
}

#[test]
fn claim_by_another_caller_is_refused() {
    let mut b = bet_ctx(1000, 100, 500, 2);
    bet(&mut b, BetArgs { amount: 70, bet_type: BetType::Head }, &program_id(), EVEN).unwrap();
    let mut c = claim_ctx_after(&b);
    c.payer = Wallet { key: bettor(3), lamports: 5 };
    let before = c;
    assert_eq!(claim(&mut c, ClaimArgs {}, &program_id()), Err(CoinFlipErrorCode::OwnerMismatch));
    assert_eq!(c, before);
}

#[test]
fn claim_under_another_program_is_refused() {
    let mut b = bet_ctx(1000, 100, 500, 2);
    bet(&mut b, BetArgs { amount: 70, bet_type: BetType::Head }, &program_id(), EVEN).unwrap();
    let mut c = claim_ctx_after(&b);
    let before = c;
    let other = Address::new([8u8; 32]);
    assert_eq!(claim(&mut c, ClaimArgs {}, &other), Err(CoinFlipErrorCode::OwnerMismatch));
    assert_eq!(c, before);
}

#[test]
fn events_report_the_outcome() {
    let won = Settlement { won: true, payout: 5 }.event();
    assert_eq!(won.status, "OK");
    assert_eq!(won.message, "Congratulations you've won!");
    let lost = Settlement { won: false, payout: 0 }.event();
    assert_eq!(lost.status, "OK");
    assert_eq!(lost.message, "Sorry you've lost");
}
