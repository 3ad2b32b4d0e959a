use hodlhunt::constants::{
    DAY_DURATION, MIN_DEPOSIT_LAMPORTS, MIN_FEED_LAMPORTS, MIN_MARK_COST_LAMPORTS, PREY_COOLDOWN,
};
use hodlhunt::errors::ErrorCode;
use hodlhunt::finance::{apply_creation_finance, exit_split, feeding_fees, hunt_split, mark_cost};
use hodlhunt::fish::{Fish, PlayerKey};
use hodlhunt::hunt::hunt_fish;
use hodlhunt::marks::{check_hunting_mark_exclusivity, place_hunting_mark};
use hodlhunt::math::{min_feeding_amount, new_share, share_to_value};
use hodlhunt::names::validate_name;
use hodlhunt::ocean::{initialize_ocean, CycleMode, Ocean};
use hodlhunt::operations::{
    create_fish, exit_game, feed_fish, get_new_share, get_share_value, resurrect_fish,
    transfer_fish,
};
use hodlhunt::scheduler::{daily_random_seed, update_ocean_daily};

const NOW: i64 = 1_700_000_000;

fn key(b: u8) -> PlayerKey {
    PlayerKey { bytes: [b; 32] }
}

fn ocean(total_shares: u64, balance: u64) -> Ocean {
    let mut o = initialize_ocean(key(200), key(201), 254, NOW);
    o.total_shares = total_shares;
    o.balance_fishes = balance;
    o.total_fish_count = 2;
    o.next_fish_id = 3;
    o
}

fn fish(id: u64, owner: u8, share: u64) -> Fish {
    Fish {
        id,
        owner: key(owner),
        share,
        name: format!("fish{}", id),
        created_at: NOW - 30 * DAY_DURATION,
        last_fed_at: NOW - 30 * DAY_DURATION,
        last_hunt_at: NOW - 30 * DAY_DURATION,
        can_hunt_after: NOW - 20 * DAY_DURATION,
        is_protected: true,
        protection_ends_at: NOW - 23 * DAY_DURATION,
        total_hunts: 0,
        total_hunt_income: 0,
        received_from_hunt_value: 0,
        hunting_marks_placed: 0,
        last_mark_reset: NOW - 30 * DAY_DURATION,
        marked_by_hunter_id: 0,
        mark_placed_at: 0,
        mark_expires_at: 0,
        mark_cost: 0,
    }
}

#[test]
fn feed_minimum_scenario() {
    let o = ocean(1000, 1000);
    let f = fish(1, 1, 100);
    assert_eq!(min_feeding_amount(&o, &f), MIN_FEED_LAMPORTS);

    let (mut o1, mut f1) = (o, f.clone());
    let r = feed_fish(&mut o1, &mut f1, &key(1), MIN_FEED_LAMPORTS - 1, u64::MAX, NOW);
    assert_eq!(r.unwrap_err(), ErrorCode::InsufficientFeedingAmount);
    assert_eq!(f1.share, 100);
    assert_eq!(o1.total_shares, 1000);

    let (mut o2, mut f2) = (o, f.clone());
    let ev = feed_fish(&mut o2, &mut f2, &key(1), MIN_FEED_LAMPORTS, u64::MAX, NOW).unwrap();
    assert_eq!(ev.base_cost, MIN_FEED_LAMPORTS);
    assert_eq!(ev.admin_fee, 500_000);
    assert_eq!(ev.pool_fee, 500_000);
    assert_eq!(o2.balance_fishes, 1000 + MIN_FEED_LAMPORTS + 500_000);
    // Priced against the balance before the deposit (1000 + pool fee).
    let expected_added = (MIN_FEED_LAMPORTS as u128 * 1000 + 500_000 / 2) / 501_000;
    assert_eq!(ev.added_share as u128, expected_added);
    assert_eq!(f2.share, 100 + ev.added_share);
    assert_eq!(o2.total_shares, 1000 + ev.added_share);
    assert_eq!(f2.last_fed_at, NOW);
    assert_eq!(f2.can_hunt_after, NOW + 2 * DAY_DURATION);
}

#[test]
fn feed_clears_mark_and_credit() {
    let mut o = ocean(1000, 1000);
    let mut f = fish(1, 1, 100);
    f.marked_by_hunter_id = 9;
    f.mark_placed_at = NOW - 10;
    f.mark_expires_at = NOW + 100;
    f.mark_cost = 77;
    f.received_from_hunt_value = 5;
    feed_fish(&mut o, &mut f, &key(1), MIN_FEED_LAMPORTS, u64::MAX, NOW).unwrap();
    assert_eq!(f.marked_by_hunter_id, 0);
    assert_eq!(f.mark_placed_at, 0);
    assert_eq!(f.mark_expires_at, 0);
    assert_eq!(f.mark_cost, 0);
    assert_eq!(f.received_from_hunt_value, 0);
}

#[test]
fn feed_refusals() {
    let o = ocean(1000, 1000);
    let (mut o1, mut dead) = (o, fish(1, 1, 0));
    assert_eq!(
        feed_fish(&mut o1, &mut dead, &key(1), MIN_FEED_LAMPORTS, u64::MAX, NOW).unwrap_err(),
        ErrorCode::FishAlreadyDead
    );
    let (mut o2, mut f) = (o, fish(1, 1, 100));
    assert_eq!(
        feed_fish(&mut o2, &mut f, &key(2), MIN_FEED_LAMPORTS, u64::MAX, NOW).unwrap_err(),
        ErrorCode::NotFishOwner
    );
    // amount + 10% commission must be covered.
    assert_eq!(
        feed_fish(&mut o2, &mut f, &key(1), MIN_FEED_LAMPORTS, MIN_FEED_LAMPORTS + 999_999, NOW)
            .unwrap_err(),
        ErrorCode::InsufficientFunds
    );
    assert!(feed_fish(&mut o2, &mut f, &key(1), MIN_FEED_LAMPORTS, MIN_FEED_LAMPORTS + 1_000_000, NOW).is_ok());
}

fn hunt_setup() -> (Ocean, Fish, Fish) {
    let o = ocean(300, 300);
    let hunter = fish(1, 1, 200);
    let prey = fish(2, 2, 100);
    (o, hunter, prey)
}

#[test]
fn hunt_split_scenario() {
    let (mut o, mut hunter, mut prey) = hunt_setup();
    let ev = hunt_fish(&mut o, &mut hunter, &mut prey, &key(1), 100, u64::MAX, NOW).unwrap();
    assert_eq!(ev.bite_share, 100);
    assert_eq!(ev.to_hunter, 80);
    assert_eq!(ev.to_pool, 10);
    assert_eq!(ev.to_admin, 10);
    assert_eq!(ev.to_admin_value, 10);
    assert_eq!(hunter.share, 280);
    assert_eq!(prey.share, 0);
    assert_eq!(o.total_shares, 280);
    assert_eq!(hunter.share + prey.share, o.total_shares);
    assert_eq!(o.balance_fishes, 290);
    assert_eq!(o.total_fish_count, 1);
    assert_eq!(hunter.last_hunt_at, NOW);
    assert_eq!(hunter.can_hunt_after, NOW + 2 * DAY_DURATION);
    assert_eq!(hunter.total_hunts, 1);
    // Reward value 80 * 290 / 280 rounds to 83, below the minimum feed: banked.
    assert_eq!(ev.received_from_hunt_value, 83);
    assert_eq!(hunter.received_from_hunt_value, 83);
    assert_eq!(hunter.total_hunt_income, 83);
}

#[test]
fn hunt_large_reward_counts_as_feeding() {
    let big = 100 * MIN_FEED_LAMPORTS;
    let mut o = ocean(300, 3 * big);
    let mut hunter = fish(1, 1, 200);
    let mut prey = fish(2, 2, 100);
    hunt_fish(&mut o, &mut hunter, &mut prey, &key(1), 100, u64::MAX, NOW).unwrap();
    assert_eq!(hunter.last_fed_at, NOW);
    assert_eq!(hunter.received_from_hunt_value, 0);
}

#[test]
fn hunt_refusals() {
    let (o, hunter, prey) = hunt_setup();
    let run = |mut o: Ocean, mut h: Fish, mut p: Fish, owner: u8, expected: u64, vault: u64| {
        let before = (h.clone(), p.clone(), o);
        let r = hunt_fish(&mut o, &mut h, &mut p, &key(owner), expected, vault, NOW);
        if r.is_err() {
            assert_eq!(h.share, before.0.share);
            assert_eq!(p.share, before.1.share);
            assert_eq!(o.total_shares, before.2.total_shares);
        }
        r.map(|_| ())
    };
    assert_eq!(run(o, hunter.clone(), fish(2, 2, 0), 1, 100, u64::MAX), Err(ErrorCode::FishAlreadyDead));
    assert_eq!(run(o, hunter.clone(), prey.clone(), 3, 100, u64::MAX), Err(ErrorCode::NotFishOwner));
    assert_eq!(run(o, hunter.clone(), fish(2, 1, 100), 1, 100, u64::MAX), Err(ErrorCode::InvalidPrey));
    assert_eq!(run(o, hunter.clone(), fish(1, 2, 100), 1, 100, u64::MAX), Err(ErrorCode::InvalidPrey));
    assert_eq!(run(o, fish(1, 1, 100), prey.clone(), 1, 100, u64::MAX), Err(ErrorCode::PreyTooHeavy));
    let mut resting = hunter.clone();
    resting.can_hunt_after = NOW + 1;
    assert_eq!(run(o, resting, prey.clone(), 1, 100, u64::MAX), Err(ErrorCode::HuntingOnCooldown));
    let mut fed = prey.clone();
    fed.last_fed_at = NOW - PREY_COOLDOWN + 1;
    assert_eq!(run(o, hunter.clone(), fed, 1, 100, u64::MAX), Err(ErrorCode::InvalidPrey));
    let mut shielded = prey.clone();
    shielded.protection_ends_at = NOW + 1;
    assert_eq!(run(o, hunter.clone(), shielded, 1, 100, u64::MAX), Err(ErrorCode::InvalidPrey));
    assert_eq!(run(o, hunter.clone(), prey.clone(), 1, 90, u64::MAX), Err(ErrorCode::SlippageExceeded));
    assert_eq!(run(o, hunter.clone(), prey.clone(), 1, 106, u64::MAX), Ok(()));
    assert_eq!(run(o, hunter.clone(), prey.clone(), 1, 107, u64::MAX), Err(ErrorCode::SlippageExceeded));
    assert_eq!(run(o, hunter.clone(), prey.clone(), 1, 96, u64::MAX), Ok(()));
    assert_eq!(run(o, hunter.clone(), prey.clone(), 1, 100, 9), Err(ErrorCode::InsufficientFunds));
    assert_eq!(run(o, hunter.clone(), prey.clone(), 1, 100, 10), Ok(()));
}

fn marked_prey(hunter_id: u64, expires_at: i64) -> Fish {
    let mut p = fish(2, 2, 100);
    p.marked_by_hunter_id = hunter_id;
    p.mark_placed_at = NOW - 100;
    p.mark_expires_at = expires_at;
    p.mark_cost = MIN_MARK_COST_LAMPORTS;
    p
}

#[test]
fn mark_exclusivity_blocks_others_until_expiry() {
    let e = NOW + 50;
    for now in [NOW - 99, NOW, e] {
        let mut p = marked_prey(7, e);
        assert_eq!(check_hunting_mark_exclusivity(&mut p, 1, now), Err(ErrorCode::MarkExclusivityActive));
    }
    let mut p = marked_prey(7, e);
    assert_eq!(check_hunting_mark_exclusivity(&mut p, 1, e + 1), Ok(()));
    assert_eq!(p.marked_by_hunter_id, 0);
    let mut own = marked_prey(7, e);
    assert_eq!(check_hunting_mark_exclusivity(&mut own, 7, NOW), Ok(()));
    assert_eq!(own.marked_by_hunter_id, 7);
}

#[test]
fn hunt_respects_mark() {
    let e = NOW;
    let (o, hunter, _) = hunt_setup();
    let (mut o1, mut h1, mut p1) = (o, hunter.clone(), marked_prey(7, e));
    assert_eq!(
        hunt_fish(&mut o1, &mut h1, &mut p1, &key(1), 100, u64::MAX, NOW).unwrap_err(),
        ErrorCode::MarkExclusivityActive
    );
    assert_eq!(p1.marked_by_hunter_id, 7);
    let (mut o2, mut h2, mut p2) = (o, hunter.clone(), marked_prey(7, e - 1));
    assert!(hunt_fish(&mut o2, &mut h2, &mut p2, &key(1), 100, u64::MAX, NOW).is_ok());
    let (mut o3, mut h3, mut p3) = (o, hunter.clone(), marked_prey(1, e));
    assert!(hunt_fish(&mut o3, &mut h3, &mut p3, &key(1), 100, u64::MAX, NOW).is_ok());
}

#[test]
fn place_mark_prices_and_reserves() {
    let (o, hunter, prey) = hunt_setup();
    // Prey becomes huntable in 20 minutes: high rate, floored at the minimum.
    let mut p = prey.clone();
    p.last_fed_at = NOW - PREY_COOLDOWN + 1200;
    let (mut o1, mut h1) = (o, hunter.clone());
    let ev = place_hunting_mark(&mut o1, &mut h1, &mut p, &key(1), u64::MAX, NOW).unwrap();
    assert_eq!(ev.cost, MIN_MARK_COST_LAMPORTS);
    assert_eq!(ev.cost_percent, 100);
    assert_eq!(ev.time_until_hungry, 1200);
    assert_eq!(p.marked_by_hunter_id, 1);
    assert_eq!(p.mark_placed_at, NOW);
    assert_eq!(p.mark_expires_at, NOW + 1200 + 1200);
    assert_eq!(o1.balance_fishes, 300 + MIN_MARK_COST_LAMPORTS / 2);
    assert_eq!(h1.hunting_marks_placed, 1);

    // A second mark is refused while the first holds.
    let (mut o2, mut h2) = (o, fish(3, 3, 500));
    assert_eq!(
        place_hunting_mark(&mut o2, &mut h2, &mut p, &key(3), u64::MAX, NOW).unwrap_err(),
        ErrorCode::MarkAlreadyActive
    );
}

#[test]
fn place_mark_window() {
    let (o, hunter, prey) = hunt_setup();
    for (offset, expect) in [
        (3 * 3600 + 1, Err(ErrorCode::MarkTooEarly)),
        (3 * 3600, Ok(())),
        (1, Ok(())),
        (0, Err(ErrorCode::MarkTooEarly)),
    ] {
        let mut p = prey.clone();
        p.last_fed_at = NOW - PREY_COOLDOWN + offset;
        let (mut o1, mut h1) = (o, hunter.clone());
        let r = place_hunting_mark(&mut o1, &mut h1, &mut p, &key(1), u64::MAX, NOW).map(|_| ());
        assert_eq!(r, expect);
    }
    let mut p = prey.clone();
    p.last_fed_at = NOW - PREY_COOLDOWN + 60;
    let (mut o1, mut h1) = (o, hunter.clone());
    assert_eq!(
        place_hunting_mark(&mut o1, &mut h1, &mut p, &key(1), MIN_MARK_COST_LAMPORTS - 1, NOW).unwrap_err(),
        ErrorCode::InsufficientFunds
    );
}

#[test]
fn mark_cost_rates() {
    assert_eq!(mark_cost(1_000_000_000, 1800), (100_000_000, 100));
    assert_eq!(mark_cost(1_000_000_000, 1801), (50_000_000, 50));
    assert_eq!(mark_cost(1_000, 60), (MIN_MARK_COST_LAMPORTS, 100));
}

#[test]
fn exit_during_storm_scenario() {
    let mut o = ocean(300, 300);
    o.is_storm = true;
    let mut f = fish(1, 1, 100);
    assert_eq!(exit_game(&mut o, &mut f, &key(1), u64::MAX).unwrap_err(), ErrorCode::ExitDuringStorm);
    assert_eq!(f.share, 100);
    o.is_storm = false;
    let ev = exit_game(&mut o, &mut f, &key(1), u64::MAX).unwrap();
    assert_eq!(ev.exited_share, 100);
    assert_eq!(f.share, 0);
}

#[test]
fn exit_pays_value_less_double_fee() {
    let mut o = ocean(2000, 2000);
    let mut f = fish(1, 1, 1000);
    let ev = exit_game(&mut o, &mut f, &key(1), u64::MAX).unwrap();
    assert_eq!(ev.payout, 1000);
    assert_eq!(ev.pool_fee, 50);
    assert_eq!(ev.admin_fee, 50);
    assert_eq!(ev.to_player, 900);
    assert_eq!(o.total_shares, 1000);
    assert_eq!(o.balance_fishes, 2000 - 900 - 50);
    assert_eq!(o.total_fish_count, 1);
    assert_eq!(ev.new_balance, 1050);

    let mut o2 = ocean(2000, 2000);
    let mut f2 = fish(1, 1, 1000);
    assert_eq!(exit_game(&mut o2, &mut f2, &key(1), 899).unwrap_err(), ErrorCode::InsufficientVaultBalance);
    assert_eq!(exit_game(&mut o2, &mut f2, &key(1), 949).unwrap_err(), ErrorCode::InsufficientFunds);
    assert_eq!(exit_game(&mut o2, &mut f2, &key(2), u64::MAX).unwrap_err(), ErrorCode::NotFishOwner);
    assert!(exit_game(&mut o2, &mut f2, &key(1), 950).is_ok());
    assert_eq!(exit_game(&mut o2, &mut f2, &key(1), u64::MAX).unwrap_err(), ErrorCode::FishAlreadyDead);
}

#[test]
fn fee_splits() {
    assert_eq!(exit_split(1000), (50, 900));
    assert_eq!(exit_split(19), (0, 19));
    assert_eq!(feeding_fees(1000), (100, 50, 50));
    assert_eq!(feeding_fees(1010), (101, 50, 51));
    assert_eq!(hunt_split(100), (80, 10, 10));
    assert_eq!(hunt_split(105), (84, 10, 10));
    assert_eq!(apply_creation_finance(u64::MAX, MIN_DEPOSIT_LAMPORTS), Ok((500_000, 500_000, MIN_DEPOSIT_LAMPORTS)));
    assert_eq!(apply_creation_finance(u64::MAX, MIN_DEPOSIT_LAMPORTS - 1), Err(ErrorCode::MinimumDeposit));
    assert_eq!(apply_creation_finance(MIN_DEPOSIT_LAMPORTS + 999_999, MIN_DEPOSIT_LAMPORTS), Err(ErrorCode::InsufficientFunds));
    assert!(apply_creation_finance(MIN_DEPOSIT_LAMPORTS + 1_000_000, MIN_DEPOSIT_LAMPORTS).is_ok());
}

#[test]
fn share_math_rounds_half_up() {
    assert_eq!(share_to_value(&ocean(3, 10), 1), 3);
    assert_eq!(share_to_value(&ocean(3, 10), 2), 7);
    assert_eq!(share_to_value(&ocean(2, 1), 1), 1);
    assert_eq!(share_to_value(&ocean(0, 10), 5), 0);
    assert_eq!(share_to_value(&ocean(u64::MAX, u64::MAX), u64::MAX), u64::MAX);
    assert_eq!(new_share(&ocean(0, 50), 50), 50);
    assert_eq!(new_share(&ocean(1000, 1500), 500), 500);
    assert_eq!(new_share(&ocean(3, 13), 10), 10);
    assert_eq!(new_share(&ocean(10, 5), 5), 0);
    assert_eq!(get_new_share(&ocean(1000, 1500), 500), 500);
    assert_eq!(get_share_value(&ocean(4, 10), &fish(1, 1, 1)), 3);
}

#[test]
fn deposit_round_trip() {
    for (total, before, v) in [(1000u64, 1000u64, 250u64), (7, 5, 3), (1_000_000, 999_999, 12_345)] {
        let o = ocean(total, before + v);
        let s = new_share(&o, v);
        let after = ocean(total + s, before + v);
        let back = share_to_value(&after, s);
        assert!(back == v || back == v + 1, "{} {} {} -> {}", total, before, v, back);
    }
}

#[test]
fn bootstrap_create() {
    let mut o = initialize_ocean(key(200), key(201), 254, NOW);
    let (f, ev) = create_fish(&mut o, key(1), "  Nemo  ", false, MIN_DEPOSIT_LAMPORTS, u64::MAX, NOW).unwrap();
    assert_eq!(f.share, MIN_DEPOSIT_LAMPORTS);
    assert_eq!(o.total_shares, MIN_DEPOSIT_LAMPORTS);
    assert_eq!(o.balance_fishes, MIN_DEPOSIT_LAMPORTS + 500_000);
    assert_eq!(ev.admin_fee, 500_000);
    assert_eq!(f.name, "Nemo");
    assert_eq!(ev.name, "Nemo");
    assert_eq!(f.id, 1);
    assert_eq!(o.next_fish_id, 2);
    assert_eq!(o.total_fish_count, 1);
    assert!(f.is_protected);
    assert_eq!(f.protection_ends_at, NOW + 7 * DAY_DURATION);
    assert_eq!(f.can_hunt_after, NOW + 2 * DAY_DURATION);
    assert_eq!(f.last_fed_at, NOW);
}

#[test]
fn create_refusals() {
    let o = initialize_ocean(key(200), key(201), 254, NOW);
    let attempt = |name: &str, taken: bool, deposit: u64, payer: u64| {
        let mut o1 = o;
        let r = create_fish(&mut o1, key(1), name, taken, deposit, payer, NOW).map(|_| ());
        if r.is_err() {
            assert_eq!(o1.next_fish_id, o.next_fish_id);
        }
        r
    };
    assert_eq!(attempt("   ", false, MIN_DEPOSIT_LAMPORTS, u64::MAX), Err(ErrorCode::InvalidName));
    assert_eq!(attempt(&"x".repeat(33), false, MIN_DEPOSIT_LAMPORTS, u64::MAX), Err(ErrorCode::NameTooLong));
    assert_eq!(attempt(&"x".repeat(32), false, MIN_DEPOSIT_LAMPORTS, u64::MAX), Ok(()));
    assert_eq!(attempt("a\tb", false, MIN_DEPOSIT_LAMPORTS, u64::MAX), Err(ErrorCode::InvalidName));
    assert_eq!(attempt("né", false, MIN_DEPOSIT_LAMPORTS, u64::MAX), Err(ErrorCode::InvalidName));
    assert_eq!(attempt("Nemo", true, MIN_DEPOSIT_LAMPORTS, u64::MAX), Err(ErrorCode::NameAlreadyTaken));
    assert_eq!(attempt("Nemo", false, MIN_DEPOSIT_LAMPORTS - 1, u64::MAX), Err(ErrorCode::MinimumDeposit));
    assert_eq!(attempt("Nemo", false, MIN_DEPOSIT_LAMPORTS, MIN_DEPOSIT_LAMPORTS), Err(ErrorCode::InsufficientFunds));
}

#[test]
fn name_validation_trims() {
    assert_eq!(validate_name("  Dory\n").unwrap(), "Dory");
    assert_eq!(validate_name(""), Err(ErrorCode::InvalidName));
    assert_eq!(validate_name("a\u{7f}"), Err(ErrorCode::InvalidName));
}

#[test]
fn resurrect_needs_dead_fish() {
    let mut o = ocean(300, 300);
    let alive = fish(1, 1, 100);
    assert_eq!(
        resurrect_fish(&mut o, &alive, key(1), "Again", false, MIN_DEPOSIT_LAMPORTS, u64::MAX, NOW).unwrap_err(),
        ErrorCode::FishAlreadyDead
    );
    assert_eq!(
        resurrect_fish(&mut o, &alive, key(1), "Again", false, MIN_DEPOSIT_LAMPORTS, MIN_DEPOSIT_LAMPORTS - 1, NOW)
            .unwrap_err(),
        ErrorCode::InsufficientFunds
    );
    let dead = fish(1, 1, 0);
    let (f, ev) = resurrect_fish(&mut o, &dead, key(1), "Again", false, MIN_DEPOSIT_LAMPORTS, u64::MAX, NOW).unwrap();
    assert_eq!(ev.old_fish_id, 1);
    assert_eq!(ev.new_fish_id, 3);
    assert_eq!(f.id, 3);
    assert_eq!(o.next_fish_id, 4);
    assert_eq!(o.total_shares, 300 + f.share);
}

#[test]
fn transfer_moves_everything_but_owner() {
    let mut f = fish(1, 1, 100);
    f.total_hunts = 4;
    f.marked_by_hunter_id = 9;
    assert_eq!(transfer_fish(f.clone(), &key(2), &key(3)).unwrap_err(), ErrorCode::NotFishOwner);
    assert_eq!(transfer_fish(f.clone(), &key(1), &key(1)).unwrap_err(), ErrorCode::CannotTransferToSelf);
    assert_eq!(transfer_fish(fish(1, 1, 0), &key(1), &key(3)).unwrap_err(), ErrorCode::FishAlreadyDead);
    let (moved, ev) = transfer_fish(f.clone(), &key(1), &key(3)).unwrap();
    assert_eq!(moved.owner.bytes, [3; 32]);
    assert_eq!(moved.id, 1);
    assert_eq!(moved.share, 100);
    assert_eq!(moved.total_hunts, 4);
    assert_eq!(moved.marked_by_hunter_id, 9);
    assert_eq!(moved.name, f.name);
    assert_eq!(ev.fish_id, 1);
}

#[test]
fn shares_stay_conserved_over_a_game() {
    let mut o = initialize_ocean(key(200), key(201), 254, NOW);
    let (mut a, _) = create_fish(&mut o, key(1), "A", false, 30 * MIN_DEPOSIT_LAMPORTS, u64::MAX, NOW).unwrap();
    let (mut b, _) = create_fish(&mut o, key(2), "B", false, 10 * MIN_DEPOSIT_LAMPORTS + 7, u64::MAX, NOW).unwrap();
    assert_eq!(a.share + b.share, o.total_shares);
    feed_fish(&mut o, &mut a, &key(1), 2 * MIN_FEED_LAMPORTS, u64::MAX, NOW).unwrap();
    assert_eq!(a.share + b.share, o.total_shares);
    let later = NOW + 8 * DAY_DURATION;
    assert_ne!(b.share % 10, 0);
    let expected = b.share;
    hunt_fish(&mut o, &mut a, &mut b, &key(1), expected, u64::MAX, later).unwrap();
    assert_eq!(a.share + b.share, o.total_shares);
    exit_game(&mut o, &mut a, &key(1), u64::MAX).unwrap();
    assert_eq!(a.share + b.share, o.total_shares);
    assert_eq!(o.total_shares, 0);
}

#[test]
fn ocean_starts_calm_with_next_midnight() {
    let o = initialize_ocean(key(200), key(201), 7, 100_000);
    assert_eq!(o.cycle_start_time, 86_400);
    assert_eq!(o.next_mode_change_time, 172_800);
    assert!(!o.is_storm);
    assert_eq!(o.feeding_percentage, 500);
    assert_eq!(o.next_fish_id, 1);
    assert_eq!(o.last_cycle_mode, CycleMode::Unset);
    let m = initialize_ocean(key(200), key(201), 7, 86_400);
    assert_eq!(m.cycle_start_time, 86_400);
    assert_eq!(m.next_mode_change_time, 172_800);
    assert!(o.should_change_mode(172_800));
    assert!(!o.should_change_mode(172_799));
    assert!(o.determine_next_mode(1249));
    assert!(!o.determine_next_mode(1250));
}

#[test]
fn scheduler_early_call_is_noop() {
    let mut o = initialize_ocean(key(200), key(201), 7, 100_000);
    o.is_storm = true;
    o.feeding_percentage = 1000;
    let r = update_ocean_daily(&mut o, 172_799, 5, None);
    assert!(r.is_none());
    assert!(o.is_storm);
    assert_eq!(o.feeding_percentage, 1000);
    assert_eq!(o.cycle_start_time, 86_400);
    assert_eq!(o.next_mode_change_time, 172_800);
}

#[test]
fn scheduler_rolls_at_midnight() {
    let hash = vec![9u8; 32];
    let mut o = initialize_ocean(key(200), key(201), 7, 100_000);
    let seed = daily_random_seed(172_805, 5, o.cycle_start_time, 7, Some(&hash));
    let ev = update_ocean_daily(&mut o, 172_805, 5, Some(&hash)).unwrap();
    let storm = seed % 1000 < 250;
    assert_eq!(o.is_storm, storm);
    assert_eq!(ev.new_mode, storm);
    assert_eq!(o.feeding_percentage, if storm { 1000 } else { 500 });
    assert_eq!(o.last_cycle_mode, if storm { CycleMode::Storm } else { CycleMode::Calm });
    assert_eq!(o.cycle_start_time, 172_800);
    assert_eq!(o.next_mode_change_time, 259_200);
    assert_eq!(ev.reason, "daily_roll_250bps");
    assert_eq!(ev.timestamp, 172_805);
}

#[test]
fn seed_is_keccak_of_entropy() {
    let hash = vec![3u8; 32];
    let mut buf = Vec::new();
    buf.extend_from_slice(&(NOW as u64).to_le_bytes());
    buf.extend_from_slice(&42u64.to_le_bytes());
    buf.extend_from_slice(&((NOW - 5) as u64).to_le_bytes());
    buf.push(254);
    #[allow(deprecated)]
    let plain = anchor_lang::solana_program::keccak::hash(&buf).to_bytes();
    let mut first = [0u8; 8];
    first.copy_from_slice(&plain[..8]);
    assert_eq!(daily_random_seed(NOW, 42, NOW - 5, 254, None), u64::from_le_bytes(first));
    #[allow(deprecated)]
    let mixed = anchor_lang::solana_program::keccak::hashv(&[&buf, &hash]).to_bytes();
    first.copy_from_slice(&mixed[..8]);
    assert_eq!(daily_random_seed(NOW, 42, NOW - 5, 254, Some(&hash)), u64::from_le_bytes(first));
}

#[test]
fn hunt_burns_rounding_dust_with_the_fees() {
    let mut o = ocean(301, 301);
    let mut hunter = fish(1, 1, 200);
    let mut prey = fish(2, 2, 101);
    let ev = hunt_fish(&mut o, &mut hunter, &mut prey, &key(1), 101, u64::MAX, NOW).unwrap();
    assert_eq!((ev.to_hunter, ev.to_pool, ev.to_admin), (80, 10, 10));
    assert_eq!(hunter.share, 280);
    assert_eq!(prey.share, 0);
    assert_eq!(o.total_shares, 280);
    assert_eq!(hunter.share + prey.share, o.total_shares);
}

#[test]
fn error_messages() {
    assert_eq!(ErrorCode::ExitDuringStorm.message(), "Cannot exit during storm");
    assert_eq!(ErrorCode::MinimumDeposit.message(), "Minimum deposit is 0.01 SOL");
}

#[test]
fn share_value_saturates_beyond_total() {
    let o = ocean(1, u64::MAX);
    assert_eq!(share_to_value(&o, 1), u64::MAX);
    assert_eq!(share_to_value(&o, 2), u64::MAX);
    assert_eq!(new_share(&ocean(u64::MAX, u64::MAX), u64::MAX - 1), u64::MAX);
}

#[test]
fn scheduler_changes_at_most_once_a_day() {
    let mut o = initialize_ocean(key(200), key(201), 7, 100_000);
    assert!(update_ocean_daily(&mut o, 172_805, 5, None).is_some());
    let after = o;
    for later in [172_805, 200_000, 259_199] {
        assert!(update_ocean_daily(&mut o, later, 6, None).is_none());
        assert_eq!(o.is_storm, after.is_storm);
        assert_eq!(o.feeding_percentage, after.feeding_percentage);
        assert_eq!(o.cycle_start_time, after.cycle_start_time);
        assert_eq!(o.next_mode_change_time, after.next_mode_change_time);
    }
    assert!(update_ocean_daily(&mut o, 259_200, 7, None).is_some());
}

#[test]
fn name_trim_uses_unicode_white_space() {
    assert_eq!(validate_name("\u{3000}Nemo\u{a0}\u{2029}").unwrap(), "Nemo");
    assert_eq!(validate_name("\u{85}\u{1680}\u{200a}"), Err(ErrorCode::InvalidName));
    assert_eq!(validate_name("\u{200b}Nemo"), Err(ErrorCode::InvalidName));
}
