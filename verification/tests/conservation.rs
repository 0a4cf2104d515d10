use signal_wars::arena::{create_season, initialize_arena, register_agent};
use signal_wars::prediction::{resolve_prediction, reveal_prediction, submit_prediction};
use signal_wars::season::enter_season;
use signal_wars::state::Vault;
use signal_wars::treasury::withdraw_treasury;

const AUTHORITY: u64 = 1;
const TREASURY: u64 = 2;
const OWNER: u64 = 10;
const PLAYER: u64 = 11;

fn digest_of(data: &[u8]) -> Vec<u8> {
    anchor_lang::solana_program::hash::hash(data).to_bytes().to_vec()
}

#[test]
fn treasury_balance_is_conserved() {
    // Over a whole sequence of operations the treasury ends at exactly:
    // before + sum(platform fees) + sum(forfeited stakes) - sum(withdrawals).
    let mut arena = initialize_arena(AUTHORITY, TREASURY);
    let (mut agent, _) =
        register_agent(&mut arena, OWNER, b"a".to_vec(), b"e".to_vec(), 0).unwrap();
    let (mut season, _) = create_season(&mut arena, AUTHORITY, 1000, 7, 9000, 100).unwrap();
    let mut vault = Vault::new();
    let mut treasury = Vault::new();
    let mut player_balance: u64 = 10_000;
    let mut authority_balance: u64 = 0;
    let treasury_before = treasury.balance;

    let mut platform_fees: u64 = 0;
    let mut forfeited_stakes: u64 = 0;
    let mut withdrawals: u64 = 0;

    // Entry: the platform's cut of the 1000 fee at 9000 bps is 100.
    let (mut entry, ev) = enter_season(
        &mut season, &mut arena, &agent, PLAYER, &mut player_balance, &mut vault,
        &mut treasury, 150,
    )
    .unwrap();
    platform_fees += ev.platform_fee;

    // A correct resolution: the stake comes back, the treasury sees nothing.
    let (mut p, mut escrow, _) = submit_prediction(
        &season, &agent, PLAYER, &mut player_balance, digest_of(b"one"), 300, 160,
    )
    .unwrap();
    reveal_prediction(&mut p, b"one".to_vec(), 161).unwrap();
    resolve_prediction(
        &mut p, &mut agent, &mut entry, &mut arena, &mut escrow, &mut treasury,
        &mut player_balance, true, AUTHORITY, 162,
    )
    .unwrap();

    // An incorrect resolution: the 250 stake is forfeited to the treasury.
    let (mut p, mut escrow, _) = submit_prediction(
        &season, &agent, PLAYER, &mut player_balance, digest_of(b"two"), 250, 170,
    )
    .unwrap();
    reveal_prediction(&mut p, b"two".to_vec(), 171).unwrap();
    resolve_prediction(
        &mut p, &mut agent, &mut entry, &mut arena, &mut escrow, &mut treasury,
        &mut player_balance, false, AUTHORITY, 172,
    )
    .unwrap();
    forfeited_stakes += 250;

    // An administrative withdrawal of 120.
    withdraw_treasury(&arena, AUTHORITY, &mut treasury, &mut authority_balance, 120).unwrap();
    withdrawals += 120;

    assert_eq!(
        treasury.balance,
        treasury_before + platform_fees + forfeited_stakes - withdrawals,
    );
    // The registry's fee counter saw every inflow and no outflow.
    assert_eq!(arena.total_fees_collected, platform_fees + forfeited_stakes);
}

#[test]
fn entry_fee_never_leaks() {
    // Whatever the split, the full entry fee leaves the player and lands,
    // to the unit, across the season vault and the treasury.
    for bps in [0u16, 1, 3333, 9000, 9999, 10000] {
        let mut arena = initialize_arena(AUTHORITY, TREASURY);
        let (agent, _) =
            register_agent(&mut arena, OWNER, b"a".to_vec(), b"e".to_vec(), 0).unwrap();
        let (mut season, _) = create_season(&mut arena, AUTHORITY, 997, 7, bps, 100).unwrap();
        let mut vault = Vault::new();
        let mut treasury = Vault::new();
        let mut player_balance: u64 = 997;
        enter_season(
            &mut season, &mut arena, &agent, PLAYER, &mut player_balance, &mut vault,
            &mut treasury, 150,
        )
        .unwrap();
        assert_eq!(player_balance, 0);
        assert_eq!(vault.balance + treasury.balance, 997);
        assert_eq!(vault.balance, season.total_pool);
    }
}
