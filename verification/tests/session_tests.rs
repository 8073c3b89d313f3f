use escrow_market::accounts::{spl_transfer, TokenAccount};
use escrow_market::errors::{ConfigErrors, ErrorKind, GameErrors, ProfileErrors};
use escrow_market::session::{
    initialize_game, initialize_profile, join_game, Config, GameSession, Initialize,
    InitializeGame, JoinGame,
};

fn addr(n: u8) -> Vec<u8> {
    vec![n; 32]
}

fn admin_ctx() -> Initialize {
    Initialize { admin: addr(1), upgrade_authority: addr(1) }
}

fn test_config() -> Config {
    admin_ctx().initialize(250, vec![addr(20), addr(21)], 254).unwrap()
}

#[test]
fn config_rejects_unauthorized_admin() {
    let ctx = Initialize { admin: addr(1), upgrade_authority: addr(2) };
    assert_eq!(ctx.initialize(250, vec![addr(20)], 254), Err(ConfigErrors::NotAuthorized));
}

#[test]
fn config_rejects_fee_out_of_range() {
    assert_eq!(admin_ctx().initialize(0, vec![addr(20)], 254), Err(ConfigErrors::InvalidFeeRange));
    assert_eq!(
        admin_ctx().initialize(10001, vec![addr(20)], 254),
        Err(ConfigErrors::InvalidFeeRange)
    );
}

#[test]
fn config_rejects_mint_list_out_of_range() {
    assert_eq!(admin_ctx().initialize(250, vec![], 254), Err(ConfigErrors::InvalidMintsRange));
    let eleven: Vec<Vec<u8>> = (0..11).map(|i| addr(30 + i)).collect();
    assert_eq!(admin_ctx().initialize(250, eleven, 254), Err(ConfigErrors::InvalidMintsRange));
}

#[test]
fn config_stores_what_it_was_given() {
    let c = test_config();
    assert_eq!(c.platform_fee, 250);
    assert_eq!(c.allowed_mints.len(), 2);
    assert_eq!(c.bump, 254);
}

#[test]
fn profile_rejects_bad_usernames() {
    assert_eq!(initialize_profile(vec![], 5, 1), Err(ProfileErrors::InvalidUsername));
    assert_eq!(initialize_profile(vec![97u8; 33], 5, 1), Err(ProfileErrors::InvalidUsername));
}

#[test]
fn profile_starts_with_zero_tallies() {
    let p = initialize_profile(b"ada".to_vec(), 5, 1).unwrap();
    assert_eq!(p.username, b"ada".to_vec());
    assert_eq!(p.total_won, 0);
    assert_eq!(p.total_lost, 0);
    assert_eq!(p.created_at, 5);
}

fn creator_ctx(stake_funds: u64) -> InitializeGame {
    InitializeGame {
        signer: addr(2),
        username: b"ada".to_vec(),
        stake_mint: addr(20),
        user_ata: TokenAccount { owner: addr(2), mint: addr(20), amount: stake_funds },
        game_address: addr(40),
        vault_address: addr(41),
    }
}

fn joiner_ctx(n: u8, stake_funds: u64) -> JoinGame {
    JoinGame {
        signer: addr(n),
        username: vec![n; 3],
        user_ata: TokenAccount { owner: addr(n), mint: addr(20), amount: stake_funds },
        stake_mint: addr(20),
    }
}

fn open_session(no_players: u8) -> GameSession {
    let config = test_config();
    let mut ctx = creator_ctx(1000);
    initialize_game(&mut ctx, &config, 77, 100, no_players, 60_000, 9, 255).unwrap()
}

#[test]
fn session_creation_deposits_the_owners_stake() {
    let config = test_config();
    let mut ctx = creator_ctx(1000);
    let s = initialize_game(&mut ctx, &config, 77, 100, 3, 60_000, 9, 255).unwrap();
    assert_eq!(ctx.user_ata.amount, 900);
    assert_eq!(s.vault.amount, 100);
    assert_eq!(s.game.players.len(), 1);
    assert_eq!(s.game.players[0].owner, addr(2));
    assert_eq!(s.game.players[0].username, b"ada".to_vec());
    assert!(!s.game.delegated);
    assert_eq!(s.game.seed, 77);
    assert_eq!(s.game.created_at, 9);
}

#[test]
fn session_creation_rejects_bad_terms() {
    let config = test_config();
    let mut broke = creator_ctx(99);
    assert_eq!(
        initialize_game(&mut broke, &config, 77, 100, 3, 60_000, 9, 255),
        Err(GameErrors::InsufficientFunds)
    );
    let mut ctx = creator_ctx(1000);
    assert_eq!(
        initialize_game(&mut ctx, &config, 77, 100, 3, 29_999, 9, 255),
        Err(GameErrors::InvalidWaitTimeRange)
    );
    assert_eq!(
        initialize_game(&mut ctx, &config, 77, 100, 3, 120_001, 9, 255),
        Err(GameErrors::InvalidWaitTimeRange)
    );
    assert_eq!(
        initialize_game(&mut ctx, &config, 77, 100, 1, 60_000, 9, 255),
        Err(GameErrors::InvalidNoPlayers)
    );
    assert_eq!(
        initialize_game(&mut ctx, &config, 77, 100, 6, 60_000, 9, 255),
        Err(GameErrors::InvalidNoPlayers)
    );
    let mut wrong_mint = creator_ctx(1000);
    wrong_mint.stake_mint = addr(99);
    wrong_mint.user_ata.mint = addr(99);
    assert_eq!(
        initialize_game(&mut wrong_mint, &config, 77, 100, 3, 60_000, 9, 255),
        Err(GameErrors::InvalidMint)
    );
    assert_eq!(wrong_mint.user_ata.amount, 1000);
}

#[test]
fn three_seats_fill_and_delegate_exactly_once() {
    let config = test_config();
    let mut s = open_session(3);
    let mut second = joiner_ctx(3, 500);
    let fired = join_game(&mut second, &mut s, &config).unwrap();
    assert!(!fired);
    assert_eq!(s.game.players.len(), 2);
    assert!(!s.game.delegated);
    assert_eq!(second.user_ata.amount, 400);
    let mut third = joiner_ctx(4, 500);
    let fired = join_game(&mut third, &mut s, &config).unwrap();
    assert!(fired);
    assert_eq!(s.game.players.len(), 3);
    assert!(s.game.delegated);
    assert_eq!(s.vault.amount, 300);
    // a fourth join fails closed and moves no funds
    let mut fourth = joiner_ctx(5, 500);
    let r = join_game(&mut fourth, &mut s, &config);
    assert_eq!(r, Err(GameErrors::PlayersAlreadyComplete));
    assert_eq!(fourth.user_ata.amount, 500);
    assert_eq!(s.vault.amount, 300);
    assert_eq!(s.game.players.len(), 3);
    assert!(s.game.delegated);
}

#[test]
fn join_rejects_short_funds_and_foreign_mints() {
    let config = test_config();
    let mut s = open_session(3);
    let mut broke = joiner_ctx(3, 99);
    assert_eq!(join_game(&mut broke, &mut s, &config), Err(GameErrors::InsufficientFunds));
    let mut wrong = joiner_ctx(3, 500);
    wrong.stake_mint = addr(99);
    wrong.user_ata.mint = addr(99);
    assert_eq!(join_game(&mut wrong, &mut s, &config), Err(GameErrors::InvalidMint));
    assert_eq!(s.game.players.len(), 1);
    assert_eq!(s.vault.amount, 100);
}

#[test]
fn transfer_is_refused_without_the_move_authority() {
    let mut from = TokenAccount { owner: addr(2), mint: addr(20), amount: 10 };
    let mut to = TokenAccount { owner: addr(3), mint: addr(20), amount: 0 };
    let stranger = addr(9);
    assert_eq!(
        spl_transfer(&mut from, &mut to, &stranger, 5),
        Err(ErrorKind::AuthorizationError)
    );
    assert_eq!(from.amount, 10);
    assert_eq!(to.amount, 0);
}

#[test]
fn transfer_moves_exactly_what_was_asked() {
    let mut from = TokenAccount { owner: addr(2), mint: addr(20), amount: 10 };
    let mut to = TokenAccount { owner: addr(3), mint: addr(20), amount: 1 };
    let authority = addr(2);
    spl_transfer(&mut from, &mut to, &authority, 4).unwrap();
    assert_eq!(from.amount, 6);
    assert_eq!(to.amount, 5);
    assert_eq!(
        spl_transfer(&mut from, &mut to, &authority, 7),
        Err(ErrorKind::ArithmeticError)
    );
}
