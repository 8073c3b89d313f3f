use vstd::prelude::*;

use crate::accounts::{addr_eq, dup_bytes, TokenAccount};
use crate::errors::{ConfigErrors, GameErrors, ProfileErrors};
use crate::policy::MAX_FEE_BPS;

verus! {

/// Most asset classes a session root may allow-list.
pub const MAX_MINTS_LENGTH: u8 = 10;

/// Smallest admissible wait-time bound, in time units.
pub const MIN_WAIT_TIME: i64 = 30_000;

/// Largest admissible wait-time bound, in time units.
pub const MAX_WAIT_TIME: i64 = 120_000;

/// Smallest admissible seat bound.
pub const MIN_NO_PLAYERS: u8 = 2;

/// Largest admissible seat bound.
pub const MAX_NO_PLAYERS: u8 = 5;

/// Root configuration of the session program: fee setting, allow-listed
/// stake asset classes, and the derivation nonce of its own address.
#[derive(Clone, Debug, PartialEq, Eq)]
pub struct Config {
    pub platform_fee: u16,
    pub allowed_mints: Vec<Vec<u8>>,
    pub bump: u8,
}

impl Config {
    /// Invariant established by `Initialize::initialize`.
    pub open spec fn wf(self) -> bool {
        &&& 0 < self.platform_fee <= MAX_FEE_BPS
        &&& 1 <= self.allowed_mints@.len() <= MAX_MINTS_LENGTH as int
    }

    /// Whether the asset class `mint` is allow-listed.
    pub open spec fn allows(self, mint: Seq<u8>) -> bool {
        exists|i: int|
            0 <= i < self.allowed_mints@.len() && (#[trigger] self.allowed_mints@[i])@ == mint
    }

    /// Scans the allow-list for `mint`.
    pub fn contains_mint(&self, mint: &Vec<u8>) -> (r: bool)
        ensures
            r == self.allows(mint@),
    {
        let mut i: usize = 0;
        while i < self.allowed_mints.len()
            invariant
                i <= self.allowed_mints@.len(),
                forall|k: int| 0 <= k < i ==> (#[trigger] self.allowed_mints@[k])@ != mint@,
            decreases self.allowed_mints@.len() - i,
        {
            if addr_eq(&self.allowed_mints[i], mint) {
                return true;
            }
            i += 1;
        }
        false
    }
}

/// The administrative identities the root-maintenance instruction checks:
/// the co-signing administrator and the program's recorded upgrade
/// authority, which must be the same identity.
#[derive(Clone, Debug, PartialEq, Eq)]
pub struct Initialize {
    pub admin: Vec<u8>,
    pub upgrade_authority: Vec<u8>,
}

impl Initialize {
    /// Creates (or, run again, refreshes) the session root configuration.
    ///
    /// Fails with `NotAuthorized` if the co-signer is not the upgrade
    /// authority; with `InvalidFeeRange` if the fee setting is zero or
    /// above `MAX_FEE_BPS`; with `InvalidMintsRange` if the allow-list is
    /// empty or holds more than `MAX_MINTS_LENGTH` entries.
    pub fn initialize(
        &self,
        platform_fee: u16,
        allowed_mints: Vec<Vec<u8>>,
        bump: u8,
    ) -> (r: Result<Config, ConfigErrors>)
        ensures
            r is Ok <==> {
                &&& self.upgrade_authority@ == self.admin@
                &&& 0 < platform_fee <= MAX_FEE_BPS
                &&& 1 <= allowed_mints@.len() <= MAX_MINTS_LENGTH as int
            },
            self.upgrade_authority@ != self.admin@ ==> r == Err::<Config, ConfigErrors>(
                ConfigErrors::NotAuthorized,
            ),
            self.upgrade_authority@ == self.admin@ && !(0 < platform_fee <= MAX_FEE_BPS) ==> r
                == Err::<Config, ConfigErrors>(ConfigErrors::InvalidFeeRange),
            self.upgrade_authority@ == self.admin@ && 0 < platform_fee <= MAX_FEE_BPS && !(1
                <= allowed_mints@.len() <= MAX_MINTS_LENGTH as int) ==> r == Err::<
                Config,
                ConfigErrors,
            >(ConfigErrors::InvalidMintsRange),
            r matches Ok(c) ==> {
                &&& c.platform_fee == platform_fee
                &&& c.allowed_mints == allowed_mints
                &&& c.bump == bump
                &&& c.wf()
            },
    {
        if !addr_eq(&self.upgrade_authority, &self.admin) {
            return Err(ConfigErrors::NotAuthorized);
        }
        if platform_fee == 0 || platform_fee > MAX_FEE_BPS {
            return Err(ConfigErrors::InvalidFeeRange);
        }
        if allowed_mints.len() == 0 || allowed_mints.len() > MAX_MINTS_LENGTH as usize {
            return Err(ConfigErrors::InvalidMintsRange);
        }
        Ok(Config { platform_fee, allowed_mints, bump })
    }
}

/// A participant's durable profile.
#[derive(Clone, Debug, PartialEq, Eq)]
pub struct Profile {
    pub username: Vec<u8>,
    pub total_won: u64,
    pub total_lost: u64,
    pub created_at: i64,
    pub bump: u8,
}

/// Creates a participant profile. Fails with `InvalidUsername` unless the
/// username is between 1 and 32 bytes; the tallies start at zero.
pub fn initialize_profile(username: Vec<u8>, now: i64, bump: u8) -> (r: Result<
    Profile,
    ProfileErrors,
>)
    ensures
        r is Ok <==> 1 <= username@.len() <= 32,
        !(1 <= username@.len() <= 32) ==> r == Err::<Profile, ProfileErrors>(
            ProfileErrors::InvalidUsername,
        ),
        r matches Ok(p) ==> {
            &&& p.username == username
            &&& p.total_won == 0
            &&& p.total_lost == 0
            &&& p.created_at == now
            &&& p.bump == bump
        },
{
    if username.len() == 0 || username.len() > 32 {
        return Err(ProfileErrors::InvalidUsername);
    }
    Ok(Profile { username, total_won: 0, total_lost: 0, created_at: now, bump })
}

/// One playing card; dealt only by downstream game logic, which is out of
/// this library's scope.
#[derive(Clone, Copy, Debug, PartialEq, Eq, Structural)]
pub struct Card {
    pub id: u8,
    pub card_number: u8,
    pub sub_number: u8,
}

/// One seat of a session roster.
#[derive(Clone, Debug, PartialEq, Eq)]
pub struct Player {
    pub owner: Vec<u8>,
    pub username: Vec<u8>,
    pub hand: Option<Vec<Card>>,
    pub player_index: Option<u8>,
}

/// Whether `p` is the fresh seat a joining participant gets: their identity
/// and display name, with no hand dealt and no turn index assigned.
pub open spec fn player_joined(p: Player, signer: Seq<u8>, username: Seq<u8>) -> bool {
    &&& p.owner@ == signer
    &&& p.username@ == username
    &&& p.hand is None
    &&& p.player_index is None
}

/// The durable session record: owner, stake terms, seat bounds, the roster
/// so far, lifecycle flags, and timestamps. Game resolution past the
/// delegated hand-off is out of this library's scope.
#[derive(Clone, Debug, PartialEq, Eq)]
pub struct Game {
    pub owner: Vec<u8>,
    pub entry_stake: u64,
    pub game_vault: Vec<u8>,
    pub stake_mint: Vec<u8>,
    pub no_players: u8,
    pub player_turn: u8,
    pub players: Vec<Player>,
    pub winner: Option<Vec<u8>>,
    pub call_card: Option<Card>,
    pub draw_pile: Option<Vec<Card>>,
    pub wait_time: i64,
    pub seed: u64,
    pub random_seed: Option<u64>,
    pub delegated: bool,
    pub started: bool,
    pub ended: bool,
    pub created_at: i64,
    pub started_at: Option<i64>,
    pub ended_at: Option<i64>,
    pub bump: u8,
}

impl Game {
    /// Invariant of every reachable session record: the seat bound and the
    /// wait-time bound are in range, the roster never exceeds the seat
    /// bound, and a delegated session has a full roster.
    pub open spec fn wf(self) -> bool {
        &&& MIN_NO_PLAYERS <= self.no_players <= MAX_NO_PLAYERS
        &&& 1 <= self.players@.len() <= self.no_players
        &&& self.delegated ==> self.players@.len() == self.no_players
        &&& MIN_WAIT_TIME <= self.wait_time <= MAX_WAIT_TIME
    }

    /// Whether the roster still has a free seat.
    pub open spec fn join_allowed(self) -> bool {
        self.players@.len() < self.no_players
    }
}

/// Everything of a session record that joining does not touch.
pub open spec fn same_game_config(a: Game, b: Game) -> bool {
    &&& a.owner == b.owner
    &&& a.entry_stake == b.entry_stake
    &&& a.game_vault == b.game_vault
    &&& a.stake_mint == b.stake_mint
    &&& a.no_players == b.no_players
    &&& a.player_turn == b.player_turn
    &&& a.winner == b.winner
    &&& a.call_card == b.call_card
    &&& a.draw_pile == b.draw_pile
    &&& a.wait_time == b.wait_time
    &&& a.seed == b.seed
    &&& a.random_seed == b.random_seed
    &&& a.started == b.started
    &&& a.ended == b.ended
    &&& a.created_at == b.created_at
    &&& a.started_at == b.started_at
    &&& a.ended_at == b.ended_at
    &&& a.bump == b.bump
}

/// A session record together with its custody account.
#[derive(Clone, Debug, PartialEq, Eq)]
pub struct GameSession {
    pub game: Game,
    pub vault: TokenAccount,
}

impl GameSession {
    /// Custody/record coupling for sessions: the custody account holds the
    /// stake asset, and its balance is exactly the per-seat stake times the
    /// roster length.
    pub open spec fn wf(self) -> bool {
        &&& self.game.wf()
        &&& self.vault.mint@ == self.game.stake_mint@
        &&& self.vault.amount == self.game.entry_stake * self.game.players@.len()
    }
}

/// Delegation happens exactly once: a well-formed delegated session has a
/// full roster, so no further join can be allowed, and the delegated flag
/// can never be set a second time.
pub proof fn lemma_delegation_once(g: Game)
    requires
        g.wf(),
        g.delegated,
    ensures
        !g.join_allowed(),
{
}

/// The accounts a session creation touches: the initiating owner, their
/// profile's display name, the stake asset class, the owner's holding
/// account for it, the session record's address, and the custody account's
/// address.
#[derive(Clone, Debug, PartialEq, Eq)]
pub struct InitializeGame {
    pub signer: Vec<u8>,
    pub username: Vec<u8>,
    pub stake_mint: Vec<u8>,
    pub user_ata: TokenAccount,
    pub game_address: Vec<u8>,
    pub vault_address: Vec<u8>,
}

/// When creating a session succeeds: the owner covers their own stake, the
/// wait-time and seat bounds are in range, and the stake asset class is
/// allow-listed.
pub open spec fn initialize_game_ok(
    ctx: InitializeGame,
    config: Config,
    entry_stake: u64,
    no_players: u8,
    wait_time: i64,
) -> bool {
    &&& ctx.user_ata.amount >= entry_stake
    &&& MIN_WAIT_TIME <= wait_time <= MAX_WAIT_TIME
    &&& MIN_NO_PLAYERS <= no_players <= MAX_NO_PLAYERS
    &&& config.allows(ctx.stake_mint@)
}

impl InitializeGame {
    /// Validates the session terms and builds the session record with the
    /// initiating owner in the first seat. No funds move here; the caller
    /// deposits the owner's stake in the same atomic unit.
    ///
    /// Fails with `InsufficientFunds` if the owner cannot cover the stake;
    /// with `InvalidWaitTimeRange` or `InvalidNoPlayers` if a bound is out
    /// of range; with `InvalidMint` if the stake asset is not allow-listed.
    pub fn initialize_game(
        &self,
        config: &Config,
        seed: u64,
        entry_stake: u64,
        no_players: u8,
        wait_time: i64,
        now: i64,
        bump: u8,
    ) -> (r: Result<Game, GameErrors>)
        ensures
            r is Ok <==> initialize_game_ok(*self, *config, entry_stake, no_players, wait_time),
            self.user_ata.amount < entry_stake ==> r == Err::<Game, GameErrors>(
                GameErrors::InsufficientFunds,
            ),
            self.user_ata.amount >= entry_stake && !(MIN_WAIT_TIME <= wait_time
                <= MAX_WAIT_TIME) ==> r == Err::<Game, GameErrors>(
                GameErrors::InvalidWaitTimeRange,
            ),
            self.user_ata.amount >= entry_stake && MIN_WAIT_TIME <= wait_time <= MAX_WAIT_TIME
                && !(MIN_NO_PLAYERS <= no_players <= MAX_NO_PLAYERS) ==> r == Err::<
                Game,
                GameErrors,
            >(GameErrors::InvalidNoPlayers),
            self.user_ata.amount >= entry_stake && MIN_WAIT_TIME <= wait_time <= MAX_WAIT_TIME
                && MIN_NO_PLAYERS <= no_players <= MAX_NO_PLAYERS && !config.allows(
                self.stake_mint@,
            ) ==> r == Err::<Game, GameErrors>(GameErrors::InvalidMint),
            r matches Ok(g) ==> {
                &&& g.wf()
                &&& g.owner@ == self.signer@
                &&& g.entry_stake == entry_stake
                &&& g.game_vault@ == self.vault_address@
                &&& g.stake_mint@ == self.stake_mint@
                &&& g.no_players == no_players
                &&& g.player_turn == 0
                &&& g.players@.len() == 1
                &&& player_joined(g.players@[0], self.signer@, self.username@)
                &&& g.winner is None
                &&& g.call_card is None
                &&& g.draw_pile is None
                &&& g.wait_time == wait_time
                &&& g.seed == seed
                &&& g.random_seed is None
                &&& !g.delegated
                &&& !g.started
                &&& !g.ended
                &&& g.created_at == now
                &&& g.started_at is None
                &&& g.ended_at is None
                &&& g.bump == bump
            },
    {
        if self.user_ata.amount < entry_stake {
            return Err(GameErrors::InsufficientFunds);
        }
        if wait_time < MIN_WAIT_TIME || wait_time > MAX_WAIT_TIME {
            return Err(GameErrors::InvalidWaitTimeRange);
        }
        if no_players < MIN_NO_PLAYERS || no_players > MAX_NO_PLAYERS {
            return Err(GameErrors::InvalidNoPlayers);
        }
        if !config.contains_mint(&self.stake_mint) {
            return Err(GameErrors::InvalidMint);
        }
        let first_seat = Player {
            owner: dup_bytes(&self.signer),
            username: dup_bytes(&self.username),
            hand: None,
            player_index: None,
        };
        let mut players: Vec<Player> = Vec::new();
        players.push(first_seat);
        Ok(
            Game {
                owner: dup_bytes(&self.signer),
                entry_stake,
                game_vault: dup_bytes(&self.vault_address),
                stake_mint: dup_bytes(&self.stake_mint),
                no_players,
                player_turn: 0,
                players,
                winner: None,
                call_card: None,
                draw_pile: None,
                wait_time,
                seed,
                random_seed: None,
                delegated: false,
                started: false,
                ended: false,
                created_at: now,
                started_at: None,
                ended_at: None,
                bump,
            },
        )
    }

    /// Stake-deposit leg of session creation: the owner signs directly and
    /// moves `amount` of the stake asset into the custody account.
    pub fn deposit_stake(&mut self, vault: &mut TokenAccount, amount: u64) -> (r: Result<
        (),
        GameErrors,
    >)
        ensures
            r is Ok <==> {
                &&& old(self).user_ata.owner@ == old(self).signer@
                &&& old(self).user_ata.mint@ == old(vault).mint@
                &&& amount <= old(self).user_ata.amount
                &&& old(vault).amount + amount <= u64::MAX
            },
            r is Ok ==> {
                &&& final(self).user_ata.amount == old(self).user_ata.amount - amount
                &&& final(vault).amount == old(vault).amount + amount
                &&& final(self).user_ata.owner == old(self).user_ata.owner
                &&& final(self).user_ata.mint == old(self).user_ata.mint
                &&& final(vault).owner == old(vault).owner
                &&& final(vault).mint == old(vault).mint
            },
            r is Err ==> *final(self) == *old(self) && *final(vault) == *old(vault),
            final(self).signer == old(self).signer,
            final(self).username == old(self).username,
            final(self).stake_mint == old(self).stake_mint,
            final(self).game_address == old(self).game_address,
            final(self).vault_address == old(self).vault_address,
    {
        let signer = dup_bytes(&self.signer);
        match crate::accounts::spl_transfer(&mut self.user_ata, vault, &signer, amount) {
            Ok(()) => Ok(()),
            Err(crate::errors::ErrorKind::AuthorizationError) => Err(GameErrors::InvalidMint),
            Err(_) => Err(GameErrors::InsufficientFunds),
        }
    }
}

/// Creates a session: validates the terms, opens the session record with
/// the owner in the first seat, opens the custody account, and deposits the
/// owner's stake, all in one atomic unit. On any failure nothing changes.
pub fn initialize_game(
    ctx: &mut InitializeGame,
    config: &Config,
    seed: u64,
    entry_stake: u64,
    no_players: u8,
    wait_time: i64,
    now: i64,
    bump: u8,
) -> (r: Result<GameSession, GameErrors>)
    ensures
        r is Ok <==> ({
            &&& initialize_game_ok(*old(ctx), *config, entry_stake, no_players, wait_time)
            &&& old(ctx).user_ata.owner@ == old(ctx).signer@
            &&& old(ctx).user_ata.mint@ == old(ctx).stake_mint@
        }),
        r is Err ==> *final(ctx) == *old(ctx),
        !(old(ctx).user_ata.owner@ == old(ctx).signer@ && old(ctx).user_ata.mint@ == old(
            ctx,
        ).stake_mint@) ==> r == Err::<GameSession, GameErrors>(GameErrors::InvalidMint),
        old(ctx).user_ata.owner@ == old(ctx).signer@ && old(ctx).user_ata.mint@ == old(
            ctx,
        ).stake_mint@ && old(ctx).user_ata.amount < entry_stake ==> r == Err::<
            GameSession,
            GameErrors,
        >(GameErrors::InsufficientFunds),
        old(ctx).user_ata.owner@ == old(ctx).signer@ && old(ctx).user_ata.mint@ == old(
            ctx,
        ).stake_mint@ && old(ctx).user_ata.amount >= entry_stake && !(MIN_WAIT_TIME <= wait_time
            <= MAX_WAIT_TIME) ==> r == Err::<GameSession, GameErrors>(
            GameErrors::InvalidWaitTimeRange,
        ),
        old(ctx).user_ata.owner@ == old(ctx).signer@ && old(ctx).user_ata.mint@ == old(
            ctx,
        ).stake_mint@ && old(ctx).user_ata.amount >= entry_stake && MIN_WAIT_TIME <= wait_time
            <= MAX_WAIT_TIME && !(MIN_NO_PLAYERS <= no_players <= MAX_NO_PLAYERS) ==> r == Err::<
            GameSession,
            GameErrors,
        >(GameErrors::InvalidNoPlayers),
        old(ctx).user_ata.owner@ == old(ctx).signer@ && old(ctx).user_ata.mint@ == old(
            ctx,
        ).stake_mint@ && old(ctx).user_ata.amount >= entry_stake && MIN_WAIT_TIME <= wait_time
            <= MAX_WAIT_TIME && MIN_NO_PLAYERS <= no_players <= MAX_NO_PLAYERS && !config.allows(
            old(ctx).stake_mint@,
        ) ==> r == Err::<GameSession, GameErrors>(GameErrors::InvalidMint),
        r matches Ok(s) ==> {
            &&& s.wf()
            &&& s.game.owner@ == old(ctx).signer@
            &&& s.game.entry_stake == entry_stake
            &&& s.game.no_players == no_players
            &&& s.game.players@.len() == 1
            &&& player_joined(s.game.players@[0], old(ctx).signer@, old(ctx).username@)
            &&& !s.game.delegated
            &&& s.vault.amount == entry_stake
            &&& s.vault.mint@ == old(ctx).stake_mint@
            &&& s.vault.owner@ == old(ctx).game_address@
            &&& final(ctx).user_ata.amount == old(ctx).user_ata.amount - entry_stake
        },
{
    if !addr_eq(&ctx.user_ata.owner, &ctx.signer) || !addr_eq(&ctx.user_ata.mint, &ctx.stake_mint)
    {
        return Err(GameErrors::InvalidMint);
    }
    let game = match ctx.initialize_game(config, seed, entry_stake, no_players, wait_time, now, bump) {
        Ok(g) => g,
        Err(e) => {
            return Err(e);
        },
    };
    let mut vault = TokenAccount {
        owner: dup_bytes(&ctx.game_address),
        mint: dup_bytes(&ctx.stake_mint),
        amount: 0,
    };
    match ctx.deposit_stake(&mut vault, entry_stake) {
        Ok(()) => {},
        Err(e) => {
            return Err(e);
        },
    }
    let session = GameSession { game, vault };
    proof {
        assert(session.game.players@.len() == 1);
        assert(session.game.entry_stake * 1 == session.game.entry_stake) by (nonlinear_arith);
    }
    Ok(session)
}

/// The accounts a join touches: the participant, their profile's display
/// name, their holding account for the stake asset, and the asset class.
#[derive(Clone, Debug, PartialEq, Eq)]
pub struct JoinGame {
    pub signer: Vec<u8>,
    pub username: Vec<u8>,
    pub user_ata: TokenAccount,
    pub stake_mint: Vec<u8>,
}

impl JoinGame {
    /// Roster-append leg: validates a free seat, the participant's balance,
    /// and the allow-list, then appends the participant.
    ///
    /// Fails with `PlayersAlreadyComplete` if the roster is full; with
    /// `InsufficientFunds` if the participant cannot cover the stake; with
    /// `InvalidMint` if the stake asset is not allow-listed.
    pub fn join_game(&self, game: &mut Game, config: &Config) -> (r: Result<(), GameErrors>)
        ensures
            r is Ok <==> {
                &&& old(game).join_allowed()
                &&& self.user_ata.amount >= old(game).entry_stake
                &&& config.allows(self.stake_mint@)
            },
            !old(game).join_allowed() ==> r == Err::<(), GameErrors>(
                GameErrors::PlayersAlreadyComplete,
            ),
            old(game).join_allowed() && self.user_ata.amount < old(game).entry_stake ==> r
                == Err::<(), GameErrors>(GameErrors::InsufficientFunds),
            old(game).join_allowed() && self.user_ata.amount >= old(game).entry_stake
                && !config.allows(self.stake_mint@) ==> r == Err::<(), GameErrors>(
                GameErrors::InvalidMint,
            ),
            r is Err ==> *final(game) == *old(game),
            r is Ok ==> {
                &&& final(game).players@.len() == old(game).players@.len() + 1
                &&& final(game).players@.drop_last() == old(game).players@
                &&& player_joined(final(game).players@.last(), self.signer@, self.username@)
                &&& final(game).delegated == old(game).delegated
                &&& same_game_config(*final(game), *old(game))
            },
    {
        if game.players.len() >= game.no_players as usize {
            return Err(GameErrors::PlayersAlreadyComplete);
        }
        if self.user_ata.amount < game.entry_stake {
            return Err(GameErrors::InsufficientFunds);
        }
        if !config.contains_mint(&self.stake_mint) {
            return Err(GameErrors::InvalidMint);
        }
        let seat = Player {
            owner: dup_bytes(&self.signer),
            username: dup_bytes(&self.username),
            hand: None,
            player_index: None,
        };
        game.players.push(seat);
        proof {
            assert(final(game).players@.drop_last() =~= old(game).players@);
        }
        Ok(())
    }

    /// Stake-deposit leg of joining: the participant signs directly and
    /// moves the per-seat stake into the custody account; if that fills the
    /// roster, the session is marked delegated in the same atomic step, and
    /// the caller must perform the delegation hand-off.
    pub fn deposit_stake(&mut self, game: &mut Game, vault: &mut TokenAccount) -> (r: Result<
        (),
        GameErrors,
    >)
        ensures
            r is Ok <==> {
                &&& old(self).user_ata.owner@ == old(self).signer@
                &&& old(self).user_ata.mint@ == old(vault).mint@
                &&& old(game).entry_stake <= old(self).user_ata.amount
                &&& old(vault).amount + old(game).entry_stake <= u64::MAX
            },
            r is Ok ==> {
                &&& final(self).user_ata.amount == old(self).user_ata.amount - old(
                    game,
                ).entry_stake
                &&& final(vault).amount == old(vault).amount + old(game).entry_stake
                &&& final(self).user_ata.owner == old(self).user_ata.owner
                &&& final(self).user_ata.mint == old(self).user_ata.mint
                &&& final(vault).owner == old(vault).owner
                &&& final(vault).mint == old(vault).mint
                &&& final(game).delegated == (old(game).delegated || old(game).players@.len()
                    == old(game).no_players as int)
                &&& final(game).players@ == old(game).players@
                &&& same_game_config(*final(game), *old(game))
            },
            r is Err ==> *final(self) == *old(self) && *final(vault) == *old(vault)
                && *final(game) == *old(game),
            final(self).signer == old(self).signer,
            final(self).username == old(self).username,
            final(self).stake_mint == old(self).stake_mint,
    {
        let signer = dup_bytes(&self.signer);
        let amount = game.entry_stake;
        match crate::accounts::spl_transfer(&mut self.user_ata, vault, &signer, amount) {
            Ok(()) => {},
            Err(crate::errors::ErrorKind::AuthorizationError) => {
                return Err(GameErrors::InvalidMint);
            },
            Err(_) => {
                return Err(GameErrors::InsufficientFunds);
            },
        }
        if game.players.len() == game.no_players as usize {
            game.delegated = true;
        }
        Ok(())
    }
}

/// When a join succeeds: a free seat, a covered and correctly wired
/// participant account, an allow-listed stake asset, and a custody account
/// with room for one more stake.
pub open spec fn join_game_ok(ctx: JoinGame, session: GameSession, config: Config) -> bool {
    &&& session.game.join_allowed()
    &&& ctx.user_ata.amount >= session.game.entry_stake
    &&& config.allows(ctx.stake_mint@)
    &&& ctx.user_ata.owner@ == ctx.signer@
    &&& ctx.user_ata.mint@ == ctx.stake_mint@
    &&& ctx.stake_mint@ == session.game.stake_mint@
    &&& session.vault.amount + session.game.entry_stake <= u64::MAX
}

/// Joins a session: appends the participant to the roster and deposits
/// their stake into custody in one atomic unit. If the deposit fills the
/// roster, the session is marked delegated in the same atomic step and the
/// call returns `true`: the caller must then perform the delegation
/// hand-off, whose failure discards the whole unit, deposit included.
///
/// Fails with `PlayersAlreadyComplete` if the roster is full (so a
/// delegated session accepts no further join and no balance changes); with
/// `InsufficientFunds` if the participant cannot cover the stake or custody
/// would overflow; with `InvalidMint` if the stake asset is not
/// allow-listed or the participant's holding account is not theirs for this
/// session's stake asset.
pub fn join_game(ctx: &mut JoinGame, session: &mut GameSession, config: &Config) -> (r: Result<
    bool,
    GameErrors,
>)
    requires
        old(session).wf(),
    ensures
        final(session).wf(),
        r is Ok <==> join_game_ok(*old(ctx), *old(session), *config),
        r is Err ==> *final(ctx) == *old(ctx) && *final(session) == *old(session),
        !old(session).game.join_allowed() ==> r == Err::<bool, GameErrors>(
            GameErrors::PlayersAlreadyComplete,
        ),
        old(session).game.join_allowed() && old(ctx).user_ata.amount < old(
            session,
        ).game.entry_stake ==> r == Err::<bool, GameErrors>(GameErrors::InsufficientFunds),
        old(session).game.join_allowed() && old(ctx).user_ata.amount >= old(
            session,
        ).game.entry_stake && !config.allows(old(ctx).stake_mint@) ==> r == Err::<
            bool,
            GameErrors,
        >(GameErrors::InvalidMint),
        old(session).game.join_allowed() && old(ctx).user_ata.amount >= old(
            session,
        ).game.entry_stake && config.allows(old(ctx).stake_mint@) && !(old(
            ctx,
        ).user_ata.owner@ == old(ctx).signer@ && old(ctx).user_ata.mint@ == old(ctx).stake_mint@
            && old(ctx).stake_mint@ == old(session).game.stake_mint@) ==> r == Err::<
            bool,
            GameErrors,
        >(GameErrors::InvalidMint),
        old(session).game.join_allowed() && old(ctx).user_ata.amount >= old(
            session,
        ).game.entry_stake && config.allows(old(ctx).stake_mint@) && old(ctx).user_ata.owner@
            == old(ctx).signer@ && old(ctx).user_ata.mint@ == old(ctx).stake_mint@ && old(
            ctx,
        ).stake_mint@ == old(session).game.stake_mint@ && old(session).vault.amount + old(
            session,
        ).game.entry_stake > u64::MAX ==> r == Err::<bool, GameErrors>(
            GameErrors::InsufficientFunds,
        ),
        r matches Ok(d) ==> {
            &&& final(session).game.players@.len() == old(session).game.players@.len() + 1
            &&& final(session).game.players@.drop_last() == old(session).game.players@
            &&& player_joined(
                final(session).game.players@.last(),
                old(ctx).signer@,
                old(ctx).username@,
            )
            &&& final(session).vault.amount == old(session).vault.amount + old(
                session,
            ).game.entry_stake
            &&& final(ctx).user_ata.amount == old(ctx).user_ata.amount - old(
                session,
            ).game.entry_stake
            &&& d == (final(session).game.players@.len() == final(session).game.no_players as int)
            &&& final(session).game.delegated == d
            &&& same_game_config(final(session).game, old(session).game)
            &&& final(session).vault.owner == old(session).vault.owner
            &&& final(session).vault.mint == old(session).vault.mint
        },
{
    if session.game.players.len() >= session.game.no_players as usize {
        return Err(GameErrors::PlayersAlreadyComplete);
    }
    if ctx.user_ata.amount < session.game.entry_stake {
        return Err(GameErrors::InsufficientFunds);
    }
    if !config.contains_mint(&ctx.stake_mint) {
        return Err(GameErrors::InvalidMint);
    }
    if !addr_eq(&ctx.user_ata.owner, &ctx.signer) || !addr_eq(&ctx.user_ata.mint, &ctx.stake_mint)
        || !addr_eq(&ctx.stake_mint, &session.game.stake_mint) {
        return Err(GameErrors::InvalidMint);
    }
    if session.vault.amount > u64::MAX - session.game.entry_stake {
        return Err(GameErrors::InsufficientFunds);
    }
    match ctx.join_game(&mut session.game, config) {
        Ok(()) => {},
        Err(e) => {
            return Err(e);
        },
    }
    match ctx.deposit_stake(&mut session.game, &mut session.vault) {
        Ok(()) => {},
        Err(e) => {
            return Err(e);
        },
    }
    let delegated_now = session.game.delegated;
    proof {
        let stake = old(session).game.entry_stake as int;
        let n = old(session).game.players@.len() as int;
        assert(stake * (n + 1) == stake * n + stake) by (nonlinear_arith);
        assert(session.vault.amount == session.game.entry_stake * session.game.players@.len());
    }
    Ok(delegated_now)
}

} // verus!
