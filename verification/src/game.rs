use vstd::prelude::*;

use crate::player::Player;
use rand::Rng;
use std::collections::HashMap;

verus! {

broadcast use vstd::std_specs::hash::group_hash_axioms;

/// A message a client sends over an established connection.
#[derive(Debug, Clone, Copy)]
pub enum GameMessage {
    NewGame,
    JoinGame(JoinGame),
    RoolDice(RoolDice),
}

/// A message sent back to a client over an established connection.
#[derive(Debug, Clone, Copy)]
pub enum GameMessageResponse {
    Success,
    Joined,
    WaitingForPlayer,
    Score((u8, u8)),
    Error(GameError),
}

impl PartialEq for GameMessageResponse {
    fn eq(&self, other: &Self) -> (r: bool) {
        match (self, other) {
            (GameMessageResponse::Success, GameMessageResponse::Success) => true,
            (GameMessageResponse::Joined, GameMessageResponse::Joined) => true,
            (GameMessageResponse::WaitingForPlayer, GameMessageResponse::WaitingForPlayer) => true,
            (GameMessageResponse::Score(a), GameMessageResponse::Score(b)) => (
                a.0 == b.0 && a.1 == b.1
            ),
            (GameMessageResponse::Error(a), GameMessageResponse::Error(b)) => a == b,
            _ => false,
        }
    }
}

impl vstd::std_specs::cmp::PartialEqSpecImpl for GameMessageResponse {
    open spec fn obeys_eq_spec() -> bool {
        true
    }

    open spec fn eq_spec(&self, other: &Self) -> bool {
        *self == *other
    }
}

/// The payload of a request to open a fresh game.
#[derive(Debug, Clone, Copy)]
pub struct NewGame {
    pub game_id: u128,
}

/// The payload of a request to take the second seat of a game.
#[derive(Debug, Clone, Copy)]
pub struct JoinGame {
    pub player2: u128,
    pub game_id: u128,
}

/// The payload of a request to roll the dice. The acting player is
/// taken from this payload, not from the connection's own identity.
#[derive(Debug, Clone, Copy, PartialEq, Eq, Structural)]
pub struct RoolDice {
    pub game_id: u128,
    pub player: u128,
}

/// The outcome of one roll, addressed to a game and a player.
#[derive(Debug, Clone, Copy, PartialEq, Eq, Structural)]
pub struct RoolDiceResult {
    pub game_id: u128,
    pub player: u128,
    pub dice: u8,
}

/// The status of one game: a host waiting for an opponent, or two
/// seated players. The only transition is `Waiting` to `Playing`.
#[derive(Debug, Clone, Copy)]
pub enum GameStatus {
    Waiting(u128),
    Playing(Player, Player),
}

/// The conflict outcomes of registry operations.
#[derive(Debug, Clone, Copy, PartialEq, Eq, Structural)]
pub enum GameError {
    GameNotFound,
    GameAlreadyStarted,
    InternalError,
}

/// The registry of active games: one status per game identifier.
pub struct Game {
    games: HashMap<u128, GameStatus>,
}

impl View for Game {
    type V = Map<u128, GameStatus>;

    closed spec fn view(&self) -> Map<u128, GameStatus> {
        self.games@
    }
}

/// Does `player` occupy a seat of a game in status `status`: the host
/// seat of a waiting game, or either seat of an active one?
pub open spec fn occupies_seat(status: GameStatus, player: u128) -> bool {
    match status {
        GameStatus::Waiting(host) => host == player,
        GameStatus::Playing(a, b) => a.name == player || b.name == player,
    }
}

/// A score counter saturates at the top of its range instead of
/// wrapping or failing.
pub open spec fn saturated_score(score: u8, dice: u8) -> u8 {
    if score + dice > 255 {
        255u8
    } else {
        (score + dice) as u8
    }
}

/// What a lookup returns: the current status, or `GameNotFound`.
pub open spec fn lookup_spec(games: Map<u128, GameStatus>, game_id: u128) -> Result<
    GameStatus,
    GameError,
> {
    if games.contains_key(game_id) {
        Ok(games[game_id])
    } else {
        Err(GameError::GameNotFound)
    }
}

/// The registry after a join, paired with the reported outcome. A join
/// succeeds exactly on a waiting game hosted by someone else; the host
/// keeps the first seat and the joiner takes the second. A host cannot
/// take the second seat of their own game — the two identities of an
/// active game are always distinct — and such an attempt is a
/// state-machine inconsistency, refused as `InternalError` with the
/// game left waiting.
pub open spec fn join_spec(games: Map<u128, GameStatus>, game_id: u128, player2: u128) -> (
    Map<u128, GameStatus>,
    Result<(), GameError>,
) {
    if !games.contains_key(game_id) {
        (games, Err(GameError::GameNotFound))
    } else {
        match games[game_id] {
            GameStatus::Waiting(player1) => if player1 == player2 {
                (games, Err(GameError::InternalError))
            } else {
                (
                    games.insert(
                        game_id,
                        GameStatus::Playing(
                            Player { name: player1, score: 0u8 },
                            Player { name: player2, score: 0u8 },
                        ),
                    ),
                    Ok(()),
                )
            },
            GameStatus::Playing(_, _) => (games, Err(GameError::GameAlreadyStarted)),
        }
    }
}

/// The registry after a leave, paired with the reported outcome. The
/// entry is removed exactly when `player` occupies one of its seats;
/// a caller outside the game is indistinguishable from a missing game.
pub open spec fn leave_spec(games: Map<u128, GameStatus>, game_id: u128, player: u128) -> (
    Map<u128, GameStatus>,
    Result<(), GameError>,
) {
    if games.contains_key(game_id) && occupies_seat(games[game_id], player) {
        (games.remove(game_id), Ok(()))
    } else {
        (games, Err(GameError::GameNotFound))
    }
}

/// The registry after a roll with die value `dice`, paired with the
/// reported outcome. On an active game the acting seat's score grows
/// by `dice`, saturating; the first seat is preferred when both carry
/// the acting identity. A waiting game is a protocol violation
/// (`InternalError`); a missing game, or a caller seated nowhere,
/// reports `GameNotFound`.
pub open spec fn roll_spec(games: Map<u128, GameStatus>, game_id: u128, player: u128, dice: u8) -> (
    Map<u128, GameStatus>,
    Result<(u8, u8), GameError>,
) {
    if !games.contains_key(game_id) {
        (games, Err(GameError::GameNotFound))
    } else {
        match games[game_id] {
            GameStatus::Waiting(_) => (games, Err(GameError::InternalError)),
            GameStatus::Playing(a, b) => if a.name == player {
                let new_score = saturated_score(a.score, dice);
                (
                    games.insert(
                        game_id,
                        GameStatus::Playing(Player { name: a.name, score: new_score }, b),
                    ),
                    Ok((new_score, dice)),
                )
            } else if b.name == player {
                let new_score = saturated_score(b.score, dice);
                (
                    games.insert(
                        game_id,
                        GameStatus::Playing(a, Player { name: b.name, score: new_score }),
                    ),
                    Ok((new_score, dice)),
                )
            } else {
                (games, Err(GameError::GameNotFound))
            },
        }
    }
}

/// Relies on `rand::Rng::gen_range` over the inclusive range 1..=6:
/// the sampled value lies within that range. Which value comes back
/// depends on the thread-local generator, so no more is promised.
#[verifier::external_body]
fn roll_die() -> (dice: u8)
    ensures
        1 <= dice <= 6,
{
    rand::thread_rng().gen_range(1..=6)
}

impl Game {
    /// An empty registry: no game identifier is known.
    pub fn new() -> (game: Game)
        ensures
            game@ == Map::<u128, GameStatus>::empty(),
    {
        Game { games: HashMap::new() }
    }

    /// Record a fresh waiting game under `game_id`, hosted by
    /// `player1`. Any prior entry under the same identifier is
    /// overwritten.
    pub fn new_game(&mut self, game_id: u128, player1: u128)
        ensures
            final(self)@ == old(self)@.insert(game_id, GameStatus::Waiting(player1)),
    {
        self.games.insert(game_id, GameStatus::Waiting(player1));
    }

    /// A read-only snapshot of the current status of `game_id`.
    pub fn get_game(&self, game_id: u128) -> (r: Result<&GameStatus, GameError>)
        ensures
            match r {
                Ok(status) => lookup_spec(self@, game_id) == Ok::<GameStatus, GameError>(*status),
                Err(e) => lookup_spec(self@, game_id) == Err::<GameStatus, GameError>(e),
            },
    {
        match self.games.get(&game_id) {
            Some(status) => Ok(status),
            None => Err(GameError::GameNotFound),
        }
    }

    /// Seat `player2` in the waiting game `game_id`, moving it to
    /// `Playing` with the host first. Fails with `GameAlreadyStarted`
    /// on an active game and `GameNotFound` on a missing one. A host
    /// joining their own waiting game is refused with `InternalError`,
    /// keeping the two seats of every active game distinct.
    pub fn join_to_game(&mut self, game_id: u128, player2: u128) -> (r: Result<(), GameError>)
        ensures
            final(self)@ == join_spec(old(self)@, game_id, player2).0,
            r == join_spec(old(self)@, game_id, player2).1,
    {
        let current: Option<GameStatus> = match self.games.get(&game_id) {
            Some(status) => Some(*status),
            None => None,
        };
        match current {
            Some(GameStatus::Waiting(player1)) => {
                if player1 == player2 {
                    return Err(GameError::InternalError);
                }
                self.games.insert(
                    game_id,
                    GameStatus::Playing(Player::new(player1), Player::new(player2)),
                );
                Ok(())
            },
            Some(GameStatus::Playing(_, _)) => Err(GameError::GameAlreadyStarted),
            None => Err(GameError::GameNotFound),
        }
    }

    /// Remove `game_id` entirely if `player` occupies one of its
    /// seats; report `GameNotFound` otherwise, whether the game is
    /// missing or the caller is no participant.
    pub fn leave_game(&mut self, game_id: u128, player: u128) -> (r: Result<(), GameError>)
        ensures
            final(self)@ == leave_spec(old(self)@, game_id, player).0,
            r == leave_spec(old(self)@, game_id, player).1,
    {
        let current: Option<GameStatus> = match self.games.get(&game_id) {
            Some(status) => Some(*status),
            None => None,
        };
        match current {
            Some(GameStatus::Waiting(player1)) => {
                if player1 == player {
                    self.games.remove(&game_id);
                    return Ok(());
                }
                Err(GameError::GameNotFound)
            },
            Some(GameStatus::Playing(player1, player2)) => {
                if player1.name == player || player2.name == player {
                    self.games.remove(&game_id);
                    return Ok(());
                }
                Err(GameError::GameNotFound)
            },
            None => Err(GameError::GameNotFound),
        }
    }

    /// Apply a die already drawn: add `dice` to the acting seat's
    /// score, saturating at the counter's maximum. The whole outcome
    /// is a function of the registry and the die.
    pub fn apply_roll(&mut self, game_id: u128, player: u128, dice: u8) -> (r: Result<
        (u8, u8),
        GameError,
    >)
        requires
            1 <= dice <= 6,
        ensures
            final(self)@ == roll_spec(old(self)@, game_id, player, dice).0,
            r == roll_spec(old(self)@, game_id, player, dice).1,
    {
        let current: Option<GameStatus> = match self.games.get(&game_id) {
            Some(status) => Some(*status),
            None => None,
        };
        match current {
            Some(GameStatus::Playing(player1, player2)) => {
                if player1.name == player {
                    let new_score = player1.score.saturating_add(dice);
                    self.games.insert(
                        game_id,
                        GameStatus::Playing(
                            Player { name: player1.name, score: new_score },
                            player2,
                        ),
                    );
                    Ok((new_score, dice))
                } else if player2.name == player {
                    let new_score = player2.score.saturating_add(dice);
                    self.games.insert(
                        game_id,
                        GameStatus::Playing(
                            player1,
                            Player { name: player2.name, score: new_score },
                        ),
                    );
                    Ok((new_score, dice))
                } else {
                    Err(GameError::GameNotFound)
                }
            },
            Some(GameStatus::Waiting(_)) => Err(GameError::InternalError),
            None => Err(GameError::GameNotFound),
        }
    }

    /// Draw a die uniformly in [1,6] and apply it for `player` in
    /// `game_id`. Everything but the drawn value is pinned down by
    /// [`roll_spec`].
    pub fn rool_dice(&mut self, game_id: u128, player: u128) -> (r: Result<(u8, u8), GameError>)
        ensures
            exists|dice: u8|
                1 <= dice <= 6 && (#[trigger] roll_spec(old(self)@, game_id, player, dice)) == (
                    final(self)@,
                    r,
                ),
    {
        let dice = roll_die();
        let r = self.apply_roll(game_id, player, dice);
        r
    }
}

/// A game identifier that was never created is uniformly reported as
/// `GameNotFound`: lookup, join, leave and roll all fail on it, and
/// none of them changes the registry.
pub proof fn lemma_unknown_game_not_found(
    games: Map<u128, GameStatus>,
    game_id: u128,
    player: u128,
    dice: u8,
)
    requires
        !games.contains_key(game_id),
    ensures
        lookup_spec(games, game_id) == Err::<GameStatus, GameError>(GameError::GameNotFound),
        join_spec(games, game_id, player) == (games, Err::<(), GameError>(GameError::GameNotFound)),
        leave_spec(games, game_id, player) == (
            games,
            Err::<(), GameError>(GameError::GameNotFound),
        ),
        roll_spec(games, game_id, player, dice) == (
            games,
            Err::<(u8, u8), GameError>(GameError::GameNotFound),
        ),
{
}

/// Right after a game is created, looking it up shows it waiting for
/// an opponent, hosted by its creator.
pub proof fn lemma_create_then_lookup(games: Map<u128, GameStatus>, game_id: u128, player1: u128)
    ensures
        lookup_spec(games.insert(game_id, GameStatus::Waiting(player1)), game_id)
            == Ok::<GameStatus, GameError>(GameStatus::Waiting(player1)),
{
}

/// Joining a waiting game seats the joiner beside the host, host
/// first, with both scores at zero; any further join then fails with
/// `GameAlreadyStarted` and leaves the registry unchanged.
pub proof fn lemma_join_then_join_again(
    games: Map<u128, GameStatus>,
    game_id: u128,
    player1: u128,
    player2: u128,
    player3: u128,
)
    requires
        games.contains_key(game_id),
        games[game_id] == GameStatus::Waiting(player1),
        player2 != player1,
    ensures
        ({
            let joined = join_spec(games, game_id, player2);
            &&& joined.1 == Ok::<(), GameError>(())
            &&& joined.0 == games.insert(
                game_id,
                GameStatus::Playing(
                    Player { name: player1, score: 0u8 },
                    Player { name: player2, score: 0u8 },
                ),
            )
            &&& join_spec(joined.0, game_id, player3) == (
                joined.0,
                Err::<(), GameError>(GameError::GameAlreadyStarted),
            )
        }),
{
}

/// On an active game a roll hands back the die it drew, in [1,6], and
/// raises exactly the acting player's score — strictly, until the
/// counter saturates — while the other seat is untouched.
pub proof fn lemma_roll_updates_only_actor(
    games: Map<u128, GameStatus>,
    game_id: u128,
    a: Player,
    b: Player,
    player: u128,
    dice: u8,
)
    requires
        games.contains_key(game_id),
        games[game_id] == GameStatus::Playing(a, b),
        a.name != b.name,
        player == a.name || player == b.name,
        1 <= dice <= 6,
    ensures
        ({
            let step = roll_spec(games, game_id, player, dice);
            let old_score = if player == a.name {
                a.score
            } else {
                b.score
            };
            let new_score = saturated_score(old_score, dice);
            &&& step.1 == Ok::<(u8, u8), GameError>((new_score, dice))
            &&& new_score >= old_score
            &&& old_score < 255 ==> new_score > old_score
            &&& player == a.name ==> step.0 == games.insert(
                game_id,
                GameStatus::Playing(Player { name: a.name, score: new_score }, b),
            )
            &&& player == b.name ==> step.0 == games.insert(
                game_id,
                GameStatus::Playing(a, Player { name: b.name, score: new_score }),
            )
        }),
{
}

/// Rolling on a game still waiting for its opponent is a protocol
/// violation, reported as `InternalError`; rolling on a missing game
/// reports `GameNotFound`. Neither touches the registry.
pub proof fn lemma_roll_waiting_or_missing(
    games: Map<u128, GameStatus>,
    game_id: u128,
    player: u128,
    dice: u8,
)
    ensures
        games.contains_key(game_id) && (games[game_id] matches GameStatus::Waiting(_))
            ==> roll_spec(games, game_id, player, dice) == (
            games,
            Err::<(u8, u8), GameError>(GameError::InternalError),
        ),
        !games.contains_key(game_id) ==> roll_spec(games, game_id, player, dice) == (
            games,
            Err::<(u8, u8), GameError>(GameError::GameNotFound),
        ),
{
}

/// A leave by any participant removes the game entirely: afterwards a
/// lookup reports `GameNotFound`, whether the game was waiting or
/// active and whichever seat the leaver held.
pub proof fn lemma_leave_removes_game(games: Map<u128, GameStatus>, game_id: u128, player: u128)
    requires
        games.contains_key(game_id),
        occupies_seat(games[game_id], player),
    ensures
        leave_spec(games, game_id, player) == (
            games.remove(game_id),
            Ok::<(), GameError>(()),
        ),
        lookup_spec(leave_spec(games, game_id, player).0, game_id) == Err::<
            GameStatus,
            GameError,
        >(GameError::GameNotFound),
{
}

/// The results of a sequence of joins on one game, applied in order:
/// each joiner sees the registry exactly as the previous join left
/// it, which is how the shared lock linearizes racing joins.
pub open spec fn join_seq(games: Map<u128, GameStatus>, game_id: u128, joiners: Seq<u128>) -> (
    Map<u128, GameStatus>,
    Seq<Result<(), GameError>>,
)
    decreases joiners.len(),
{
    if joiners.len() == 0 {
        (games, Seq::empty())
    } else {
        let step = join_spec(games, game_id, joiners[0]);
        let rest = join_seq(step.0, game_id, joiners.drop_first());
        (rest.0, seq![step.1] + rest.1)
    }
}

/// Every join in a sequence aimed at an already active game is
/// refused with `GameAlreadyStarted`, and the registry never changes.
pub proof fn lemma_join_seq_playing(
    games: Map<u128, GameStatus>,
    game_id: u128,
    joiners: Seq<u128>,
)
    requires
        games.contains_key(game_id),
        games[game_id] matches GameStatus::Playing(_, _),
    ensures
        join_seq(games, game_id, joiners).0 == games,
        join_seq(games, game_id, joiners).1.len() == joiners.len(),
        forall|i: int|
            0 <= i < joiners.len() ==> join_seq(games, game_id, joiners).1[i] == Err::<
                (),
                GameError,
            >(GameError::GameAlreadyStarted),
    decreases joiners.len(),
{
    if joiners.len() > 0 {
        lemma_join_seq_playing(games, game_id, joiners.drop_first());
    }
}

/// A host joining their own waiting game is refused with
/// `InternalError` and the game stays waiting: the two identities of
/// an active game can never coincide.
pub proof fn lemma_self_join_refused(games: Map<u128, GameStatus>, game_id: u128, host: u128)
    requires
        games.contains_key(game_id),
        games[game_id] == GameStatus::Waiting(host),
    ensures
        join_spec(games, game_id, host) == (games, Err::<(), GameError>(GameError::InternalError)),
{
}

/// Every active game seats two distinct identities.
pub open spec fn playing_seats_distinct(games: Map<u128, GameStatus>) -> bool {
    forall|g: u128|
        #[trigger] games.contains_key(g) ==> match games[g] {
            GameStatus::Waiting(_) => true,
            GameStatus::Playing(a, b) => a.name != b.name,
        }
}

/// Distinct seats are an invariant of the registry: the empty registry
/// has them, and every operation preserves them — creating leaves a
/// lone host, joining refuses the host's own identity, leaving only
/// removes, and rolling keeps both identities in place.
pub proof fn lemma_operations_preserve_distinct_seats(
    games: Map<u128, GameStatus>,
    game_id: u128,
    player: u128,
    dice: u8,
)
    requires
        playing_seats_distinct(games),
    ensures
        playing_seats_distinct(Map::<u128, GameStatus>::empty()),
        playing_seats_distinct(games.insert(game_id, GameStatus::Waiting(player))),
        playing_seats_distinct(join_spec(games, game_id, player).0),
        playing_seats_distinct(leave_spec(games, game_id, player).0),
        playing_seats_distinct(roll_spec(games, game_id, player, dice).0),
{
}

/// However many joins race for one waiting game, their linearized
/// order decides: the first seats its caller and every later one is
/// refused with `GameAlreadyStarted` — exactly one join succeeds.
/// The joiners must be players other than the host, whose own join
/// would be refused instead of seated.
pub proof fn lemma_joins_exactly_one_ok(
    games: Map<u128, GameStatus>,
    game_id: u128,
    host: u128,
    joiners: Seq<u128>,
)
    requires
        joiners.len() > 0,
        games.contains_key(game_id),
        games[game_id] == GameStatus::Waiting(host),
        forall|i: int| 0 <= i < joiners.len() ==> joiners[i] != host,
    ensures
        join_seq(games, game_id, joiners).1.len() == joiners.len(),
        join_seq(games, game_id, joiners).1[0] == Ok::<(), GameError>(()),
        forall|i: int|
            1 <= i < joiners.len() ==> join_seq(games, game_id, joiners).1[i] == Err::<
                (),
                GameError,
            >(GameError::GameAlreadyStarted),
{
    let step = join_spec(games, game_id, joiners[0]);
    lemma_join_seq_playing(step.0, game_id, joiners.drop_first());
}

} // verus!
