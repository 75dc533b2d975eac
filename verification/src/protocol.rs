use vstd::prelude::*;

use crate::game::Game;
use crate::game::GameError;
use crate::game::GameMessageResponse;
use crate::game::GameStatus;
use crate::game::RoolDice;
use crate::game::join_spec;
use crate::game::leave_spec;
use crate::game::roll_spec;

verus! {

/// The lifecycle of one connection. It opens in `Resolving`, which
/// resolves at once to `WaitingForPeer`, `Active` or `Rejected`;
/// `Rejected` closes the connection on entry, and `Closed` is the
/// terminal state of the message loop.
#[derive(Debug, Clone, Copy, PartialEq, Eq, Structural)]
pub enum ConnectionState {
    Resolving,
    WaitingForPeer,
    Active,
    Rejected,
    Closed,
}

/// One inbound event of the message loop, stripped of transport
/// concerns: a close frame, a well-formed roll request, or a frame
/// that could not be understood.
#[derive(Debug, Clone, Copy)]
pub enum Frame {
    Close,
    Roll(RoolDice),
    Malformed,
}

/// What opening a connection resolves to: the registry afterwards,
/// the first outbound message, and the connection state entered.
/// A stranger to a waiting game joins it; the host of a waiting game
/// and the participants of an active one only observe it.
pub open spec fn connect_spec(games: Map<u128, GameStatus>, game_id: u128, user: u128) -> (
    Map<u128, GameStatus>,
    GameMessageResponse,
    ConnectionState,
) {
    if !games.contains_key(game_id) {
        (games, GameMessageResponse::Error(GameError::GameNotFound), ConnectionState::Rejected)
    } else {
        match games[game_id] {
            GameStatus::Waiting(host) => if host == user {
                (games, GameMessageResponse::WaitingForPlayer, ConnectionState::WaitingForPeer)
            } else {
                (
                    join_spec(games, game_id, user).0,
                    GameMessageResponse::Joined,
                    ConnectionState::Active,
                )
            },
            GameStatus::Playing(a, b) => if a.name == user || b.name == user {
                (games, GameMessageResponse::Success, ConnectionState::Active)
            } else {
                (
                    games,
                    GameMessageResponse::Error(GameError::InternalError),
                    ConnectionState::Rejected,
                )
            },
        }
    }
}

/// The outbound message for one roll outcome: the updated score and
/// die on success, the failure otherwise.
pub open spec fn roll_response(outcome: Result<(u8, u8), GameError>) -> GameMessageResponse {
    match outcome {
        Ok(score) => GameMessageResponse::Score(score),
        Err(e) => GameMessageResponse::Error(e),
    }
}

/// Resolve a freshly opened connection for `user` against `game_id`:
/// perform the one registry operation connecting implies and say what
/// to send and which state to enter. The whole outcome is
/// [`connect_spec`] of the registry at entry.
pub fn handle_connect(game: &mut Game, game_id: u128, user: u128) -> (r: (
    GameMessageResponse,
    ConnectionState,
))
    ensures
        (final(game)@, r.0, r.1) == connect_spec(old(game)@, game_id, user),
{
    let current: Result<GameStatus, GameError> = match game.get_game(game_id) {
        Ok(status) => Ok(*status),
        Err(e) => Err(e),
    };
    match current {
        Err(e) => (GameMessageResponse::Error(e), ConnectionState::Rejected),
        Ok(GameStatus::Waiting(host)) => {
            if host == user {
                (GameMessageResponse::WaitingForPlayer, ConnectionState::WaitingForPeer)
            } else {
                match game.join_to_game(game_id, user) {
                    Ok(_) => (GameMessageResponse::Joined, ConnectionState::Active),
                    Err(e) => (GameMessageResponse::Error(e), ConnectionState::Rejected),
                }
            }
        },
        Ok(GameStatus::Playing(a, b)) => {
            if a.name == user || b.name == user {
                (GameMessageResponse::Success, ConnectionState::Active)
            } else {
                (GameMessageResponse::Error(GameError::InternalError), ConnectionState::Rejected)
            }
        },
    }
}

/// What one inbound frame came to: the reply owed to the peer, if
/// any, the connection state afterwards, and — for a close frame — a
/// leave failure that is never sent to the departed peer but is
/// handed to the caller to log.
#[derive(Debug, Clone, Copy)]
pub struct FrameOutcome {
    pub reply: Option<GameMessageResponse>,
    pub state: ConnectionState,
    pub leave_failure: Option<GameError>,
}

/// Consume one inbound frame of an open connection in `state`.
///
/// A close frame leaves the game on the caller's behalf — a failure
/// to leave is reported in `leave_failure` for logging, never to the
/// departed peer — and ends the connection silently. A well-formed
/// roll acts for the identity named in the payload, not for the
/// connection's own, and keeps the connection open whatever the
/// outcome. A malformed frame is unrecoverable: it is answered with
/// `InternalError` and ends the connection.
pub fn handle_frame(game: &mut Game, game_id: u128, user: u128, state: ConnectionState, frame: Frame) -> (r:
    FrameOutcome)
    requires
        state == ConnectionState::Active || state == ConnectionState::WaitingForPeer,
    ensures
        frame matches Frame::Close ==> {
            &&& final(game)@ == leave_spec(old(game)@, game_id, user).0
            &&& r.reply == None::<GameMessageResponse>
            &&& r.state == ConnectionState::Closed
            &&& r.leave_failure == match leave_spec(old(game)@, game_id, user).1 {
                Ok(_) => None::<GameError>,
                Err(e) => Some(e),
            }
        },
        frame matches Frame::Roll(roll) ==> exists|dice: u8|
            {
                &&& 1 <= dice <= 6
                &&& final(game)@ == (#[trigger] roll_spec(old(game)@, game_id, roll.player, dice)).0
                &&& r.reply == Some(roll_response(roll_spec(old(game)@, game_id, roll.player, dice).1))
                &&& r.state == state
                &&& r.leave_failure == None::<GameError>
            },
        frame matches Frame::Malformed ==> {
            &&& final(game)@ == old(game)@
            &&& r.reply == Some(GameMessageResponse::Error(GameError::InternalError))
            &&& r.state == ConnectionState::Closed
            &&& r.leave_failure == None::<GameError>
        },
{
    match frame {
        Frame::Close => {
            let leave_failure = match game.leave_game(game_id, user) {
                Ok(_) => None,
                Err(e) => Some(e),
            };
            FrameOutcome { reply: None, state: ConnectionState::Closed, leave_failure }
        },
        Frame::Roll(roll) => {
            let reply = match game.rool_dice(game_id, roll.player) {
                Ok(score) => GameMessageResponse::Score(score),
                Err(e) => GameMessageResponse::Error(e),
            };
            FrameOutcome { reply: Some(reply), state, leave_failure: None }
        },
        Frame::Malformed => FrameOutcome {
            reply: Some(GameMessageResponse::Error(GameError::InternalError)),
            state: ConnectionState::Closed,
            leave_failure: None,
        },
    }
}

} // verus!
