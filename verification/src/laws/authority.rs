//! Who may do what, and who hears of it.

use vstd::prelude::*;

use crate::laws::soundness;
use crate::protocol::{ClientMsgView, PlayerStatusView, Role, ServerMsgView};
use crate::room;
use crate::room::ReactionView;
use crate::state::{GameView, Phase, PlayerView, TransitionErrorView};

verus! {

/// The intents that only the host may send.
pub open spec fn is_host_only(intent: ClientMsgView) -> bool {
    ||| intent is AddPlayer
    ||| intent is RemovePlayer
    ||| intent is StartCollecting
    ||| intent is StartGame
    ||| intent is ArchiveRound
    ||| intent is NewRound
}

/// The intents that move the carousel.
pub open spec fn is_move(intent: ClientMsgView) -> bool {
    intent is AdvanceSlide || intent is PrevSlide || intent is GotoSlide
}

/// A host-only intent of anyone else is refused: the room stays as it is, and only the
/// sender hears of it.
pub proof fn law_host_only_intents_are_refused_to_others(
    game: GameView,
    host_token: Seq<char>,
    role: Role,
    name: Option<Seq<char>>,
    intent: ClientMsgView,
)
    requires
        role != Role::Host,
        is_host_only(intent),
    ensures
        room::react(game, host_token, role, name, intent) == (game, room::host_only()),
{
}

/// The carousel is moved by the host or, during the performance, by the player who
/// performs the current slide; anyone else is refused.
pub proof fn law_only_host_or_reader_moves_the_carousel(
    game: GameView,
    host_token: Seq<char>,
    role: Role,
    name: Option<Seq<char>>,
    intent: ClientMsgView,
)
    requires
        is_move(intent),
        role != Role::Host,
        !(role == Role::Player && name is Some && game.phase == Phase::Performing && name
            == game.current_controller()),
    ensures
        room::react(game, host_token, role, name, intent) == (
            game,
            room::forbidden("only the host or the current reader can move the carousel"@),
        ),
{
}

/// The move that an intent asks for.
pub open spec fn moved(game: GameView, intent: ClientMsgView) -> Result<
    GameView,
    TransitionErrorView,
> {
    match intent {
        ClientMsgView::AdvanceSlide => game.advance_slide(),
        ClientMsgView::PrevSlide => game.prev_slide(),
        ClientMsgView::GotoSlide { index } => game.goto_slide(index),
        _ => Ok(game),
    }
}

/// During the performance the host and the performer of the current slide move the
/// carousel, and everyone sees where it went.
pub proof fn law_host_and_reader_move_the_carousel(
    game: GameView,
    host_token: Seq<char>,
    role: Role,
    name: Option<Seq<char>>,
    intent: ClientMsgView,
)
    requires
        is_move(intent),
        role == Role::Host || (role == Role::Player && name is Some && name
            == game.current_controller()),
        moved(game, intent) is Ok,
    ensures
        ({
            let next = moved(game, intent)->Ok_0;
            room::react(game, host_token, role, name, intent) == (
                next,
                ReactionView::broadcast_only(
                    seq![room::slide_changed_of(next), room::room_state_of(next)],
                ),
            )
        }),
{
}

/// A display is read-only: nothing it sends changes the room or is broadcast, unless it
/// asks to join as a player.
pub proof fn law_a_display_is_read_only(
    game: GameView,
    host_token: Seq<char>,
    name: Option<Seq<char>>,
    intent: ClientMsgView,
)
    requires
        intent matches ClientMsgView::JoinRoom { role, .. } ==> role != Role::Player,
    ensures
        room::react(game, host_token, Role::Display, name, intent).0 == game,
        room::react(game, host_token, Role::Display, name, intent).1.broadcasts.len() == 0,
        room::react(game, host_token, Role::Display, name, intent).1.effects.len() == 0,
{
}

/// Nobody is acknowledged as the host without the room's token, and everybody who joins
/// as the host with it is.
#[verifier::rlimit(40)]
pub proof fn law_the_host_presents_the_token(
    game: GameView,
    host_token: Seq<char>,
    role: Role,
    name: Option<Seq<char>>,
    intent: ClientMsgView,
)
    ensures
        ({
            let direct = room::react(game, host_token, role, name, intent).1.direct;
            &&& forall|k: int|
                0 <= k < direct.len() && (#[trigger] direct[k] matches ServerMsgView::Joined {
                    role: granted,
                    ..
                } && granted == Role::Host) ==> {
                    &&& intent is JoinRoom
                    &&& intent->JoinRoom_role == Role::Host
                    &&& intent->token == Some(host_token)
                }
            &&& intent matches ClientMsgView::JoinRoom {
                role: requested,
                name: joiner,
                token,
                ..
            } ==> (requested != Role::Host || token == Some(host_token)) ==> {
                &&& direct.len() > 0
                &&& direct[0] == (ServerMsgView::Joined { role: requested, name: joiner })
            }
        }),
{
}

/// Is a refusal, where there is one, all that a step leads to?
pub open spec fn refuses_cleanly(game: GameView, step: room::Step) -> bool {
    forall|k: int|
        0 <= k < step.1.direct.len() && (#[trigger] step.1.direct[k]) is Error ==> {
            &&& step.0 == game
            &&& step.1 == ReactionView::direct_only(step.1.direct[k])
        }
}

/// A join is refused by one error or answered without any.
proof fn lemma_joins_refuse_cleanly(
    game: GameView,
    host_token: Seq<char>,
    requested: Role,
    name: Option<Seq<char>>,
    token: Option<Seq<char>>,
)
    ensures
        refuses_cleanly(game, room::join_step(game, host_token, requested, name, token)),
{
    let step = room::join_step(game, host_token, requested, name, token);
    if requested != Role::Host || token == Some(host_token) {
        let direct = step.1.direct;
        assert(direct.len() == 3 || direct.len() == 4);
        assert(!(direct[0] is Error) && !(direct[1] is Error) && !(direct[2] is Error));
        assert(direct.len() == 4 ==> direct[3] is Assignment);
    }
}

/// A refusal is all that a refused intent leads to: one error to the sender alone,
/// nothing broadcast, nothing stored, and the room as it was.
pub proof fn law_a_refusal_changes_nothing(
    game: GameView,
    host_token: Seq<char>,
    role: Role,
    name: Option<Seq<char>>,
    intent: ClientMsgView,
)
    ensures
        refuses_cleanly(game, room::react(game, host_token, role, name, intent)),
{
    if let ClientMsgView::JoinRoom { role: requested, name: joiner, token, .. } = intent {
        lemma_joins_refuse_cleanly(game, host_token, requested, joiner, token);
    } else {
        let step = room::react(game, host_token, role, name, intent);
        assert(step.1.direct.len() <= 1);
        if step.1.direct.len() == 1 && step.1.direct[0] is Error {
            assert(step.0 == game);
            assert(step.1 == ReactionView::direct_only(step.1.direct[0]));
        }
    }
}

/// No intent is dropped in silence: someone is always told something.
#[verifier::rlimit(40)]
pub proof fn law_every_intent_is_answered(
    game: GameView,
    host_token: Seq<char>,
    role: Role,
    name: Option<Seq<char>>,
    intent: ClientMsgView,
)
    ensures
        ({
            let reaction = room::react(game, host_token, role, name, intent).1;
            reaction.broadcasts.len() + reaction.direct.len() > 0
        }),
{
}

/// A ping is answered by a pong and touches nothing.
pub proof fn law_a_ping_is_answered_by_a_pong(
    game: GameView,
    host_token: Seq<char>,
    role: Role,
    name: Option<Seq<char>>,
)
    ensures
        room::react(game, host_token, role, name, ClientMsgView::Ping) == (
            game,
            ReactionView::direct_only(ServerMsgView::Pong),
        ),
{
}

/// Whenever the room changes, everyone is shown the room as it now is.
#[verifier::rlimit(40)]
pub proof fn law_every_change_is_broadcast(
    game: GameView,
    host_token: Seq<char>,
    role: Role,
    name: Option<Seq<char>>,
    intent: ClientMsgView,
)
    ensures
        ({
            let (next, reaction) = room::react(game, host_token, role, name, intent);
            next != game ==> reaction.broadcasts.contains(room::room_state_of(next))
        }),
{
    let (next, reaction) = room::react(game, host_token, role, name, intent);
    if next != game {
        let state = room::room_state_of(next);
        assert(reaction.broadcasts.len() > 0);
        assert(reaction.broadcasts[0] == state || reaction.broadcasts.last() == state);
    }
}

/// An accepted join tells the joiner how the room stands.
pub proof fn law_a_joiner_is_brought_up_to_date(
    game: GameView,
    host_token: Seq<char>,
    role: Role,
    name: Option<Seq<char>>,
    intent: ClientMsgView,
)
    requires
        intent is JoinRoom,
        intent->JoinRoom_role != Role::Host || intent->token == Some(host_token),
    ensures
        ({
            let (next, reaction) = room::react(game, host_token, role, name, intent);
            &&& reaction.direct.len() >= 3
            &&& reaction.direct[1] == room::room_state_of(next)
            &&& reaction.direct[2] == room::progress_of(next)
        }),
{
}

/// Of all joins, only that of a player under a new name in the lobby changes a room: it
/// adds one fresh player at the end of the roster and touches nothing else, and everyone
/// sees the room and its progress as they now are. Every other join, a refused one too,
/// leaves the room as it is and broadcasts nothing.
pub proof fn law_joins_add_new_names_alone(
    game: GameView,
    host_token: Seq<char>,
    requested: Role,
    name: Option<Seq<char>>,
    token: Option<Seq<char>>,
)
    ensures
        ({
            let (next, reaction) = room::join_step(game, host_token, requested, name, token);
            if requested == Role::Player && name is Some && game.phase == Phase::Lobby
                && !game.has_player(name->0) {
                &&& next == (GameView {
                    players: game.players.push(PlayerView::new(name->0)),
                    ..game
                })
                &&& reaction.broadcasts == seq![
                    room::room_state_of(next),
                    room::progress_of(next),
                ]
            } else {
                &&& next == game
                &&& reaction.broadcasts == Seq::<ServerMsgView>::empty()
            }
        }),
{
}

/// In the lobby a player who joins under a new name is put on the roster, at its end, and
/// everyone sees it.
pub proof fn law_new_names_register_in_the_lobby(
    game: GameView,
    host_token: Seq<char>,
    role: Role,
    name: Option<Seq<char>>,
    intent: ClientMsgView,
)
    requires
        game.phase == Phase::Lobby,
        intent is JoinRoom,
        intent->JoinRoom_role == Role::Player,
        intent->JoinRoom_name is Some,
        !game.has_player(intent->JoinRoom_name->0),
    ensures
        ({
            let (next, reaction) = room::react(game, host_token, role, name, intent);
            &&& next.players == game.players.push(PlayerView::new(intent->JoinRoom_name->0))
            &&& reaction.broadcasts == seq![room::room_state_of(next), room::progress_of(next)]
        }),
{
}

/// Once submissions are open nobody new gets on the roster by joining: the room stays as
/// it is and nothing is broadcast.
pub proof fn law_latecomers_are_not_registered(
    game: GameView,
    host_token: Seq<char>,
    role: Role,
    name: Option<Seq<char>>,
    intent: ClientMsgView,
)
    requires
        game.phase != Phase::Lobby,
        intent is JoinRoom,
    ensures
        room::react(game, host_token, role, name, intent).0 == game,
        room::react(game, host_token, role, name, intent).1.broadcasts.len() == 0,
{
}

/// The assignment of a player names the next one in the ring.
proof fn lemma_assignment(game: GameView, i: int)
    requires
        soundness::names_distinct(game),
        soundness::ring(game),
        0 <= i < game.players.len(),
    ensures
        room::assignment_of(game, game.players[i].name) == Some(
            ServerMsgView::Assignment {
                partner: game.players[(i + 1) % game.players.len() as int].name,
                prompts: game.prompts_of(game.players[i]),
            },
        ),
{
    let player = game.players[i].name;
    assert(game.is_place(player, i)) by {
        assert forall|j: int| 0 <= j < i implies (#[trigger] game.players[j]).name != player by {
            assert(game.players[i].name == player);
        }
    }
    crate::game::lemma_place(game, player, i);
    assert(game.players[i].partner is Some);
}

/// A player who joins while submissions are open is told whom they write for and what
/// to answer.
pub proof fn law_a_player_is_told_their_assignment(
    game: GameView,
    host_token: Seq<char>,
    role: Role,
    name: Option<Seq<char>>,
    intent: ClientMsgView,
    i: int,
)
    requires
        soundness::sound(game),
        game.phase != Phase::Lobby,
        0 <= i < game.players.len(),
        intent is JoinRoom,
        intent->JoinRoom_role == Role::Player,
        intent->JoinRoom_name == Some(game.players[i].name),
    ensures
        ({
            let direct = room::react(game, host_token, role, name, intent).1.direct;
            &&& direct.len() == 4
            &&& direct[3] == (ServerMsgView::Assignment {
                partner: game.players[(i + 1) % game.players.len() as int].name,
                prompts: game.prompts_of(game.players[i]),
            })
        }),
{
    lemma_assignment(game, i);
    law_latecomers_are_not_registered(game, host_token, role, name, intent);
}

/// To join once more under the same name changes nothing: a player who lost the
/// connection comes back to the room as it is.
pub proof fn law_joining_again_changes_nothing(
    game: GameView,
    host_token: Seq<char>,
    role: Role,
    name: Option<Seq<char>>,
    intent: ClientMsgView,
)
    requires
        intent is JoinRoom,
    ensures
        ({
            let next = room::react(game, host_token, role, name, intent).0;
            room::react(next, host_token, role, name, intent).0 == next
        }),
{
    if let ClientMsgView::JoinRoom { role: requested, name: joiner, .. } = intent {
        if room::registers(game, requested, joiner) {
            let next = game.add_player(joiner->0)->Ok_0;
            assert(next.players[game.players.len() as int].name == joiner->0);
            assert(next.has_player(joiner->0));
        }
    }
}

/// May everyone hear this of a room in the given phase? The room and its progress
/// always; the deck while the performance lasts.
pub open spec fn is_public(msg: ServerMsgView, phase: Phase) -> bool {
    ||| msg is RoomState
    ||| msg is SubmissionProgress
    ||| phase == Phase::Performing && (msg is GameStarted || msg is SlideChanged)
}

/// Assignments go to one connection at a time and are never broadcast; and before the
/// performance, what is broadcast is the room and its progress alone.
#[verifier::rlimit(40)]
pub proof fn law_assignments_are_not_broadcast(
    game: GameView,
    host_token: Seq<char>,
    role: Role,
    name: Option<Seq<char>>,
    intent: ClientMsgView,
)
    ensures
        ({
            let (next, reaction) = room::react(game, host_token, role, name, intent);
            forall|k: int|
                0 <= k < reaction.broadcasts.len() ==> is_public(
                    #[trigger] reaction.broadcasts[k],
                    next.phase,
                )
        }),
{
    let (next, reaction) = room::react(game, host_token, role, name, intent);
    let told = reaction.broadcasts;
    assert(told.len() <= 3);
    assert(told.len() > 0 ==> is_public(told[0], next.phase));
    assert(told.len() > 1 ==> is_public(told[1], next.phase));
    assert(told.len() > 2 ==> is_public(told[2], next.phase));
}

/// The statuses hold, in roster order, each player's name and whether they have
/// submitted, and nothing else: rosters that agree on these have the same statuses,
/// whatever the partners, the assignments and the answers are.
pub proof fn law_statuses_reveal_names_and_progress_alone(a: GameView, b: GameView)
    requires
        a.players.len() == b.players.len(),
        forall|i: int|
            0 <= i < a.players.len() ==> {
                &&& (#[trigger] a.players[i]).name == b.players[i].name
                &&& a.players[i].submitted() == b.players[i].submitted()
            },
    ensures
        room::statuses_of(a) == room::statuses_of(b),
        room::statuses_of(a).len() == a.players.len(),
        forall|i: int|
            0 <= i < a.players.len() ==> #[trigger] room::statuses_of(a)[i] == (PlayerStatusView {
                name: a.players[i].name,
                submitted: a.players[i].submitted(),
            }),
{
    assert(room::statuses_of(a) =~= room::statuses_of(b));
}

/// Do two games look the same to everyone: the same code, phase and names, the same
/// players done, the same place on a deck of the same length?
pub open spec fn look_alike(a: GameView, b: GameView) -> bool {
    &&& a.code == b.code
    &&& a.phase == b.phase
    &&& a.current_slide == b.current_slide
    &&& a.deck().len() == b.deck().len()
    &&& a.players.len() == b.players.len()
    &&& forall|i: int|
        0 <= i < a.players.len() ==> {
            &&& (#[trigger] a.players[i]).name == b.players[i].name
            &&& a.players[i].submitted() == b.players[i].submitted()
        }
}

/// The counts of the players done agree where the players done do.
proof fn lemma_same_count(a: Seq<PlayerView>, b: Seq<PlayerView>)
    requires
        a.len() == b.len(),
        forall|i: int|
            0 <= i < a.len() ==> (#[trigger] a[i]).submitted() == b[i].submitted(),
    ensures
        a.filter(|p: PlayerView| p.submitted()).len() == b.filter(
            |p: PlayerView| p.submitted(),
        ).len(),
    decreases a.len(),
{
    reveal(Seq::filter);
    if a.len() > 0 {
        assert(a.last().submitted() == b.last().submitted()) by {
            assert(a[a.len() - 1].submitted() == b[a.len() - 1].submitted());
        }
        assert forall|i: int| 0 <= i < a.drop_last().len() implies (
        #[trigger] a.drop_last()[i]).submitted() == b.drop_last()[i].submitted() by {
            assert(a[i].submitted() == b[i].submitted());
        }
        lemma_same_count(a.drop_last(), b.drop_last());
    }
}

/// The snapshot and the progress reveal no partner, no assignment and no answer: they
/// are the same for any two games that look alike.
pub proof fn law_snapshots_reveal_no_answers(a: GameView, b: GameView)
    requires
        look_alike(a, b),
    ensures
        room::room_state_of(a) == room::room_state_of(b),
        room::progress_of(a) == room::progress_of(b),
{
    law_statuses_reveal_names_and_progress_alone(a, b);
    lemma_same_count(a.players, b.players);
}

} // verus!
