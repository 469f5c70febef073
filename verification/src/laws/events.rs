//! What every intent leads to: which transition, which events, for whom.

use vstd::prelude::*;

use crate::laws::{authority, script, transitions};
use crate::protocol::{ClientMsgView, ErrorCode, PlayerStatusView, Role, ServerMsgView};
use crate::room;
use crate::room::{EffectView, ReactionView};
use crate::state::{
    ArchivedEntryView, GameView, Phase, PlayerView, ResponsesView, SlideView, TransitionErrorView,
};

verus! {

/// Do the statuses show every player in roster order, by name and by whether they have
/// handed in their answers?
pub open spec fn shows_players(statuses: Seq<PlayerStatusView>, game: GameView) -> bool {
    &&& statuses.len() == game.players.len()
    &&& forall|i: int|
        0 <= i < statuses.len() ==> {
            &&& (#[trigger] statuses[i]).name == game.players[i].name
            &&& statuses[i].submitted == (game.players[i].responses is Some)
        }
}

/// Does the event show the room as it is?
pub open spec fn shows_room(msg: ServerMsgView, game: GameView) -> bool {
    &&& msg matches ServerMsgView::RoomState { room }
    &&& room.code == game.code
    &&& room.phase == game.phase
    &&& shows_players(room.players, game)
    &&& room.current_slide == game.current_slide
    &&& room.total_slides == game.deck().len()
}

/// Does the event show how many players are done?
pub open spec fn shows_progress(msg: ServerMsgView, game: GameView) -> bool {
    &&& msg matches ServerMsgView::SubmissionProgress { submitted, total, players }
    &&& submitted == game.submitted_count()
    &&& total == game.players.len()
    &&& shows_players(players, game)
}

/// Does the event show the slide of the deck that the carousel stands on? Behind the deck
/// there is a blank.
pub open spec fn shows_slide(msg: ServerMsgView, game: GameView) -> bool {
    &&& msg matches ServerMsgView::SlideChanged { index, total_slides, slide }
    &&& index == game.current_slide
    &&& total_slides == game.deck().len()
    &&& game.current_slide < game.deck().len() ==> slide == game.deck()[game.current_slide as int]
    &&& game.current_slide >= game.deck().len() ==> slide == SlideView::Blank
}

/// Is this one error for the sender alone, and nothing else?
pub open spec fn is_error(reaction: ReactionView, code: ErrorCode, message: Seq<char>) -> bool {
    &&& reaction.broadcasts.len() == 0
    &&& reaction.effects.len() == 0
    &&& reaction.direct.len() == 1
    &&& reaction.direct[0] == (ServerMsgView::Error { code, message })
}

/// Are these events for everyone, as many as given, and nothing else?
pub open spec fn is_broadcast(reaction: ReactionView, events: nat) -> bool {
    &&& reaction.broadcasts.len() == events
    &&& reaction.direct.len() == 0
    &&& reaction.effects.len() == 0
}

/// Every snapshot and every progress report of a room shows that room, and every slide
/// event of its carousel the slide that the carousel stands on.
pub proof fn law_events_show_the_room(game: GameView)
    ensures
        shows_room(room::room_state_of(game), game),
        shows_progress(room::progress_of(game), game),
        shows_players(room::statuses_of(game), game),
        shows_slide(room::slide_changed_of(game), game),
{
}

/// A direct reply goes to its requester and nowhere else; a broadcast goes to everyone and
/// to nobody in person.
pub proof fn law_replies_and_broadcasts_are_apart(msg: ServerMsgView, msgs: Seq<ServerMsgView>)
    ensures
        ReactionView::direct_only(msg).direct == seq![msg],
        ReactionView::direct_only(msg).broadcasts.len() == 0,
        ReactionView::direct_only(msg).effects.len() == 0,
        ReactionView::broadcast_only(msgs).broadcasts == msgs,
        ReactionView::broadcast_only(msgs).direct.len() == 0,
        ReactionView::broadcast_only(msgs).effects.len() == 0,
{
}

/// The transition behind a host's roster or round change: what the intent asks for is what
/// is done, and everyone is shown the room and the progress as they then are.
pub proof fn law_the_hosts_changes_are_done_and_shown(
    game: GameView,
    host_token: Seq<char>,
    name: Option<Seq<char>>,
    who: Seq<char>,
    intent: ClientMsgView,
    asked: Result<GameView, TransitionErrorView>,
)
    requires
        ({
            ||| intent == (ClientMsgView::AddPlayer { name: who }) && asked == game.add_player(who)
            ||| intent == (ClientMsgView::RemovePlayer { name: who }) && asked
                == game.remove_player(who)
            ||| intent is StartCollecting && asked == game.start_collecting()
            ||| intent is NewRound && asked == game.new_round()
        }),
    ensures
        ({
            let (next, reaction) = room::react(game, host_token, Role::Host, name, intent);
            match asked {
                Ok(done) => {
                    &&& next == done
                    &&& is_broadcast(reaction, 2)
                    &&& shows_room(reaction.broadcasts[0], next)
                    &&& shows_progress(reaction.broadcasts[1], next)
                },
                Err(reason) => {
                    &&& next == game
                    &&& is_error(reaction, ErrorCode::InvalidTransition, reason.message())
                },
            }
        }),
{
    law_events_show_the_room(room::react(game, host_token, Role::Host, name, intent).0);
}

/// What only the host may do, others are refused.
pub proof fn law_others_are_told_it_is_host_only(
    game: GameView,
    host_token: Seq<char>,
    role: Role,
    name: Option<Seq<char>>,
    intent: ClientMsgView,
)
    requires
        role != Role::Host,
        intent is AddPlayer || intent is RemovePlayer || intent is StartCollecting
            || intent is StartGame || intent is ArchiveRound || intent is NewRound,
    ensures
        ({
            let (next, reaction) = room::react(game, host_token, role, name, intent);
            next == game && is_error(reaction, ErrorCode::Forbidden, "this action is host-only"@)
        }),
{
}

/// A submission of a joined player is made under the name of the connection and shown to
/// everyone as progress; one of anyone else is refused.
pub proof fn law_submissions_are_made_and_shown(
    game: GameView,
    host_token: Seq<char>,
    role: Role,
    name: Option<Seq<char>>,
    items: Seq<Seq<char>>,
    signoff: Seq<char>,
)
    ensures
        ({
            let intent = ClientMsgView::SubmitResponses { responses: items, signoff };
            let (next, reaction) = room::react(game, host_token, role, name, intent);
            if role == Role::Player && name is Some {
                match game.submit_responses(name->0, ResponsesView { items, signoff }) {
                    Ok(done) => {
                        &&& next == done
                        &&& is_broadcast(reaction, 2)
                        &&& shows_progress(reaction.broadcasts[0], next)
                        &&& shows_room(reaction.broadcasts[1], next)
                    },
                    Err(reason) => {
                        &&& next == game
                        &&& is_error(reaction, ErrorCode::InvalidTransition, reason.message())
                    },
                }
            } else {
                &&& next == game
                &&& is_error(
                    reaction,
                    ErrorCode::Forbidden,
                    "only a joined player may submit responses"@,
                )
            }
        }),
{
    let intent = ClientMsgView::SubmitResponses { responses: items, signoff };
    law_events_show_the_room(room::react(game, host_token, role, name, intent).0);
}

/// A move of the carousel by the host or by the reader of the current slide is made, and
/// everyone is shown the slide that the carousel then stands on, and the room.
#[verifier::rlimit(40)]
pub proof fn law_moves_are_made_and_shown(
    game: GameView,
    host_token: Seq<char>,
    role: Role,
    name: Option<Seq<char>>,
    index: nat,
    intent: ClientMsgView,
    asked: Result<GameView, TransitionErrorView>,
)
    requires
        role == Role::Host || (role == Role::Player && name is Some && name
            == game.current_controller()),
        ({
            ||| intent is AdvanceSlide && asked == game.advance_slide()
            ||| intent is PrevSlide && asked == game.prev_slide()
            ||| intent == (ClientMsgView::GotoSlide { index }) && asked == game.goto_slide(index)
        }),
    ensures
        ({
            let (next, reaction) = room::react(game, host_token, role, name, intent);
            match asked {
                Ok(done) => {
                    &&& next == done
                    &&& is_broadcast(reaction, 2)
                    &&& shows_slide(reaction.broadcasts[0], next)
                    &&& shows_room(reaction.broadcasts[1], next)
                },
                Err(reason) => {
                    &&& next == game
                    &&& is_error(reaction, ErrorCode::InvalidTransition, reason.message())
                },
            }
        }),
{
    if asked is Ok {
        law_events_show_the_room(asked->Ok_0);
    }
}

/// Anyone else who moves the carousel is refused.
pub proof fn law_others_do_not_move_the_carousel(
    game: GameView,
    host_token: Seq<char>,
    role: Role,
    name: Option<Seq<char>>,
    intent: ClientMsgView,
)
    requires
        intent is AdvanceSlide || intent is PrevSlide || intent is GotoSlide,
        role != Role::Host,
        role != Role::Player || name is None || name != game.current_controller(),
    ensures
        ({
            let (next, reaction) = room::react(game, host_token, role, name, intent);
            &&& next == game
            &&& is_error(
                reaction,
                ErrorCode::Forbidden,
                "only the host or the current reader can move the carousel"@,
            )
        }),
{
}

/// A jump to a line of the script shows everyone that line: its prompt with the answer that
/// was written for it, and the partner who reads it.
pub proof fn law_everyone_sees_the_line_to_be_read(
    game: GameView,
    host_token: Seq<char>,
    prompts: Seq<Seq<Seq<char>>>,
    starts: Seq<int>,
    i: int,
    j: int,
    index: nat,
)
    requires
        game.phase == Phase::Performing,
        script::is_layout(game, prompts, starts),
        0 <= i < game.players.len(),
        0 <= j < prompts[i].len(),
        index == starts[i] + 2 + j,
    ensures
        ({
            let reaction = room::react(
                game,
                host_token,
                Role::Host,
                None,
                ClientMsgView::GotoSlide { index },
            ).1;
            &&& reaction.broadcasts.len() == 2
            &&& reaction.broadcasts[0] matches ServerMsgView::SlideChanged {
                index: at,
                total_slides,
                slide,
            }
            &&& at == index
            &&& total_slides == starts[game.players.len() as int] + 2
            &&& slide matches SlideView::Script { reader, text }
            &&& script::is_reader(game.players[i], reader)
            &&& script::is_line(game.players[i], prompts[i], j, text)
        }),
{
    script::law_the_deck_is_framed(game, prompts, starts);
    script::law_the_script_pairs_prompts_and_answers(game, prompts, starts, i, j);
    let asked = game.goto_slide(index);
    transitions::law_moves_change_the_slide_alone(game, index);
    assert(asked->Ok_0.deck() == game.deck());
    law_moves_are_made_and_shown(
        game,
        host_token,
        Role::Host,
        None,
        index,
        ClientMsgView::GotoSlide { index },
        asked,
    );
}

/// Do the entries keep the whole round, player by player?
pub open spec fn keeps_round(entries: Seq<ArchivedEntryView>, game: GameView) -> bool {
    &&& entries.len() == game.players.len()
    &&& forall|i: int|
        0 <= i < entries.len() ==> transitions::keeps_player(#[trigger] entries[i], game, i)
}

/// When the host starts the performance, everyone is told the length of the deck and shown
/// the rules and the room, and every player's answers go to storage; a start that is
/// refused says why.
#[verifier::rlimit(40)]
pub proof fn law_the_start_is_shown_and_kept(
    game: GameView,
    host_token: Seq<char>,
    name: Option<Seq<char>>,
)
    ensures
        ({
            let (next, reaction) = room::react(
                game,
                host_token,
                Role::Host,
                name,
                ClientMsgView::StartGame,
            );
            match game.start_game() {
                Ok(done) => {
                    &&& next == done
                    &&& reaction.broadcasts.len() == 3
                    &&& reaction.broadcasts[0] == (ServerMsgView::GameStarted {
                        total_slides: next.deck().len(),
                    })
                    &&& shows_slide(reaction.broadcasts[1], next)
                    &&& reaction.broadcasts[1]->slide == SlideView::Rules
                    &&& shows_room(reaction.broadcasts[2], next)
                    &&& reaction.direct.len() == 0
                    &&& reaction.effects.len() == 1
                    &&& reaction.effects[0] matches EffectView::SaveFinalResponses(entries)
                    &&& keeps_round(entries, game)
                },
                Err(reason) => {
                    &&& next == game
                    &&& is_error(reaction, ErrorCode::InvalidTransition, reason.message())
                },
            }
        }),
{
    if game.start_game() is Ok {
        let done = game.start_game()->Ok_0;
        law_events_show_the_room(done);
        transitions::law_every_player_is_kept_with_their_own_answers(game);
        assert(done.round_entries() == game.round_entries());
    }
}

/// When the host archives the round, everyone is shown the room, and every player's answers
/// go to the archive; an archiving that is refused says why.
pub proof fn law_the_archiving_is_shown_and_kept(
    game: GameView,
    host_token: Seq<char>,
    name: Option<Seq<char>>,
)
    ensures
        ({
            let (next, reaction) = room::react(
                game,
                host_token,
                Role::Host,
                name,
                ClientMsgView::ArchiveRound,
            );
            match game.archive_round() {
                Ok(done) => {
                    &&& next == done
                    &&& reaction.broadcasts.len() == 1
                    &&& shows_room(reaction.broadcasts[0], next)
                    &&& reaction.direct.len() == 0
                    &&& reaction.effects.len() == 1
                    &&& reaction.effects[0] matches EffectView::ArchiveRound(entries)
                    &&& keeps_round(entries, game)
                },
                Err(reason) => {
                    &&& next == game
                    &&& is_error(reaction, ErrorCode::InvalidTransition, reason.message())
                },
            }
        }),
{
    if game.archive_round() is Ok {
        let done = game.archive_round()->Ok_0;
        law_events_show_the_room(done);
        transitions::law_every_player_is_kept_with_their_own_answers(game);
        assert(done.round_entries() == game.round_entries());
    }
}

/// Is this the assignment of the first player of that name: the partner they write for, and
/// the prompts they were given?
pub open spec fn is_assignment(msg: ServerMsgView, game: GameView, k: int) -> bool {
    &&& msg matches ServerMsgView::Assignment { partner, prompts }
    &&& game.players[k].partner == Some(partner)
    &&& transitions::given_prompts(game.prompt_sets, game.players[k], prompts)
}

/// A player has an assignment once they have a partner, and only on the roster.
pub proof fn law_assignments_name_partner_and_prompts(game: GameView, name: Seq<char>, k: int)
    ensures
        transitions::is_unknown(game.players, name) ==> room::assignment_of(game, name) is None,
        transitions::is_first_named(game.players, name, k) && game.players[k].partner is None
            ==> room::assignment_of(game, name) is None,
        transitions::is_first_named(game.players, name, k) && game.players[k].partner is Some
            ==> room::assignment_of(game, name) is Some && is_assignment(
            room::assignment_of(game, name)->0,
            game,
            k,
        ),
{
    transitions::law_names_are_found_on_the_roster(game, name, k);
    if transitions::is_first_named(game.players, name, k) {
        transitions::law_everyone_has_one_list_of_prompts(
            game,
            game.players[k],
            game.prompts_of(game.players[k]),
        );
    }
}

/// A host who does not present the room's token is refused.
pub proof fn law_a_host_without_the_token_is_refused(
    game: GameView,
    host_token: Seq<char>,
    role: Role,
    name: Option<Seq<char>>,
    intent: ClientMsgView,
)
    requires
        intent is JoinRoom,
        intent->JoinRoom_role == Role::Host,
        intent->token != Some(host_token),
    ensures
        ({
            let (next, reaction) = room::react(game, host_token, role, name, intent);
            &&& next == game
            &&& is_error(reaction, ErrorCode::Forbidden, "invalid or missing host token"@)
        }),
{
}

/// Everyone else who joins is acknowledged under the role and name they asked for, shown the
/// room and the progress and, as a player with a partner, given their assignment, in this
/// order. Nothing goes to storage, and the others are shown the room and the progress only
/// where the roster grew.
#[verifier::rlimit(60)]
pub proof fn law_joiners_are_answered_in_order(
    game: GameView,
    host_token: Seq<char>,
    role: Role,
    name: Option<Seq<char>>,
    intent: ClientMsgView,
)
    requires
        intent is JoinRoom,
        intent->JoinRoom_role != Role::Host || intent->token == Some(host_token),
    ensures
        ({
            let asked = intent->JoinRoom_role;
            let joiner = intent->JoinRoom_name;
            let (next, reaction) = room::react(game, host_token, role, name, intent);
            let direct = reaction.direct;
            let told = if asked == Role::Player && joiner is Some {
                room::assignment_of(next, joiner->0)
            } else {
                None
            };
            &&& direct.len() == if told is Some {
                4nat
            } else {
                3nat
            }
            &&& direct[0] == (ServerMsgView::Joined { role: asked, name: joiner })
            &&& shows_room(direct[1], next)
            &&& shows_progress(direct[2], next)
            &&& told is Some ==> direct[3] == told->0
            &&& reaction.effects.len() == 0
            &&& if next.players.len() == game.players.len() {
                &&& next == game
                &&& reaction.broadcasts.len() == 0
            } else {
                &&& reaction.broadcasts.len() == 2
                &&& shows_room(reaction.broadcasts[0], next)
                &&& shows_progress(reaction.broadcasts[1], next)
            }
        }),
{
    let next = room::react(game, host_token, role, name, intent).0;
    law_events_show_the_room(next);
    if let ClientMsgView::JoinRoom { role: asked, name: joiner, token, .. } = intent {
        authority::law_joins_add_new_names_alone(game, host_token, asked, joiner, token);
    }
}

/// A join as a player under a new name in the lobby adds that player, fresh, at the end of
/// the roster; no other join changes the room.
pub proof fn law_joins_register_new_players(
    game: GameView,
    host_token: Seq<char>,
    role: Role,
    name: Option<Seq<char>>,
    intent: ClientMsgView,
)
    requires
        intent is JoinRoom,
    ensures
        ({
            let joiner = intent->JoinRoom_name;
            let next = room::react(game, host_token, role, name, intent).0;
            if intent->JoinRoom_role == Role::Player && joiner is Some && game.phase == Phase::Lobby
                && transitions::is_unknown(game.players, joiner->0) {
                next == (GameView {
                    players: game.players + seq![
                        PlayerView {
                            name: joiner->0,
                            prompt_set_id: None,
                            partner: None,
                            responses: None,
                        },
                    ],
                    ..game
                })
            } else {
                next == game
            }
        }),
{
    let joiner = intent->JoinRoom_name;
    if joiner is Some {
        transitions::law_an_addition_appends_one_player(game, joiner->0);
    }
}

/// A ping is answered by a pong to its sender alone.
pub proof fn law_a_pong_goes_to_the_sender_alone(
    game: GameView,
    host_token: Seq<char>,
    role: Role,
    name: Option<Seq<char>>,
)
    ensures
        ({
            let (next, reaction) = room::react(game, host_token, role, name, ClientMsgView::Ping);
            &&& next == game
            &&& reaction.broadcasts.len() == 0
            &&& reaction.effects.len() == 0
            &&& reaction.direct.len() == 1
            &&& reaction.direct[0] == ServerMsgView::Pong
        }),
{
}

} // verus!
