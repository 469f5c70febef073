//! The course of a round: the phases, the locked roster, the submissions.

use vstd::prelude::*;

use crate::laws::soundness;
use crate::protocol::{ClientMsgView, Role};
use crate::room;
use crate::room::{CommandView, EffectView};
use crate::state::{GameView, Phase, PlayerView, ResponsesView};

verus! {

/// The phase that follows another.
pub open spec fn next_phase(phase: Phase) -> Phase {
    match phase {
        Phase::Lobby => Phase::Collecting,
        Phase::Collecting => Phase::Performing,
        Phase::Performing => Phase::Archived,
        Phase::Archived => Phase::Lobby,
    }
}

/// The intent that ends a phase.
pub open spec fn ends_phase(phase: Phase, intent: ClientMsgView) -> bool {
    match phase {
        Phase::Lobby => intent is StartCollecting,
        Phase::Collecting => intent is StartGame,
        Phase::Performing => intent is ArchiveRound,
        Phase::Archived => intent is NewRound,
    }
}

/// The phases follow one another in a circle, and only the host moves the room on, by
/// the one intent that ends the current phase.
pub proof fn law_phases_go_round(
    game: GameView,
    host_token: Seq<char>,
    role: Role,
    name: Option<Seq<char>>,
    intent: ClientMsgView,
)
    ensures
        ({
            let next = room::react(game, host_token, role, name, intent).0;
            next.phase != game.phase ==> {
                &&& role == Role::Host
                &&& ends_phase(game.phase, intent)
                &&& next.phase == next_phase(game.phase)
            }
        }),
{
    soundness::law_intents_act_through_transitions(game, host_token, role, name, intent);
}

/// A room keeps its code and its prompt sets for good.
pub proof fn law_code_and_prompt_sets_stay(
    game: GameView,
    host_token: Seq<char>,
    role: Role,
    name: Option<Seq<char>>,
    intent: ClientMsgView,
)
    ensures
        ({
            let next = room::react(game, host_token, role, name, intent).0;
            next.code == game.code && next.prompt_sets == game.prompt_sets
        }),
{
    soundness::law_intents_act_through_transitions(game, host_token, role, name, intent);
}

/// Do two rosters hold the same players with the same assignments?
pub open spec fn same_roster(a: GameView, b: GameView) -> bool {
    &&& a.players.len() == b.players.len()
    &&& forall|i: int|
        0 <= i < a.players.len() ==> {
            &&& (#[trigger] a.players[i]).name == b.players[i].name
            &&& a.players[i].prompt_set_id == b.players[i].prompt_set_id
            &&& a.players[i].partner == b.players[i].partner
        }
}

/// The roster, the ring and the assignments are fixed from the moment submissions open
/// until the round is over: nothing but the start of a new round touches them.
pub proof fn law_the_roster_is_locked_after_the_lobby(
    game: GameView,
    host_token: Seq<char>,
    role: Role,
    name: Option<Seq<char>>,
    intent: ClientMsgView,
)
    requires
        game.phase != Phase::Lobby,
        !(intent is NewRound),
    ensures
        same_roster(game, room::react(game, host_token, role, name, intent).0),
{
    soundness::law_intents_act_through_transitions(game, host_token, role, name, intent);
    if let ClientMsgView::SubmitResponses { responses, signoff } = intent {
        if name is Some && game.has_player(name->0) {
            soundness::lemma_has_place(game, name->0);
        }
    }
}

/// Only a player's own submission touches answers while submissions are open: it
/// replaces the answers of that player and leaves everyone else's alone.
pub proof fn law_a_submission_touches_only_the_senders_answers(
    game: GameView,
    host_token: Seq<char>,
    role: Role,
    name: Option<Seq<char>>,
    intent: ClientMsgView,
    i: int,
)
    requires
        game.phase == Phase::Collecting,
        0 <= i < game.players.len(),
        !(role == Role::Player && name == Some(game.players[i].name) && intent is SubmitResponses),
    ensures
        ({
            let next = room::react(game, host_token, role, name, intent).0;
            &&& next.players.len() == game.players.len()
            &&& next.players[i] == game.players[i]
        }),
{
    soundness::law_intents_act_through_transitions(game, host_token, role, name, intent);
    if let ClientMsgView::SubmitResponses { responses, signoff } = intent {
        if name is Some && game.has_player(name->0) {
            soundness::lemma_has_place(game, name->0);
        }
    }
}

/// Once the performance starts, nobody can change an answer any more: what was handed
/// in is what is read.
pub proof fn law_answers_are_final_once_the_performance_starts(
    game: GameView,
    host_token: Seq<char>,
    role: Role,
    name: Option<Seq<char>>,
    intent: ClientMsgView,
)
    requires
        game.phase == Phase::Performing || game.phase == Phase::Archived,
        !(intent is NewRound),
    ensures
        room::react(game, host_token, role, name, intent).0.players == game.players,
{
    soundness::law_intents_act_through_transitions(game, host_token, role, name, intent);
}

/// A player may submit again: of two submissions that fit, the later one counts, as if
/// the earlier had not been made; one that does not fit is refused as before.
pub proof fn law_a_later_submission_replaces_an_earlier_one(
    game: GameView,
    name: Seq<char>,
    earlier: ResponsesView,
    later: ResponsesView,
)
    requires
        game.submit_responses(name, earlier) is Ok,
    ensures
        game.submit_responses(name, earlier)->Ok_0.submit_responses(name, later)
            == game.submit_responses(name, later),
{
    soundness::lemma_has_place(game, name);
    let k = game.place(name);
    let once = game.submit_responses(name, earlier)->Ok_0;
    assert(once.is_place(name, k)) by {
        assert(once.players[k].name == name);
        assert forall|j: int| 0 <= j < k implies (#[trigger] once.players[j]).name != name by {
            assert(game.players[j].name != name);
        }
    }
    crate::game::lemma_place(once, name, k);
    assert(once.prompts_of(once.players[k]) == game.prompts_of(game.players[k]));
    if game.submit_responses(name, later) is Ok {
        assert(once.submit_responses(name, later)->Ok_0.players
            =~= game.submit_responses(name, later)->Ok_0.players);
    }
}

/// In every phase the count of the players done is at most the roster's length, and it
/// tells when everyone is done: then and only then a roster that is not empty is counted
/// in full.
pub proof fn law_the_count_tells_when_everyone_submitted(game: GameView)
    ensures
        game.submitted_count() <= game.players.len(),
        game.all_submitted() <==> game.players.len() > 0 && game.submitted_count()
            == game.players.len(),
{
    lemma_all_counted(game.players);
}

/// The performance starts only when everyone has submitted, and then it can start.
pub proof fn law_the_performance_waits_for_everyone(game: GameView)
    requires
        game.phase == Phase::Collecting,
    ensures
        game.start_game() is Ok <==> game.all_submitted(),
        game.start_game() is Ok <==> game.players.len() > 0 && game.submitted_count()
            == game.players.len(),
{
    law_the_count_tells_when_everyone_submitted(game);
}

/// The count of the players done is the length of the roster just when all are done.
proof fn lemma_all_counted(players: Seq<PlayerView>)
    ensures
        players.filter(|p: PlayerView| p.submitted()).len() <= players.len(),
        players.filter(|p: PlayerView| p.submitted()).len() == players.len() <==> (
        forall|i: int| 0 <= i < players.len() ==> (#[trigger] players[i]).submitted()),
    decreases players.len(),
{
    reveal(Seq::filter);
    if players.len() > 0 {
        let init = players.drop_last();
        lemma_all_counted(init);
        if players.last().submitted() && (forall|i: int|
            0 <= i < init.len() ==> (#[trigger] init[i]).submitted()) {
            assert forall|i: int| 0 <= i < players.len() implies (
            #[trigger] players[i]).submitted() by {
                if i < init.len() {
                    assert(init[i].submitted());
                }
            }
        }
        if forall|i: int| 0 <= i < players.len() ==> (#[trigger] players[i]).submitted() {
            assert(players[players.len() - 1].submitted());
            assert forall|i: int| 0 <= i < init.len() implies (
            #[trigger] init[i]).submitted() by {
                assert(players[i].submitted());
            }
        }
    }
}

/// What is kept of a round is settled when its performance starts: whatever the room is
/// told until the next round, its entries stay those of the start.
pub proof fn law_the_entries_stay_those_of_the_start(
    game: GameView,
    host_token: Seq<char>,
    commands: Seq<CommandView>,
)
    requires
        game.phase == Phase::Performing || game.phase == Phase::Archived,
        forall|k: int| 0 <= k < commands.len() ==> !((#[trigger] commands[k]).intent is NewRound),
    ensures
        ({
            let later = soundness::after_all(game, host_token, commands);
            &&& later.phase == Phase::Performing || later.phase == Phase::Archived
            &&& later.code == game.code
            &&& later.players == game.players
            &&& later.round_entries() == game.round_entries()
        }),
    decreases commands.len(),
{
    if commands.len() > 0 {
        let init = commands.drop_last();
        let last = commands.last();
        assert forall|k: int| 0 <= k < init.len() implies !((
        #[trigger] init[k]).intent is NewRound) by {
            assert(init[k] == commands[k]);
        }
        law_the_entries_stay_those_of_the_start(game, host_token, init);
        let before = soundness::after_all(game, host_token, init);
        assert(!(commands[commands.len() - 1].intent is NewRound));
        law_phases_go_round(before, host_token, last.role, last.name, last.intent);
        law_code_and_prompt_sets_stay(before, host_token, last.role, last.name, last.intent);
        law_answers_are_final_once_the_performance_starts(
            before,
            host_token,
            last.role,
            last.name,
            last.intent,
        );
    }
}

/// Storage hears of a room twice in a round and no more: the entries of the round when
/// the host starts the performance, and the same entries when the host archives it.
pub proof fn law_storage_hears_of_the_start_and_the_end_alone(
    game: GameView,
    host_token: Seq<char>,
    role: Role,
    name: Option<Seq<char>>,
    intent: ClientMsgView,
)
    ensures
        room::react(game, host_token, role, name, intent).1.effects == if role == Role::Host
            && intent is StartGame && game.start_game() is Ok {
            seq![EffectView::SaveFinalResponses(game.round_entries())]
        } else if role == Role::Host && intent is ArchiveRound && game.archive_round() is Ok {
            seq![EffectView::ArchiveRound(game.round_entries())]
        } else {
            Seq::empty()
        },
{
}

} // verus!
