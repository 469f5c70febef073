//! What holds of every state that a room can reach.

use vstd::prelude::*;

use crate::game;
use crate::protocol::{ClientMsgView, Role};
use crate::room;
use crate::room::CommandView;
use crate::state::{
    GameView, Phase, PlayerView, PromptSetView, ResponsesView, TransitionErrorView,
};

verus! {

/// Every name is on the roster only once.
pub open spec fn names_distinct(game: GameView) -> bool {
    forall|i: int, j: int|
        0 <= i < j < game.players.len() ==> (#[trigger] game.players[i]).name != (
        #[trigger] game.players[j]).name
}

/// No player has an assignment or answers yet.
pub open spec fn unassigned(game: GameView) -> bool {
    forall|i: int|
        0 <= i < game.players.len() ==> #[trigger] game.players[i] == PlayerView::new(
            game.players[i].name,
        )
}

/// Each player writes for the next one, and the last for the first.
pub open spec fn ring(game: GameView) -> bool {
    forall|i: int|
        0 <= i < game.players.len() ==> #[trigger] game.players[i].partner == Some(
            game.players[(i + 1) % game.players.len() as int].name,
        )
}

/// The prompt sets were dealt round robin.
pub open spec fn dealt(game: GameView) -> bool {
    &&& game.prompt_sets.len() > 0
    &&& forall|i: int|
        0 <= i < game.players.len() ==> (#[trigger] game.players[i]).prompt_set_id == Some(
            game.prompt_sets[i % game.prompt_sets.len() as int].id,
        )
}

/// Whoever answered gave one answer per prompt.
pub open spec fn answers_fit(game: GameView) -> bool {
    forall|i: int|
        0 <= i < game.players.len() ==> ((#[trigger] game.players[i]).submitted()
            ==> game.players[i].answers().items.len() == game.prompts_of(game.players[i]).len())
}

/// The carousel stands on a slide of the deck.
pub open spec fn on_deck(game: GameView) -> bool {
    game.current_slide < game.deck().len()
}

/// What holds of every state that a room can reach.
pub open spec fn sound(game: GameView) -> bool {
    &&& names_distinct(game)
    &&& game.phase == Phase::Lobby ==> unassigned(game) && game.current_slide == 0
    &&& game.phase != Phase::Lobby ==> {
        &&& game.players.len() > 0
        &&& ring(game)
        &&& dealt(game)
        &&& answers_fit(game)
    }
    &&& game.phase == Phase::Collecting ==> game.current_slide == 0
    &&& game.phase == Phase::Performing || game.phase == Phase::Archived ==> {
        &&& game.all_submitted()
        &&& on_deck(game)
    }
}

/// A fresh room is sound.
pub proof fn law_new_room_is_sound(code: Seq<char>, prompt_sets: Seq<PromptSetView>)
    ensures
        sound(GameView::new(code, prompt_sets)),
{
}

/// A reset room is as good as new: it keeps its code and its prompt sets alone.
pub proof fn law_reset_is_a_new_room(game: GameView)
    ensures
        game.reset() == GameView::new(game.code, game.prompt_sets),
        sound(game.reset()),
{
}

/// A name on the roster has a first place there.
pub proof fn lemma_has_place(game: GameView, name: Seq<char>)
    requires
        game.has_player(name),
    ensures
        game.is_place(name, game.place(name)),
{
    let i = choose|i: int|
        0 <= i < game.players.len() && (#[trigger] game.players[i]).name == name;
    lemma_first_place(game, name, i);
    let k = choose|k: int| game::is_place(game.players, name, k);
    assert(game::is_place(game.players, name, k));
}

/// Below a place with the name lies a first one.
proof fn lemma_first_place(game: GameView, name: Seq<char>, i: int)
    requires
        0 <= i < game.players.len(),
        game.players[i].name == name,
    ensures
        exists|k: int| game::is_place(game.players, name, k),
    decreases i,
{
    if exists|j: int| 0 <= j < i && (#[trigger] game.players[j]).name == name {
        let j = choose|j: int| 0 <= j < i && (#[trigger] game.players[j]).name == name;
        lemma_first_place(game, name, j);
    } else {
        assert(game::is_place(game.players, name, i));
    }
}

/// A prompt set of the catalog is found by its id.
proof fn lemma_set_is_found(sets: Seq<PromptSetView>, i: int)
    requires
        0 <= i < sets.len(),
    ensures
        game::find_set(sets, sets[i].id) is Some,
{
    lemma_first_set(sets, sets[i].id, i);
    let k = choose|k: int| game::is_set_place(sets, sets[i].id, k);
    game::lemma_set_place(sets, sets[i].id, k);
}

/// Below a place with the id lies a first one.
pub proof fn lemma_first_set(sets: Seq<PromptSetView>, id: i64, i: int)
    requires
        0 <= i < sets.len(),
        sets[i].id == id,
    ensures
        exists|k: int| game::is_set_place(sets, id, k),
    decreases i,
{
    if exists|j: int| 0 <= j < i && (#[trigger] sets[j]).id == id {
        let j = choose|j: int| 0 <= j < i && (#[trigger] sets[j]).id == id;
        lemma_first_set(sets, id, j);
    } else {
        assert(game::is_set_place(sets, id, i));
    }
}

/// A new name keeps the roster sound.
proof fn lemma_add_is_sound(game: GameView, name: Seq<char>)
    requires
        sound(game),
        game.add_player(name) is Ok,
    ensures
        sound(game.add_player(name)->Ok_0),
{
    let next = game.add_player(name)->Ok_0;
    let n = game.players.len() as int;
    assert forall|i: int, j: int| 0 <= i < j < next.players.len() implies (
    #[trigger] next.players[i]).name != (#[trigger] next.players[j]).name by {
        assert(next.players[i] == game.players[i]);
        if j < n {
            assert(next.players[j] == game.players[j]);
        }
    }
}

/// A removal keeps the roster sound.
proof fn lemma_remove_is_sound(game: GameView, name: Seq<char>)
    requires
        sound(game),
        game.remove_player(name) is Ok,
    ensures
        sound(game.remove_player(name)->Ok_0),
{
    lemma_has_place(game, name);
    let k = game.place(name);
    let next = game.remove_player(name)->Ok_0;
    assert forall|i: int| 0 <= i < next.players.len() implies #[trigger] next.players[i]
        == game.players[if i < k {
        i
    } else {
        i + 1
    }] by {}
    assert(names_distinct(next));
    assert(unassigned(next));
}

/// The dealt assignments are sound.
proof fn lemma_collecting_is_sound(game: GameView)
    requires
        sound(game),
        game.start_collecting() is Ok,
    ensures
        sound(game.start_collecting()->Ok_0),
{
    let next = game.start_collecting()->Ok_0;
    let n = game.players.len() as int;
    assert forall|i: int| 0 <= i < n implies (#[trigger] next.players[i]).name
        == game.players[i].name by {}
    assert forall|i: int| 0 <= i < n implies (#[trigger] next.players[i]).partner == Some(
        next.players[(i + 1) % n].name,
    ) by {
        assert(0 <= (i + 1) % n < n);
        assert(next.players[i] == game.assigned(i));
        assert(next.players[(i + 1) % n] == game.assigned((i + 1) % n));
    }
    assert forall|i: int, j: int| 0 <= i < j < n implies (#[trigger] next.players[i]).name != (
    #[trigger] next.players[j]).name by {
        assert(game.players[i].name != game.players[j].name);
    }
}

/// Recorded answers are sound.
proof fn lemma_submission_is_sound(
    game: GameView,
    name: Seq<char>,
    answers: ResponsesView,
)
    requires
        sound(game),
        game.submit_responses(name, answers) is Ok,
    ensures
        sound(game.submit_responses(name, answers)->Ok_0),
{
    lemma_has_place(game, name);
    let k = game.place(name);
    let next = game.submit_responses(name, answers)->Ok_0;
    let n = game.players.len() as int;
    assert forall|i: int| 0 <= i < n implies {
        &&& (#[trigger] next.players[i]).name == game.players[i].name
        &&& next.players[i].partner == game.players[i].partner
        &&& next.players[i].prompt_set_id == game.players[i].prompt_set_id
        &&& i != k ==> next.players[i] == game.players[i]
    } by {}
    assert forall|i: int| 0 <= i < n implies (#[trigger] next.players[i]).partner == Some(
        next.players[(i + 1) % n].name,
    ) by {
        assert(0 <= (i + 1) % n < n);
        assert(next.players[(i + 1) % n].name == game.players[(i + 1) % n].name);
        assert(game.players[i].partner is Some);
    }
    assert(names_distinct(next)) by {
        assert forall|i: int, j: int| 0 <= i < j < n implies (#[trigger] next.players[i]).name != (
        #[trigger] next.players[j]).name by {
            assert(game.players[i].name != game.players[j].name);
        }
    }
    assert(answers_fit(next)) by {
        assert forall|i: int| 0 <= i < n && (#[trigger] next.players[i]).submitted() implies
            next.players[i].answers().items.len() == next.prompts_of(next.players[i]).len() by {
            assert(game::prompts_of(game.prompt_sets, next.players[i]) == game::prompts_of(
                game.prompt_sets,
                game.players[i],
            ));
            if i != k {
                assert(game.players[i].submitted());
            }
        }
    }
    assert(dealt(next)) by {
        assert forall|i: int| 0 <= i < n implies (#[trigger] next.players[i]).prompt_set_id
            == Some(next.prompt_sets[i % next.prompt_sets.len() as int].id) by {
            assert(game.players[i].prompt_set_id is Some);
        }
    }
}

/// A complete round stays sound in and after its performance, wherever on the deck
/// the carousel stands.
proof fn lemma_performance_is_sound(game: GameView, next: GameView)
    requires
        sound(game),
        game.phase != Phase::Lobby,
        game.all_submitted(),
        next.phase == Phase::Performing || next.phase == Phase::Archived,
        next.players == game.players,
        next.prompt_sets == game.prompt_sets,
        next.current_slide < game.deck().len(),
    ensures
        sound(next),
{
    assert(next.deck() == game.deck());
    assert(answers_fit(next)) by {
        assert forall|i: int| 0 <= i < next.players.len() && (
        #[trigger] next.players[i]).submitted() implies next.players[i].answers().items.len()
            == next.prompts_of(next.players[i]).len() by {
            assert(game.players[i].submitted());
        }
    }
}

/// The transition that an intent asks for.
pub open spec fn attempted(
    game: GameView,
    name: Option<Seq<char>>,
    intent: ClientMsgView,
) -> Result<GameView, TransitionErrorView> {
    match intent {
        ClientMsgView::JoinRoom { name: Some(joiner), .. } => game.add_player(joiner),
        ClientMsgView::JoinRoom { name: None, .. } => Ok(game),
        ClientMsgView::AddPlayer { name: added } => game.add_player(added),
        ClientMsgView::RemovePlayer { name: removed } => game.remove_player(removed),
        ClientMsgView::StartCollecting => game.start_collecting(),
        ClientMsgView::SubmitResponses { responses, signoff } => match name {
            Some(player) => game.submit_responses(
                player,
                ResponsesView { items: responses, signoff },
            ),
            None => Ok(game),
        },
        ClientMsgView::StartGame => game.start_game(),
        ClientMsgView::AdvanceSlide => game.advance_slide(),
        ClientMsgView::PrevSlide => game.prev_slide(),
        ClientMsgView::GotoSlide { index } => game.goto_slide(index),
        ClientMsgView::ArchiveRound => game.archive_round(),
        ClientMsgView::NewRound => game.new_round(),
        ClientMsgView::Ping => Ok(game),
    }
}

/// An intent leaves a room as it is, or takes it through the transition it asks for.
pub proof fn law_intents_act_through_transitions(
    game: GameView,
    host_token: Seq<char>,
    role: Role,
    name: Option<Seq<char>>,
    intent: ClientMsgView,
)
    ensures
        ({
            let next = room::react(game, host_token, role, name, intent).0;
            ||| next == game
            ||| attempted(game, name, intent) == Ok::<GameView, TransitionErrorView>(next)
        }),
{
}

/// The transition that an intent asks for leads from a sound state to a sound state.
proof fn lemma_transition_is_sound(
    game: GameView,
    name: Option<Seq<char>>,
    intent: ClientMsgView,
)
    requires
        sound(game),
        attempted(game, name, intent) is Ok,
    ensures
        sound(attempted(game, name, intent)->Ok_0),
{
    let next = attempted(game, name, intent)->Ok_0;
    match intent {
        ClientMsgView::JoinRoom { name: joiner, .. } => {
            if joiner is Some {
                lemma_add_is_sound(game, joiner->0);
            }
        },
        ClientMsgView::AddPlayer { name: added } => {
            lemma_add_is_sound(game, added);
        },
        ClientMsgView::RemovePlayer { name: removed } => {
            lemma_remove_is_sound(game, removed);
        },
        ClientMsgView::StartCollecting => {
            lemma_collecting_is_sound(game);
        },
        ClientMsgView::SubmitResponses { responses, signoff } => {
            if name is Some {
                lemma_submission_is_sound(
                    game,
                    name->0,
                    ResponsesView { items: responses, signoff },
                );
            }
        },
        ClientMsgView::NewRound => {
            law_reset_is_a_new_room(game);
        },
        ClientMsgView::Ping => {},
        _ => {
            lemma_performing_transitions(game, name, intent);
            lemma_performance_is_sound(game, next);
        },
    }
}

/// The transitions into, in and out of the performance touch the phase and the place
/// of the carousel alone, and keep the latter on the deck.
proof fn lemma_performing_transitions(
    game: GameView,
    name: Option<Seq<char>>,
    intent: ClientMsgView,
)
    requires
        intent is StartGame || intent is AdvanceSlide || intent is PrevSlide || intent is GotoSlide
            || intent is ArchiveRound,
        game.phase == Phase::Performing ==> game.all_submitted() && on_deck(game),
        attempted(game, name, intent) is Ok,
    ensures
        ({
            let next = attempted(game, name, intent)->Ok_0;
            &&& game.phase != Phase::Lobby
            &&& game.all_submitted()
            &&& next.phase == Phase::Performing || next.phase == Phase::Archived
            &&& next.players == game.players
            &&& next.prompt_sets == game.prompt_sets
            &&& next.current_slide < game.deck().len()
        }),
{
}

/// Whatever an intent is and whoever sends it, a sound room stays sound: names stay
/// distinct, the ring and the assignments stay in place once submissions are open,
/// every set of answers fits its prompts, and the carousel stays on the deck.
pub proof fn law_every_intent_keeps_the_room_sound(
    game: GameView,
    host_token: Seq<char>,
    role: Role,
    name: Option<Seq<char>>,
    intent: ClientMsgView,
)
    requires
        sound(game),
    ensures
        sound(room::react(game, host_token, role, name, intent).0),
{
    law_intents_act_through_transitions(game, host_token, role, name, intent);
    if attempted(game, name, intent) is Ok {
        lemma_transition_is_sound(game, name, intent);
    }
}

/// The state of a room after a list of commands.
pub open spec fn after_all(
    game: GameView,
    host_token: Seq<char>,
    commands: Seq<CommandView>,
) -> GameView
    decreases commands.len(),
{
    if commands.len() == 0 {
        game
    } else {
        let last = commands.last();
        room::react(
            after_all(game, host_token, commands.drop_last()),
            host_token,
            last.role,
            last.name,
            last.intent,
        ).0
    }
}

/// Every room is sound, whatever commands it was given since it was created.
pub proof fn law_every_reachable_room_is_sound(
    code: Seq<char>,
    prompt_sets: Seq<PromptSetView>,
    host_token: Seq<char>,
    commands: Seq<CommandView>,
)
    ensures
        sound(after_all(GameView::new(code, prompt_sets), host_token, commands)),
    decreases commands.len(),
{
    let fresh = GameView::new(code, prompt_sets);
    if commands.len() == 0 {
        law_new_room_is_sound(code, prompt_sets);
    } else {
        let last = commands.last();
        law_every_reachable_room_is_sound(code, prompt_sets, host_token, commands.drop_last());
        law_every_intent_keeps_the_room_sound(
            after_all(fresh, host_token, commands.drop_last()),
            host_token,
            last.role,
            last.name,
            last.intent,
        );
    }
}

/// Once submissions are open, everyone writes for exactly one player and everyone is
/// written for by exactly one player.
pub proof fn law_the_ring_pairs_everyone_once(game: GameView, j: int)
    requires
        sound(game),
        game.phase != Phase::Lobby,
        0 <= j < game.players.len(),
    ensures
        exists|i: int|
            0 <= i < game.players.len() && (#[trigger] game.players[i]).partner == Some(
                game.players[j].name,
            ),
        forall|i: int, k: int|
            0 <= i < game.players.len() && 0 <= k < game.players.len() && (
            #[trigger] game.players[i]).partner == Some(game.players[j].name) && (
            #[trigger] game.players[k]).partner == Some(game.players[j].name) ==> i == k,
{
    let n = game.players.len() as int;
    let i = if j == 0 {
        n - 1
    } else {
        j - 1
    };
    assert((i + 1) % n == j) by {
        if j == 0 {
            assert(n % n == 0) by (nonlinear_arith)
                requires
                    n > 0,
            ;
        } else {
            assert(j % n == j) by (nonlinear_arith)
                requires
                    0 <= j < n,
            ;
        }
    }
    assert(game.players[i].partner == Some(game.players[j].name));
    assert forall|i: int, k: int|
        0 <= i < n && 0 <= k < n && (#[trigger] game.players[i]).partner == Some(
            game.players[j].name,
        ) && (#[trigger] game.players[k]).partner == Some(game.players[j].name) implies i == k by {
        lemma_writer(game, j, i);
        lemma_writer(game, j, k);
    }
}

/// Who writes for player `j` stands just before them in the ring.
proof fn lemma_writer(game: GameView, j: int, i: int)
    requires
        names_distinct(game),
        ring(game),
        0 <= j < game.players.len(),
        0 <= i < game.players.len(),
        game.players[i].partner == Some(game.players[j].name),
    ensures
        i == if j == 0 {
            game.players.len() - 1
        } else {
            j - 1
        },
{
    let n = game.players.len() as int;
    let p = (i + 1) % n;
    assert(0 <= p < n);
    assert(game.players[p].name == game.players[j].name);
    assert(p == j);
    if i == n - 1 {
        assert(n % n == 0) by (nonlinear_arith)
            requires
                n > 0,
        ;
    } else {
        assert((i + 1) % n == i + 1) by (nonlinear_arith)
            requires
                0 <= i + 1 < n,
        ;
    }
}

/// Once submissions are open, every player's assignment leads to a prompt set.
pub proof fn law_every_assignment_has_its_prompt_set(game: GameView, i: int)
    requires
        sound(game),
        game.phase != Phase::Lobby,
        0 <= i < game.players.len(),
    ensures
        game.players[i].prompt_set_id is Some,
        game.prompt_set(game.players[i].prompt_set_id->0) is Some,
{
    let m = game.prompt_sets.len() as int;
    assert(0 <= i % m < m);
    assert(game.players[i].prompt_set_id is Some);
    lemma_set_is_found(game.prompt_sets, i % m);
}

/// A round that is performed or archived is complete: its entries name every player,
/// and every prompt has its answer.
pub proof fn law_kept_rounds_are_complete(game: GameView)
    requires
        sound(game),
        game.phase == Phase::Performing || game.phase == Phase::Archived,
    ensures
        game.round_entries().len() == game.players.len(),
        forall|i: int|
            0 <= i < game.players.len() ==> {
                let entry = #[trigger] game.round_entries()[i];
                &&& entry.name == game.players[i].name
                &&& entry.responses.len() == entry.prompts.len()
            },
{
    assert forall|i: int| 0 <= i < game.players.len() implies {
        let entry = #[trigger] game.round_entries()[i];
        &&& entry.name == game.players[i].name
        &&& entry.responses.len() == entry.prompts.len()
    } by {
        assert(game.players[i].submitted());
    }
}

} // verus!
