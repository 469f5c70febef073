//! What each transition does to the roster, the answers, the phase and the carousel.

use vstd::prelude::*;

use crate::game;
use crate::laws::soundness;
use crate::state::{
    ArchivedEntryView, GameView, Phase, PlayerView, PromptSetView, ResponsesView,
    TransitionError, TransitionErrorView,
};

verus! {

/// Does player `k` have the name, and nobody before them?
pub open spec fn is_first_named(players: Seq<PlayerView>, name: Seq<char>, k: int) -> bool {
    &&& 0 <= k < players.len()
    &&& players[k].name == name
    &&& forall|j: int| 0 <= j < k ==> (#[trigger] players[j]).name != name
}

/// Does nobody have the name?
pub open spec fn is_unknown(players: Seq<PlayerView>, name: Seq<char>) -> bool {
    forall|j: int| 0 <= j < players.len() ==> (#[trigger] players[j]).name != name
}

/// Are these the prompts that a player was given? They are those of the first set with the
/// player's set id; a player without a set of the catalog has none.
pub open spec fn given_prompts(
    sets: Seq<PromptSetView>,
    player: PlayerView,
    prompts: Seq<Seq<char>>,
) -> bool {
    ||| exists|s: int|
        {
            &&& 0 <= s < sets.len()
            &&& player.prompt_set_id == Some((#[trigger] sets[s]).id)
            &&& forall|t: int| 0 <= t < s ==> (#[trigger] sets[t]).id != sets[s].id
            &&& prompts == sets[s].prompts
        }
    ||| {
        &&& prompts.len() == 0
        &&& forall|s: int|
            0 <= s < sets.len() ==> player.prompt_set_id != Some((#[trigger] sets[s]).id)
    }
}

/// Every player was given one list of prompts and no other.
pub proof fn law_everyone_has_one_list_of_prompts(
    game: GameView,
    player: PlayerView,
    prompts: Seq<Seq<char>>,
)
    ensures
        given_prompts(game.prompt_sets, player, prompts) <==> game.prompts_of(player) == prompts,
{
    let sets = game.prompt_sets;
    if player.prompt_set_id is Some {
        let id = player.prompt_set_id->0;
        if exists|s: int| 0 <= s < sets.len() && (#[trigger] sets[s]).id == id {
            let s = choose|s: int| 0 <= s < sets.len() && (#[trigger] sets[s]).id == id;
            soundness::lemma_first_set(sets, id, s);
            let f = choose|f: int| game::is_set_place(sets, id, f);
            assert(game::is_set_place(sets, id, f));
            game::lemma_set_place(sets, id, f);
            assert(sets[f].id == id);
            assert(given_prompts(sets, player, sets[f].prompts));
            if given_prompts(sets, player, prompts) {
                let g = choose|g: int|
                    {
                        &&& 0 <= g < sets.len()
                        &&& player.prompt_set_id == Some((#[trigger] sets[g]).id)
                        &&& forall|t: int| 0 <= t < g ==> (#[trigger] sets[t]).id != sets[g].id
                        &&& prompts == sets[g].prompts
                    };
                assert(game::is_set_place(sets, id, g));
                game::lemma_set_place(sets, id, g);
            }
        } else {
            assert(game.prompts_of(player) =~= Seq::empty());
            assert(prompts.len() == 0 ==> prompts =~= Seq::empty());
        }
    } else {
        assert(prompts.len() == 0 ==> prompts =~= Seq::empty());
    }
}

/// A prompt set is looked up by its id: the first of the catalog that has it.
pub proof fn law_prompt_sets_are_found_by_id(game: GameView, id: i64, s: int)
    ensures
        0 <= s < game.prompt_sets.len() && game.prompt_sets[s].id == id && (forall|t: int|
            0 <= t < s ==> (#[trigger] game.prompt_sets[t]).id != id) ==> game.prompt_set(id)
            == Some(game.prompt_sets[s]),
        (forall|t: int|
            0 <= t < game.prompt_sets.len() ==> (#[trigger] game.prompt_sets[t]).id != id)
            ==> game.prompt_set(id) is None,
{
    if game::is_set_place(game.prompt_sets, id, s) {
        game::lemma_set_place(game.prompt_sets, id, s);
    }
}

/// A name is looked up by its first place on the roster.
pub proof fn law_names_are_found_on_the_roster(game: GameView, name: Seq<char>, k: int)
    ensures
        game.has_player(name) <==> !is_unknown(game.players, name),
        is_first_named(game.players, name, k) <==> game.is_place(name, k),
        is_first_named(game.players, name, k) ==> game.place(name) == k,
{
    if is_first_named(game.players, name, k) {
        game::lemma_place(game, name, k);
    }
}

/// A new room is an empty lobby: it has its code and its prompt sets, nobody on the
/// roster, and the carousel at the start.
pub proof fn law_a_new_room_is_an_empty_lobby(code: Seq<char>, sets: Seq<PromptSetView>)
    ensures
        ({
            let game = GameView::new(code, sets);
            &&& game.code == code
            &&& game.prompt_sets == sets
            &&& game.phase == Phase::Lobby
            &&& game.players.len() == 0
            &&& game.current_slide == 0
        }),
{
}

/// A fresh player has their name and nothing else.
pub proof fn law_a_fresh_player_has_a_name_alone(name: Seq<char>)
    ensures
        ({
            let player = PlayerView::new(name);
            &&& player.name == name
            &&& player.prompt_set_id is None
            &&& player.partner is None
            &&& player.responses is None
            &&& !player.submitted()
        }),
{
}

/// What a player has handed in is what was recorded for them; a player who has handed in
/// nothing has no answers and an empty sign-off.
pub proof fn law_answers_are_what_was_recorded(player: PlayerView)
    ensures
        player.submitted() <==> player.responses is Some,
        player.responses is Some ==> player.answers() == player.responses->0,
        player.responses is None ==> player.answers().items.len() == 0
            && player.answers().signoff.len() == 0,
        player.partner is Some ==> player.presenter() == player.partner->0,
        player.partner is None ==> player.presenter().len() == 0,
{
}

/// An added player stands at the end of the roster, fresh, and everything else stays; the
/// addition is refused outside the lobby and for a name that is taken, and only then.
pub proof fn law_an_addition_appends_one_player(game: GameView, name: Seq<char>)
    ensures
        game.phase != Phase::Lobby ==> game.add_player(name) == Err::<GameView, _>(
            TransitionErrorView::WrongPhase { phase: game.phase },
        ),
        game.phase == Phase::Lobby && !is_unknown(game.players, name) ==> game.add_player(name)
            == Err::<GameView, _>(TransitionErrorView::DuplicatePlayer(name)),
        game.phase == Phase::Lobby && is_unknown(game.players, name) ==> {
            &&& game.add_player(name) is Ok
            &&& game.add_player(name)->Ok_0 == (GameView {
                players: game.players + seq![
                    PlayerView { name, prompt_set_id: None, partner: None, responses: None },
                ],
                ..game
            })
        },
{
    if game.phase == Phase::Lobby && is_unknown(game.players, name) {
        assert(game.add_player(name)->Ok_0.players =~= game.players + seq![
            PlayerView { name, prompt_set_id: None, partner: None, responses: None },
        ]);
    }
}

/// A removal takes out the player of that name: the roster is what stood before them
/// followed by what stood behind them, and everything else stays.
pub proof fn law_a_removal_takes_out_the_named_player(game: GameView, name: Seq<char>, k: int)
    requires
        game.phase == Phase::Lobby,
        is_first_named(game.players, name, k),
    ensures
        game.remove_player(name) is Ok,
        game.remove_player(name)->Ok_0 == (GameView {
            players: game.players.take(k) + game.players.skip(k + 1),
            ..game
        }),
{
    game::lemma_place(game, name, k);
    assert(game.remove_player(name)->Ok_0.players =~= game.players.take(k) + game.players.skip(
        k + 1,
    ));
}

/// A removal is refused outside the lobby and for a name that nobody has.
pub proof fn law_a_removal_needs_the_lobby_and_the_name(game: GameView, name: Seq<char>)
    ensures
        game.phase != Phase::Lobby ==> game.remove_player(name) == Err::<GameView, _>(
            TransitionErrorView::WrongPhase { phase: game.phase },
        ),
        game.phase == Phase::Lobby && is_unknown(game.players, name) ==> game.remove_player(name)
            == Err::<GameView, _>(TransitionErrorView::UnknownPlayer(name)),
        game.phase == Phase::Lobby && !is_unknown(game.players, name) ==> game.remove_player(
            name,
        ) is Ok,
{
}

/// Where names are distinct, a removed name is gone: nobody on the roster has it any more,
/// and everyone else is still there.
pub proof fn law_a_removed_name_is_gone(game: GameView, name: Seq<char>)
    requires
        forall|i: int, j: int|
            0 <= i < j < game.players.len() ==> (#[trigger] game.players[i]).name != (
            #[trigger] game.players[j]).name,
        game.remove_player(name) is Ok,
    ensures
        is_unknown(game.remove_player(name)->Ok_0.players, name),
        game.remove_player(name)->Ok_0.players.len() == game.players.len() - 1,
        forall|i: int|
            0 <= i < game.players.len() && (#[trigger] game.players[i]).name != name
                ==> game.remove_player(name)->Ok_0.players.contains(game.players[i]),
{
    soundness::lemma_has_place(game, name);
    let k = game.place(name);
    let next = game.remove_player(name)->Ok_0;
    law_a_removal_takes_out_the_named_player(game, name, k);
    assert forall|j: int| 0 <= j < next.players.len() implies (#[trigger] next.players[j]).name
        != name by {
        if j < k {
            assert(next.players[j] == game.players[j]);
        } else {
            assert(next.players[j] == game.players[j + 1]);
            assert(game.players[k].name != game.players[j + 1].name);
        }
    }
    assert forall|i: int|
        0 <= i < game.players.len() && (#[trigger] game.players[i]).name
            != name implies next.players.contains(game.players[i]) by {
        if i < k {
            assert(next.players[i] == game.players[i]);
        } else {
            assert(next.players[i - 1] == game.players[i]);
        }
    }
}

/// A removal undoes an addition.
pub proof fn law_a_removal_undoes_an_addition(game: GameView, name: Seq<char>)
    requires
        game.add_player(name) is Ok,
    ensures
        game.add_player(name)->Ok_0.remove_player(name) == Ok::<GameView, TransitionErrorView>(
            game,
        ),
{
    let next = game.add_player(name)->Ok_0;
    let n = game.players.len() as int;
    law_an_addition_appends_one_player(game, name);
    assert forall|j: int| 0 <= j < n implies (#[trigger] next.players[j]).name != name by {
        assert(next.players[j] == game.players[j]);
    }
    assert(next.players[n].name == name);
    law_a_removal_takes_out_the_named_player(next, name, n);
    assert(next.players.take(n) + next.players.skip(n + 1) =~= game.players);
}

/// To open submissions keeps the roster, player by player, and gives everyone a partner and
/// a prompt set: each writes for the next and the last for the first, and the prompt sets
/// are dealt in catalog order, over and over. Nobody has answered yet.
pub proof fn law_submissions_open_for_the_whole_roster(game: GameView, i: int)
    requires
        game.phase == Phase::Lobby,
        game.prompt_sets.len() > 0,
        0 <= i < game.players.len(),
    ensures
        game.start_collecting() is Ok,
        ({
            let next = game.start_collecting()->Ok_0;
            let n = game.players.len() as int;
            let m = game.prompt_sets.len() as int;
            &&& next.code == game.code
            &&& next.phase == Phase::Collecting
            &&& next.prompt_sets == game.prompt_sets
            &&& next.current_slide == game.current_slide
            &&& next.players.len() == n
            &&& next.players[i].name == game.players[i].name
            &&& next.players[i].partner == Some(
                game.players[if i + 1 < n {
                    i + 1
                } else {
                    0
                }].name,
            )
            &&& i < m ==> next.players[i].prompt_set_id == Some(game.prompt_sets[i].id)
            &&& i >= m ==> next.players[i].prompt_set_id == next.players[i - m].prompt_set_id
            &&& next.players[i].responses is None
        }),
{
    let n = game.players.len() as int;
    let m = game.prompt_sets.len() as int;
    let next = game.start_collecting()->Ok_0;
    assert(next.players[i] == game.assigned(i));
    if i + 1 < n {
        assert((i + 1) % n == i + 1) by (nonlinear_arith)
            requires
                0 <= i + 1 < n,
        ;
    } else {
        assert(n % n == 0) by (nonlinear_arith)
            requires
                n > 0,
        ;
    }
    if i < m {
        assert(i % m == i) by (nonlinear_arith)
            requires
                0 <= i < m,
        ;
    } else {
        assert(next.players[i - m] == game.assigned(i - m));
        vstd::arithmetic::div_mod::lemma_mod_sub_multiples_vanish(i, m);
    }
}

/// Submissions open in the lobby alone, and only with a player and a prompt set.
pub proof fn law_submissions_open_in_a_ready_lobby(game: GameView)
    ensures
        game.phase != Phase::Lobby ==> game.start_collecting() == Err::<GameView, _>(
            TransitionErrorView::WrongPhase { phase: game.phase },
        ),
        game.phase == Phase::Lobby && game.players.len() == 0 ==> game.start_collecting()
            == Err::<GameView, _>(TransitionErrorView::NoPlayers),
        game.phase == Phase::Lobby && game.players.len() > 0 && game.prompt_sets.len() == 0
            ==> game.start_collecting() == Err::<GameView, _>(TransitionErrorView::NoPromptSets),
        game.phase == Phase::Lobby && game.players.len() > 0 && game.prompt_sets.len() > 0
            ==> game.start_collecting() is Ok,
{
}

/// A submission with one answer per prompt is recorded as it was sent, every answer in its
/// place, for the player who sent it; everyone else and everything else stays. One with
/// another number of answers is refused with both numbers.
pub proof fn law_a_submission_is_recorded_as_sent(
    game: GameView,
    name: Seq<char>,
    sent: ResponsesView,
    k: int,
    prompts: Seq<Seq<char>>,
)
    requires
        game.phase == Phase::Collecting,
        is_first_named(game.players, name, k),
        game.players[k].prompt_set_id is Some,
        given_prompts(game.prompt_sets, game.players[k], prompts),
    ensures
        sent.items.len() != prompts.len() ==> game.submit_responses(name, sent) == Err::<
            GameView,
            _,
        >(
            TransitionErrorView::ResponseCountMismatch {
                expected: prompts.len(),
                got: sent.items.len(),
            },
        ),
        sent.items.len() == prompts.len() ==> {
            let next = game.submit_responses(name, sent)->Ok_0;
            &&& game.submit_responses(name, sent) is Ok
            &&& next.code == game.code
            &&& next.phase == Phase::Collecting
            &&& next.prompt_sets == game.prompt_sets
            &&& next.current_slide == game.current_slide
            &&& next.players.len() == game.players.len()
            &&& next.players[k].name == name
            &&& next.players[k].prompt_set_id == game.players[k].prompt_set_id
            &&& next.players[k].partner == game.players[k].partner
            &&& next.players[k].responses is Some
            &&& next.players[k].responses->0.signoff == sent.signoff
            &&& next.players[k].responses->0.items.len() == sent.items.len()
            &&& forall|j: int|
                0 <= j < sent.items.len() ==> #[trigger] next.players[k].responses->0.items[j]
                    == sent.items[j]
            &&& forall|i: int|
                0 <= i < game.players.len() && i != k ==> #[trigger] next.players[i]
                    == game.players[i]
        },
{
    game::lemma_place(game, name, k);
    law_everyone_has_one_list_of_prompts(game, game.players[k], prompts);
}

/// A submission is refused while submissions are not open, for a name that nobody has, and
/// for a player without a prompt set.
pub proof fn law_a_submission_needs_an_assigned_player(
    game: GameView,
    name: Seq<char>,
    sent: ResponsesView,
    k: int,
)
    ensures
        game.phase != Phase::Collecting ==> game.submit_responses(name, sent) == Err::<GameView, _>(
            TransitionErrorView::WrongPhase { phase: game.phase },
        ),
        game.phase == Phase::Collecting && is_unknown(game.players, name)
            ==> game.submit_responses(name, sent) == Err::<GameView, _>(
            TransitionErrorView::UnknownPlayer(name),
        ),
        game.phase == Phase::Collecting && is_first_named(game.players, name, k)
            && game.players[k].prompt_set_id is None ==> game.submit_responses(name, sent) == Err::<
            GameView,
            _,
        >(TransitionErrorView::NoAssignment(name)),
{
    if is_first_named(game.players, name, k) {
        game::lemma_place(game, name, k);
    }
}

/// How many players are done is counted one by one.
pub proof fn law_players_are_counted_one_by_one(game: GameView, player: PlayerView)
    ensures
        game.players.len() == 0 ==> game.submitted_count() == 0,
        (GameView { players: game.players.push(player), ..game }).submitted_count()
            == game.submitted_count() + (if player.responses is Some {
            1nat
        } else {
            0nat
        }),
        game.all_submitted() <==> game.players.len() > 0 && forall|i: int|
            0 <= i < game.players.len() ==> (#[trigger] game.players[i]).responses is Some,
{
    reveal(Seq::filter);
    assert(game.players.push(player).drop_last() =~= game.players);
    if forall|i: int| 0 <= i < game.players.len() ==> (#[trigger] game.players[i]).responses is Some {
        assert forall|i: int| 0 <= i < game.players.len() implies (
        #[trigger] game.players[i]).submitted() by {
            assert(game.players[i].responses is Some);
        }
    }
    if game.all_submitted() {
        assert forall|i: int| 0 <= i < game.players.len() implies (
        #[trigger] game.players[i]).responses is Some by {
            assert(game.players[i].submitted());
        }
    }
}

/// The performance starts at the first slide with the roster and the answers as they are,
/// once everyone has handed in their answers; before that, and outside the phase, it is
/// refused.
pub proof fn law_the_performance_starts_at_the_first_slide(game: GameView)
    ensures
        game.phase != Phase::Collecting ==> game.start_game() == Err::<GameView, _>(
            TransitionErrorView::WrongPhase { phase: game.phase },
        ),
        game.phase == Phase::Collecting && (game.players.len() == 0 || exists|i: int|
            0 <= i < game.players.len() && (#[trigger] game.players[i]).responses is None)
            ==> game.start_game() == Err::<GameView, _>(TransitionErrorView::NotAllSubmitted),
        game.phase == Phase::Collecting && game.players.len() > 0 && (forall|i: int|
            0 <= i < game.players.len() ==> (#[trigger] game.players[i]).responses is Some) ==> {
            &&& game.start_game() is Ok
            &&& game.start_game()->Ok_0 == (GameView {
                phase: Phase::Performing,
                current_slide: 0,
                ..game
            })
        },
{
    law_players_are_counted_one_by_one(game, PlayerView::new(Seq::empty()));
    if exists|i: int| 0 <= i < game.players.len() && (
    #[trigger] game.players[i]).responses is None {
        let i = choose|i: int|
            0 <= i < game.players.len() && (#[trigger] game.players[i]).responses is None;
        assert(!(game.players[i].responses is Some));
    }
}

/// During the performance a step forward leads to the next slide, or stays on the last; a
/// step back leads to the slide before, or stays on the first; a jump leads to the slide it
/// names, if the deck has it. Nothing else changes.
pub proof fn law_moves_change_the_slide_alone(game: GameView, index: nat)
    requires
        game.phase == Phase::Performing,
    ensures
        game.advance_slide() is Ok,
        game.advance_slide()->Ok_0 == (GameView {
            current_slide: if game.current_slide >= game.deck().len() - 1 {
                game.current_slide
            } else {
                game.current_slide + 1
            },
            ..game
        }),
        game.prev_slide() is Ok,
        game.prev_slide()->Ok_0 == (GameView {
            current_slide: if game.current_slide == 0 {
                0
            } else {
                (game.current_slide - 1) as nat
            },
            ..game
        }),
        index < game.deck().len() ==> game.goto_slide(index) is Ok && game.goto_slide(index)->Ok_0
            == (GameView { current_slide: index, ..game }),
        index >= game.deck().len() ==> game.goto_slide(index) == Err::<GameView, _>(
            TransitionErrorView::SlideOutOfRange(index),
        ),
{
}

/// Outside the performance the carousel does not move.
pub proof fn law_the_carousel_moves_in_the_performance_alone(game: GameView, index: nat)
    requires
        game.phase != Phase::Performing,
    ensures
        game.advance_slide() == Err::<GameView, _>(
            TransitionErrorView::WrongPhase { phase: game.phase },
        ),
        game.prev_slide() == Err::<GameView, _>(
            TransitionErrorView::WrongPhase { phase: game.phase },
        ),
        game.goto_slide(index) == Err::<GameView, _>(
            TransitionErrorView::WrongPhase { phase: game.phase },
        ),
{
}

/// To archive ends the performance and changes nothing but the phase; a new round starts
/// from an archived one as a new room of the same code and prompt sets. Both are refused in
/// every other phase; a reset works in all of them.
pub proof fn law_rounds_end_in_the_archive(game: GameView)
    ensures
        game.phase == Phase::Performing ==> game.archive_round() is Ok
            && game.archive_round()->Ok_0 == (GameView { phase: Phase::Archived, ..game }),
        game.phase != Phase::Performing ==> game.archive_round() == Err::<GameView, _>(
            TransitionErrorView::WrongPhase { phase: game.phase },
        ),
        game.phase == Phase::Archived ==> game.new_round() is Ok && game.new_round()->Ok_0
            == game.reset(),
        game.phase != Phase::Archived ==> game.new_round() == Err::<GameView, _>(
            TransitionErrorView::WrongPhase { phase: game.phase },
        ),
        game.reset().code == game.code,
        game.reset().prompt_sets == game.prompt_sets,
        game.reset().phase == Phase::Lobby,
        game.reset().players.len() == 0,
        game.reset().current_slide == 0,
{
}

/// Is this what is to be kept of player `i`: the name, partner and set id, the prompts the
/// player was given, and the answers and sign-off that the player handed in?
pub open spec fn keeps_player(entry: ArchivedEntryView, game: GameView, i: int) -> bool {
    &&& entry.name == game.players[i].name
    &&& entry.partner == game.players[i].partner
    &&& entry.prompt_set_id == game.players[i].prompt_set_id
    &&& given_prompts(game.prompt_sets, game.players[i], entry.prompts)
    &&& match game.players[i].responses {
        Some(handed_in) => {
            &&& entry.responses == handed_in.items
            &&& entry.signoff == handed_in.signoff
        },
        None => {
            &&& entry.responses.len() == 0
            &&& entry.signoff.len() == 0
        },
    }
}

/// What is kept of a round is one entry per player, in roster order, each with the player's
/// own prompts, answers and sign-off.
pub proof fn law_every_player_is_kept_with_their_own_answers(game: GameView)
    ensures
        game.round_entries().len() == game.players.len(),
        forall|i: int|
            0 <= i < game.players.len() ==> keeps_player(
                #[trigger] game.round_entries()[i],
                game,
                i,
            ),
{
    assert forall|i: int| 0 <= i < game.players.len() implies keeps_player(
        #[trigger] game.round_entries()[i],
        game,
        i,
    ) by {
        law_everyone_has_one_list_of_prompts(
            game,
            game.players[i],
            game.prompts_of(game.players[i]),
        );
    }
}

/// A transition that succeeds leaves the next state behind; one that is refused returns its
/// reason and leaves the state as it was.
pub proof fn law_transitions_are_carried_out<T>(
    before: GameView,
    after: GameView,
    next: GameView,
    reason: TransitionErrorView,
    outcome: Result<T, TransitionError>,
)
    ensures
        game::carries_out(Ok(next), before, after, outcome) <==> outcome is Ok && after == next,
        game::carries_out(Err(reason), before, after, outcome) <==> outcome is Err
            && outcome->Err_0@ == reason && after == before,
{
}

} // verus!
