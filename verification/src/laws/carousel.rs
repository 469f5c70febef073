//! The slide deck and the moves through it.

use vstd::prelude::*;

use crate::state::{GameView, Phase, SlideView, TransitionErrorView};

verus! {

/// How many prompts the first `n` players answer, all together.
pub open spec fn prompt_count(game: GameView, n: nat) -> nat
    decreases n,
{
    if n == 0 {
        0
    } else {
        prompt_count(game, (n - 1) as nat) + game.prompts_of(game.players[n - 1]).len()
    }
}

/// The first `n` players have three slides each, and one per prompt.
proof fn lemma_segments_len(game: GameView, n: nat)
    requires
        n <= game.players.len(),
    ensures
        game.segments(n).len() == 3 * n + prompt_count(game, n),
    decreases n,
{
    if n > 0 {
        lemma_segments_len(game, (n - 1) as nat);
    }
}

/// The carousel has a rules slide, three slides and one per prompt for each player,
/// a credits slide and a blank one.
pub proof fn law_deck_length(game: GameView)
    ensures
        game.deck().len() == 1 + (3 * game.players.len() + prompt_count(
            game,
            game.players.len(),
        )) + 2,
{
    lemma_segments_len(game, game.players.len());
}

/// Where the slides of player `i` begin.
pub open spec fn segment_start(game: GameView, i: nat) -> nat {
    1 + game.segments(i).len()
}

/// The slides of an earlier player come before those of a later one.
proof fn lemma_segments_grow(game: GameView, i: nat, n: nat)
    requires
        i < n <= game.players.len(),
    ensures
        game.segments(i).len() + game.segment(i as int).len() <= game.segments(n).len(),
        forall|k: int|
            0 <= k < game.segment(i as int).len() ==> #[trigger] game.segment(i as int)[k]
                == game.segments(n)[game.segments(i).len() + k],
    decreases n,
{
    if i + 1 < n {
        lemma_segments_grow(game, i, (n - 1) as nat);
    }
}

/// Every player's slides stand in the deck in one piece, in roster order, and all of
/// them are performed by the player's partner; only the first player's intro is
/// marked as the first.
pub proof fn law_segments_are_performed_by_the_partner(game: GameView, i: nat, k: int)
    requires
        i < game.players.len(),
        0 <= k < 3 + game.prompts_of(game.players[i as int]).len(),
    ensures
        segment_start(game, i) + k + 2 < game.deck().len(),
        game.deck()[segment_start(game, i) + k] == game.segment(i as int)[k],
        game.deck()[segment_start(game, i) + k].performer() == Some(
            game.players[i as int].presenter(),
        ),
        k == 0 ==> game.deck()[segment_start(game, i) + k] == (SlideView::PresenterIntro {
            presenter: game.players[i as int].presenter(),
            teleprompter: game.players[i as int].name,
            first: i == 0,
        }),
{
    lemma_segments_grow(game, i, game.players.len());
    let slide = game.segment(i as int)[k];
    assert(slide.performer() == Some(game.players[i as int].presenter()));
}

/// While the carousel shows a player's slides, that player's partner controls it.
pub proof fn law_the_partner_controls_the_segment(game: GameView, i: nat, k: int)
    requires
        game.phase == Phase::Performing,
        i < game.players.len(),
        0 <= k < 3 + game.prompts_of(game.players[i as int]).len(),
        game.current_slide == segment_start(game, i) + k,
    ensures
        game.current_controller() == Some(game.players[i as int].presenter()),
{
    law_segments_are_performed_by_the_partner(game, i, k);
}

/// The rules open the carousel, the credits and a blank close it, and nobody but the
/// host controls those.
pub proof fn law_deck_frame(game: GameView)
    ensures
        game.deck().len() >= 3,
        game.deck()[0] == SlideView::Rules,
        game.deck()[game.deck().len() - 2] == SlideView::Credits,
        game.deck()[game.deck().len() - 1] == SlideView::Blank,
        game.current_slide == 0 || game.current_slide + 2 >= game.deck().len()
            ==> game.current_controller() is None,
{
}

/// The carousel after a number of forward moves.
pub open spec fn advanced(game: GameView, moves: nat) -> GameView
    decreases moves,
{
    if moves == 0 {
        game
    } else {
        match advanced(game, (moves - 1) as nat).advance_slide() {
            Ok(next) => next,
            Err(_) => game,
        }
    }
}

/// The carousel is bounded: however often it is advanced, it goes on slide by slide
/// and stops at the last one.
pub proof fn law_the_carousel_is_bounded(game: GameView, moves: nat)
    requires
        game.phase == Phase::Performing,
        game.current_slide < game.deck().len(),
    ensures
        advanced(game, moves) == (GameView {
            current_slide: if game.current_slide + moves < game.deck().len() {
                game.current_slide + moves
            } else {
                (game.deck().len() - 1) as nat
            },
            ..game
        }),
    decreases moves,
{
    if moves > 0 {
        law_the_carousel_is_bounded(game, (moves - 1) as nat);
        let before = advanced(game, (moves - 1) as nat);
        assert(before.deck() == game.deck());
    }
}

/// A step back undoes a step forward, except at the last slide, where there is no step
/// forward.
pub proof fn law_prev_undoes_advance(game: GameView)
    requires
        game.phase == Phase::Performing,
        game.current_slide + 1 < game.deck().len(),
    ensures
        game.advance_slide() is Ok,
        game.advance_slide()->Ok_0.prev_slide() == Ok::<GameView, TransitionErrorView>(game),
{
}

/// A step forward undoes a step back, except at the first slide, where there is no
/// step back.
pub proof fn law_advance_undoes_prev(game: GameView)
    requires
        game.phase == Phase::Performing,
        0 < game.current_slide < game.deck().len(),
    ensures
        game.prev_slide() is Ok,
        game.prev_slide()->Ok_0.advance_slide() == Ok::<GameView, TransitionErrorView>(game),
{
    let back = game.prev_slide()->Ok_0;
    assert(back.deck() == game.deck());
}

/// A jump leads to the slide it names, from wherever the carousel stood, and to none
/// past the deck.
pub proof fn law_goto_reaches_its_slide(game: GameView, from: nat, index: nat)
    requires
        game.phase == Phase::Performing,
    ensures
        (GameView { current_slide: from, ..game }).goto_slide(index) == game.goto_slide(index),
        game.goto_slide(index) is Ok <==> index < game.deck().len(),
        game.goto_slide(index) matches Ok(next) ==> next.current_slide == index,
{
    let moved = GameView { current_slide: from, ..game };
    assert(moved.deck() == game.deck());
}

} // verus!
