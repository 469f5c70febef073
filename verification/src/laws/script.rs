//! The carousel, slide by slide: what is read, by whom, and who may turn the page.

use vstd::prelude::*;

use crate::laws::transitions;
use crate::state::{GameView, Phase, PlayerView, SlideView};

verus! {

/// Is this the layout of the deck: the prompts of every player, and where each player's
/// slides start? The first start behind the rules; each player has an intro, a greeting,
/// one slide per prompt and a sign-off; the last place is where the credits stand.
pub open spec fn is_layout(
    game: GameView,
    prompts: Seq<Seq<Seq<char>>>,
    starts: Seq<int>,
) -> bool {
    let n = game.players.len();
    &&& prompts.len() == n
    &&& starts.len() == n + 1
    &&& starts[0] == 1
    &&& forall|i: int|
        0 <= i < n ==> transitions::given_prompts(
            game.prompt_sets,
            game.players[i],
            #[trigger] prompts[i],
        )
    &&& forall|i: int|
        0 <= i < n ==> starts[i + 1] == starts[i] + 3 + (#[trigger] prompts[i]).len()
}

/// Every game's deck has a layout.
pub proof fn law_every_deck_has_a_layout(game: GameView) -> (layout: (
    Seq<Seq<Seq<char>>>,
    Seq<int>,
))
    ensures
        is_layout(game, layout.0, layout.1),
{
    let n = game.players.len();
    let prompts = Seq::new(n, |i: int| game.prompts_of(game.players[i]));
    let starts = Seq::new(n + 1, |i: int| 1 + game.segments(i as nat).len() as int);
    assert forall|i: int| 0 <= i < n implies transitions::given_prompts(
        game.prompt_sets,
        game.players[i],
        #[trigger] prompts[i],
    ) by {
        transitions::law_everyone_has_one_list_of_prompts(game, game.players[i], prompts[i]);
    }
    assert forall|i: int| 0 <= i < n implies starts[i + 1] == starts[i] + 3 + (
    #[trigger] prompts[i]).len() by {}
    (prompts, starts)
}

/// Is the reader the partner that the player writes for?
pub open spec fn is_reader(player: PlayerView, reader: Seq<char>) -> bool {
    match player.partner {
        Some(partner) => reader == partner,
        None => reader.len() == 0,
    }
}

/// Is the line prompt `j` followed by the player's answer to it?
pub open spec fn is_line(
    player: PlayerView,
    prompts: Seq<Seq<char>>,
    j: int,
    line: Seq<char>,
) -> bool {
    match player.responses {
        Some(handed_in) => if j < handed_in.items.len() {
            line == prompts[j] + handed_in.items[j]
        } else {
            line == prompts[j]
        },
        None => line == prompts[j],
    }
}

/// Does the player sign off with these words?
pub open spec fn is_signoff(player: PlayerView, words: Seq<char>) -> bool {
    match player.responses {
        Some(handed_in) => words == handed_in.signoff,
        None => words.len() == 0,
    }
}

/// The first `m` players' slides end where the next player's start.
proof fn lemma_starts(
    game: GameView,
    prompts: Seq<Seq<Seq<char>>>,
    starts: Seq<int>,
    m: nat,
)
    requires
        is_layout(game, prompts, starts),
        m <= game.players.len(),
    ensures
        starts[m as int] == 1 + game.segments(m).len(),
    decreases m,
{
    if m > 0 {
        let i = m - 1;
        lemma_starts(game, prompts, starts, i as nat);
        assert(transitions::given_prompts(game.prompt_sets, game.players[i], prompts[i]));
        transitions::law_everyone_has_one_list_of_prompts(game, game.players[i], prompts[i]);
        assert(starts[i + 1] == starts[i] + 3 + prompts[i].len());
    }
}

/// A player's slides stand in one piece among those of the first `m` players.
proof fn lemma_piece(game: GameView, i: nat, m: nat, k: int)
    requires
        i < m <= game.players.len(),
        0 <= k < game.segment(i as int).len(),
    ensures
        game.segments(i).len() + game.segment(i as int).len() <= game.segments(m).len(),
        game.segments(m)[game.segments(i).len() + k] == game.segment(i as int)[k],
    decreases m,
{
    if i + 1 < m {
        lemma_piece(game, i, (m - 1) as nat, k);
    }
}

/// The carousel opens with the rules and closes with the credits and a blank.
pub proof fn law_the_deck_is_framed(
    game: GameView,
    prompts: Seq<Seq<Seq<char>>>,
    starts: Seq<int>,
)
    requires
        is_layout(game, prompts, starts),
    ensures
        ({
            let end = starts[game.players.len() as int];
            &&& game.deck().len() == end + 2
            &&& game.deck()[0] == SlideView::Rules
            &&& game.deck()[end] == SlideView::Credits
            &&& game.deck()[end + 1] == SlideView::Blank
        }),
{
    lemma_starts(game, prompts, starts, game.players.len());
}

/// Every player's part of the carousel is an intro that names reader and writer and marks
/// the first player, a greeting, and a sign-off, all by the reader.
pub proof fn law_every_player_is_introduced_and_signs_off(
    game: GameView,
    prompts: Seq<Seq<Seq<char>>>,
    starts: Seq<int>,
    i: int,
)
    requires
        is_layout(game, prompts, starts),
        0 <= i < game.players.len(),
    ensures
        1 <= starts[i] < starts[i + 1] <= game.deck().len() - 2,
        game.deck()[starts[i]] matches SlideView::PresenterIntro {
            presenter,
            teleprompter,
            first,
        } && is_reader(game.players[i], presenter) && teleprompter == game.players[i].name && first
            == (i == 0),
        game.deck()[starts[i] + 1] matches SlideView::Greeting { presenter } && is_reader(
            game.players[i],
            presenter,
        ),
        game.deck()[starts[i + 1] - 1] matches SlideView::Signoff { presenter, text } && is_reader(
            game.players[i],
            presenter,
        ) && is_signoff(game.players[i], text),
{
    let n = game.players.len();
    lemma_starts(game, prompts, starts, n);
    lemma_starts(game, prompts, starts, i as nat);
    lemma_starts(game, prompts, starts, (i + 1) as nat);
    assert(transitions::given_prompts(game.prompt_sets, game.players[i], prompts[i]));
    transitions::law_everyone_has_one_list_of_prompts(game, game.players[i], prompts[i]);
    let len = game.segment(i).len() as int;
    lemma_piece(game, i as nat, n, 0);
    lemma_piece(game, i as nat, n, 1);
    lemma_piece(game, i as nat, n, len - 1);
}

/// Every line of the script is a prompt followed by the answer that the player wrote for it,
/// in the order of the prompts, and the player's partner reads it.
pub proof fn law_the_script_pairs_prompts_and_answers(
    game: GameView,
    prompts: Seq<Seq<Seq<char>>>,
    starts: Seq<int>,
    i: int,
    j: int,
)
    requires
        is_layout(game, prompts, starts),
        0 <= i < game.players.len(),
        0 <= j < prompts[i].len(),
    ensures
        starts[i] + 2 + j < starts[i + 1] - 1,
        starts[i] + 2 + j < game.deck().len(),
        game.deck()[starts[i] + 2 + j] matches SlideView::Script { reader, text } && is_reader(
            game.players[i],
            reader,
        ) && is_line(game.players[i], prompts[i], j, text),
{
    let n = game.players.len();
    law_every_player_is_introduced_and_signs_off(game, prompts, starts, i);
    lemma_starts(game, prompts, starts, i as nat);
    transitions::law_everyone_has_one_list_of_prompts(game, game.players[i], prompts[i]);
    assert(prompts[i].len() == game.prompts_of(game.players[i]).len());
    lemma_piece(game, i as nat, n, 2 + j);
    assert(game.segment(i)[2 + j] is Script);
    let text = game.segment(i)[2 + j]->Script_text;
    assert(prompts[i][j] + Seq::<char>::empty() =~= prompts[i][j]);
}

/// A place on the carousel shows the slide of the deck that stands there.
pub proof fn law_a_place_shows_its_slide(game: GameView, index: nat)
    ensures
        index < game.deck().len() ==> game.slide_at(index) == Some(game.deck()[index as int]),
        index >= game.deck().len() ==> game.slide_at(index) is None,
{
}

/// On the rules, the credits and the blank, behind the deck, and outside the performance,
/// nobody but the host controls the carousel.
pub proof fn law_the_host_turns_the_other_pages(
    game: GameView,
    prompts: Seq<Seq<Seq<char>>>,
    starts: Seq<int>,
)
    requires
        is_layout(game, prompts, starts),
        game.phase != Phase::Performing || game.current_slide == 0 || game.current_slide
            >= starts[game.players.len() as int],
    ensures
        game.current_controller() is None,
{
    law_the_deck_is_framed(game, prompts, starts);
}

/// During the performance the reader of a player's slides controls the carousel on all of
/// them.
pub proof fn law_the_reader_turns_the_page(
    game: GameView,
    prompts: Seq<Seq<Seq<char>>>,
    starts: Seq<int>,
    i: int,
)
    requires
        is_layout(game, prompts, starts),
        0 <= i < game.players.len(),
    ensures
        game.phase == Phase::Performing && starts[i] <= game.current_slide < starts[i + 1]
            ==> game.current_controller() is Some && is_reader(
            game.players[i],
            game.current_controller()->0,
        ),
{
    law_the_deck_is_framed(game, prompts, starts);
    law_every_player_is_introduced_and_signs_off(game, prompts, starts, i);
    assert(starts[i + 1] == starts[i] + 3 + prompts[i].len());
    let j = game.current_slide - starts[i] - 2;
    if 0 <= j < prompts[i].len() {
        law_the_script_pairs_prompts_and_answers(game, prompts, starts, i, j);
    }
}

} // verus!
